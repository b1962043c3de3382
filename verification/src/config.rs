//! The config record: a small JSON object holding the listen address, the
//! bot credential, the target username and, once resolved, the chat
//! identifier.  The library renders the record byte for byte (two-space
//! pretty printing, stable key order); reading, parsing and writing the
//! file is the caller's concern.

use vstd::prelude::*;
use vstd::string::*;
use vstd::utf8::encode_utf8;
use crate::decimal::{dec_int, format_i64};
use crate::escape::{json_escape, json_escape_bytes};

verus! {

/// The persistent configuration record.
pub struct Config {
    /// `host:port` the relay listens on.
    pub listen_addr: String,
    /// The bot credential the endpoint URLs embed.
    pub bot_token: String,
    /// The username whose first message resolves the chat.
    pub target_username: String,
    /// The resolved chat identifier; absent until resolution completes.
    pub chat_id: Option<i64>,
}

/// The rendered config document, byte for byte.
pub open spec fn config_json(
    listen: Seq<char>,
    token: Seq<char>,
    user: Seq<char>,
    chat: Option<i64>,
) -> Seq<u8> {
    encode_utf8("{\n  \"listen_addr\": \""@) + json_escape(encode_utf8(listen)) + encode_utf8(
        "\",\n  \"telegram_bot_token\": \""@,
    ) + json_escape(encode_utf8(token)) + encode_utf8("\",\n  \"telegram_username\": \""@)
        + json_escape(encode_utf8(user)) + encode_utf8("\",\n  \"telegram_chat_id\": "@) + (
    match chat {
        Some(c) => dec_int(c as int),
        None => encode_utf8("null"@),
    }) + encode_utf8("\n}"@)
}

/// Render the config record as its JSON document.
pub fn render_config(c: &Config) -> (r: Vec<u8>)
    ensures
        r@ == config_json(c.listen_addr@, c.bot_token@, c.target_username@, c.chat_id),
{
    let mut out: Vec<u8> = "{\n  \"listen_addr\": \"".as_bytes_vec();
    let lb = c.listen_addr.as_str().as_bytes_vec();
    let mut e = json_escape_bytes(&lb);
    out.append(&mut e);
    let mut s = "\",\n  \"telegram_bot_token\": \"".as_bytes_vec();
    out.append(&mut s);
    let tb = c.bot_token.as_str().as_bytes_vec();
    let mut e2 = json_escape_bytes(&tb);
    out.append(&mut e2);
    let mut s2 = "\",\n  \"telegram_username\": \"".as_bytes_vec();
    out.append(&mut s2);
    let ub = c.target_username.as_str().as_bytes_vec();
    let mut e3 = json_escape_bytes(&ub);
    out.append(&mut e3);
    let mut s3 = "\",\n  \"telegram_chat_id\": ".as_bytes_vec();
    out.append(&mut s3);
    match c.chat_id {
        Some(id) => {
            let mut n = format_i64(id);
            out.append(&mut n);
        },
        None => {
            let mut n = "null".as_bytes_vec();
            out.append(&mut n);
        },
    }
    let mut tail = "\n}".as_bytes_vec();
    out.append(&mut tail);
    proof {
        assert(out@ =~= config_json(c.listen_addr@, c.bot_token@, c.target_username@, c.chat_id));
    }
    out
}

} // verus!
