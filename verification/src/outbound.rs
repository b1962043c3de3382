//! The outbound side of the relay: the exact URL and JSON body of each call
//! to the remote messaging API, and the classification of its HTTP outcome.
//! The relay frames these bodies itself, so their whole content is pinned
//! down here; the HTTPS transport that carries them is outside the library.

use vstd::prelude::*;
use vstd::string::*;
use vstd::utf8::encode_utf8;
use crate::decimal::{dec_int, dec_nat, format_i64};
use crate::escape::{json_escape, json_escape_bytes};

verus! {

/// The remote API's formatting-mode tag for a message.
#[derive(Clone, Copy, PartialEq, Eq, Structural, Debug)]
pub enum ParseMode {
    Markdown,
    Html,
}

impl ParseMode {
    /// The exact tag string the remote API expects.
    pub open spec fn tag_spec(self) -> Seq<char> {
        match self {
            ParseMode::Markdown => "MarkdownV2"@,
            ParseMode::Html => "HTML"@,
        }
    }

    /// Executable tag string.
    pub fn tag(&self) -> (r: &'static str)
        ensures
            r@ == self.tag_spec(),
    {
        match self {
            ParseMode::Markdown => "MarkdownV2",
            ParseMode::Html => "HTML",
        }
    }
}

/// What one call to the remote API returned, as the transport saw it.
pub enum RemoteOutcome {
    /// A 2xx acknowledgment.
    Delivered,
    /// A response with a non-2xx status and its body text.
    Rejected { status: u16, body: Vec<u8> },
    /// No HTTP response at all (DNS, TLS, timeout, ...), with a description.
    Transport { detail: Vec<u8> },
}

/// The send endpoint URL derived from the bot credential.
pub open spec fn send_url(token: Seq<char>) -> Seq<char> {
    "https://api.telegram.org/bot"@ + token + "/sendMessage"@
}

/// The update-feed endpoint URL derived from the bot credential.
pub open spec fn poll_url(token: Seq<char>) -> Seq<char> {
    "https://api.telegram.org/bot"@ + token + "/getUpdates"@
}

/// The JSON tail of a send body: closing the text, plus the optional
/// `parse_mode` member.
pub open spec fn send_body_tail(mode: Option<ParseMode>) -> Seq<u8> {
    match mode {
        Some(m) => encode_utf8("\",\"parse_mode\":\""@) + encode_utf8(m.tag_spec()) + encode_utf8(
            "\"}"@,
        ),
        None => encode_utf8("\"}"@),
    }
}

/// The whole JSON body of a send call: `{"chat_id":N,"text":"..."}` with
/// the text JSON-escaped, and `"parse_mode":"..."` appended when a
/// formatting mode was requested.
pub open spec fn send_body(chat_id: int, text: Seq<char>, mode: Option<ParseMode>) -> Seq<u8> {
    encode_utf8("{\"chat_id\":"@) + dec_int(chat_id) + encode_utf8(",\"text\":\""@) + json_escape(
        encode_utf8(text),
    ) + send_body_tail(mode)
}

/// The JSON body of a long-poll call: a generous wait window, and the
/// cursor when one is held.
pub open spec fn poll_body(offset: Option<i64>) -> Seq<u8> {
    match offset {
        None => encode_utf8("{\"timeout\":30}"@),
        Some(o) => encode_utf8("{\"timeout\":30,\"offset\":"@) + dec_int(o as int) + encode_utf8(
            "}"@,
        ),
    }
}

/// Build the send endpoint URL.
pub fn build_send_url(token: &str) -> (r: String)
    ensures
        r@ == send_url(token@),
{
    let mut u = String::from_str("https://api.telegram.org/bot");
    u.append(token);
    u.append("/sendMessage");
    proof {
        assert(u@ =~= send_url(token@));
    }
    u
}

/// Build the update-feed endpoint URL.
pub fn build_poll_url(token: &str) -> (r: String)
    ensures
        r@ == poll_url(token@),
{
    let mut u = String::from_str("https://api.telegram.org/bot");
    u.append(token);
    u.append("/getUpdates");
    proof {
        assert(u@ =~= poll_url(token@));
    }
    u
}

/// Build the JSON body of a send call.
pub fn build_send_body(chat_id: i64, text: &str, mode: Option<ParseMode>) -> (r: Vec<u8>)
    ensures
        r@ == send_body(chat_id as int, text@, mode),
{
    let mut out: Vec<u8> = "{\"chat_id\":".as_bytes_vec();
    let mut num = format_i64(chat_id);
    out.append(&mut num);
    let mut mid = ",\"text\":\"".as_bytes_vec();
    out.append(&mut mid);
    let text_bytes = text.as_bytes_vec();
    let mut esc = json_escape_bytes(&text_bytes);
    out.append(&mut esc);
    match mode {
        Some(m) => {
            let mut a = "\",\"parse_mode\":\"".as_bytes_vec();
            out.append(&mut a);
            let mut t = m.tag().as_bytes_vec();
            out.append(&mut t);
            let mut z = "\"}".as_bytes_vec();
            out.append(&mut z);
        },
        None => {
            let mut z = "\"}".as_bytes_vec();
            out.append(&mut z);
        },
    }
    proof {
        assert(out@ =~= send_body(chat_id as int, text@, mode));
    }
    out
}

/// Build the JSON body of a long-poll call.
pub fn build_poll_body(offset: Option<i64>) -> (r: Vec<u8>)
    ensures
        r@ == poll_body(offset),
{
    match offset {
        None => "{\"timeout\":30}".as_bytes_vec(),
        Some(o) => {
            let mut out: Vec<u8> = "{\"timeout\":30,\"offset\":".as_bytes_vec();
            let mut num = format_i64(o);
            out.append(&mut num);
            let mut z = "}".as_bytes_vec();
            out.append(&mut z);
            proof {
                assert(out@ =~= poll_body(offset));
            }
            out
        },
    }
}

/// Any 2xx status is a successful acknowledgment.
pub open spec fn is_success_status(status: u16) -> bool {
    200 <= status && status < 300
}

/// Classify the HTTP response of a send call.
pub fn outcome_of_status(status: u16, body: Vec<u8>) -> (o: RemoteOutcome)
    ensures
        is_success_status(status) ==> o == RemoteOutcome::Delivered,
        !is_success_status(status) ==> (o matches RemoteOutcome::Rejected { status: s, body: b }
            && s == status && b@ == body@),
{
    if 200 <= status && status < 300 {
        RemoteOutcome::Delivered
    } else {
        RemoteOutcome::Rejected { status, body }
    }
}

} // verus!
