//! The request-translation layer: dispatch by method and path, content
//! negotiation, normalization of the body into the outbound message text,
//! the formatting-hint mapping, and the exact JSON envelope of every
//! response the relay gives.

use vstd::prelude::*;
use vstd::string::*;
use vstd::utf8::{decode_utf8, encode_utf8, valid_utf8};
use crate::ascii::{
    eq_ignore_ascii_case, starts_with, str_eq, str_eq_ignore_ascii_case, str_starts_with,
};
use crate::decimal::{dec_nat, format_u64};
use crate::escape::{json_escape, json_escape_bytes};
use crate::outbound::{ParseMode, RemoteOutcome};
use crate::unicode::utf8_text;

verus! {

/// One inbound HTTP request, reduced to what the relay reads.
pub struct InboundRequest {
    /// The request method, upper-case as HTTP sends it.
    pub method: String,
    /// The request path.
    pub path: String,
    /// The `Content-Type` header value, when present and readable.
    pub content_type: Option<String>,
    /// The formatting-hint header value, when present and readable.
    pub format_hint: Option<String>,
    /// The raw body bytes.
    pub body: Vec<u8>,
}

/// One HTTP response of the relay.
pub struct Response {
    pub status: u16,
    pub body: Vec<u8>,
}

/// What the relay decides to do with an inbound request: answer at once,
/// or forward a normalized message and answer from the remote outcome.
pub enum Plan {
    Respond(Response),
    Forward { text: String, mode: Option<ParseMode> },
}

pub open spec fn is_health(req: InboundRequest) -> bool {
    req.method@ == "GET"@ && req.path@ == "/health"@
}

pub open spec fn is_post_root(req: InboundRequest) -> bool {
    req.method@ == "POST"@ && req.path@ == "/"@
}

/// The request declares a JSON body.
pub open spec fn is_json_request(req: InboundRequest) -> bool {
    match req.content_type {
        Some(ct) => starts_with(ct@, "application/json"@),
        None => false,
    }
}

/// The formatting mode a hint header selects: "markdown" and "html" in any
/// ASCII case are recognized; anything else, or no header, means none.
pub open spec fn mode_of_hint(h: Option<String>) -> Option<ParseMode> {
    match h {
        Some(s) => if eq_ignore_ascii_case(s@, "markdown"@) {
            Some(ParseMode::Markdown)
        } else if eq_ignore_ascii_case(s@, "html"@) {
            Some(ParseMode::Html)
        } else {
            None
        },
        None => None,
    }
}

pub open spec fn health_envelope() -> Seq<u8> {
    encode_utf8("{\"status\":\"ok\"}"@)
}

pub open spec fn sent_envelope() -> Seq<u8> {
    encode_utf8("{\"status\":\"sent\"}"@)
}

pub open spec fn not_found_envelope() -> Seq<u8> {
    encode_utf8("{\"error\":\"not found\"}"@)
}

pub open spec fn invalid_json_envelope() -> Seq<u8> {
    encode_utf8("{\"error\":\"invalid JSON\"}"@)
}

pub open spec fn invalid_utf8_envelope() -> Seq<u8> {
    encode_utf8("{\"error\":\"invalid UTF-8 in request body\"}"@)
}

pub open spec fn empty_body_envelope() -> Seq<u8> {
    encode_utf8("{\"error\":\"empty body\"}"@)
}

/// The 502 envelope carrying the remote's error detail, JSON-escaped.
pub open spec fn gateway_envelope(detail: Seq<u8>) -> Seq<u8> {
    encode_utf8("{\"error\":\"telegram send failed: "@) + json_escape(detail) + encode_utf8(
        "\"}"@,
    )
}

/// The detail recorded for a non-2xx remote response.
pub open spec fn rejected_detail(status: u16, body: Seq<u8>) -> Seq<u8> {
    encode_utf8("Telegram API error "@) + dec_nat(status as nat) + encode_utf8(": "@) + body
}

/// Map a formatting-hint header to the formatting mode.
pub fn hint_mode(h: &Option<String>) -> (m: Option<ParseMode>)
    ensures
        m == mode_of_hint(*h),
{
    match h {
        Some(s) => {
            if str_eq_ignore_ascii_case(s.as_str(), "markdown") {
                Some(ParseMode::Markdown)
            } else if str_eq_ignore_ascii_case(s.as_str(), "html") {
                Some(ParseMode::Html)
            } else {
                None
            }
        },
        None => None,
    }
}

/// Decide what to do with an inbound request.
///
/// `GET /health` always answers ok; an unknown route answers not-found; a
/// `POST /` is normalized: a JSON body must hold a string member `message`
/// (anything else is a client error, and nothing is forwarded), any other
/// body is its UTF-8 text (rejected when invalid or empty).  The forwarded
/// text is exactly the member, or exactly the decoded body.
///
/// The caller hands in `json_message`: the string its JSON parser found at
/// the `message` member of the body, `None` when the body is no JSON
/// object holding a string there.  It is read only when the request
/// declares a JSON body; every decision taken on it is pinned down here.
pub fn plan_request(req: &InboundRequest, json_message: Option<String>) -> (p: Plan)
    ensures
        is_health(*req) ==> (p matches Plan::Respond(r) && r.status == 200 && r.body@
            == health_envelope()),
        !is_health(*req) && !is_post_root(*req) ==> (p matches Plan::Respond(r) && r.status == 404
            && r.body@ == not_found_envelope()),
        is_post_root(*req) && is_json_request(*req) && json_message is None ==> (p
            matches Plan::Respond(r) && r.status == 400 && r.body@ == invalid_json_envelope()),
        is_post_root(*req) && is_json_request(*req) && json_message is Some ==> (p
            matches Plan::Forward { text, mode } && text == json_message->0 && mode
            == mode_of_hint(req.format_hint)),
        is_post_root(*req) && !is_json_request(*req) && !valid_utf8(req.body@) ==> (p
            matches Plan::Respond(r) && r.status == 400 && r.body@ == invalid_utf8_envelope()),
        is_post_root(*req) && !is_json_request(*req) && valid_utf8(req.body@) && req.body@.len()
            == 0 ==> (p matches Plan::Respond(r) && r.status == 400 && r.body@
            == empty_body_envelope()),
        is_post_root(*req) && !is_json_request(*req) && valid_utf8(req.body@) && req.body@.len()
            > 0 ==> (p matches Plan::Forward { text, mode } && text@ == decode_utf8(req.body@)
            && mode == mode_of_hint(req.format_hint)),
{
    broadcast use vstd::string::group_string_axioms;

    if str_eq(req.method.as_str(), "GET") && str_eq(req.path.as_str(), "/health") {
        proof {
            reveal_strlit("GET");
            reveal_strlit("POST");
            assert("GET"@.len() == 3);
            assert("POST"@.len() == 4);
            assert("GET"@ != "POST"@);
        }
        return Plan::Respond(
            Response { status: 200, body: "{\"status\":\"ok\"}".as_bytes_vec() },
        );
    }
    if str_eq(req.method.as_str(), "POST") && str_eq(req.path.as_str(), "/") {
        let is_json = match &req.content_type {
            Some(ct) => str_starts_with(ct.as_str(), "application/json"),
            None => false,
        };
        if is_json {
            match json_message {
                Some(text) => Plan::Forward { text, mode: hint_mode(&req.format_hint) },
                None => Plan::Respond(
                    Response { status: 400, body: "{\"error\":\"invalid JSON\"}".as_bytes_vec() },
                ),
            }
        } else {
            match utf8_text(&req.body) {
                Some(text) => {
                    if req.body.len() == 0 {
                        Plan::Respond(
                            Response {
                                status: 400,
                                body: "{\"error\":\"empty body\"}".as_bytes_vec(),
                            },
                        )
                    } else {
                        Plan::Forward { text, mode: hint_mode(&req.format_hint) }
                    }
                },
                None => Plan::Respond(
                    Response {
                        status: 400,
                        body: "{\"error\":\"invalid UTF-8 in request body\"}".as_bytes_vec(),
                    },
                ),
            }
        }
    } else {
        Plan::Respond(Response { status: 404, body: "{\"error\":\"not found\"}".as_bytes_vec() })
    }
}

/// Build the 502 response around an error detail.
fn gateway_response(detail: &Vec<u8>) -> (r: Response)
    ensures
        r.status == 502,
        r.body@ == gateway_envelope(detail@),
{
    let mut out: Vec<u8> = "{\"error\":\"telegram send failed: ".as_bytes_vec();
    let mut e = json_escape_bytes(detail);
    out.append(&mut e);
    let mut z = "\"}".as_bytes_vec();
    out.append(&mut z);
    proof {
        assert(out@ =~= gateway_envelope(detail@));
    }
    Response { status: 502, body: out }
}

/// Map the remote outcome of a forwarded message to the relay's response:
/// delivery gives ok with the success envelope; any remote failure gives
/// bad-gateway carrying the remote's detail, and is never retried.
pub fn response_for_outcome(o: &RemoteOutcome) -> (r: Response)
    ensures
        *o == RemoteOutcome::Delivered ==> r.status == 200 && r.body@ == sent_envelope(),
        *o matches RemoteOutcome::Rejected { status, body } ==> r.status == 502 && r.body@
            == gateway_envelope(rejected_detail(status, body@)),
        *o matches RemoteOutcome::Transport { detail } ==> r.status == 502 && r.body@
            == gateway_envelope(detail@),
{
    match o {
        RemoteOutcome::Delivered => Response {
            status: 200,
            body: "{\"status\":\"sent\"}".as_bytes_vec(),
        },
        RemoteOutcome::Rejected { status, body } => {
            let mut d = "Telegram API error ".as_bytes_vec();
            let mut n = format_u64(*status as u64);
            d.append(&mut n);
            let mut c = ": ".as_bytes_vec();
            d.append(&mut c);
            d.extend_from_slice(body.as_slice());
            proof {
                assert(d@ =~= rejected_detail(*status, body@));
            }
            gateway_response(&d)
        },
        RemoteOutcome::Transport { detail } => gateway_response(detail),
    }
}

/// Formatting-hint round trip: "markdown" in any ASCII case selects the
/// MarkdownV2 tag, "html" the HTML tag, and any other or absent hint
/// selects no tag at all.
pub proof fn lemma_format_hint_round_trip(h: String)
    ensures
        eq_ignore_ascii_case(h@, "markdown"@) ==> mode_of_hint(Some(h))
            == Some(ParseMode::Markdown) && mode_of_hint(Some(h))->0.tag_spec() == "MarkdownV2"@,
        eq_ignore_ascii_case(h@, "html"@) ==> mode_of_hint(Some(h)) == Some(ParseMode::Html)
            && mode_of_hint(Some(h))->0.tag_spec() == "HTML"@,
        !eq_ignore_ascii_case(h@, "markdown"@) && !eq_ignore_ascii_case(h@, "html"@)
            ==> mode_of_hint(Some(h)) is None,
        mode_of_hint(Option::<String>::None) is None,
{
    if eq_ignore_ascii_case(h@, "markdown"@) && eq_ignore_ascii_case(h@, "html"@) {
        reveal_strlit("markdown");
        reveal_strlit("html");
        assert(false);
    }
}

} // verus!
