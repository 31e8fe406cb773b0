use vstd::prelude::*;

use crate::lookup::LookupOutcome;

verus! {

/// Everything an upstream fetch can come to. `RequestFailed` covers a
/// network failure, a timeout, and a non-2xx status alike; `BodyFailed` is
/// the distinct class where the response headers arrived but the body broke
/// while it was being buffered.
pub enum FetchOutcome {
    RequestFailed,
    BodyFailed,
    Success(Vec<u8>),
}

/// A reply body: fixed JSON text for the error outcomes, the relayed audio
/// bytes on success.
pub enum ReplyBody {
    Text(String),
    Bytes(Vec<u8>),
}

/// One terminal HTTP reply: status code, content type, body. Emitting it
/// ends the request; nothing is retried or escalated.
pub struct HttpReply {
    pub status: u16,
    pub content_type: String,
    pub body: ReplyBody,
}

/// What the request needs next: either its terminal reply, or an upstream
/// fetch of the given URL whose outcome then decides the reply.
pub enum Step {
    Reply(HttpReply),
    Fetch(String),
}

pub open spec fn json_content_type() -> Seq<char> {
    "application/json"@
}

pub open spec fn audio_content_type() -> Seq<char> {
    "audio/mpeg"@
}

pub open spec fn not_found_text() -> Seq<char> {
    "{\"error\":\"Audio not found\"}"@
}

pub open spec fn fetch_failed_text() -> Seq<char> {
    "{\"error\":\"Error occured while fetching audio\"}"@
}

pub open spec fn buffering_failed_text() -> Seq<char> {
    "{\"error\":\"Error occured while buffering\"}"@
}

/// The 400 reply sent when no record answers for the identifier — whether
/// the row is absent or the datastore itself failed.
pub open spec fn is_not_found_reply(r: HttpReply) -> bool {
    &&& r.status == 400
    &&& r.content_type@ == json_content_type()
    &&& r.body matches ReplyBody::Text(t) && t@ == not_found_text()
}

/// The 500 reply sent when the upstream request could not be completed.
pub open spec fn is_fetch_failed_reply(r: HttpReply) -> bool {
    &&& r.status == 500
    &&& r.content_type@ == json_content_type()
    &&& r.body matches ReplyBody::Text(t) && t@ == fetch_failed_text()
}

/// The 500 reply sent when the upstream body broke while being buffered.
pub open spec fn is_buffering_failed_reply(r: HttpReply) -> bool {
    &&& r.status == 500
    &&& r.content_type@ == json_content_type()
    &&& r.body matches ReplyBody::Text(t) && t@ == buffering_failed_text()
}

/// The 200 reply that relays a fully buffered upstream body, byte for byte.
pub open spec fn is_audio_reply(r: HttpReply, bytes: Seq<u8>) -> bool {
    &&& r.status == 200
    &&& r.content_type@ == audio_content_type()
    &&& r.body matches ReplyBody::Bytes(b) && b@ == bytes
}

/// Builds one of the fixed JSON error replies.
fn json_error_reply(status: u16, text: &str) -> (r: HttpReply)
    ensures
        r.status == status,
        r.content_type@ == json_content_type(),
        r.body matches ReplyBody::Text(t) && t@ == text@,
{
    HttpReply {
        status,
        content_type: "application/json".to_owned(),
        body: ReplyBody::Text(text.to_owned()),
    }
}

/// Decides the step after the datastore lookup.
///
/// A found record moves the request on to fetching its stored URL. An
/// absent record and a datastore fault both end in the same 400 reply: the
/// two fault classes are deliberately collapsed so that no internal failure
/// detail reaches the caller.
pub fn handle_lookup(outcome: LookupOutcome) -> (s: Step)
    ensures
        outcome matches LookupOutcome::Found(rec) ==> (s matches Step::Fetch(url)
            && url@ == rec.audio_url@),
        !(outcome is Found) ==> (s matches Step::Reply(r) && is_not_found_reply(r)),
{
    match outcome {
        LookupOutcome::Found(rec) => Step::Fetch(rec.audio_url),
        LookupOutcome::NotFound => Step::Reply(
            json_error_reply(400, "{\"error\":\"Audio not found\"}"),
        ),
        LookupOutcome::DatastoreError => Step::Reply(
            json_error_reply(400, "{\"error\":\"Audio not found\"}"),
        ),
    }
}

/// Decides the terminal reply from the upstream fetch outcome.
///
/// A request that could not be completed is a 500 fetch error; a body that
/// broke while being buffered is a 500 buffering error; a fully read body
/// is relayed unchanged as audio.
pub fn handle_fetch(outcome: FetchOutcome) -> (r: HttpReply)
    ensures
        outcome is RequestFailed ==> is_fetch_failed_reply(r),
        outcome is BodyFailed ==> is_buffering_failed_reply(r),
        outcome matches FetchOutcome::Success(bytes) ==> is_audio_reply(r, bytes@),
{
    match outcome {
        FetchOutcome::RequestFailed => json_error_reply(
            500,
            "{\"error\":\"Error occured while fetching audio\"}",
        ),
        FetchOutcome::BodyFailed => json_error_reply(
            500,
            "{\"error\":\"Error occured while buffering\"}",
        ),
        FetchOutcome::Success(bytes) => HttpReply {
            status: 200,
            content_type: "audio/mpeg".to_owned(),
            body: ReplyBody::Bytes(bytes),
        },
    }
}

/// Whether an upstream status code counts as success. Any non-2xx status is
/// classified like an unreachable upstream: the fetch outcome becomes
/// `RequestFailed`.
pub fn status_is_success(status: u16) -> (b: bool)
    ensures
        b == (200 <= status && status < 300),
{
    200 <= status && status < 300
}

} // verus!
