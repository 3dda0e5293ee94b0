//! The remote transcription client's decisions: the guard on the upload,
//! the bounded retry on rate limiting, and the reading of the answer.
//!
//! The caller sends the request and sleeps; what to do after each answer is
//! decided here.

use crate::error::PipelineError;
use crate::text::{is_blank, option_view, parse_u64, parsed_u64, str_is_blank};
use crate::transcribe::{finish_transcript, finished, text_view};
use vstd::prelude::*;
use vstd::string::*;

verus! {

/// Uploads shorter than this many bytes are taken to hold no speech.
pub const MIN_UPLOAD_BYTES: usize = 1000;

/// How many times a rate-limited request is sent again.
pub const MAX_RETRIES: u32 = 3;

/// The status with which the service limits the rate of requests.
pub const STATUS_TOO_MANY_REQUESTS: u16 = 429;

/// The JSON member that holds the transcript.
pub open spec fn text_member() -> Seq<char> {
    "text"@
}

/// A status in the success class, 200 to 299.
pub open spec fn is_success_status(status: u16) -> bool {
    200 <= status < 300
}

/// Seconds to wait before retry number `retries + 1` when the service names
/// no delay: 2, 4, 8, and so on.
pub open spec fn backoff(retries: nat) -> nat
    decreases retries,
{
    if retries == 0 {
        2
    } else {
        2 * backoff((retries - 1) as nat)
    }
}

/// Seconds to wait before the next attempt: what the `Retry-After` header
/// says where it is present and a number, else the backoff.
pub open spec fn retry_delay(retries: nat, retry_after: Option<Seq<char>>) -> nat {
    match retry_after {
        Some(h) => match parsed_u64(h) {
            Some(secs) => secs as nat,
            None => backoff(retries),
        },
        None => backoff(retries),
    }
}

/// What to do with an answer, by its status line and headers alone.
#[derive(Clone, Copy, Debug, PartialEq, Eq, Structural)]
pub enum StatusDecision {
    /// Drop the answer, wait this many seconds and send again.
    Retry { delay_secs: u64 },
    /// Read the body and conclude.
    ReadBody,
}

/// The decision on an answer with `status` after `retries` retries: a
/// rate-limited answer is retried while retries are left.
pub open spec fn status_decision(
    retries: nat,
    status: u16,
    retry_after: Option<Seq<char>>,
) -> StatusDecision {
    if status == STATUS_TOO_MANY_REQUESTS && retries < MAX_RETRIES {
        StatusDecision::Retry { delay_secs: retry_delay(retries, retry_after) as u64 }
    } else {
        StatusDecision::ReadBody
    }
}

/// How many requests are sent when the service answers with `statuses`, in
/// this order, after `retries` retries were already made.
pub open spec fn attempts_from(statuses: Seq<u16>, retries: nat) -> nat
    decreases statuses.len(),
{
    if statuses.len() == 0 {
        0
    } else if status_decision(retries, statuses[0], None) is Retry {
        1 + attempts_from(statuses.drop_first(), retries + 1)
    } else {
        1
    }
}

/// How many requests one call sends when the service answers with
/// `statuses`, in this order.
pub open spec fn attempts_made(statuses: Seq<u16>) -> nat {
    attempts_from(statuses, 0)
}

/// A header value, seen as a sequence of characters.
pub open spec fn header_view(h: Option<&str>) -> Option<Seq<char>> {
    match h {
        Some(s) => Some(s@),
        None => None,
    }
}

/// What `serde_json::from_str` makes of `body`, seen through the member
/// `key`: `None` where the parser refuses `body`, which it does with text
/// that is no JSON and with JSON beyond its limits; else `Some(None)` where
/// the document is no object, has no member `key`, or that member is no
/// string; else the member's string.
pub uninterp spec fn json_member(body: Seq<char>, key: Seq<char>) -> Option<Option<Seq<char>>>;

/// `serde_json::Error`, the parser's complaint. Nothing is known of it but
/// that it can be shown as text.
#[verifier::external_type_specification]
#[verifier::external_body]
pub struct ExJsonError(serde_json::Error);

/// Parses `body` with `serde_json::from_str` into a `serde_json::Value` and
/// reads the string member `key` with `Value::get` and `Value::as_str`. The
/// outcome depends on `body` and `key` alone, and is the parser's error
/// exactly where the parser refuses `body`.
#[verifier::external_body]
fn read_json_member(body: &str, key: &str) -> (r: Result<Option<String>, serde_json::Error>)
    ensures
        match r {
            Ok(m) => json_member(body@, key@) == Some(option_view(m)),
            Err(_) => json_member(body@, key@) is None,
        },
{
    let doc: serde_json::Value = serde_json::from_str(body)?;
    Ok(doc.get(key).and_then(|member| member.as_str()).map(|s| s.to_string()))
}

/// The transcript that comes of the `text` member of an answer, once the
/// body has been parsed: `field` is the parser's complaint, or the member if
/// there is one.
pub open spec fn field_transcript(field: Result<Option<String>, String>) -> Result<
    Seq<char>,
    PipelineError,
> {
    match field {
        Err(detail) => Err(PipelineError::InvalidJson(detail)),
        Ok(None) => Err(PipelineError::MissingTextField),
        Ok(Some(t)) => finished(t@, PipelineError::EmptyText),
    }
}

/// `r` is the transcript that comes of a success answer's body: a blank
/// body, a body that the JSON parser refuses, a document without a string
/// member `text` and a blank `text` are four different errors.
pub open spec fn is_body_outcome(body: Seq<char>, r: Result<String, PipelineError>) -> bool {
    if is_blank(body) {
        r == Err::<String, PipelineError>(PipelineError::EmptyResponse)
    } else {
        match json_member(body, text_member()) {
            None => r matches Err(PipelineError::InvalidJson(_)),
            Some(None) => r == Err::<String, PipelineError>(PipelineError::MissingTextField),
            Some(Some(t)) => text_view(r) == finished(t, PipelineError::EmptyText),
        }
    }
}

/// Rejects an upload that is too small to hold speech.
pub fn check_upload_size(audio_len: usize) -> (r: Result<(), PipelineError>)
    ensures
        r == if audio_len < MIN_UPLOAD_BYTES {
            Err::<(), PipelineError>(PipelineError::UploadTooSmall)
        } else {
            Ok(())
        },
{
    if audio_len < MIN_UPLOAD_BYTES {
        Err(PipelineError::UploadTooSmall)
    } else {
        Ok(())
    }
}

/// Whether `status` is in the success class.
pub fn is_success(status: u16) -> (r: bool)
    ensures
        r == is_success_status(status),
{
    200 <= status && status < 300
}

/// Without a delay named by the service, the three retries wait 2, 4 and 8
/// seconds.
pub proof fn lemma_backoff_values(retries: nat)
    requires
        retries < MAX_RETRIES,
    ensures
        backoff(retries) == if retries == 0 {
            2nat
        } else if retries == 1 {
            4nat
        } else {
            8nat
        },
{
    reveal_with_fuel(backoff, 4);
}

/// Seconds to wait before retry number `retries + 1` when the service names
/// no delay.
pub fn backoff_secs(retries: u32) -> (r: u64)
    requires
        retries < MAX_RETRIES,
    ensures
        r == backoff(retries as nat),
{
    proof {
        lemma_backoff_values(retries as nat);
    }
    if retries == 0 {
        2
    } else if retries == 1 {
        4
    } else {
        8
    }
}

/// One call to the remote service: how many retries it has taken so far.
pub struct RemoteCall {
    retries: u32,
}

impl RemoteCall {
    #[verifier::type_invariant]
    spec fn within_bound(self) -> bool {
        self.retries <= MAX_RETRIES
    }

    /// Retries taken so far.
    pub closed spec fn retries(self) -> nat {
        self.retries as nat
    }

    /// Requests sent so far, once the first one is out.
    pub open spec fn attempts(self) -> nat {
        self.retries() + 1
    }

    /// A call that has not been retried yet.
    pub fn new() -> (c: Self)
        ensures
            c.retries() == 0,
    {
        RemoteCall { retries: 0 }
    }

    /// Retries taken so far.
    pub fn retries_taken(&self) -> (n: u32)
        ensures
            n == self.retries(),
            n <= MAX_RETRIES,
    {
        proof {
            use_type_invariant(self);
        }
        self.retries
    }

    /// Decides on an answer by its status and its `Retry-After` header, and
    /// counts the retry if it is one.
    pub fn on_status(&mut self, status: u16, retry_after: Option<&str>) -> (d: StatusDecision)
        ensures
            d == status_decision(old(self).retries(), status, header_view(retry_after)),
            final(self).retries() == old(self).retries() + if d is Retry {
                1nat
            } else {
                0nat
            },
            final(self).retries() <= MAX_RETRIES,
    {
        proof {
            use_type_invariant(&*self);
        }
        if status == STATUS_TOO_MANY_REQUESTS && self.retries < MAX_RETRIES {
            let fallback = backoff_secs(self.retries);
            let delay_secs: u64 = match retry_after {
                Some(h) => match parse_u64(h) {
                    Some(secs) => secs,
                    None => fallback,
                },
                None => fallback,
            };
            self.retries = self.retries + 1;
            StatusDecision::Retry { delay_secs }
        } else {
            StatusDecision::ReadBody
        }
    }
}

/// The transcript that comes of the `text` member of a parsed answer.
pub fn transcript_from_field(field: Result<Option<String>, String>) -> (r: Result<
    String,
    PipelineError,
>)
    ensures
        text_view(r) == field_transcript(field),
{
    match field {
        Err(detail) => Err(PipelineError::InvalidJson(detail)),
        Ok(None) => Err(PipelineError::MissingTextField),
        Ok(Some(t)) => finish_transcript(t.as_str(), PipelineError::EmptyText),
    }
}

/// The transcript that comes of a success answer's body.
pub fn transcript_from_body(body: &str) -> (r: Result<String, PipelineError>)
    ensures
        is_body_outcome(body@, r),
{
    if str_is_blank(body) {
        return Err(PipelineError::EmptyResponse);
    }
    let field: Result<Option<String>, String> = match read_json_member(body, "text") {
        Ok(m) => Ok(m),
        Err(e) => Err(e.to_string()),
    };
    transcript_from_field(field)
}

/// Concludes a call from the status and the body of its last answer. The
/// body is what was read, or why it could not be read.
pub fn conclude(status: u16, body: Result<String, String>) -> (r: Result<String, PipelineError>)
    ensures
        !is_success_status(status) ==> match body {
            Ok(b) => r == Err::<String, PipelineError>(
                PipelineError::RemoteService { status, body: b },
            ),
            Err(_) => r matches Err(PipelineError::RemoteService { status: s, body: b }) && s
                == status && b@ == "Unknown error"@,
        },
        is_success_status(status) ==> match body {
            Ok(b) => is_body_outcome(b@, r),
            Err(e) => r matches Err(PipelineError::Network(m)) && m@
                == "Failed to read response: "@ + e@,
        },
{
    if !is_success(status) {
        let detail = match body {
            Ok(b) => b,
            Err(_) => "Unknown error".to_string(),
        };
        return Err(PipelineError::RemoteService { status, body: detail });
    }
    match body {
        Ok(b) => transcript_from_body(b.as_str()),
        Err(e) => Err(
            PipelineError::Network("Failed to read response: ".to_string().concat(e.as_str())),
        ),
    }
}

/// No call retries more than `MAX_RETRIES` times: whatever the service
/// answers, at most `MAX_RETRIES + 1` requests are sent.
pub proof fn lemma_attempts_bounded(statuses: Seq<u16>, retries: nat)
    requires
        retries <= MAX_RETRIES,
    ensures
        attempts_from(statuses, retries) + retries <= MAX_RETRIES + 1,
    decreases statuses.len(),
{
    if statuses.len() > 0 && status_decision(retries, statuses[0], None) is Retry {
        lemma_attempts_bounded(statuses.drop_first(), retries + 1);
    }
}

/// A service that limits the rate on every answer is asked exactly four
/// times, one request and three retries, and the fourth answer ends the call:
/// it is not retried, and its status is no success.
pub proof fn lemma_attempts_when_rate_limited(statuses: Seq<u16>)
    requires
        statuses.len() >= MAX_RETRIES + 1,
        forall|i: int| 0 <= i < statuses.len() ==> statuses[i] == STATUS_TOO_MANY_REQUESTS,
    ensures
        attempts_made(statuses) == MAX_RETRIES + 1,
        forall|h: Option<Seq<char>>|
            #[trigger] status_decision(MAX_RETRIES as nat, STATUS_TOO_MANY_REQUESTS, h)
                == StatusDecision::ReadBody,
        !is_success_status(STATUS_TOO_MANY_REQUESTS),
{
    let s1 = statuses.drop_first();
    let s2 = s1.drop_first();
    let s3 = s2.drop_first();
    assert(s1[0] == statuses[1]);
    assert(s2[0] == s1[1]);
    assert(s3[0] == s2[1]);
    assert(attempts_from(s3, 3) == 1);
    assert(attempts_from(s2, 2) == 2);
    assert(attempts_from(s1, 1) == 3);
}

/// The header `Retry-After: 1` makes the client wait one second before it
/// sends again, whichever retry it is.
pub proof fn lemma_retry_after_one(retries: nat)
    ensures
        retry_delay(retries, Some("1"@)) == 1,
{
    reveal_strlit("1");
    let s = "1"@;
    assert(s.len() == 1 && s[0] == '1');
    reveal_with_fuel(crate::text::decimal_value, 2);
    assert(s.drop_last().len() == 0);
    assert(crate::text::decimal_value(s) == 1);
    assert(crate::text::without_plus(s) == s);
    assert(crate::text::all_digits(s));
}

} // verus!
