//! Choice of the transcription backend, and the last step that both backends
//! share: from the raw text of a backend to the transcript that is pasted.

use crate::error::PipelineError;
use crate::filter::{is_filler, is_filler_text, normalized};
use crate::text::{lemma_trim_idempotent, str_eq, to_lowercase, trim, trimmed};
use vstd::prelude::*;
use vstd::string::*;

verus! {

/// The two interchangeable backends.
#[derive(Clone, Copy, Debug, PartialEq, Eq, Structural)]
pub enum Backend {
    /// The speech service reached over HTTP.
    Remote,
    /// The model that runs in this process.
    Local,
}

/// What one transcription call is to do: exactly one backend, with all that
/// it needs.
#[derive(Clone, Debug, PartialEq, Eq)]
pub enum BackendPlan {
    /// Run the on-device model at this path. Nothing is sent anywhere.
    Local { model_path: String },
    /// Upload to this endpoint with this key. No model is loaded.
    Remote { endpoint: String, api_key: String },
}

/// A result with the text of its `Ok` seen as a sequence of characters.
pub open spec fn text_view(r: Result<String, PipelineError>) -> Result<Seq<char>, PipelineError> {
    match r {
        Ok(s) => Ok(s@),
        Err(e) => Err(e),
    }
}

/// The backend that a configured source names: `local` is the on-device
/// model, anything else the remote service.
pub open spec fn backend_of(source: Seq<char>) -> Backend {
    if source == "local"@ {
        Backend::Local
    } else {
        Backend::Remote
    }
}

/// A credential is usable when it is set and not empty.
pub open spec fn credential_of(value: Option<String>) -> Result<String, PipelineError> {
    match value {
        Some(v) => if v@.len() > 0 {
            Ok(v)
        } else {
            Err(PipelineError::MissingCredential)
        },
        None => Err(PipelineError::MissingCredential),
    }
}

/// The plan for a call: the local backend needs a model path, the remote one
/// an endpoint and a key, looked at in that order.
pub open spec fn plan_of(
    source: Seq<char>,
    endpoint: Option<String>,
    api_key: Option<String>,
    local_model_path: Option<String>,
) -> Result<BackendPlan, PipelineError> {
    match backend_of(source) {
        Backend::Local => match local_model_path {
            Some(p) => Ok(BackendPlan::Local { model_path: p }),
            None => Err(PipelineError::MissingModelPath),
        },
        Backend::Remote => match credential_of(endpoint) {
            Err(e) => Err(e),
            Ok(ep) => match credential_of(api_key) {
                Err(e) => Err(e),
                Ok(key) => Ok(BackendPlan::Remote { endpoint: ep, api_key: key }),
            },
        },
    }
}

/// The transcript that comes of a backend's raw text: blank text is the
/// error `on_empty`, filler is the empty transcript, anything else is the
/// text, trimmed.
pub open spec fn finished(raw: Seq<char>, on_empty: PipelineError) -> Result<
    Seq<char>,
    PipelineError,
> {
    if trimmed(raw).len() == 0 {
        Err(on_empty)
    } else if is_filler(normalized(raw)) {
        Ok(Seq::empty())
    } else {
        Ok(trimmed(raw))
    }
}

/// The backend that a configured source names.
pub fn select_backend(source: &str) -> (b: Backend)
    ensures
        b == backend_of(source@),
{
    if str_eq(source, "local") {
        Backend::Local
    } else {
        Backend::Remote
    }
}

/// A credential as configured, or the error that it is not set.
pub fn resolve_credential(pre_resolved: Option<String>) -> (r: Result<String, PipelineError>)
    ensures
        r == credential_of(pre_resolved),
{
    match pre_resolved {
        Some(v) => {
            if v.as_str().unicode_len() > 0 {
                Ok(v)
            } else {
                Err(PipelineError::MissingCredential)
            }
        },
        None => Err(PipelineError::MissingCredential),
    }
}

/// Decides which backend serves a call and with what, or why none can.
pub fn transcribe_impl(
    source: &str,
    endpoint: Option<String>,
    api_key: Option<String>,
    local_model_path: Option<String>,
) -> (r: Result<BackendPlan, PipelineError>)
    ensures
        r == plan_of(source@, endpoint, api_key, local_model_path),
{
    match select_backend(source) {
        Backend::Local => match local_model_path {
            Some(p) => Ok(BackendPlan::Local { model_path: p }),
            None => Err(PipelineError::MissingModelPath),
        },
        Backend::Remote => {
            let ep = match resolve_credential(endpoint) {
                Ok(v) => v,
                Err(e) => {
                    return Err(e);
                },
            };
            let key = match resolve_credential(api_key) {
                Ok(v) => v,
                Err(e) => {
                    return Err(e);
                },
            };
            Ok(BackendPlan::Remote { endpoint: ep, api_key: key })
        },
    }
}

/// Turns the raw text of a backend into the transcript.
pub fn finish_transcript(raw: &str, on_empty: PipelineError) -> (r: Result<String, PipelineError>)
    ensures
        text_view(r) == finished(raw@, on_empty),
{
    let t = trim(raw);
    if t.unicode_len() == 0 {
        return Err(on_empty);
    }
    let lower = to_lowercase(t);
    if is_filler_text(lower.as_str()) {
        Ok(String::new())
    } else {
        Ok(t.to_string())
    }
}

/// Classifying the trimmed text and classifying the raw text come to the
/// same: the filter trims for itself.
pub proof fn lemma_filter_sees_trimmed(raw: Seq<char>)
    ensures
        normalized(trimmed(raw)) == normalized(raw),
{
    lemma_trim_idempotent(raw);
}

/// No transcript that is returned is filler that went through unfiltered, and
/// none is only white space: what comes out is empty or is speech, trimmed.
pub proof fn lemma_finished_is_empty_or_speech(raw: Seq<char>, on_empty: PipelineError)
    ensures
        match finished(raw, on_empty) {
            Ok(t) => t.len() == 0 || (t == trimmed(raw) && trimmed(t) == t && !is_filler(
                normalized(t),
            )),
            Err(e) => e == on_empty && trimmed(raw).len() == 0,
        },
{
    lemma_trim_idempotent(raw);
}

} // verus!
