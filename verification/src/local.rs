//! The on-device backend's decisions: when a model is loaded, when the one
//! in memory is used again, and what becomes of the model's output.
//!
//! The worker that owns the model context keeps a `ModelCache` beside it:
//! the cache knows the path that the context was loaded from, and at most one.

use crate::error::PipelineError;
use crate::text::str_eq;
use crate::transcribe::{finish_transcript, finished, text_view};
use vstd::prelude::*;
use vstd::string::*;

verus! {

/// Recordings with fewer samples than this are taken to hold no speech.
pub const MIN_LOCAL_SAMPLES: usize = 1600;

/// How an attempt to load a model ended.
#[derive(Clone, Debug, PartialEq, Eq)]
pub enum LoadOutcome {
    /// The context was created.
    Loaded,
    /// There is no file at the path.
    NotFound,
    /// The file is there and could not be loaded.
    Failed(String),
}

/// The path of the model whose context is in memory, if any.
pub struct ModelCache {
    loaded_path: Option<String>,
}

/// The cache after a request for `model_path` whose load, if one is needed,
/// succeeds.
pub open spec fn after_request(loaded: Option<Seq<char>>, model_path: Seq<char>) -> Option<
    Seq<char>,
> {
    Some(model_path)
}

/// Whether a request for `model_path` has to load a model.
pub open spec fn load_needed(loaded: Option<Seq<char>>, model_path: Seq<char>) -> bool {
    loaded != Some(model_path)
}

/// How many loads a run of requests causes, one request after the other, when
/// every load succeeds.
pub open spec fn loads_for(loaded: Option<Seq<char>>, requests: Seq<Seq<char>>) -> nat
    decreases requests.len(),
{
    if requests.len() == 0 {
        0
    } else {
        (if load_needed(loaded, requests[0]) {
            1nat
        } else {
            0nat
        }) + loads_for(after_request(loaded, requests[0]), requests.drop_first())
    }
}

/// The cache after a run of requests when every load succeeds.
pub open spec fn cache_after(loaded: Option<Seq<char>>, requests: Seq<Seq<char>>) -> Option<
    Seq<char>,
>
    decreases requests.len(),
{
    if requests.len() == 0 {
        loaded
    } else {
        cache_after(after_request(loaded, requests[0]), requests.drop_first())
    }
}

/// The text of a run of segments, one after the other.
pub open spec fn joined(segments: Seq<String>) -> Seq<char>
    decreases segments.len(),
{
    if segments.len() == 0 {
        Seq::empty()
    } else {
        joined(segments.drop_last()) + segments.last()@
    }
}

/// The number of worker threads for the model's forward pass: all the
/// parallelism that the machine reports, and one where it reports none.
pub open spec fn threads_for(available: Option<usize>) -> int {
    match available {
        Some(n) => if n >= 1 {
            n as int
        } else {
            1
        },
        None => 1,
    }
}

impl ModelCache {
    /// The path that the context in memory was loaded from.
    pub closed spec fn loaded(self) -> Option<Seq<char>> {
        match self.loaded_path {
            Some(p) => Some(p@),
            None => None,
        }
    }

    /// A cache with no model in memory.
    pub fn new() -> (c: Self)
        ensures
            c.loaded() is None,
    {
        ModelCache { loaded_path: None }
    }

    /// Whether a request for `model_path` has to load a model: it has unless
    /// that very path is the one in memory.
    pub fn needs_load(&self, model_path: &str) -> (r: bool)
        ensures
            r == load_needed(self.loaded(), model_path@),
    {
        match &self.loaded_path {
            Some(p) => !str_eq(p.as_str(), model_path),
            None => true,
        }
    }

    /// Takes note of how the load for `model_path` ended. A context that was
    /// created replaces the one in memory; a failed load leaves the cache as
    /// it was and is the request's error.
    pub fn on_load(&mut self, model_path: String, outcome: LoadOutcome) -> (r: Result<
        (),
        PipelineError,
    >)
        ensures
            match outcome {
                LoadOutcome::Loaded => r is Ok && final(self).loaded() == Some(model_path@),
                LoadOutcome::NotFound => r == Err::<(), PipelineError>(
                    PipelineError::ModelNotFound(model_path),
                ) && final(self).loaded() == old(self).loaded(),
                LoadOutcome::Failed(detail) => r == Err::<(), PipelineError>(
                    PipelineError::ModelLoad(detail),
                ) && final(self).loaded() == old(self).loaded(),
            },
    {
        match outcome {
            LoadOutcome::Loaded => {
                self.loaded_path = Some(model_path);
                Ok(())
            },
            LoadOutcome::NotFound => Err(PipelineError::ModelNotFound(model_path)),
            LoadOutcome::Failed(detail) => Err(PipelineError::ModelLoad(detail)),
        }
    }
}

/// Rejects a recording that is too short to hold speech.
pub fn check_sample_count(samples: usize) -> (r: Result<(), PipelineError>)
    ensures
        r == if samples < MIN_LOCAL_SAMPLES {
            Err::<(), PipelineError>(PipelineError::AudioTooShort)
        } else {
            Ok(())
        },
{
    if samples < MIN_LOCAL_SAMPLES {
        Err(PipelineError::AudioTooShort)
    } else {
        Ok(())
    }
}

/// The number of worker threads for the model's forward pass.
pub fn inference_threads(available: Option<usize>) -> (n: i32)
    ensures
        n == threads_for(available) as i32,
{
    let count: usize = match available {
        Some(n) => if n >= 1 {
            n
        } else {
            1
        },
        None => 1,
    };
    #[verifier::truncate]
    (count as i32)
}

/// The transcript that comes of the model's segments: their texts joined,
/// then finished as any backend's raw text is.
pub fn transcript_from_segments(segments: &Vec<String>) -> (r: Result<String, PipelineError>)
    ensures
        text_view(r) == finished(joined(segments@), PipelineError::NoLocalText),
{
    let mut text = String::new();
    let mut i: usize = 0;
    while i < segments.len()
        invariant
            i <= segments@.len(),
            text@ == joined(segments@.take(i as int)),
        decreases segments@.len() - i,
    {
        text.append(segments[i].as_str());
        proof {
            assert(segments@.take(i + 1).drop_last() =~= segments@.take(i as int));
            assert(segments@.take(i + 1).last() == segments@[i as int]);
        }
        i += 1;
    }
    assert(segments@.take(i as int) =~= segments@);
    finish_transcript(text.as_str(), PipelineError::NoLocalText)
}

/// A second request for the path in memory loads nothing.
pub proof fn lemma_same_path_reuses(loaded: Option<Seq<char>>, model_path: Seq<char>)
    ensures
        !load_needed(after_request(loaded, model_path), model_path),
        loads_for(loaded, seq![model_path, model_path]) == loads_for(loaded, seq![model_path]),
{
    let two = seq![model_path, model_path];
    let one = seq![model_path];
    assert(two.drop_first() =~= one);
    assert(one.drop_first() =~= Seq::<Seq<char>>::empty());
    reveal_with_fuel(loads_for, 3);
}

/// Two requests for one path in a row, with nothing in memory before, load
/// the model once; a third request for another path loads once more, and
/// what is in memory then is the other model alone.
pub proof fn lemma_cache_reuse(p: Seq<char>, q: Seq<char>)
    requires
        p != q,
    ensures
        loads_for(None, seq![p, p]) == 1,
        loads_for(None, seq![p, p, q]) == 2,
        cache_after(None, seq![p, p]) == Some(p),
        cache_after(None, seq![p, p, q]) == Some(q),
{
    let three = seq![p, p, q];
    let two = seq![p, p];
    assert(three.drop_first() =~= seq![p, q]);
    assert(seq![p, q].drop_first() =~= seq![q]);
    assert(two.drop_first() =~= seq![p]);
    assert(seq![p].drop_first() =~= Seq::<Seq<char>>::empty());
    assert(seq![q].drop_first() =~= Seq::<Seq<char>>::empty());
    reveal_with_fuel(loads_for, 4);
    reveal_with_fuel(cache_after, 4);
}

/// No run of requests loads more often than it has requests, and what is in
/// memory after it is the model of its last request, and no other.
pub proof fn lemma_loads_bounded(loaded: Option<Seq<char>>, requests: Seq<Seq<char>>)
    ensures
        loads_for(loaded, requests) <= requests.len(),
        requests.len() > 0 ==> cache_after(loaded, requests) == Some(requests.last()),
    decreases requests.len(),
{
    if requests.len() > 0 {
        lemma_loads_bounded(after_request(loaded, requests[0]), requests.drop_first());
        if requests.len() == 1 {
            assert(requests.drop_first().len() == 0);
            reveal_with_fuel(cache_after, 2);
        } else {
            assert(requests.drop_first().last() == requests.last());
        }
    }
}

} // verus!
