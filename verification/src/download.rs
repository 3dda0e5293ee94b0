//! Fetching a model file: where from, and when progress is reported.

use crate::store::{model_filename, model_filename_for_size, normalize_model_size, normalized_size};
use vstd::prelude::*;
use vstd::string::*;

verus! {

/// Where the model files are published.
pub open spec fn base_url() -> Seq<char> {
    "https://huggingface.co/ggerganov/whisper.cpp/resolve/main"@
}

/// The address of the model file of the size that the user chose.
pub open spec fn url_of(size: Seq<char>) -> Seq<char> {
    base_url() + "/"@ + model_filename(normalized_size(size))
}

/// Progress is reported when the percentage has grown by two since the last
/// report, for the first chunk, and once everything is there.
pub open spec fn is_progress_due(
    pct: u8,
    last_emit_pct: u8,
    loaded: u64,
    chunk_len: u64,
    total: u64,
) -> bool {
    pct >= last_emit_pct + 2 || loaded == chunk_len || (total > 0 && loaded >= total)
}

/// The address of the model file of the size that the user chose.
pub fn model_url(size: &str) -> (url: String)
    ensures
        url@ == url_of(size@),
{
    let tier = normalize_model_size(size);
    let name = model_filename_for_size(tier.as_str());
    "https://huggingface.co/ggerganov/whisper.cpp/resolve/main".to_string().concat("/").concat(name)
}

/// Whether progress is reported after a chunk of `chunk_len` bytes brought
/// the download to `loaded` of `total` bytes, that is `pct` percent.
pub fn should_emit_progress(pct: u8, last_emit_pct: u8, loaded: u64, chunk_len: u64, total: u64) -> (due:
    bool)
    ensures
        due == is_progress_due(pct, last_emit_pct, loaded, chunk_len, total),
{
    pct as u16 >= last_emit_pct as u16 + 2 || loaded == chunk_len || (total > 0 && loaded >= total)
}

} // verus!
