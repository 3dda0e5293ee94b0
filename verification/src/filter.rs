//! The filter that tells filler and noise from speech in a transcript.
//!
//! Speech models tend to answer silence with a short stock phrase. A
//! transcript is taken for such filler when, trimmed and in lowercase, it is
//! empty, is one of a fixed list of phrases, or is at most two words and
//! fifteen characters long with every word from a fixed vocabulary.

use crate::text::{lowercase, split_words, str_eq, to_lowercase, trim, trimmed, views, words};
use vstd::prelude::*;
use vstd::string::*;

verus! {

/// Longest filler made of vocabulary words, in characters.
pub const MAX_FILLER_CHARS: usize = 15;

/// Most words that a filler made of vocabulary words has.
pub const MAX_FILLER_WORDS: usize = 2;

/// `t` is, as a whole, one of the stock phrases.
pub open spec fn is_stock_phrase(t: Seq<char>) -> bool {
    ||| t == "you"@
    ||| t == "thank you"@
    ||| t == "thanks"@
    ||| t == "bye"@
    ||| t == "the"@
    ||| t == "a"@
    ||| t == "an"@
    ||| t == "um"@
    ||| t == "uh"@
    ||| t == "so"@
    ||| t == "and"@
    ||| t == "the end"@
    ||| t == "."@
    ||| t == "..."@
}

/// `w` is a word of the filler vocabulary.
pub open spec fn is_filler_word(w: Seq<char>) -> bool {
    ||| w == "you"@
    ||| w == "the"@
    ||| w == "a"@
    ||| w == "an"@
    ||| w == "um"@
    ||| w == "uh"@
    ||| w == "so"@
    ||| w == "and"@
    ||| w == "thanks"@
    ||| w == "thank"@
    ||| w == "bye"@
}

/// Every word of `ws` is of the filler vocabulary.
pub open spec fn all_filler_words(ws: Seq<Seq<char>>) -> bool {
    forall|i: int| 0 <= i < ws.len() ==> is_filler_word(#[trigger] ws[i])
}

/// A normalized transcript is filler: empty, a stock phrase, or short and
/// made of vocabulary words only.
pub open spec fn is_filler(t: Seq<char>) -> bool {
    ||| t.len() == 0
    ||| is_stock_phrase(t)
    ||| (words(t).len() <= MAX_FILLER_WORDS && t.len() <= MAX_FILLER_CHARS && all_filler_words(
        words(t),
    ))
}

/// The form in which a transcript is classified: trimmed, then in lowercase.
pub open spec fn normalized(text: Seq<char>) -> Seq<char> {
    lowercase(trimmed(text))
}

/// Whether `t` is, as a whole, one of the stock phrases.
pub fn stock_phrase(t: &str) -> (r: bool)
    ensures
        r == is_stock_phrase(t@),
{
    str_eq(t, "you") || str_eq(t, "thank you") || str_eq(t, "thanks") || str_eq(t, "bye") || str_eq(
        t,
        "the",
    ) || str_eq(t, "a") || str_eq(t, "an") || str_eq(t, "um") || str_eq(t, "uh") || str_eq(t, "so")
        || str_eq(t, "and") || str_eq(t, "the end") || str_eq(t, ".") || str_eq(t, "...")
}

/// Whether `w` is a word of the filler vocabulary.
pub fn filler_word(w: &str) -> (r: bool)
    ensures
        r == is_filler_word(w@),
{
    str_eq(w, "you") || str_eq(w, "the") || str_eq(w, "a") || str_eq(w, "an") || str_eq(w, "um")
        || str_eq(w, "uh") || str_eq(w, "so") || str_eq(w, "and") || str_eq(w, "thanks") || str_eq(
        w,
        "thank",
    ) || str_eq(w, "bye")
}

/// Classifies a transcript that is already trimmed and in lowercase.
pub fn is_filler_text(t: &str) -> (r: bool)
    ensures
        r == is_filler(t@),
{
    let len = t.unicode_len();
    if len == 0 || stock_phrase(t) {
        return true;
    }
    if len > MAX_FILLER_CHARS {
        return false;
    }
    let ws = split_words(t);
    if ws.len() > MAX_FILLER_WORDS {
        return false;
    }
    let mut i: usize = 0;
    while i < ws.len()
        invariant
            i <= ws@.len(),
            views(ws@) == words(t@),
            t@.len() != 0,
            !is_stock_phrase(t@),
            forall|j: int| 0 <= j < i ==> is_filler_word(#[trigger] words(t@)[j]),
        decreases ws@.len() - i,
    {
        assert(views(ws@)[i as int] == ws@[i as int]@);
        if !filler_word(ws[i]) {
            return false;
        }
        i += 1;
    }
    true
}

/// Whether a transcript is likely filler or noise and not speech.
pub fn is_likely_hallucination(text: &str) -> (r: bool)
    ensures
        r == is_filler(normalized(text@)),
{
    let t = to_lowercase(trim(text));
    is_filler_text(t.as_str())
}

} // verus!
