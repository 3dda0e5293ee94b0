use mercer_voice::filter::{filler_word, is_filler_text, is_likely_hallucination, stock_phrase};

#[test]
fn empty_and_stock_phrases_are_filler() {
    assert!(is_likely_hallucination(""));
    assert!(is_likely_hallucination("you"));
    assert!(is_likely_hallucination("thanks"));
    assert!(is_likely_hallucination("um uh"));
}

#[test]
fn a_sentence_is_genuine() {
    assert!(!is_likely_hallucination("please send the report by noon"));
}

#[test]
fn every_stock_phrase_is_filler() {
    for p in ["you", "thank you", "thanks", "bye", "the", "a", "an", "um", "uh", "so", "and",
        "the end", ".", "..."]
    {
        assert!(stock_phrase(p));
        assert!(is_filler_text(p));
        assert!(is_likely_hallucination(p));
    }
    assert!(!stock_phrase("the end."));
    assert!(!stock_phrase(".."));
    assert!(!stock_phrase(""));
}

#[test]
fn every_vocabulary_word_is_a_filler_word() {
    for w in ["you", "the", "a", "an", "um", "uh", "so", "and", "thanks", "thank", "bye"] {
        assert!(filler_word(w));
    }
    assert!(!filler_word("end"));
    assert!(!filler_word("."));
    assert!(!filler_word("hello"));
}

#[test]
fn case_and_surrounding_space_do_not_count() {
    assert!(is_likely_hallucination("  You  "));
    assert!(is_likely_hallucination("THANKS"));
    assert!(is_likely_hallucination("\nThank You\n"));
    assert!(is_likely_hallucination("   "));
    assert!(is_likely_hallucination("Um Uh"));
}

#[test]
fn classification_is_of_the_normalized_text() {
    assert!(is_filler_text("you"));
    assert!(!is_filler_text("You"));
    assert!(!is_filler_text("YOU"));
}

#[test]
fn two_vocabulary_words_are_filler_and_three_are_not() {
    assert!(is_likely_hallucination("so um"));
    assert!(is_likely_hallucination("bye bye"));
    assert!(is_likely_hallucination("thank thanks"));
    assert!(!is_likely_hallucination("um uh so"));
    assert!(!is_likely_hallucination("a a a"));
}

#[test]
fn one_word_outside_the_vocabulary_makes_it_genuine() {
    assert!(!is_likely_hallucination("hello"));
    assert!(!is_likely_hallucination("um hello"));
    assert!(!is_likely_hallucination("the end is"));
    assert!(!is_likely_hallucination("thanks."));
}

#[test]
fn more_than_fifteen_characters_are_genuine() {
    assert!(is_likely_hallucination("thanks   thanks"));
    assert!(!is_likely_hallucination("thanks    thanks"));
    assert!(!is_likely_hallucination("thanks     thanks"));
}

#[test]
fn length_is_counted_in_characters() {
    assert!(is_likely_hallucination("um\u{3000}uh"));
    assert!(is_likely_hallucination("um\u{3000}\u{3000}\u{3000}\u{3000}uh"));
    assert!(is_filler_text("thanks\u{2003}\u{2003}\u{2003}thanks"));
    assert!(!is_filler_text("thanks\u{2003}\u{2003}\u{2003}\u{2003}thanks"));
}

#[test]
fn white_space_alone_is_filler_when_short() {
    assert!(is_filler_text("   "));
    assert!(is_filler_text("               "));
    assert!(!is_filler_text("                "));
}
