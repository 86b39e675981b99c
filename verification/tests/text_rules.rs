//! Tests of the letter-to-sound rule matcher.

use phonate::text_to_phoneme::TextToPhoneme;

#[test]
fn translate_the() {
    let ttp = TextToPhoneme::new();
    assert_eq!(ttp.translate(" the "), "\u{f0}\u{259}");
}

#[test]
fn translate_cat() {
    let ttp = TextToPhoneme::new();
    assert_eq!(ttp.translate(" cat "), "k\u{e6}t");
}

#[test]
fn translate_hello() {
    let ttp = TextToPhoneme::new();
    assert_eq!(ttp.translate(" hello "), "h\u{25b}lo");
}

#[test]
fn translate_making() {
    let ttp = TextToPhoneme::new();
    assert_eq!(ttp.translate(" making "), "m\u{25b}\u{26a}k\u{26a}\u{14b}");
}

#[test]
fn translate_faces() {
    let ttp = TextToPhoneme::new();
    assert_eq!(ttp.translate(" faces "), "f\u{25b}\u{26a}s\u{26a}z");
}

#[test]
fn translate_two_words_keeps_the_space() {
    let ttp = TextToPhoneme::new();
    assert_eq!(ttp.translate(" a b "), "\u{259} b");
}

#[test]
fn translate_empty() {
    let ttp = TextToPhoneme::new();
    assert_eq!(ttp.translate(""), "");
    assert_eq!(ttp.translate(" "), "");
}

#[test]
fn translate_starts_after_the_leading_character() {
    // Translation starts at character position one: the first character
    // stands in for the conventional leading space and is never matched
    // as a body.  Here the y matches its "#:^" left context against "x"
    // running into the start of the text, which accepts the rule early.
    let ttp = TextToPhoneme::new();
    assert_eq!(ttp.translate("xyz"), "iz");
}

#[test]
fn translate_dont_matches_a_body_with_spaces() {
    // The body of the rule for "on ' t" spans spaces and an apostrophe.
    let ttp = TextToPhoneme::new();
    assert_eq!(ttp.translate(" don ' t "), "dont");
}

#[test]
fn translate_chew_uses_the_digraph_context() {
    // The "ew" rule sees the ch digraph through its "@" left context.
    let ttp = TextToPhoneme::new();
    assert_eq!(ttp.translate(" chew "), "t\u{283}u");
}

#[test]
fn translate_stops_at_non_lowercase() {
    let ttp = TextToPhoneme::new();
    assert_eq!(ttp.translate(" aB "), "\u{e6}");
}

#[test]
fn translate_every_letter_smoke() {
    // Every bucket ends with a context-free rule, so any single letter
    // translates without getting stuck.
    let ttp = TextToPhoneme::new();
    for c in 'a'..='z' {
        let s = format!(" {c} ");
        let _ = ttp.translate(&s);
    }
    assert_eq!(ttp.translate(" q "), "k");
    assert_eq!(ttp.translate(" h "), "");
}
