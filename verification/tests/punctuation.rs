use goose::stt::punctuation::{process, replace_once};
use goose::stt::transcriber::{finish_transcript, TranscriberConfig};

#[test]
fn test_basic_punctuation() {
    assert_eq!(process("hello comma world"), "hello, world");
    assert_eq!(process("end of sentence period"), "end of sentence.");
    assert_eq!(process("what question mark"), "what?");
}

#[test]
fn test_redundant_punctuation() {
    assert_eq!(process("end period."), "end.");
}

#[test]
fn every_phrase_becomes_its_sign() {
    assert_eq!(process("a exclamation point b exclamation mark c"), "a! b! c");
    assert_eq!(process("stop full stop"), "stop.");
    assert_eq!(process("x colon y"), "x: y");
    assert_eq!(process("fifty percent"), "fifty %");
    assert_eq!(process("mail at sign home"), "mail @ home");
    assert_eq!(process("one ampersand two"), "one & two");
    assert_eq!(process("wait ellipsis"), "wait...");
    assert_eq!(process("a hyphen b dash c"), "a - b - c");
    assert_eq!(process("open paren x close paren"), "( x )");
    assert_eq!(process("open bracket x close bracket"), "[ x ]");
    assert_eq!(process("hashtag rust"), "# rust");
    assert_eq!(process("five dollar sign"), "five $");
}

#[test]
fn the_case_of_the_letters_does_not_matter() {
    assert_eq!(process("Hello COMMA World Period"), "Hello, World.");
}

#[test]
fn spaces_are_tidied_up() {
    assert_eq!(process("  a    b  "), "a b");
    assert_eq!(process(""), "");
    assert_eq!(process("   "), "");
}

#[test]
fn plain_text_stays() {
    assert_eq!(process("nothing to do here"), "nothing to do here");
    assert_eq!(process("grüße aus köln"), "grüße aus köln");
}

#[test]
fn a_longer_phrase_comes_before_the_one_it_holds() {
    assert_eq!(process("wait semicolon go"), "wait; go");
    assert_eq!(process("wait semi colon go"), "wait; go");
    assert_eq!(process("five percent sign"), "five %");
    assert_eq!(process("open quote hi close quote"), "\" hi \"");
    assert_eq!(process("one period. two comma, three"), "one. two, three");
}

#[test]
fn each_phrase_stands_for_its_own_symbol() {
    let rows = [
        ("question mark", "a? b"),
        ("exclamation point", "a! b"),
        ("exclamation mark", "a! b"),
        ("period", "a. b"),
        ("full stop", "a. b"),
        ("comma", "a, b"),
        ("semicolon", "a; b"),
        ("semi colon", "a; b"),
        ("colon", "a: b"),
        ("open quote", "a \" b"),
        ("close quote", "a \" b"),
        ("quote", "a \" b"),
        ("open paren", "a ( b"),
        ("close paren", "a ) b"),
        ("open bracket", "a [ b"),
        ("close bracket", "a ] b"),
        ("hyphen", "a - b"),
        ("dash", "a - b"),
        ("ellipsis", "a... b"),
        ("ampersand", "a & b"),
        ("at sign", "a @ b"),
        ("hashtag", "a # b"),
        ("dollar sign", "a $ b"),
        ("percent sign", "a % b"),
        ("percent", "a % b"),
    ];
    for (phrase, result) in rows {
        assert_eq!(process(&format!("a {} b", phrase)), result);
    }
}

#[test]
fn letters_beyond_ascii_are_characters_like_others() {
    assert_eq!(process("café comma world"), "café, world");
    assert_eq!(process("né comma"), "né,");
    assert_eq!(process("schön comma gut"), "schön, gut");
    assert_eq!(process("grüße comma köln question mark"), "grüße, köln?");
    assert_eq!(process("\u{130} comma"), "\u{130},");
    assert_eq!(process("\u{130}é comma"), "\u{130}é,");
    assert_eq!(process("what question mar\u{212a}"), "what?");
}

#[test]
fn white_space_of_any_kind_ends_a_phrase() {
    assert_eq!(process("a comma\tb"), "a, \tb");
    assert_eq!(process("a comma\u{a0}b"), "a, \u{a0}b");
}

#[test]
fn a_longer_word_is_no_phrase() {
    assert_eq!(process("the commander"), "the commander");
    assert_eq!(process("periods"), "periods");
}

#[test]
fn outer_spaces_do_not_count() {
    for s in ["yes comma please", "a.", "", ". b", "schön comma"] {
        assert_eq!(process(&format!(" {} ", s)), process(s));
    }
    assert_eq!(process(" yes comma please "), "yes, please");
}

#[test]
fn the_result_is_the_same_in_lower_case() {
    assert_eq!(process("hello comma world period"), "hello, world.");
    assert_eq!(process("HELLO COMMA WORLD PERIOD").to_lowercase(), "hello, world.");
}

#[test]
fn the_result_has_single_spaces_and_no_outer_ones() {
    let r = process("  a comma   b  ");
    assert_eq!(r, "a, b");
    assert!(!r.contains("  "));
    assert_eq!(r.trim(), r);
}

#[test]
fn one_space_before_a_mark_falls_away() {
    assert_eq!(process("a comma b"), "a, b");
    assert_eq!(process("a ; b"), "a; b");
    assert_eq!(process("a   comma b"), "a , b");
}

#[test]
fn one_replacement_at_a_time() {
    assert_eq!(replace_once("a comma b comma", "comma", ",").unwrap(), "a , b comma");
    assert_eq!(replace_once("a comma", "comma", ",").unwrap(), "a ,");
    assert_eq!(replace_once("a comma!", "comma", ",").unwrap(), "a ,!");
    assert!(replace_once("abc", "comma", ",").is_none());
    assert!(replace_once("commas", "comma", ",").is_none());
}

#[test]
fn a_transcript_is_finished_as_configured() {
    let with = TranscriberConfig::default();
    assert!(with.punctuation);
    assert_eq!(finish_transcript(" yes comma please ", with), "yes, please");
    let without = TranscriberConfig { punctuation: false };
    assert_eq!(finish_transcript(" yes comma please ", without), "yes comma please");
}
