use crawler::text::chars_to_string;
use crawler::text::clean_content;
use crawler::text::format_u64;
use crawler::text::remove_all;
use crawler::text::str_to_chars;
use crawler::text::strip_texts;
use crawler::text::trim;
use crawler::text::trim_char;

fn chars(s: &str) -> Vec<char> {
    s.chars().collect()
}

fn string_of(v: &Vec<char>) -> String {
    v.iter().collect()
}

#[test]
fn remove_all_basic() {
    let r = remove_all(&chars("xabyab"), &chars("ab"));
    assert_eq!(string_of(&r), "xy");
}

#[test]
fn remove_all_empty_pattern_changes_nothing() {
    let r = remove_all(&chars("abc"), &chars(""));
    assert_eq!(string_of(&r), "abc");
}

#[test]
fn remove_all_single_pass_can_splice() {
    // one pass skips matched spans and can splice a new occurrence together
    let r = remove_all(&chars("aabb"), &chars("ab"));
    assert_eq!(string_of(&r), "ab");
}

#[test]
fn strip_texts_in_order() {
    let ignored = vec![chars("no longer available"), chars("available")];
    let r = strip_texts(&chars("item available here"), &ignored);
    assert_eq!(string_of(&r), "item  here");
}

#[test]
fn strip_pass_idempotent_on_settled_input() {
    let ignored = vec![chars("\n"), chars("sold out")];
    let once = clean_content(&chars("sold out\n  rest\n"), &ignored);
    let twice = clean_content(&once, &ignored);
    assert_eq!(string_of(&once), "rest");
    assert_eq!(string_of(&once), string_of(&twice));
}

#[test]
fn strip_single_chars_order_free() {
    let ab = strip_texts(&chars("xaybzab"), &vec![chars("a"), chars("b")]);
    let ba = strip_texts(&chars("xaybzab"), &vec![chars("b"), chars("a")]);
    assert_eq!(string_of(&ab), "xyz");
    assert_eq!(string_of(&ab), string_of(&ba));
}

#[test]
fn trim_strips_surrounding_whitespace() {
    let r = trim(&chars("\t  kept words \r\n"));
    assert_eq!(string_of(&r), "kept words");
}

#[test]
fn trim_strips_unicode_whitespace() {
    // the trim set is Unicode White_Space, as str::trim's is
    let source = "\u{a0}\u{2003}kept\u{3000}";
    let r = trim(&chars(source));
    assert_eq!(string_of(&r), "kept");
    assert_eq!(string_of(&r), source.trim());
}

#[test]
fn trim_char_strips_quotes() {
    let r = trim_char(&chars("\"\"tok\"en\"\""), '"');
    assert_eq!(string_of(&r), "tok\"en");
}

#[test]
fn format_u64_exact() {
    assert_eq!(string_of(&format_u64(0)), "0");
    assert_eq!(string_of(&format_u64(905)), "905");
    assert_eq!(string_of(&format_u64(1000)), "1000");
    assert_eq!(string_of(&format_u64(u64::MAX)), "18446744073709551615");
}

#[test]
fn char_string_round_trip() {
    let v = str_to_chars("round trip");
    assert_eq!(chars_to_string(&v), "round trip");
}
