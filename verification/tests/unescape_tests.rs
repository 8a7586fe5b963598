use lintcore::unescape::{conservative_unescape, extract_str_literal, UnescapeErr};

#[test]
fn unescape_plain_text_is_fixable() {
    let r = conservative_unescape("abc");
    assert_eq!(r, Ok(String::from("abc")));
}

#[test]
fn unescape_empty_text_is_fixable() {
    let r = conservative_unescape("");
    assert_eq!(r, Ok(String::from("")));
}

#[test]
fn unescape_collapses_doubled_backslash() {
    // the printed form of `a\b` is `a\\b`; unescaping reproduces `a\b`
    let r = conservative_unescape("a\\\\b");
    assert_eq!(r, Ok(String::from("a\\b")));
}

#[test]
fn unescape_unrecognized_escape_abstains() {
    // backslash followed by an unrecognized escape: no raw-literal form
    let r = conservative_unescape("a\\rb");
    assert!(matches!(r, Err(UnescapeErr::Ignore)));
}

#[test]
fn unescape_trailing_backslash_abstains() {
    let r = conservative_unescape("a\\");
    assert!(matches!(r, Err(UnescapeErr::Ignore)));
}

#[test]
fn unescape_escaped_quote_lints_without_fix() {
    let r = conservative_unescape("a\\\"b");
    assert!(matches!(r, Err(UnescapeErr::Lint)));
}

#[test]
fn unescape_hash_lints_without_fix() {
    let r = conservative_unescape("a#b");
    assert!(matches!(r, Err(UnescapeErr::Lint)));
}

#[test]
fn unescape_abstains_even_after_hash() {
    // abstention wins over the lint-only outcome wherever it occurs
    let r = conservative_unescape("#a\\nb");
    assert!(matches!(r, Err(UnescapeErr::Ignore)));
}

#[test]
fn unescape_round_trips_printed_form() {
    // quote-free, hash-free text with a backslash
    let original = "pa\\th";
    // its printed (escaped) form doubles the backslash
    let printed = "pa\\\\th";
    assert_eq!(conservative_unescape(printed), Ok(String::from(original)));
}

#[test]
fn extract_plain_string_literal() {
    let (inner, raw) = extract_str_literal("\"b\"");
    assert_eq!(inner, String::from("b"));
    assert!(!raw);
}

#[test]
fn extract_raw_string_literal_with_hashes() {
    let (inner, raw) = extract_str_literal("r#\"a\"#");
    assert_eq!(inner, String::from("a"));
    assert!(raw);
}

#[test]
fn extract_raw_string_literal_without_hashes() {
    let (inner, raw) = extract_str_literal("r\"xy\"");
    assert_eq!(inner, String::from("xy"));
    assert!(raw);
}

#[test]
fn extract_keeps_inner_escapes() {
    let (inner, raw) = extract_str_literal("\"a\\nb\"");
    assert_eq!(inner, String::from("a\\nb"));
    assert!(!raw);
}
