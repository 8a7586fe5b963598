use lintcore::diagnostics::{Applicability, LintId, Span};
use lintcore::format_rules::{
    check_empty_string, check_literal, check_newline, is_debug_impl, FormatArgModel, FormatCall,
    FormatString, Item, ItemKind, LitKind, MacroCallModel, MacroKind, Write,
};

fn sp(lo: usize, hi: usize) -> Span {
    Span { lo, hi, ctxt: 0 }
}

fn mc(kind: MacroKind) -> MacroCallModel {
    MacroCallModel { kind, span: sp(0, 30), name_span: sp(0, 5) }
}

fn fs(parts: Vec<&str>, is_raw: bool, snippet: Option<&str>) -> FormatString {
    let snip_len = snippet.map_or(3, |s| s.chars().count());
    FormatString {
        parts: parts.into_iter().map(String::from).collect(),
        is_raw,
        from_expansion: false,
        span: sp(10, 10 + snip_len),
        snippet: snippet.map(String::from),
        span_expanded: sp(8, 10 + snip_len),
        snippet_expanded: snippet.map(|s| format!(", {}", s)),
    }
}

fn lit_arg(value_id: u32, lit: LitKind, snippet: Option<&str>) -> FormatArgModel {
    FormatArgModel {
        value_id,
        lit,
        value_from_expansion: false,
        value_span: sp(20, 27),
        value_snippet: snippet.map(String::from),
        value_span_expanded: sp(18, 27),
        is_debug: false,
        is_default_format: true,
        span: sp(11, 13),
    }
}

fn call(format_string: FormatString, args: Vec<FormatArgModel>) -> FormatCall {
    FormatCall { format_string, args }
}

#[test]
fn print_with_trailing_newline_renames_and_strips_it() {
    // print-family call with format string "done\n" and zero arguments
    let f = call(fs(vec!["done\n"], false, Some("\"done\\n\"")), vec![]);
    let d = check_newline(&f, &mc(MacroKind::Print)).expect("should lint");
    assert_eq!(d.lint, LintId::PrintWithNewline);
    assert_eq!(
        d.message,
        String::from("using `print!()` with a format string that ends in a single newline")
    );
    let sugg = d.suggestion.expect("a fix is expected");
    assert_eq!(sugg.message, String::from("use `println!` instead"));
    assert_eq!(sugg.applicability, Applicability::MachineApplicable);
    assert_eq!(sugg.edits.len(), 2);
    assert_eq!(sugg.edits[0].span, sp(0, 5));
    assert_eq!(sugg.edits[0].text, String::from("println"));
    // the snippet "done\n" spans characters 10..18; the printed `\n` sits at 15..17
    assert_eq!(sugg.edits[1].span, sp(15, 17));
    assert_eq!(sugg.edits[1].text, String::from(""));
}

#[test]
fn sole_newline_format_string_is_removed_whole() {
    let f = call(fs(vec!["\n"], false, Some("\"\\n\"")), vec![]);
    let d = check_newline(&f, &mc(MacroKind::Print)).expect("should lint");
    let sugg = d.suggestion.expect("a fix is expected");
    assert_eq!(sugg.edits.len(), 2);
    assert_eq!(sugg.edits[0].text, String::from("println"));
    // the whole format-string argument goes, using its own span
    assert_eq!(sugg.edits[1].span, sp(10, 14));
    assert_eq!(sugg.edits[1].text, String::from(""));
}

#[test]
fn write_with_newline_expands_span_past_comma() {
    let f = call(fs(vec!["done\n"], false, Some("\"done\\n\"")), vec![]);
    let d = check_newline(&f, &mc(MacroKind::Write)).expect("should lint");
    assert_eq!(d.lint, LintId::WriteWithNewline);
    let sugg = d.suggestion.expect("a fix is expected");
    assert_eq!(sugg.edits[0].text, String::from("writeln"));
    // the expanded snippet ", \"done\\n\"" still ends in the printed newline
    assert_eq!(sugg.edits[1].span, sp(15, 17));
}

#[test]
fn trailing_argument_with_newline_is_not_misattributed() {
    // as many literal segments as arguments: the newline may come from the
    // argument, so stay silent
    let f = call(
        fs(vec!["issue\n"], false, Some("\"issue\\n{}\"")),
        vec![lit_arg(1, LitKind::NotLit, None)],
    );
    assert!(check_newline(&f, &mc(MacroKind::Print)).is_none());
}

#[test]
fn internal_newlines_keep_the_rule_silent() {
    let f = call(fs(vec!["a\nb\n"], false, Some("\"a\\nb\\n\"")), vec![]);
    assert!(check_newline(&f, &mc(MacroKind::Print)).is_none());
}

#[test]
fn missing_snippet_lints_without_fix() {
    let f = call(fs(vec!["done\n"], false, None), vec![]);
    let d = check_newline(&f, &mc(MacroKind::Print)).expect("should lint");
    assert!(d.suggestion.is_none());
}

#[test]
fn println_of_empty_string_suggests_removing_it() {
    // the line-terminated macro appends the newline itself, so the format
    // string decomposes to a single "\n" segment
    let f = call(fs(vec!["\n"], false, Some("\"\"")), vec![]);
    let d = check_empty_string(&f, &mc(MacroKind::Println)).expect("should lint");
    assert_eq!(d.lint, LintId::PrintlnEmptyString);
    assert_eq!(d.message, String::from("empty string literal in `println!`"));
    let sugg = d.suggestion.expect("a fix is expected");
    assert_eq!(sugg.message, String::from("remove the empty string"));
    assert_eq!(sugg.edits.len(), 1);
    assert_eq!(sugg.edits[0].span, sp(10, 12));
    assert_eq!(sugg.edits[0].text, String::from(""));
}

#[test]
fn writeln_of_empty_string_expands_span_past_comma() {
    let f = call(fs(vec!["\n"], false, Some("\"\"")), vec![]);
    let d = check_empty_string(&f, &mc(MacroKind::Writeln)).expect("should lint");
    assert_eq!(d.lint, LintId::WritelnEmptyString);
    let sugg = d.suggestion.expect("a fix is expected");
    assert_eq!(sugg.edits[0].span, sp(8, 12));
}

#[test]
fn non_empty_format_string_keeps_empty_string_rule_silent() {
    let f = call(fs(vec!["hi\n"], false, Some("\"hi\"")), vec![]);
    assert!(check_empty_string(&f, &mc(MacroKind::Println)).is_none());
}

#[test]
fn string_literal_argument_is_inlined() {
    // a raw format string without `#` or quotes around the inlined text
    let f = call(
        fs(vec!["", ""], true, Some("r\"{}\"")),
        vec![lit_arg(1, LitKind::StrLit, Some("\"hello\""))],
    );
    let ds = check_literal(&f, MacroKind::Print);
    assert_eq!(ds.len(), 1);
    assert_eq!(ds[0].lint, LintId::PrintLiteral);
    assert_eq!(ds[0].message, String::from("literal with an empty format string"));
    let sugg = ds[0].suggestion.as_ref().expect("a fix is expected");
    assert_eq!(sugg.applicability, Applicability::MachineApplicable);
    assert_eq!(sugg.edits.len(), 2);
    // the interpolation site receives the bare text
    assert_eq!(sugg.edits[0].span, sp(11, 13));
    assert_eq!(sugg.edits[0].text, String::from("hello"));
    // the argument is deleted together with its comma
    assert_eq!(sugg.edits[1].span, sp(18, 27));
    assert_eq!(sugg.edits[1].text, String::from(""));
}

#[test]
fn escaped_text_into_raw_format_string_abstains_on_bad_escape() {
    // `\r` has no raw-literal spelling: no diagnostic for this argument
    let f = call(
        fs(vec!["", ""], true, Some("r\"{}\"")),
        vec![lit_arg(1, LitKind::StrLit, Some("\"a\\rb\""))],
    );
    let ds = check_literal(&f, MacroKind::Print);
    assert_eq!(ds.len(), 0);
}

#[test]
fn hash_into_raw_format_string_lints_without_fix() {
    let f = call(
        fs(vec!["", ""], true, Some("r\"{}\"")),
        vec![lit_arg(1, LitKind::StrLit, Some("\"a#b\""))],
    );
    let ds = check_literal(&f, MacroKind::Print);
    assert_eq!(ds.len(), 1);
    assert!(ds[0].suggestion.is_none());
}

#[test]
fn raw_text_into_raw_format_string_keeps_clean_text() {
    let f = call(
        fs(vec!["", ""], true, Some("r\"{}\"")),
        vec![lit_arg(1, LitKind::StrLit, Some("r\"plain\""))],
    );
    let ds = check_literal(&f, MacroKind::Print);
    assert_eq!(ds.len(), 1);
    let sugg = ds[0].suggestion.as_ref().expect("a fix is expected");
    assert_eq!(sugg.edits[0].text, String::from("plain"));
}

#[test]
fn raw_text_with_quote_into_raw_format_string_has_no_fix() {
    let f = call(
        fs(vec!["", ""], true, Some("r\"{}\"")),
        vec![lit_arg(1, LitKind::StrLit, Some("r#\"say \"hi\"\"#"))],
    );
    let ds = check_literal(&f, MacroKind::Print);
    assert_eq!(ds.len(), 1);
    assert!(ds[0].suggestion.is_none());
}

#[test]
fn raw_text_into_escaping_format_string_is_re_escaped() {
    // the raw literal r"a\b" must spell its backslash as `\\` once inlined
    let f = call(
        fs(vec!["", ""], false, Some("\"{}\"")),
        vec![lit_arg(1, LitKind::StrLit, Some("r\"a\\b\""))],
    );
    let ds = check_literal(&f, MacroKind::Print);
    assert_eq!(ds.len(), 1);
    let sugg = ds[0].suggestion.as_ref().expect("a fix is expected");
    assert_eq!(sugg.edits[0].text, String::from("a\\\\b"));
}

#[test]
fn braces_in_inlined_text_are_doubled() {
    let f = call(
        fs(vec!["", ""], false, Some("\"{}\"")),
        vec![lit_arg(1, LitKind::StrLit, Some("\"{x}\""))],
    );
    let ds = check_literal(&f, MacroKind::Print);
    assert_eq!(ds.len(), 1);
    let sugg = ds[0].suggestion.as_ref().expect("a fix is expected");
    assert_eq!(sugg.edits[0].text, String::from("{{x}}"));
}

#[test]
fn character_literals_follow_the_fixed_table() {
    let f = call(
        fs(vec!["", ""], false, Some("\"{}\"")),
        vec![lit_arg(1, LitKind::CharLit('x'), Some("'x'"))],
    );
    let ds = check_literal(&f, MacroKind::Print);
    assert_eq!(ds[0].suggestion.as_ref().unwrap().edits[0].text, String::from("x"));

    let f = call(
        fs(vec!["", ""], false, Some("\"{}\"")),
        vec![lit_arg(1, LitKind::CharLit('"'), Some("'\"'"))],
    );
    let ds = check_literal(&f, MacroKind::Print);
    assert_eq!(ds[0].suggestion.as_ref().unwrap().edits[0].text, String::from("\\\""));

    let f = call(
        fs(vec!["", ""], false, Some("\"{}\"")),
        vec![lit_arg(1, LitKind::CharLit('\''), Some("'\\''"))],
    );
    let ds = check_literal(&f, MacroKind::Print);
    assert_eq!(ds[0].suggestion.as_ref().unwrap().edits[0].text, String::from("'"));
}

#[test]
fn boolean_literal_is_spelled_out() {
    let f = call(
        fs(vec!["", ""], false, Some("\"{}\"")),
        vec![lit_arg(1, LitKind::BoolLit(true), Some("true"))],
    );
    let ds = check_literal(&f, MacroKind::Writeln);
    assert_eq!(ds.len(), 1);
    assert_eq!(ds[0].lint, LintId::WriteLiteral);
    assert_eq!(ds[0].suggestion.as_ref().unwrap().edits[0].text, String::from("true"));
}

#[test]
fn values_used_more_than_once_are_kept() {
    let f = call(
        fs(vec!["", " and ", ""], false, Some("\"{0} and {0}\"")),
        vec![
            lit_arg(1, LitKind::StrLit, Some("\"hello\"")),
            lit_arg(1, LitKind::StrLit, Some("\"hello\"")),
        ],
    );
    let ds = check_literal(&f, MacroKind::Print);
    assert_eq!(ds.len(), 0);
}

#[test]
fn custom_format_specs_and_expansions_are_kept() {
    let mut a = lit_arg(1, LitKind::StrLit, Some("\"hello\""));
    a.is_default_format = false;
    let f = call(fs(vec!["", ""], false, Some("\"{}\"")), vec![a]);
    assert_eq!(check_literal(&f, MacroKind::Print).len(), 0);

    let mut a = lit_arg(1, LitKind::StrLit, Some("\"hello\""));
    a.value_from_expansion = true;
    let f = call(fs(vec!["", ""], false, Some("\"{}\"")), vec![a]);
    assert_eq!(check_literal(&f, MacroKind::Print).len(), 0);
}

#[test]
fn pass_reports_stdout_and_debug_formatting() {
    let w = Write::new(false);
    let mut a = lit_arg(1, LitKind::NotLit, None);
    a.is_debug = true;
    let f = call(fs(vec!["", "\n"], false, Some("\"{:?}\"")), vec![a]);
    let ds = w.check_expr(&mc(MacroKind::Println), &Some(f));
    assert_eq!(ds.len(), 2);
    assert_eq!(ds[0].lint, LintId::PrintStdout);
    assert_eq!(ds[0].message, String::from("use of `println!`"));
    assert!(ds[0].suggestion.is_none());
    assert_eq!(ds[1].lint, LintId::UseDebug);
    assert_eq!(ds[1].message, String::from("use of `Debug`-based formatting"));
    assert_eq!(ds[1].span, sp(11, 13));
}

#[test]
fn debug_formatting_is_allowed_inside_debug_impls() {
    let mut w = Write::new(false);
    let debug_item = Item { kind: ItemKind::TraitImpl { is_debug_trait: true } };
    assert!(is_debug_impl(&debug_item));
    w.check_item(&debug_item);

    let mut a = lit_arg(1, LitKind::NotLit, None);
    a.is_debug = true;
    let f = call(fs(vec!["", "\n"], false, Some("\"{:?}\"")), vec![a]);
    let ds = w.check_expr(&mc(MacroKind::Writeln), &Some(f));
    assert_eq!(ds.len(), 0);

    // leaving the implementation restores the flag
    w.check_item_post(&debug_item);
    let mut a = lit_arg(1, LitKind::NotLit, None);
    a.is_debug = true;
    let f = call(fs(vec!["", "\n"], false, Some("\"{:?}\"")), vec![a]);
    let ds = w.check_expr(&mc(MacroKind::Writeln), &Some(f));
    assert_eq!(ds.len(), 1);
    assert_eq!(ds[0].lint, LintId::UseDebug);
}

#[test]
fn other_items_leave_the_debug_flag_alone() {
    let mut w = Write::new(false);
    let other = Item { kind: ItemKind::OtherItem };
    assert!(!is_debug_impl(&other));
    w.check_item(&other);
    assert!(!w.in_debug_impl);
}

#[test]
fn build_scripts_may_print_to_stdout() {
    let w = Write::new(true);
    let ds = w.check_expr(&mc(MacroKind::Print), &None);
    assert_eq!(ds.len(), 0);
}

#[test]
fn stderr_prints_are_reported_even_in_build_scripts() {
    let w = Write::new(true);
    let ds = w.check_expr(&mc(MacroKind::Eprintln), &None);
    assert_eq!(ds.len(), 1);
    assert_eq!(ds[0].lint, LintId::PrintStderr);
    assert_eq!(ds[0].message, String::from("use of `eprintln!`"));
}

#[test]
fn expanded_format_strings_are_left_alone() {
    let w = Write::new(false);
    let mut f = call(fs(vec!["\n"], false, Some("\"\"")), vec![]);
    f.format_string.from_expansion = true;
    let ds = w.check_expr(&mc(MacroKind::Writeln), &Some(f));
    assert_eq!(ds.len(), 0);
}

#[test]
fn whole_pass_combines_newline_and_literal_rules() {
    let w = Write::new(false);
    let f = call(
        fs(vec!["", " done\n"], false, Some("\"{} done\\n\"")),
        vec![lit_arg(1, LitKind::StrLit, Some("\"hi\""))],
    );
    let ds = w.check_expr(&mc(MacroKind::Print), &Some(f));
    assert_eq!(ds.len(), 3);
    assert_eq!(ds[0].lint, LintId::PrintStdout);
    assert_eq!(ds[1].lint, LintId::PrintWithNewline);
    assert_eq!(ds[2].lint, LintId::PrintLiteral);
}
