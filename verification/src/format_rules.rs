//! The formatted-output rule family: inspects one decomposed format-macro
//! invocation for stray output on the standard streams, trailing-newline
//! duplication, sole-newline format strings, redundant literal arguments
//! (backed by the conservative unescape transform), and debug-style
//! formatting outside debug-trait implementations.

use crate::diagnostics::{
    diag_views, opt_view, Applicability, Diagnostic, DiagnosticSpec, Edit, LintId, Span,
    Suggestion, SuggestionSpec,
};
use crate::strutil::{count_vertical_ws, replace_char, replace_char_seq, vertical_ws_count};
use crate::unescape::{
    conservative_unescape, extract_str_literal, is_raw_literal, str_literal_inner, str_literal_wf,
    unescape_spec, UnescapeErr, UnescapeSpec,
};
use vstd::prelude::*;
use vstd::string::StrSliceExecFns;
use vstd::string::StringExecFns;

verus! {

/// The formatted-output macro families the rules consider.
#[derive(Clone, Copy, PartialEq, Eq, Structural, Debug)]
pub enum MacroKind {
    Print,
    Println,
    Eprint,
    Eprintln,
    Write,
    Writeln,
}

/// One macro invocation as the host hands it over: its family, the span of
/// the whole call, and the span of the macro's name up to the bang.
#[derive(Clone, Copy, PartialEq, Eq, Structural, Debug)]
pub struct MacroCallModel {
    pub kind: MacroKind,
    pub span: Span,
    pub name_span: Span,
}

/// The format-string literal of a decomposed format call: its cooked
/// literal segments (escapes already processed), whether the literal was a
/// raw one, whether it came out of a macro expansion, its span and source
/// text, and the same span expanded past the previous comma (what the host
/// hands out for deleting a whole trailing argument of `write`-family
/// macros).
pub struct FormatString {
    pub parts: Vec<String>,
    pub is_raw: bool,
    pub from_expansion: bool,
    pub span: Span,
    pub snippet: Option<String>,
    pub span_expanded: Span,
    pub snippet_expanded: Option<String>,
}

/// What kind of literal an argument's value is, if any.
#[derive(Clone, Copy, PartialEq, Eq, Structural, Debug)]
pub enum LitKind {
    StrLit,
    CharLit(char),
    BoolLit(bool),
    NotLit,
}

/// One interpolation site of a format call: the identity of the value it
/// references, what literal that value is (if any), whether the value came
/// out of a macro expansion, the value's span, source text and
/// comma-expanded span, whether the site formats through the debug trait,
/// whether it carries no custom format specifier, and the site's own span.
pub struct FormatArgModel {
    pub value_id: u32,
    pub lit: LitKind,
    pub value_from_expansion: bool,
    pub value_span: Span,
    pub value_snippet: Option<String>,
    pub value_span_expanded: Span,
    pub is_debug: bool,
    pub is_default_format: bool,
    pub span: Span,
}

/// A decomposed format call: the format string and its interpolation sites
/// in order.
pub struct FormatCall {
    pub format_string: FormatString,
    pub args: Vec<FormatArgModel>,
}

/// A span and a snippet agree: the snippet, when the host can hand one out,
/// covers exactly the span's character range.
pub open spec fn span_snip_wf(sp: Span, snip: Option<Seq<char>>) -> bool {
    &&& sp.lo <= sp.hi
    &&& (snip matches Some(s) ==> s.len() == sp.hi - sp.lo)
}

/// A literal argument's source text is the well-formed text of the literal
/// it claims to be.
pub open spec fn arg_wf(a: FormatArgModel) -> bool {
    match a.lit {
        LitKind::StrLit => a.value_snippet matches Some(s) ==> str_literal_wf(s@),
        LitKind::CharLit(_) => a.value_snippet matches Some(s) ==> s@.len() >= 2,
        _ => true,
    }
}

/// The host invariants the rules rely on: spans agree with their snippets
/// and literal arguments carry well-formed literal text.
pub open spec fn format_call_wf(f: FormatCall) -> bool {
    &&& span_snip_wf(f.format_string.span, opt_view(f.format_string.snippet))
    &&& span_snip_wf(f.format_string.span_expanded, opt_view(f.format_string.snippet_expanded))
    &&& forall|i: int| 0 <= i < f.args@.len() ==> arg_wf(#[trigger] f.args@[i])
}

/// The source-level name of a macro family.
pub open spec fn macro_name_spec(kind: MacroKind) -> Seq<char> {
    match kind {
        MacroKind::Print => "print"@,
        MacroKind::Println => "println"@,
        MacroKind::Eprint => "eprint"@,
        MacroKind::Eprintln => "eprintln"@,
        MacroKind::Write => "write"@,
        MacroKind::Writeln => "writeln"@,
    }
}

/// The source-level name of a macro family, executable form.
pub fn macro_name(kind: MacroKind) -> (r: &'static str)
    ensures
        r@ == macro_name_spec(kind),
{
    match kind {
        MacroKind::Print => "print",
        MacroKind::Println => "println",
        MacroKind::Eprint => "eprint",
        MacroKind::Eprintln => "eprintln",
        MacroKind::Write => "write",
        MacroKind::Writeln => "writeln",
    }
}

/// The executable diagnostic agrees with the mathematical one.
pub open spec fn opt_diag_matches(r: Option<Diagnostic>, s: Option<DiagnosticSpec>) -> bool {
    match (r, s) {
        (None, None) => true,
        (Some(d), Some(ds)) => d@ == ds,
        _ => false,
    }
}

/// Total count of line-terminator characters across the literal segments.
pub open spec fn vertical_ws_total(ps: Seq<String>) -> int
    decreases ps,
{
    if ps.len() == 0 {
        0
    } else {
        vertical_ws_count(ps[0]@) + vertical_ws_total(ps.skip(1))
    }
}

proof fn lemma_vertical_ws_total_push(ps: Seq<String>, x: String)
    ensures
        vertical_ws_total(ps.push(x)) == vertical_ws_total(ps) + vertical_ws_count(x@),
    decreases ps,
{
    if ps.len() == 0 {
        assert(ps.push(x).skip(1) =~= Seq::<String>::empty());
        assert(vertical_ws_total(Seq::<String>::empty()) == 0);
        assert(ps.push(x)[0] == x);
    } else {
        assert(ps.push(x).skip(1) =~= ps.skip(1).push(x));
        lemma_vertical_ws_total_push(ps.skip(1), x);
        assert(ps.push(x)[0] == ps[0]);
    }
}

/// The newline-duplication decision for one `print`-family (non-`ln`)
/// call: it triggers when the final literal segment ends with a newline,
/// exactly one line terminator occurs across all segments, and there are
/// more segments than interpolation sites. The fix renames the macro to its
/// line-terminated form and removes the terminal newline — the whole format
/// string when it is the single segment `\n`, else the two characters `\n`
/// of its printed text; without a source snippet no fix is offered.
pub open spec fn check_newline_spec(f: FormatCall, mc: MacroCallModel) -> Option<DiagnosticSpec> {
    let parts = f.format_string.parts@;
    if parts.len() > 0 {
        let last = parts.last()@;
        if last.len() > 0 && last.last() == '\n' && vertical_ws_total(parts) == 1 && parts.len()
            > f.args@.len() {
            let lint = if mc.kind is Write {
                LintId::WriteWithNewline
            } else {
                LintId::PrintWithNewline
            };
            let sp = if mc.kind is Write {
                f.format_string.span_expanded
            } else {
                f.format_string.span
            };
            let sn = if mc.kind is Write {
                opt_view(f.format_string.snippet_expanded)
            } else {
                opt_view(f.format_string.snippet)
            };
            let name = macro_name_spec(mc.kind);
            let message = "using `"@ + name + "!()` with a format string that ends in a single newline"@;
            let sugg_message = "use `"@ + name + "ln!` instead"@;
            let ln_name = name + "ln"@;
            let suggestion: Option<SuggestionSpec> = match sn {
                None => None,
                Some(snippet) => if parts.len() == 1 && last.len() == 1 {
                    Some(
                        SuggestionSpec {
                            message: sugg_message,
                            edits: seq![(mc.name_span, ln_name), (sp, Seq::<char>::empty())],
                            applicability: Applicability::MachineApplicable,
                        },
                    )
                } else if snippet.len() >= 3 && snippet[snippet.len() - 3] == '\\'
                    && snippet[snippet.len() - 2] == 'n' && snippet[snippet.len() - 1] == '"' {
                    let nl_span = Span { lo: (sp.hi - 3) as usize, hi: (sp.hi - 1) as usize, ctxt: sp.ctxt };
                    Some(
                        SuggestionSpec {
                            message: sugg_message,
                            edits: seq![(mc.name_span, ln_name), (nl_span, Seq::<char>::empty())],
                            applicability: Applicability::MachineApplicable,
                        },
                    )
                } else {
                    None
                },
            };
            Some(DiagnosticSpec { lint, span: mc.span, message, suggestion })
        } else {
            None
        }
    } else {
        None
    }
}

/// Check one non-`ln` format call for a duplicated trailing newline.
pub fn check_newline(f: &FormatCall, mc: &MacroCallModel) -> (r: Option<Diagnostic>)
    requires
        format_call_wf(*f),
    ensures
        opt_diag_matches(r, check_newline_spec(*f, *mc)),
{
    let parts = &f.format_string.parts;
    let np = parts.len();
    if np == 0 {
        return None;
    }
    let last = &parts[np - 1];
    let ll = last.as_str().unicode_len();
    if ll == 0 || last.as_str().get_char(ll - 1) != '\n' {
        return None;
    }

    // Count the line terminators across all segments, capped at two: only
    // "exactly one" matters.
    let mut total: usize = 0;
    let mut i: usize = 0;
    proof {
        assert(parts@.take(0) =~= Seq::<String>::empty());
    }
    while i < np
        invariant
            i <= np,
            np == parts@.len(),
            total <= 2,
            total == min2(vertical_ws_total(parts@.take(i as int))),
        decreases np - i,
    {
        let c = count_vertical_ws(parts[i].as_str());
        proof {
            assert(parts@.take(i + 1) =~= parts@.take(i as int).push(parts@[i as int]));
            lemma_vertical_ws_total_push(parts@.take(i as int), parts@[i as int]);
            lemma_vertical_ws_total_nonneg(parts@.take(i as int));
        }
        if c >= 2 {
            total = 2;
        } else {
            total = total + c;
            if total > 2 {
                total = 2;
            }
        }
        i = i + 1;
    }
    proof {
        assert(parts@.take(np as int) =~= parts@);
    }
    if total != 1 {
        return None;
    }

    if !(np > f.args.len()) {
        return None;
    }

    let is_write = matches!(mc.kind, MacroKind::Write);
    let lint = if is_write {
        LintId::WriteWithNewline
    } else {
        LintId::PrintWithNewline
    };
    let sp = if is_write {
        f.format_string.span_expanded
    } else {
        f.format_string.span
    };
    let snip_o = if is_write {
        &f.format_string.snippet_expanded
    } else {
        &f.format_string.snippet
    };

    let name = macro_name(mc.kind);
    let mut message = String::from_str("using `");
    message.append(name);
    message.append("!()` with a format string that ends in a single newline");

    let suggestion: Option<Suggestion> = match snip_o {
        None => None,
        Some(snippet) => {
            let mut sugg_message = String::from_str("use `");
            sugg_message.append(name);
            sugg_message.append("ln!` instead");
            let mut ln_name = String::from_str(name);
            ln_name.append("ln");
            if np == 1 && ll == 1 {
                let mut edits: Vec<Edit> = Vec::new();
                edits.push(Edit { span: mc.name_span, text: ln_name });
                edits.push(Edit { span: sp, text: String::new() });
                proof {
                    assert(edits@.map_values(|e: Edit| e@) =~= seq![
                        (mc.name_span, macro_name_spec(mc.kind) + "ln"@),
                        (sp, Seq::<char>::empty()),
                    ]);
                }
                Some(
                    Suggestion {
                        message: sugg_message,
                        edits,
                        applicability: Applicability::MachineApplicable,
                    },
                )
            } else {
                let snl = snippet.as_str().unicode_len();
                if snl >= 3 && snippet.as_str().get_char(snl - 3) == '\\' && snippet.as_str()
                    .get_char(snl - 2) == 'n' && snippet.as_str().get_char(snl - 1) == '"' {
                    let nl_span = Span { lo: sp.hi - 3, hi: sp.hi - 1, ctxt: sp.ctxt };
                    let mut edits: Vec<Edit> = Vec::new();
                    edits.push(Edit { span: mc.name_span, text: ln_name });
                    edits.push(Edit { span: nl_span, text: String::new() });
                    proof {
                        assert(edits@.map_values(|e: Edit| e@) =~= seq![
                            (mc.name_span, macro_name_spec(mc.kind) + "ln"@),
                            (nl_span, Seq::<char>::empty()),
                        ]);
                    }
                    Some(
                        Suggestion {
                            message: sugg_message,
                            edits,
                            applicability: Applicability::MachineApplicable,
                        },
                    )
                } else {
                    None
                }
            }
        },
    };

    Some(Diagnostic { lint, span: mc.span, message, suggestion })
}

/// Minimum with two: all the newline rule needs to know of a count.
pub open spec fn min2(x: int) -> int {
    if x >= 2 {
        2
    } else {
        x
    }
}

proof fn lemma_vertical_ws_total_nonneg(ps: Seq<String>)
    ensures
        vertical_ws_total(ps) >= 0,
    decreases ps,
{
    if ps.len() > 0 {
        lemma_vertical_ws_count_nonneg(ps[0]@);
        lemma_vertical_ws_total_nonneg(ps.skip(1));
    }
}

proof fn lemma_vertical_ws_count_nonneg(s: Seq<char>)
    ensures
        vertical_ws_count(s) >= 0,
    decreases s,
{
    if s.len() > 0 {
        lemma_vertical_ws_count_nonneg(s.skip(1));
    }
}

/// The empty-string decision for one `ln`-family call: it triggers when the
/// format string has exactly one literal segment and it is a single
/// newline (the line terminator the macro itself appends). The fix deletes
/// the format-string argument, its span expanded past the previous comma
/// for the `write` family.
pub open spec fn check_empty_string_spec(f: FormatCall, mc: MacroCallModel) -> Option<
    DiagnosticSpec,
> {
    let parts = f.format_string.parts@;
    if parts.len() == 1 && parts[0]@.len() == 1 && parts[0]@[0] == '\n' {
        let lint = if mc.kind is Writeln {
            LintId::WritelnEmptyString
        } else {
            LintId::PrintlnEmptyString
        };
        let sp = if mc.kind is Writeln {
            f.format_string.span_expanded
        } else {
            f.format_string.span
        };
        let name = macro_name_spec(mc.kind);
        Some(
            DiagnosticSpec {
                lint,
                span: mc.span,
                message: "empty string literal in `"@ + name + "!`"@,
                suggestion: Some(
                    SuggestionSpec {
                        message: "remove the empty string"@,
                        edits: seq![(sp, Seq::<char>::empty())],
                        applicability: Applicability::MachineApplicable,
                    },
                ),
            },
        )
    } else {
        None
    }
}

/// Check one `ln`-family format call for an empty (single-newline) format
/// string.
pub fn check_empty_string(f: &FormatCall, mc: &MacroCallModel) -> (r: Option<Diagnostic>)
    ensures
        opt_diag_matches(r, check_empty_string_spec(*f, *mc)),
{
    let parts = &f.format_string.parts;
    if parts.len() != 1 {
        return None;
    }
    let p = &parts[0];
    let pl = p.as_str().unicode_len();
    if pl != 1 || p.as_str().get_char(0) != '\n' {
        return None;
    }
    let is_writeln = matches!(mc.kind, MacroKind::Writeln);
    let lint = if is_writeln {
        LintId::WritelnEmptyString
    } else {
        LintId::PrintlnEmptyString
    };
    let sp = if is_writeln {
        f.format_string.span_expanded
    } else {
        f.format_string.span
    };
    let name = macro_name(mc.kind);
    let mut message = String::from_str("empty string literal in `");
    message.append(name);
    message.append("!`");
    let mut edits: Vec<Edit> = Vec::new();
    edits.push(Edit { span: sp, text: String::new() });
    proof {
        assert(edits@.map_values(|e: Edit| e@) =~= seq![(sp, Seq::<char>::empty())]);
    }
    Some(
        Diagnostic {
            lint,
            span: mc.span,
            message,
            suggestion: Some(
                Suggestion {
                    message: String::from_str("remove the empty string"),
                    edits,
                    applicability: Applicability::MachineApplicable,
                },
            ),
        },
    )
}

/// Occurrences of one value identity among the interpolation sites: the
/// per-traversal counter the literal rule rebuilds for every call site.
pub open spec fn count_id(args: Seq<FormatArgModel>, id: u32) -> int
    decreases args,
{
    if args.len() == 0 {
        0
    } else {
        (if args[0].value_id == id {
            1int
        } else {
            0int
        }) + count_id(args.skip(1), id)
    }
}

proof fn lemma_count_id_push(args: Seq<FormatArgModel>, x: FormatArgModel, id: u32)
    ensures
        count_id(args.push(x), id) == count_id(args, id) + (if x.value_id == id {
            1int
        } else {
            0int
        }),
    decreases args,
{
    if args.len() == 0 {
        assert(args.push(x).skip(1) =~= Seq::<FormatArgModel>::empty());
        assert(count_id(Seq::<FormatArgModel>::empty(), id) == 0);
        assert(args.push(x)[0] == x);
    } else {
        assert(args.push(x).skip(1) =~= args.skip(1).push(x));
        lemma_count_id_push(args.skip(1), x, id);
        assert(args.push(x)[0] == args[0]);
    }
}

/// Count how many interpolation sites reference the given value.
pub fn count_value_id(args: &Vec<FormatArgModel>, id: u32) -> (r: usize)
    ensures
        r == count_id(args@, id),
{
    let n = args.len();
    let mut cnt: usize = 0;
    let mut i: usize = 0;
    proof {
        assert(args@.take(0) =~= Seq::<FormatArgModel>::empty());
    }
    while i < n
        invariant
            i <= n,
            n == args@.len(),
            cnt <= i,
            cnt == count_id(args@.take(i as int), id),
        decreases n - i,
    {
        proof {
            assert(args@.take(i + 1) =~= args@.take(i as int).push(args@[i as int]));
            lemma_count_id_push(args@.take(i as int), args@[i as int], id);
        }
        if args[i].value_id == id {
            cnt = cnt + 1;
        }
        i = i + 1;
    }
    proof {
        assert(args@.take(n as int) =~= args@);
    }
    cnt
}

/// Whether the character occurs in the text.
pub open spec fn contains_char(s: Seq<char>, c: char) -> bool {
    exists|i: int| 0 <= i < s.len() && s[i] == c
}

/// Scan the text for one character.
pub fn str_contains_char(s: &str, c: char) -> (r: bool)
    ensures
        r == contains_char(s@, c),
{
    let n = s.unicode_len();
    let mut i: usize = 0;
    while i < n
        invariant
            i <= n,
            n == s@.len(),
            forall|j: int| 0 <= j < i ==> s@[j] != c,
        decreases n - i,
    {
        if s.get_char(i) == c {
            return true;
        }
        i = i + 1;
    }
    false
}

/// Curly braces escaped by doubling, so the text can stand in a format
/// string.
pub open spec fn escape_braces_seq(s: Seq<char>) -> Seq<char> {
    replace_char_seq(replace_char_seq(s, '{', "{{"@), '}', "}}"@)
}

/// Escape curly braces by doubling.
pub fn escape_braces(s: &str) -> (r: String)
    ensures
        r@ == escape_braces_seq(s@),
{
    let t = replace_char(s, '{', "{{");
    replace_char(t.as_str(), '}', "}}")
}

/// The replacement text computed for an eligible literal argument, plus
/// whether it must be re-escaped before standing in an escaping format
/// string: a text literal is split out of its quotes (remembering whether
/// it was raw), a character literal goes through a fixed table (quotes are
/// escaped, an escaped single quote is bared, anything else keeps its
/// source spelling), and a boolean literal is spelled out.
pub open spec fn literal_replacement(arg: FormatArgModel) -> (Seq<char>, bool)
    recommends
        arg.value_snippet is Some,
        !(arg.lit is NotLit),
{
    let vs = opt_view(arg.value_snippet)->0;
    match arg.lit {
        LitKind::StrLit => (str_literal_inner(vs), is_raw_literal(vs)),
        LitKind::CharLit(ch) => (
            if ch == '"' {
                "\\\""@
            } else if ch == '\'' {
                "'"@
            } else {
                vs.subrange(1, vs.len() - 1)
            },
            false,
        ),
        LitKind::BoolLit(b) => (
            if b {
                "true"@
            } else {
                "false"@
            },
            false,
        ),
        LitKind::NotLit => (Seq::empty(), false),
    }
}

/// How a replacement fares against the raw-literal rules: `Proceed` with the final
/// text, `NoFix` to lint without offering a rewrite, `Skip` to stay silent.
pub ghost enum ReplacementOutcome {
    Proceed(Seq<char>),
    NoFix,
    Skip,
}

/// The decision between the replacement text and the format string it is folded
/// into: escaping into an escaping literal re-escapes quotes and
/// backslashes; folding escaped text into a raw literal goes through the
/// conservative unescape (lint-only and abstain outcomes carried over); raw
/// text into a raw literal is kept unless it holds a `#` or a quote.
pub open spec fn replacement_outcome(
    repl: Seq<char>,
    replace_raw: bool,
    fs_is_raw: bool,
) -> ReplacementOutcome {
    if !fs_is_raw && !replace_raw {
        ReplacementOutcome::Proceed(repl)
    } else if !fs_is_raw && replace_raw {
        ReplacementOutcome::Proceed(
            replace_char_seq(replace_char_seq(repl, '"', "\\\""@), '\\', "\\\\"@),
        )
    } else if fs_is_raw && !replace_raw {
        match unescape_spec(repl) {
            UnescapeSpec::Fixable(u) => ReplacementOutcome::Proceed(u),
            UnescapeSpec::LintOnly => ReplacementOutcome::NoFix,
            UnescapeSpec::Abstain => ReplacementOutcome::Skip,
        }
    } else {
        if contains_char(repl, '#') || contains_char(repl, '"') {
            ReplacementOutcome::NoFix
        } else {
            ReplacementOutcome::Proceed(repl)
        }
    }
}

/// A literal argument is eligible for inlining: referenced exactly once,
/// no custom format specifier, itself a literal, not born of a macro
/// expansion, and its source text available.
pub open spec fn literal_arg_eligible(arg: FormatArgModel, all: Seq<FormatArgModel>) -> bool {
    &&& count_id(all, arg.value_id) == 1
    &&& arg.is_default_format
    &&& !(arg.lit is NotLit)
    &&& !arg.value_from_expansion
    &&& arg.value_snippet is Some
}

/// Which literal rule the macro family answers to.
pub open spec fn literal_lint(kind: MacroKind) -> LintId {
    if kind is Write || kind is Writeln {
        LintId::WriteLiteral
    } else {
        LintId::PrintLiteral
    }
}

/// The literal-inlining decision for one interpolation site: on an eligible
/// literal argument, fold its replacement text (braces doubled) into the
/// format string and delete the argument; where the escaping rules refuse a fix the
/// diagnostic is still raised without one, and where it abstains no
/// diagnostic is raised at all.
pub open spec fn literal_diag_for(
    arg: FormatArgModel,
    all: Seq<FormatArgModel>,
    fs_is_raw: bool,
    kind: MacroKind,
) -> Option<DiagnosticSpec> {
    if literal_arg_eligible(arg, all) {
        let (repl, replace_raw) = literal_replacement(arg);
        match replacement_outcome(repl, replace_raw, fs_is_raw) {
            ReplacementOutcome::Skip => None,
            ReplacementOutcome::NoFix => Some(
                DiagnosticSpec {
                    lint: literal_lint(kind),
                    span: arg.value_span,
                    message: "literal with an empty format string"@,
                    suggestion: None,
                },
            ),
            ReplacementOutcome::Proceed(t) => Some(
                DiagnosticSpec {
                    lint: literal_lint(kind),
                    span: arg.value_span,
                    message: "literal with an empty format string"@,
                    suggestion: Some(
                        SuggestionSpec {
                            message: "try this"@,
                            edits: seq![
                                (arg.span, escape_braces_seq(t)),
                                (arg.value_span_expanded, Seq::<char>::empty()),
                            ],
                            applicability: Applicability::MachineApplicable,
                        },
                    ),
                },
            ),
        }
    } else {
        None
    }
}

/// An optional diagnostic as a sequence of none or one.
pub open spec fn opt_diag_seq(o: Option<DiagnosticSpec>) -> Seq<DiagnosticSpec> {
    match o {
        Some(d) => seq![d],
        None => Seq::empty(),
    }
}

/// The literal-inlining diagnostics over the interpolation sites in order.
pub open spec fn literal_diags(
    args: Seq<FormatArgModel>,
    all: Seq<FormatArgModel>,
    fs_is_raw: bool,
    kind: MacroKind,
) -> Seq<DiagnosticSpec>
    decreases args,
{
    if args.len() == 0 {
        Seq::empty()
    } else {
        opt_diag_seq(literal_diag_for(args[0], all, fs_is_raw, kind)) + literal_diags(
            args.skip(1),
            all,
            fs_is_raw,
            kind,
        )
    }
}

proof fn lemma_literal_diags_push(
    args: Seq<FormatArgModel>,
    x: FormatArgModel,
    all: Seq<FormatArgModel>,
    fs_is_raw: bool,
    kind: MacroKind,
)
    ensures
        literal_diags(args.push(x), all, fs_is_raw, kind) == literal_diags(
            args,
            all,
            fs_is_raw,
            kind,
        ) + opt_diag_seq(literal_diag_for(x, all, fs_is_raw, kind)),
    decreases args,
{
    let tail = opt_diag_seq(literal_diag_for(x, all, fs_is_raw, kind));
    if args.len() == 0 {
        assert(args.push(x).skip(1) =~= Seq::<FormatArgModel>::empty());
        assert(literal_diags(Seq::<FormatArgModel>::empty(), all, fs_is_raw, kind) =~= Seq::<
            DiagnosticSpec,
        >::empty());
        assert(args.push(x)[0] == x);
        assert(literal_diags(args.push(x), all, fs_is_raw, kind) =~= tail);
        assert(literal_diags(args, all, fs_is_raw, kind) + tail =~= tail);
    } else {
        assert(args.push(x).skip(1) =~= args.skip(1).push(x));
        lemma_literal_diags_push(args.skip(1), x, all, fs_is_raw, kind);
        assert(args.push(x)[0] == args[0]);
        let h = opt_diag_seq(literal_diag_for(args[0], all, fs_is_raw, kind));
        assert(literal_diags(args.push(x), all, fs_is_raw, kind) =~= h + (literal_diags(
            args.skip(1),
            all,
            fs_is_raw,
            kind,
        ) + tail));
        assert(h + (literal_diags(args.skip(1), all, fs_is_raw, kind) + tail) =~= (h
            + literal_diags(args.skip(1), all, fs_is_raw, kind)) + tail);
    }
}

fn literal_diag_exec(
    arg: &FormatArgModel,
    all: &Vec<FormatArgModel>,
    fs_is_raw: bool,
    kind: MacroKind,
) -> (r: Option<Diagnostic>)
    requires
        arg_wf(*arg),
    ensures
        opt_diag_matches(r, literal_diag_for(*arg, all@, fs_is_raw, kind)),
{
    if count_value_id(all, arg.value_id) != 1 {
        return None;
    }
    if !arg.is_default_format {
        return None;
    }
    if arg.value_from_expansion {
        return None;
    }
    let vs: &String = match &arg.value_snippet {
        Some(s) => s,
        None => {
            return None;
        },
    };
    let (repl, replace_raw): (String, bool) = match arg.lit {
        LitKind::StrLit => extract_str_literal(vs.as_str()),
        LitKind::CharLit(ch) => {
            let t: String = if ch == '"' {
                String::from_str("\\\"")
            } else if ch == '\'' {
                String::from_str("'")
            } else {
                let n = vs.as_str().unicode_len();
                vs.as_str().substring_char(1, n - 1).to_owned()
            };
            (t, false)
        },
        LitKind::BoolLit(b) => (
            if b {
                String::from_str("true")
            } else {
                String::from_str("false")
            },
            false,
        ),
        LitKind::NotLit => {
            return None;
        },
    };

    let outcome: Option<String> = if !fs_is_raw && !replace_raw {
        Some(repl)
    } else if !fs_is_raw && replace_raw {
        let step = replace_char(repl.as_str(), '"', "\\\"");
        Some(replace_char(step.as_str(), '\\', "\\\\"))
    } else if fs_is_raw && !replace_raw {
        match conservative_unescape(repl.as_str()) {
            Ok(u) => Some(u),
            Err(UnescapeErr::Lint) => None,
            Err(UnescapeErr::Ignore) => {
                return None;
            },
        }
    } else {
        if str_contains_char(repl.as_str(), '#') || str_contains_char(repl.as_str(), '"') {
            None
        } else {
            Some(repl)
        }
    };

    let lint = if matches!(kind, MacroKind::Write | MacroKind::Writeln) {
        LintId::WriteLiteral
    } else {
        LintId::PrintLiteral
    };
    let suggestion: Option<Suggestion> = match outcome {
        None => None,
        Some(t) => {
            let esc = escape_braces(t.as_str());
            let mut edits: Vec<Edit> = Vec::new();
            edits.push(Edit { span: arg.span, text: esc });
            edits.push(Edit { span: arg.value_span_expanded, text: String::new() });
            proof {
                assert(edits@.map_values(|e: Edit| e@) =~= seq![
                    (arg.span, escape_braces_seq(t@)),
                    (arg.value_span_expanded, Seq::<char>::empty()),
                ]);
            }
            Some(
                Suggestion {
                    message: String::from_str("try this"),
                    edits,
                    applicability: Applicability::MachineApplicable,
                },
            )
        },
    };
    Some(
        Diagnostic {
            lint,
            span: arg.value_span,
            message: String::from_str("literal with an empty format string"),
            suggestion,
        },
    )
}

/// Check every interpolation site of one format call for a literal
/// argument that can be folded into the format string.
pub fn check_literal(f: &FormatCall, kind: MacroKind) -> (r: Vec<Diagnostic>)
    requires
        format_call_wf(*f),
    ensures
        diag_views(r@) == literal_diags(f.args@, f.args@, f.format_string.is_raw, kind),
{
    let mut out: Vec<Diagnostic> = Vec::new();
    let n = f.args.len();
    let mut i: usize = 0;
    proof {
        assert(f.args@.take(0) =~= Seq::<FormatArgModel>::empty());
        assert(diag_views(out@) =~= Seq::<DiagnosticSpec>::empty());
    }
    while i < n
        invariant
            i <= n,
            n == f.args@.len(),
            format_call_wf(*f),
            diag_views(out@) == literal_diags(
                f.args@.take(i as int),
                f.args@,
                f.format_string.is_raw,
                kind,
            ),
        decreases n - i,
    {
        proof {
            assert(f.args@.take(i + 1) =~= f.args@.take(i as int).push(f.args@[i as int]));
            lemma_literal_diags_push(
                f.args@.take(i as int),
                f.args@[i as int],
                f.args@,
                f.format_string.is_raw,
                kind,
            );
        }
        let d = literal_diag_exec(&f.args[i], &f.args, f.format_string.is_raw, kind);
        match d {
            Some(diag) => {
                proof {
                    assert(diag_views(out@.push(diag)) =~= diag_views(out@).push(diag@));
                    assert(diag_views(out@).push(diag@) =~= diag_views(out@) + opt_diag_seq(
                        Some(diag@),
                    ));
                }
                out.push(diag);
            },
            None => {},
        }
        i = i + 1;
    }
    proof {
        assert(f.args@.take(n as int) =~= f.args@);
    }
    out
}

/// The debug-formatting diagnostic for one interpolation site.
pub open spec fn debug_diag(arg: FormatArgModel) -> DiagnosticSpec {
    DiagnosticSpec {
        lint: LintId::UseDebug,
        span: arg.span,
        message: "use of `Debug`-based formatting"@,
        suggestion: None,
    }
}

/// The debug-formatting diagnostics over the interpolation sites in order.
pub open spec fn debug_diags(args: Seq<FormatArgModel>) -> Seq<DiagnosticSpec>
    decreases args,
{
    if args.len() == 0 {
        Seq::empty()
    } else {
        (if args[0].is_debug {
            seq![debug_diag(args[0])]
        } else {
            Seq::<DiagnosticSpec>::empty()
        }) + debug_diags(args.skip(1))
    }
}

proof fn lemma_debug_diags_push(args: Seq<FormatArgModel>, x: FormatArgModel)
    ensures
        debug_diags(args.push(x)) == debug_diags(args) + (if x.is_debug {
            seq![debug_diag(x)]
        } else {
            Seq::<DiagnosticSpec>::empty()
        }),
    decreases args,
{
    let tail: Seq<DiagnosticSpec> = if x.is_debug {
        seq![debug_diag(x)]
    } else {
        Seq::empty()
    };
    if args.len() == 0 {
        assert(args.push(x).skip(1) =~= Seq::<FormatArgModel>::empty());
        assert(debug_diags(Seq::<FormatArgModel>::empty()) =~= Seq::<DiagnosticSpec>::empty());
        assert(args.push(x)[0] == x);
        assert(debug_diags(args.push(x)) =~= tail);
        assert(debug_diags(args) + tail =~= tail);
    } else {
        assert(args.push(x).skip(1) =~= args.skip(1).push(x));
        lemma_debug_diags_push(args.skip(1), x);
        assert(args.push(x)[0] == args[0]);
        let h: Seq<DiagnosticSpec> = if args[0].is_debug {
            seq![debug_diag(args[0])]
        } else {
            Seq::empty()
        };
        assert(debug_diags(args.push(x)) =~= h + (debug_diags(args.skip(1)) + tail));
        assert(h + (debug_diags(args.skip(1)) + tail) =~= (h + debug_diags(args.skip(1))) + tail);
    }
}

/// The stray-output diagnostic for a `print`- or `eprint`-family call.
pub open spec fn stream_diag(lint: LintId, mc: MacroCallModel) -> DiagnosticSpec {
    DiagnosticSpec {
        lint,
        span: mc.span,
        message: "use of `"@ + macro_name_spec(mc.kind) + "!`"@,
        suggestion: None,
    }
}

/// Everything the format rules decide for one macro invocation: the stray
/// stream diagnostic (suppressed for build scripts on the standard output),
/// then — when the host decomposed the call and its format string is not
/// itself born of an expansion — the newline or empty-string diagnostic by
/// family, the literal-inlining diagnostics, and (outside debug-trait
/// implementations) one debug-formatting diagnostic per debug-formatted
/// site.
pub open spec fn check_expr_spec(
    in_debug_impl: bool,
    is_build_script: bool,
    mc: MacroCallModel,
    fmt: Option<FormatCall>,
) -> Seq<DiagnosticSpec> {
    let head: Seq<DiagnosticSpec> = match mc.kind {
        MacroKind::Print | MacroKind::Println => if !is_build_script {
            seq![stream_diag(LintId::PrintStdout, mc)]
        } else {
            Seq::empty()
        },
        MacroKind::Eprint | MacroKind::Eprintln => seq![stream_diag(LintId::PrintStderr, mc)],
        MacroKind::Write | MacroKind::Writeln => Seq::empty(),
    };
    match fmt {
        None => head,
        Some(f) => if f.format_string.from_expansion {
            head
        } else {
            let second: Seq<DiagnosticSpec> = match mc.kind {
                MacroKind::Print | MacroKind::Eprint | MacroKind::Write => opt_diag_seq(
                    check_newline_spec(f, mc),
                ),
                MacroKind::Println | MacroKind::Eprintln | MacroKind::Writeln => opt_diag_seq(
                    check_empty_string_spec(f, mc),
                ),
            };
            let lits = literal_diags(f.args@, f.args@, f.format_string.is_raw, mc.kind);
            let debugs: Seq<DiagnosticSpec> = if !in_debug_impl {
                debug_diags(f.args@)
            } else {
                Seq::empty()
            };
            head + second + lits + debugs
        },
    }
}

/// An item of the host crate, as far as the rules read it.
pub struct Item {
    pub kind: ItemKind,
}

/// The item shapes the rules distinguish: an implementation of a trait
/// (carrying whether the trait resolves to the debug trait), or anything
/// else.
pub enum ItemKind {
    TraitImpl { is_debug_trait: bool },
    OtherItem,
}

/// Whether the item is an implementation of the debug trait.
pub open spec fn is_debug_impl_spec(item: Item) -> bool {
    item.kind matches ItemKind::TraitImpl { is_debug_trait: true }
}

/// Check whether an item implements the debug trait.
pub fn is_debug_impl(item: &Item) -> (r: bool)
    ensures
        r == is_debug_impl_spec(*item),
{
    matches!(item.kind, ItemKind::TraitImpl { is_debug_trait: true })
}

/// The format-rules pass: the one flag carried across sibling call sites —
/// whether the traversal currently stands inside a debug-trait
/// implementation — plus whether the crate under analysis is a build
/// script (whose standard-output prints are intended).
pub struct Write {
    pub in_debug_impl: bool,
    pub is_build_script: bool,
}

impl Write {
    /// A fresh pass, outside any debug-trait implementation.
    pub fn new(is_build_script: bool) -> (r: Write)
        ensures
            r.in_debug_impl == false,
            r.is_build_script == is_build_script,
    {
        Write { in_debug_impl: false, is_build_script }
    }

    /// Entering an item: inside a debug-trait implementation the
    /// debug-formatting rule is silenced.
    pub fn check_item(&mut self, item: &Item)
        ensures
            final(self).in_debug_impl == (if is_debug_impl_spec(*item) {
                true
            } else {
                old(self).in_debug_impl
            }),
            final(self).is_build_script == old(self).is_build_script,
    {
        if is_debug_impl(item) {
            self.in_debug_impl = true;
        }
    }

    /// Leaving an item: the flag is restored on exit of the matching
    /// implementation block, so no scope leaks across call sites.
    pub fn check_item_post(&mut self, item: &Item)
        ensures
            final(self).in_debug_impl == (if is_debug_impl_spec(*item) {
                false
            } else {
                old(self).in_debug_impl
            }),
            final(self).is_build_script == old(self).is_build_script,
    {
        if is_debug_impl(item) {
            self.in_debug_impl = false;
        }
    }

    /// Run all format rules on one macro invocation, given the host's
    /// decomposition of the call (none when the host could not decompose
    /// it). Returns the diagnostics in order.
    pub fn check_expr(&self, mc: &MacroCallModel, fmt: &Option<FormatCall>) -> (r: Vec<Diagnostic>)
        requires
            (*fmt) matches Some(f) ==> format_call_wf(f),
        ensures
            diag_views(r@) == check_expr_spec(self.in_debug_impl, self.is_build_script, *mc, *fmt),
    {
        let mut out: Vec<Diagnostic> = Vec::new();
        let push_stdout = matches!(mc.kind, MacroKind::Print | MacroKind::Println)
            && !self.is_build_script;
        let push_stderr = matches!(mc.kind, MacroKind::Eprint | MacroKind::Eprintln);
        if push_stdout || push_stderr {
            let lint = if push_stdout {
                LintId::PrintStdout
            } else {
                LintId::PrintStderr
            };
            let mut message = String::from_str("use of `");
            message.append(macro_name(mc.kind));
            message.append("!`");
            let d = Diagnostic { lint, span: mc.span, message, suggestion: None };
            proof {
                assert(diag_views(out@.push(d)) =~= diag_views(out@).push(d@));
                assert(diag_views(Seq::<Diagnostic>::empty()).push(d@) =~= seq![d@]);
            }
            out.push(d);
        }
        let ghost head = diag_views(out@);

        let f: &FormatCall = match fmt {
            Some(f) => f,
            None => {
                return out;
            },
        };
        if f.format_string.from_expansion {
            return out;
        }

        let second: Option<Diagnostic> = if matches!(
            mc.kind,
            MacroKind::Print | MacroKind::Eprint | MacroKind::Write,
        ) {
            check_newline(f, mc)
        } else {
            check_empty_string(f, mc)
        };
        match second {
            Some(d) => {
                proof {
                    assert(diag_views(out@.push(d)) =~= diag_views(out@).push(d@));
                    assert(head.push(d@) =~= head + opt_diag_seq(Some(d@)));
                }
                out.push(d);
            },
            None => {
                proof {
                    assert(head + opt_diag_seq(None) =~= head);
                }
            },
        }
        let ghost with_second = diag_views(out@);

        let mut lits = check_literal(f, mc.kind);
        proof {
            assert(diag_views(out@ + lits@) =~= diag_views(out@) + diag_views(lits@));
        }
        out.append(&mut lits);
        let ghost with_lits = diag_views(out@);

        if !self.in_debug_impl {
            let n = f.args.len();
            let mut i: usize = 0;
            proof {
                assert(f.args@.take(0) =~= Seq::<FormatArgModel>::empty());
                assert(with_lits + debug_diags(f.args@.take(0)) =~= with_lits);
            }
            while i < n
                invariant
                    i <= n,
                    n == f.args@.len(),
                    diag_views(out@) == with_lits + debug_diags(f.args@.take(i as int)),
                decreases n - i,
            {
                proof {
                    assert(f.args@.take(i + 1) =~= f.args@.take(i as int).push(f.args@[i as int]));
                    lemma_debug_diags_push(f.args@.take(i as int), f.args@[i as int]);
                }
                if f.args[i].is_debug {
                    let d = Diagnostic {
                        lint: LintId::UseDebug,
                        span: f.args[i].span,
                        message: String::from_str("use of `Debug`-based formatting"),
                        suggestion: None,
                    };
                    proof {
                        assert(diag_views(out@.push(d)) =~= diag_views(out@).push(d@));
                        assert(diag_views(out@).push(d@) =~= diag_views(out@) + seq![d@]);
                        assert(d@ == debug_diag(f.args@[i as int]));
                    }
                    out.push(d);
                } else {
                    proof {
                        assert(diag_views(out@) + Seq::<DiagnosticSpec>::empty() =~= diag_views(
                            out@,
                        ));
                    }
                }
                i = i + 1;
            }
            proof {
                assert(f.args@.take(n as int) =~= f.args@);
            }
        } else {
            proof {
                assert(with_lits + Seq::<DiagnosticSpec>::empty() =~= with_lits);
            }
        }
        proof {
            let spec_r = check_expr_spec(self.in_debug_impl, self.is_build_script, *mc, *fmt);
            assert(spec_r =~= diag_views(out@));
        }
        out
    }
}

} // verus!
