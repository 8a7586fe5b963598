//! The output interface of every rule: diagnostics, fix suggestions and
//! their applicability level, together with source spans and the snippet
//! oracle through which rules obtain source text.

use vstd::prelude::*;

verus! {

/// A source span: a character range in the original source plus the hygiene
/// context (an opaque token identifying the macro-expansion universe the
/// text belongs to). Two spans are substitutable only if contexts match.
#[derive(Clone, Copy, PartialEq, Eq, Structural, Debug)]
pub struct Span {
    pub lo: usize,
    pub hi: usize,
    pub ctxt: u32,
}

/// Confidence level of a machine-generated fix, ordered weakest to strongest.
#[derive(Clone, Copy, PartialEq, Eq, Structural, Debug)]
pub enum Applicability {
    Unspecified,
    HasPlaceholders,
    MaybeIncorrect,
    MachineApplicable,
}

/// Position of an applicability level in the weakest-to-strongest order.
pub open spec fn app_level(a: Applicability) -> nat {
    match a {
        Applicability::Unspecified => 0,
        Applicability::HasPlaceholders => 1,
        Applicability::MaybeIncorrect => 2,
        Applicability::MachineApplicable => 3,
    }
}

/// `a` is at most as strong as `b`.
pub open spec fn app_le(a: Applicability, b: Applicability) -> bool {
    app_level(a) <= app_level(b)
}

/// The weaker of two applicability levels.
pub open spec fn app_min(a: Applicability, b: Applicability) -> Applicability {
    if app_level(a) <= app_level(b) {
        a
    } else {
        b
    }
}

/// The weaker of two applicability levels, executable form.
pub fn app_min_exec(a: Applicability, b: Applicability) -> (r: Applicability)
    ensures
        r == app_min(a, b),
{
    let la: u8 = match a {
        Applicability::Unspecified => 0,
        Applicability::HasPlaceholders => 1,
        Applicability::MaybeIncorrect => 2,
        Applicability::MachineApplicable => 3,
    };
    let lb: u8 = match b {
        Applicability::Unspecified => 0,
        Applicability::HasPlaceholders => 1,
        Applicability::MaybeIncorrect => 2,
        Applicability::MachineApplicable => 3,
    };
    if la <= lb {
        a
    } else {
        b
    }
}

/// The rules this crate implements, each the identity of one diagnostic.
#[derive(Clone, Copy, PartialEq, Eq, Structural, Debug)]
pub enum LintId {
    ManualMap,
    PrintWithNewline,
    PrintlnEmptyString,
    PrintStdout,
    PrintStderr,
    UseDebug,
    PrintLiteral,
    WriteWithNewline,
    WritelnEmptyString,
    WriteLiteral,
}

/// One textual edit of a suggestion: replace the text of `span` by `text`.
pub struct Edit {
    pub span: Span,
    pub text: String,
}

/// A fix suggestion: a set of edits to apply atomically, with a confidence
/// level. The overall applicability is the minimum across all sub-decisions
/// that contributed text to the suggestion.
pub struct Suggestion {
    pub message: String,
    pub edits: Vec<Edit>,
    pub applicability: Applicability,
}

/// A diagnostic produced for the host: the rule it comes from, its primary
/// span, a message, and an optional fix suggestion.
pub struct Diagnostic {
    pub lint: LintId,
    pub span: Span,
    pub message: String,
    pub suggestion: Option<Suggestion>,
}

/// Mathematical model of a [`Suggestion`].
pub ghost struct SuggestionSpec {
    pub message: Seq<char>,
    pub edits: Seq<(Span, Seq<char>)>,
    pub applicability: Applicability,
}

/// Mathematical model of a [`Diagnostic`].
pub ghost struct DiagnosticSpec {
    pub lint: LintId,
    pub span: Span,
    pub message: Seq<char>,
    pub suggestion: Option<SuggestionSpec>,
}

impl View for Edit {
    type V = (Span, Seq<char>);

    open spec fn view(&self) -> (Span, Seq<char>) {
        (self.span, self.text@)
    }
}

impl View for Suggestion {
    type V = SuggestionSpec;

    open spec fn view(&self) -> SuggestionSpec {
        SuggestionSpec {
            message: self.message@,
            edits: self.edits@.map_values(|e: Edit| e@),
            applicability: self.applicability,
        }
    }
}

impl View for Diagnostic {
    type V = DiagnosticSpec;

    open spec fn view(&self) -> DiagnosticSpec {
        DiagnosticSpec {
            lint: self.lint,
            span: self.span,
            message: self.message@,
            suggestion: match self.suggestion {
                Some(s) => Some(s@),
                None => None,
            },
        }
    }
}

/// The models of a sequence of diagnostics.
pub open spec fn diag_views(s: Seq<Diagnostic>) -> Seq<DiagnosticSpec> {
    s.map_values(|d: Diagnostic| d@)
}

/// The view of an optional snippet.
pub open spec fn opt_view(t: Option<String>) -> Option<Seq<char>> {
    match t {
        Some(s) => Some(s@),
        None => None,
    }
}

/// The strength the snippet oracle contributes for one node: full strength
/// when the host can hand out the node's source text, placeholder strength
/// otherwise.
pub open spec fn snip_level(text: Option<Seq<char>>) -> Applicability {
    match text {
        Some(_) => Applicability::MachineApplicable,
        None => Applicability::HasPlaceholders,
    }
}

/// What the snippet oracle returns for one node, and how it weakens the
/// applicability accumulated so far: the node's text if available, else the
/// placeholder `..`.
pub open spec fn snip_spec(text: Option<Seq<char>>, app: Applicability) -> (Seq<char>, Applicability) {
    (
        match text {
            Some(s) => s,
            None => ".."@,
        },
        app_min(app, snip_level(text)),
    )
}

/// Fetch a node's source text through the snippet oracle, weakening `app`
/// when only a placeholder is available.
pub fn snip(text: &Option<String>, app: &mut Applicability) -> (r: String)
    ensures
        (r@, *final(app)) == snip_spec(opt_view(*text), *old(app)),
{
    match text {
        Some(t) => {
            proof {
                assert(app_min(*app, Applicability::MachineApplicable) == *app);
            }
            t.clone()
        },
        None => {
            *app = app_min_exec(*app, Applicability::HasPlaceholders);
            String::from_str("..")
        },
    }
}

} // verus!
