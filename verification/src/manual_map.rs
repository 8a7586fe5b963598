//! The optional-mapping rule: recognizes a two-armed conditional that
//! destructures an optional value and rebuilds it — one arm matching the
//! present variant, the other producing the absent value — and synthesizes
//! the equivalent combinator call, guarding the rewrite with a conservative
//! capture-conflict check.

use crate::ast::{
    explicit_ref_spec, contains_explicit_ref_binding, find_capture, is_local_path, lookup_capture,
    path_to_local_id, peel_addr_of, peel_addr_of_spec, peel_blocks, peel_blocks_spec,
    peel_field_addr, peel_field_addr_spec, prec_below_postfix, prec_below_postfix_spec,
    BaseTy, BindingAnnotation, Capture, CaptureInfo, CaptureKind, Expr, ExprKind, Mutability, Pat,
    PatKind,
};
use crate::diagnostics::{
    app_le, app_min, opt_view, snip, snip_level, snip_spec, Applicability, Diagnostic, Edit,
    LintId, Suggestion,
};
use vstd::prelude::*;
use vstd::string::StringExecFns;

verus! {

/// A recognized optional-value pattern: a catch-all, the absent variant, or
/// the present variant with its payload pattern and the number of reference
/// layers peeled to reach it.
#[derive(Clone, Copy)]
pub enum OptionPat<'a> {
    Wildcard,
    Absent,
    Present { pattern: &'a Pat, ref_count: usize },
}

/// Mathematical counterpart of [`OptionPat`].
pub ghost enum OptionPatSpec {
    Wildcard,
    Absent,
    Present { pattern: Pat, ref_count: nat },
}

/// The payload extracted from an expression wrapped in the present-variant
/// constructor, plus whether a peeled block demanded an unsafe context.
#[derive(Clone, Copy)]
pub struct SomeExpr<'a> {
    pub expr: &'a Expr,
    pub needs_unsafe_block: bool,
}

/// Mathematical counterpart of [`SomeExpr`].
pub ghost struct SomeExprSpec {
    pub expr: Expr,
    pub needs_unsafe_block: bool,
}

/// Host facts the rule needs about the conditional's surroundings: whether
/// the two sibling rules it defers to are suppressed at this node, and
/// whether the conditional stands as the else clause of an outer one.
#[derive(Clone, Copy, PartialEq, Eq, Structural, Debug)]
pub struct MapCtx {
    pub map_unit_fn_allowed: bool,
    pub match_as_ref_allowed: bool,
    pub in_else_clause: bool,
}

/// Number of leading reference layers around a pattern.
pub open spec fn leading_pat_refs(p: Pat) -> nat
    decreases p,
{
    match p.kind {
        PatKind::Ref(sub) => 1 + leading_pat_refs(*sub),
        _ => 0,
    }
}

/// What parsing a pattern into a recognized optional shape returns,
/// starting from `ref_count` already-peeled reference layers: a reference
/// layer recurses, a catch-all or the absent constructor match outright,
/// and the present constructor matches only if its span shares the caller's
/// hygiene context. Everything else yields no shape.
pub open spec fn parse_option_pat(p: Pat, ref_count: nat, ctxt: u32) -> Option<OptionPatSpec>
    decreases p,
{
    match p.kind {
        PatKind::Wild => Some(OptionPatSpec::Wildcard),
        PatKind::Ref(sub) => parse_option_pat(*sub, ref_count + 1, ctxt),
        PatKind::AbsentCtor => Some(OptionPatSpec::Absent),
        PatKind::PresentCtor(sub) => if p.span.ctxt == ctxt {
            Some(OptionPatSpec::Present { pattern: *sub, ref_count })
        } else {
            None
        },
        _ => None,
    }
}

/// The executable parse result agrees with the mathematical one.
pub open spec fn opt_pat_matches(r: Option<OptionPat>, s: Option<OptionPatSpec>) -> bool {
    match (r, s) {
        (None, None) => true,
        (Some(OptionPat::Wildcard), Some(OptionPatSpec::Wildcard)) => true,
        (Some(OptionPat::Absent), Some(OptionPatSpec::Absent)) => true,
        (
            Some(OptionPat::Present { pattern, ref_count }),
            Some(OptionPatSpec::Present { pattern: sp, ref_count: sc }),
        ) => *pattern == sp && ref_count == sc,
        _ => false,
    }
}

fn try_parse_pattern_rec<'a>(pat: &'a Pat, ref_count: usize, ctxt: u32) -> (r: Option<
    OptionPat<'a>,
>)
    requires
        ref_count + leading_pat_refs(*pat) <= usize::MAX,
    ensures
        opt_pat_matches(r, parse_option_pat(*pat, ref_count as nat, ctxt)),
    decreases *pat,
{
    match &pat.kind {
        PatKind::Wild => Some(OptionPat::Wildcard),
        PatKind::Ref(sub) => try_parse_pattern_rec(sub, ref_count + 1, ctxt),
        PatKind::AbsentCtor => Some(OptionPat::Absent),
        PatKind::PresentCtor(sub) => if pat.span.ctxt == ctxt {
            Some(OptionPat::Present { pattern: sub, ref_count })
        } else {
            None
        },
        _ => None,
    }
}

/// Try to parse a pattern into a recognized optional shape: a catch-all,
/// the absent variant, the present variant, or a reference to any of those.
pub fn try_parse_pattern<'a>(pat: &'a Pat, ctxt: u32) -> (r: Option<OptionPat<'a>>)
    requires
        leading_pat_refs(*pat) <= usize::MAX,
    ensures
        opt_pat_matches(r, parse_option_pat(*pat, 0, ctxt)),
{
    try_parse_pattern_rec(pat, 0, ctxt)
}

/// Reference-depth invariant: whenever the parse recognizes the present
/// variant, the reported reference count is exactly the count it started
/// from plus the number of reference layers textually peeled.
pub proof fn lemma_ref_depth_counts_peeled_refs(p: Pat, rc: nat, ctxt: u32)
    ensures
        parse_option_pat(p, rc, ctxt) matches Some(OptionPatSpec::Present { ref_count, .. })
            ==> ref_count == rc + leading_pat_refs(p),
    decreases p,
{
    match p.kind {
        PatKind::Ref(sub) => {
            lemma_ref_depth_counts_peeled_refs(*sub, rc + 1, ctxt);
        },
        _ => {},
    }
}

/// What extracting a "wrapped in the present constructor" expression
/// returns: a direct constructor call in the caller's hygiene context hands
/// out its argument; a statement-free block recurses into its trailing
/// expression, remembering whether the block introduced an unsafe boundary.
pub open spec fn get_some_expr_spec(e: Expr, needs_unsafe_block: bool, ctxt: u32) -> Option<
    SomeExprSpec,
>
    decreases e,
{
    match e.kind {
        ExprKind::Call { callee, args } => if args.len() == 1 && callee.kind
            is PresentCtor && e.span.ctxt == ctxt {
            Some(SomeExprSpec { expr: args[0], needs_unsafe_block })
        } else {
            None
        },
        ExprKind::Block { has_stmts: false, inner: Some(i), user_unsafe } => get_some_expr_spec(
            *i,
            needs_unsafe_block || user_unsafe,
            ctxt,
        ),
        _ => None,
    }
}

/// The executable extraction agrees with the mathematical one.
pub open spec fn some_expr_matches(r: Option<SomeExpr>, s: Option<SomeExprSpec>) -> bool {
    match (r, s) {
        (None, None) => true,
        (Some(a), Some(b)) => *a.expr == b.expr && a.needs_unsafe_block == b.needs_unsafe_block,
        _ => false,
    }
}

/// Extract the expression wrapped by the present-variant constructor,
/// peeling statement-free blocks and tracking unsafe boundaries.
pub fn get_some_expr<'a>(e: &'a Expr, needs_unsafe_block: bool, ctxt: u32) -> (r: Option<
    SomeExpr<'a>,
>)
    ensures
        some_expr_matches(r, get_some_expr_spec(*e, needs_unsafe_block, ctxt)),
    decreases *e,
{
    match &e.kind {
        ExprKind::Call { callee, args } => {
            if args.len() == 1 && matches!(callee.kind, ExprKind::PresentCtor) && e.span.ctxt
                == ctxt {
                Some(SomeExpr { expr: &args[0], needs_unsafe_block })
            } else {
                None
            }
        },
        ExprKind::Block { has_stmts: false, inner: Some(i), user_unsafe } => get_some_expr(
            i,
            needs_unsafe_block || *user_unsafe,
            ctxt,
        ),
        _ => None,
    }
}

/// Whether the expression is the bare absent value, under transparent
/// blocks only.
pub open spec fn is_absent_expr(e: Expr) -> bool {
    peel_blocks_spec(e).kind is AbsentCtor
}

/// Check for the absent value, peeling transparent blocks.
pub fn is_none_expr(e: &Expr) -> (r: bool)
    ensures
        r == is_absent_expr(*e),
{
    matches!(peel_blocks(e).kind, ExprKind::AbsentCtor)
}

/// Whether the payload expression is exactly `function(binding)` so the
/// callee alone can be passed to the combinator: a call of one argument
/// that is a path to the binding, carries no implicit coercions, and whose
/// callee is not an unsafe function.
pub open spec fn can_pass_as_func_spec(binding: u32, e: Expr) -> Option<Expr> {
    match e.kind {
        ExprKind::Call { callee, args } => if args.len() == 1 && is_local_path(args[0], binding)
            && !args[0].has_adjustments && !(callee.ty.base is UnsafeFnTy) {
            Some(*callee)
        } else {
            None
        },
        _ => None,
    }
}

/// Check whether the expression could be passed as a function instead of a
/// closure; returns the callee if so.
pub fn can_pass_as_func<'a>(binding: u32, e: &'a Expr) -> (r: Option<&'a Expr>)
    ensures
        match (r, can_pass_as_func_spec(binding, *e)) {
            (None, None) => true,
            (Some(a), Some(b)) => *a == b,
            _ => false,
        },
{
    match &e.kind {
        ExprKind::Call { callee, args } => {
            if args.len() == 1 && path_to_local_id(&args[0], binding) && !args[0].has_adjustments
                && !matches!(callee.ty.base, BaseTy::UnsafeFnTy) {
                Some(callee)
            } else {
                None
            }
        },
        _ => None,
    }
}

/// Whether the proposed closure's captures conflict with the borrow the
/// destructuring still takes of the scrutinee's root binding: a by-value or
/// mutable capture of that root always conflicts; an immutable capture
/// conflicts only if the destructuring itself needs a mutable reference.
pub open spec fn scrutinee_conflict(
    scrutinee: Expr,
    caps: Seq<Capture>,
    binding_ref: Option<Mutability>,
) -> bool {
    match binding_ref {
        None => false,
        Some(m) => {
            let root = peel_field_addr_spec(scrutinee);
            match root.kind {
                ExprKind::PathLocal(l) => match find_capture(caps, l) {
                    Some(CaptureKind::ByValue) => true,
                    Some(CaptureKind::ByRef(Mutability::Mut)) => true,
                    Some(CaptureKind::ByRef(Mutability::Not)) => m is Mut,
                    None => false,
                },
                _ => false,
            }
        },
    }
}

/// Executable capture-conflict check on the scrutinee's root binding.
pub fn check_scrutinee_conflict(
    scrutinee: &Expr,
    caps: &Vec<Capture>,
    binding_ref: Option<Mutability>,
) -> (r: bool)
    ensures
        r == scrutinee_conflict(*scrutinee, caps@, binding_ref),
{
    match binding_ref {
        None => false,
        Some(m) => {
            let root = peel_field_addr(scrutinee);
            match &root.kind {
                ExprKind::PathLocal(l) => match lookup_capture(caps, *l) {
                    Some(CaptureKind::ByValue) => true,
                    Some(CaptureKind::ByRef(Mutability::Mut)) => true,
                    Some(CaptureKind::ByRef(Mutability::Not)) => matches!(m, Mutability::Mut),
                    None => false,
                },
                _ => false,
            }
        },
    }
}

/// The candidate a two-armed conditional yields: the body wrapped in the
/// present constructor, the payload pattern, the reference layers around
/// it, and whether the other arm was a catch-all.
pub ghost struct CandidateSpec {
    pub some_body: Expr,
    pub some_pat: Pat,
    pub pat_ref_count: nat,
    pub is_wild_none: bool,
}

/// The driver policy over the two arms: exactly one arm's pattern is the
/// present variant, the other is a catch-all or the absent variant, and the
/// other arm's body is the absent value. A missing else pattern counts as a
/// catch-all.
pub open spec fn candidate_spec(
    then_pat: Pat,
    then_body: Expr,
    else_pat: Option<Pat>,
    else_body: Expr,
    ctxt: u32,
) -> Option<CandidateSpec> {
    let tp = parse_option_pat(then_pat, 0, ctxt);
    let ep = match else_pat {
        None => Some(OptionPatSpec::Wildcard),
        Some(p) => parse_option_pat(p, 0, ctxt),
    };
    match (tp, ep) {
        (Some(OptionPatSpec::Wildcard), Some(OptionPatSpec::Present { pattern, ref_count })) => if is_absent_expr(
            then_body,
        ) {
            Some(
                CandidateSpec {
                    some_body: else_body,
                    some_pat: pattern,
                    pat_ref_count: ref_count,
                    is_wild_none: true,
                },
            )
        } else {
            None
        },
        (Some(OptionPatSpec::Absent), Some(OptionPatSpec::Present { pattern, ref_count })) => if is_absent_expr(
            then_body,
        ) {
            Some(
                CandidateSpec {
                    some_body: else_body,
                    some_pat: pattern,
                    pat_ref_count: ref_count,
                    is_wild_none: false,
                },
            )
        } else {
            None
        },
        (Some(OptionPatSpec::Present { pattern, ref_count }), Some(OptionPatSpec::Wildcard)) => if is_absent_expr(
            else_body,
        ) {
            Some(
                CandidateSpec {
                    some_body: then_body,
                    some_pat: pattern,
                    pat_ref_count: ref_count,
                    is_wild_none: true,
                },
            )
        } else {
            None
        },
        (Some(OptionPatSpec::Present { pattern, ref_count }), Some(OptionPatSpec::Absent)) => if is_absent_expr(
            else_body,
        ) {
            Some(
                CandidateSpec {
                    some_body: then_body,
                    some_pat: pattern,
                    pat_ref_count: ref_count,
                    is_wild_none: false,
                },
            )
        } else {
            None
        },
        _ => None,
    }
}

/// The callee the point-free form would pass, if the payload pattern is a
/// plain binding, no unsafe wrapper is needed, the body is exactly a call
/// of that binding, and the callee's hygiene context matches the body's.
pub open spec fn point_free_callee(some_pat: Pat, se: SomeExprSpec) -> Option<Expr> {
    match some_pat.kind {
        PatKind::Binding { id, sub: None, .. } => {
            let func = can_pass_as_func_spec(id, se.expr);
            if !se.needs_unsafe_block && func is Some && func->0.span.ctxt == se.expr.span.ctxt {
                func
            } else {
                None
            }
        },
        _ => None,
    }
}

/// The text of the closure (or callee) handed to the combinator, with the
/// applicability accumulated so far, or no result where the rule must
/// abstain: when the binding would just be returned and the sibling
/// reference-style rule applies, or on a destructuring pattern that a
/// single-parameter closure cannot express.
pub open spec fn body_spec(
    some_pat: Pat,
    se: SomeExprSpec,
    binding_ref: Option<Mutability>,
    explicit_ref: Option<Mutability>,
    is_wild_none: bool,
    ctx: MapCtx,
    app0: Applicability,
) -> Option<(Seq<char>, Applicability)> {
    match some_pat.kind {
        PatKind::Binding { annotation, id, name, sub: None } => {
            if point_free_callee(some_pat, se) is Some {
                let func = point_free_callee(some_pat, se)->0;
                Some(snip_spec(opt_view(func.text), app0))
            } else if is_local_path(se.expr, id) && !ctx.match_as_ref_allowed && binding_ref
                is Some {
                None
            } else {
                let ann: Seq<char> = if annotation is Mutable {
                    "mut "@
                } else {
                    ""@
                };
                let (etext, app) = snip_spec(opt_view(se.expr.text), app0);
                if se.needs_unsafe_block {
                    Some(("|"@ + ann + name@ + "| unsafe { "@ + etext + " }"@, app))
                } else {
                    Some(("|"@ + ann + name@ + "| "@ + etext, app))
                }
            }
        },
        _ => {
            if !is_wild_none && explicit_ref is None {
                let (ptext, app1) = snip_spec(opt_view(some_pat.text), app0);
                let (etext, app) = snip_spec(opt_view(se.expr.text), app1);
                if se.needs_unsafe_block {
                    Some(("|"@ + ptext + "| unsafe { "@ + etext + " }"@, app))
                } else {
                    Some(("|"@ + ptext + "| "@ + etext, app))
                }
            } else {
                None
            }
        },
    }
}

/// The full replacement text and applicability the rule synthesizes: the
/// scrutinee's text (reference-taking operators peeled, parenthesized when
/// precedence demands), the reference-adapter call when binding modes ask
/// for one, and the combinator call around the closure text — wrapped in
/// braces when the conditional stands as an else clause.
pub open spec fn synth_spec(
    conditional: Expr,
    scrutinee: Expr,
    cand: CandidateSpec,
    se: SomeExprSpec,
    binding_ref: Option<Mutability>,
    explicit_ref: Option<Mutability>,
    no_else_pat: bool,
    ctx: MapCtx,
) -> Option<(Seq<char>, Applicability)> {
    let as_ref_str: Seq<char> = match binding_ref {
        Some(Mutability::Mut) => ".as_mut()"@,
        Some(Mutability::Not) => ".as_ref()"@,
        None => ""@,
    };
    let scrut = peel_addr_of_spec(scrutinee);
    let (stext, app1) = snip_spec(opt_view(scrut.text), Applicability::MachineApplicable);
    let scrut_str: Seq<char> = if scrut.span.ctxt == conditional.span.ctxt
        && prec_below_postfix_spec(scrut) {
        "("@ + stext + ")"@
    } else {
        stext
    };
    match body_spec(cand.some_pat, se, binding_ref, explicit_ref, cand.is_wild_none, ctx, app1) {
        None => None,
        Some((btext, app)) => {
            let core = scrut_str + as_ref_str + ".map("@ + btext + ")"@;
            let text: Seq<char> = if no_else_pat && ctx.in_else_clause {
                "{ "@ + core + " }"@
            } else {
                core
            };
            Some((text, app))
        },
    }
}

/// Everything the optional-mapping rule decides for one conditional: the
/// replacement text and applicability of the suggestion, or no diagnostic.
pub open spec fn map_check_spec(
    conditional: Expr,
    scrutinee: Expr,
    then_pat: Pat,
    then_body: Expr,
    else_pat: Option<Pat>,
    else_body: Expr,
    ctx: MapCtx,
) -> Option<(Seq<char>, Applicability)> {
    if !(scrutinee.ty.base is OptionTy && conditional.ty.ref_count == 0 && conditional.ty.base
        is OptionTy) {
        None
    } else {
        let expr_ctxt = conditional.span.ctxt;
        match candidate_spec(then_pat, then_body, else_pat, else_body, expr_ctxt) {
            None => None,
            Some(cand) => if cand.some_pat.kind is Or {
                None
            } else {
                match get_some_expr_spec(cand.some_body, false, expr_ctxt) {
                    None => None,
                    Some(se) => if se.expr.ty.ref_count == 0 && se.expr.ty.base is UnitTy
                        && !ctx.map_unit_fn_allowed {
                        None
                    } else if se.expr.has_adjustments {
                        None
                    } else {
                        let explicit_ref = explicit_ref_spec(cand.some_pat);
                        let binding_ref: Option<Mutability> = if explicit_ref is Some {
                            explicit_ref
                        } else if scrutinee.ty.ref_count != cand.pat_ref_count {
                            Some(scrutinee.ty.ref_mutability)
                        } else {
                            None
                        };
                        match se.expr.captures {
                            CaptureInfo::NotMovable => None,
                            CaptureInfo::Movable(caps) => if scrutinee_conflict(
                                scrutinee,
                                caps@,
                                binding_ref,
                            ) {
                                None
                            } else {
                                synth_spec(
                                    conditional,
                                    scrutinee,
                                    cand,
                                    se,
                                    binding_ref,
                                    explicit_ref,
                                    else_pat is None,
                                    ctx,
                                )
                            },
                        }
                    },
                }
            },
        }
    }
}

/// The view of an optional borrowed pattern.
pub open spec fn deref_opt_pat(p: Option<&Pat>) -> Option<Pat> {
    match p {
        Some(q) => Some(*q),
        None => None,
    }
}

/// The produced diagnostic agrees with the mathematical decision: same
/// replacement text, same applicability, the suggestion replacing exactly
/// the conditional's span.
pub open spec fn map_diag_matches(
    r: Option<Diagnostic>,
    s: Option<(Seq<char>, Applicability)>,
    conditional: Expr,
) -> bool {
    match (r, s) {
        (None, None) => true,
        (Some(d), Some((text, app))) => {
            &&& d.lint == LintId::ManualMap
            &&& d.span == conditional.span
            &&& d.message@ == "manual implementation of `Option::map`"@
            &&& d.suggestion matches Some(sugg) && sugg.message@ == "try this"@
                && sugg.applicability == app && sugg.edits@.len() == 1 && sugg.edits@[0].span
                == conditional.span && sugg.edits@[0].text@ == text
        },
        _ => false,
    }
}

/// Run the optional-mapping rule on one two-armed conditional, given the
/// whole conditional expression, its scrutinee, the two arm patterns (none
/// standing for a catch-all else) and bodies, and the surrounding host
/// facts. Returns the diagnostic to raise, if any.
#[verifier::rlimit(100)]
#[verifier::spinoff_prover]
pub fn check(
    conditional: &Expr,
    scrutinee: &Expr,
    then_pat: &Pat,
    then_body: &Expr,
    else_pat: Option<&Pat>,
    else_body: &Expr,
    ctx: MapCtx,
) -> (r: Option<Diagnostic>)
    requires
        leading_pat_refs(*then_pat) <= usize::MAX,
        else_pat matches Some(p) ==> leading_pat_refs(*p) <= usize::MAX,
    ensures
        map_diag_matches(
            r,
            map_check_spec(
                *conditional,
                *scrutinee,
                *then_pat,
                *then_body,
                deref_opt_pat(else_pat),
                *else_body,
                ctx,
            ),
            *conditional,
        ),
{
    if !(matches!(scrutinee.ty.base, BaseTy::OptionTy) && conditional.ty.ref_count == 0 && matches!(
        conditional.ty.base,
        BaseTy::OptionTy,
    )) {
        return None;
    }
    let expr_ctxt = conditional.span.ctxt;

    let tp = try_parse_pattern(then_pat, expr_ctxt);
    let ep = match else_pat {
        Some(p) => try_parse_pattern(p, expr_ctxt),
        None => Some(OptionPat::Wildcard),
    };
    let then_none = is_none_expr(then_body);
    let else_none = is_none_expr(else_body);
    let (some_body, some_pat, pat_ref_count, is_wild_none): (&Expr, &Pat, usize, bool) = match (
        tp,
        ep,
    ) {
        (Some(OptionPat::Wildcard), Some(OptionPat::Present { pattern, ref_count })) => {
            if then_none {
                (else_body, pattern, ref_count, true)
            } else {
                return None;
            }
        },
        (Some(OptionPat::Absent), Some(OptionPat::Present { pattern, ref_count })) => {
            if then_none {
                (else_body, pattern, ref_count, false)
            } else {
                return None;
            }
        },
        (Some(OptionPat::Present { pattern, ref_count }), Some(OptionPat::Wildcard)) => {
            if else_none {
                (then_body, pattern, ref_count, true)
            } else {
                return None;
            }
        },
        (Some(OptionPat::Present { pattern, ref_count }), Some(OptionPat::Absent)) => {
            if else_none {
                (then_body, pattern, ref_count, false)
            } else {
                return None;
            }
        },
        _ => {
            return None;
        },
    };

    // Top level or-patterns cannot stand as a closure parameter.
    if matches!(some_pat.kind, PatKind::Or(_)) {
        return None;
    }

    let se = match get_some_expr(some_body, false, expr_ctxt) {
        Some(se) => se,
        None => {
            return None;
        },
    };

    // These two rules would otherwise go back and forth with each other.
    if se.expr.ty.ref_count == 0 && matches!(se.expr.ty.base, BaseTy::UnitTy)
        && !ctx.map_unit_fn_allowed {
        return None;
    }

    // The combinator will not perform any implicit coercions.
    if se.expr.has_adjustments {
        return None;
    }

    // Determine which binding mode to use.
    let explicit_ref = contains_explicit_ref_binding(some_pat);
    let binding_ref: Option<Mutability> = match explicit_ref {
        Some(m) => Some(m),
        None => {
            if scrutinee.ty.ref_count != pat_ref_count {
                Some(scrutinee.ty.ref_mutability)
            } else {
                None
            }
        },
    };

    let caps = match &se.expr.captures {
        CaptureInfo::NotMovable => {
            return None;
        },
        CaptureInfo::Movable(caps) => caps,
    };
    if check_scrutinee_conflict(scrutinee, caps, binding_ref) {
        return None;
    }

    let as_ref_str: &str = match binding_ref {
        Some(Mutability::Mut) => ".as_mut()",
        Some(Mutability::Not) => ".as_ref()",
        None => "",
    };

    let mut app = Applicability::MachineApplicable;

    // Reference-taking operators on the scrutinee become redundant: either
    // the adapter call is inserted, or the value is passed as it is.
    let scrut = peel_addr_of(scrutinee);
    let stext = snip(&scrut.text, &mut app);
    let scrut_str: String = if scrut.span.ctxt == conditional.span.ctxt && prec_below_postfix(
        scrut,
    ) {
        let mut t = String::from_str("(");
        t.append(stext.as_str());
        t.append(")");
        t
    } else {
        stext
    };

    let body_str: String = match &some_pat.kind {
        PatKind::Binding { annotation, id, name, sub: None } => {
            let mut use_func: Option<&Expr> = None;
            if !se.needs_unsafe_block {
                if let Some(func) = can_pass_as_func(*id, se.expr) {
                    if func.span.ctxt == se.expr.span.ctxt {
                        use_func = Some(func);
                    }
                }
            }
            match use_func {
                Some(func) => snip(&func.text, &mut app),
                None => {
                    if path_to_local_id(se.expr, *id) && !ctx.match_as_ref_allowed
                        && binding_ref.is_some() {
                        return None;
                    }
                    // `ref` and `ref mut` annotations were handled earlier.
                    let ann: &str = if matches!(annotation, BindingAnnotation::Mutable) {
                        "mut "
                    } else {
                        ""
                    };
                    let etext = snip(&se.expr.text, &mut app);
                    let mut b = String::from_str("|");
                    b.append(ann);
                    b.append(name.as_str());
                    if se.needs_unsafe_block {
                        b.append("| unsafe { ");
                        b.append(etext.as_str());
                        b.append(" }");
                    } else {
                        b.append("| ");
                        b.append(etext.as_str());
                    }
                    b
                },
            }
        },
        _ => {
            if !is_wild_none && explicit_ref.is_none() {
                let ptext = snip(&some_pat.text, &mut app);
                let etext = snip(&se.expr.text, &mut app);
                let mut b = String::from_str("|");
                b.append(ptext.as_str());
                if se.needs_unsafe_block {
                    b.append("| unsafe { ");
                    b.append(etext.as_str());
                    b.append(" }");
                } else {
                    b.append("| ");
                    b.append(etext.as_str());
                }
                b
            } else {
                // Refutable bindings and mixed reference annotations cannot
                // stand as a single closure parameter.
                return None;
            }
        },
    };

    let mut core = scrut_str;
    core.append(as_ref_str);
    core.append(".map(");
    core.append(body_str.as_str());
    core.append(")");
    let full: String = if else_pat.is_none() && ctx.in_else_clause {
        let mut w = String::from_str("{ ");
        w.append(core.as_str());
        w.append(" }");
        w
    } else {
        core
    };

    let mut edits: Vec<Edit> = Vec::new();
    edits.push(Edit { span: conditional.span, text: full });
    Some(
        Diagnostic {
            lint: LintId::ManualMap,
            span: conditional.span,
            message: String::from_str("manual implementation of `Option::map`"),
            suggestion: Some(
                Suggestion {
                    message: String::from_str("try this"),
                    edits,
                    applicability: app,
                },
            ),
        },
    )
}

/// An arm of a two-armed conditional: its pattern, whether it carries a
/// guard, and its body.
pub struct Arm {
    pub pat: Pat,
    pub has_guard: bool,
    pub body: Expr,
}

/// The rule's decision for a match expression: it considers exactly
/// two-armed matches where neither arm carries a guard.
pub open spec fn check_match_spec(
    conditional: Expr,
    scrutinee: Expr,
    arms: Seq<Arm>,
    ctx: MapCtx,
) -> Option<(Seq<char>, Applicability)> {
    if arms.len() == 2 && !arms[0].has_guard && !arms[1].has_guard {
        map_check_spec(
            conditional,
            scrutinee,
            arms[0].pat,
            arms[0].body,
            Some(arms[1].pat),
            arms[1].body,
            ctx,
        )
    } else {
        None
    }
}

/// Run the optional-mapping rule on a match expression.
pub fn check_match(conditional: &Expr, scrutinee: &Expr, arms: &Vec<Arm>, ctx: MapCtx) -> (r:
    Option<Diagnostic>)
    requires
        forall|i: int| 0 <= i < arms@.len() ==> leading_pat_refs(arms@[i].pat) <= usize::MAX,
    ensures
        map_diag_matches(r, check_match_spec(*conditional, *scrutinee, arms@, ctx), *conditional),
{
    if arms.len() == 2 && !arms[0].has_guard && !arms[1].has_guard {
        check(
            conditional,
            scrutinee,
            &arms[0].pat,
            &arms[0].body,
            Some(&arms[1].pat),
            &arms[1].body,
            ctx,
        )
    } else {
        None
    }
}

/// Run the optional-mapping rule on an if-let conditional with an else
/// branch (the else side counts as a catch-all arm).
pub fn check_if_let(
    conditional: &Expr,
    let_pat: &Pat,
    let_expr: &Expr,
    then_expr: &Expr,
    else_expr: &Expr,
    ctx: MapCtx,
) -> (r: Option<Diagnostic>)
    requires
        leading_pat_refs(*let_pat) <= usize::MAX,
    ensures
        map_diag_matches(
            r,
            map_check_spec(
                *conditional,
                *let_expr,
                *let_pat,
                *then_expr,
                None,
                *else_expr,
                ctx,
            ),
            *conditional,
        ),
{
    check(conditional, let_expr, let_pat, then_expr, None, else_expr, ctx)
}

proof fn lemma_app_min_le(a: Applicability, b: Applicability)
    ensures
        app_le(app_min(a, b), a),
        app_le(app_min(a, b), b),
{
}

/// Applicability monotonicity: a suggestion's reported applicability never
/// exceeds the strength of any snippet sub-decision that contributed text
/// to it — the scrutinee's snippet always contributes; in the point-free
/// form the callee's snippet does; in the closure forms the payload
/// expression's snippet does, and the pattern's as well when the closure
/// parameter is a destructuring pattern.
pub proof fn lemma_applicability_monotone(
    conditional: Expr,
    scrutinee: Expr,
    then_pat: Pat,
    then_body: Expr,
    else_pat: Option<Pat>,
    else_body: Expr,
    ctx: MapCtx,
)
    ensures
        map_check_spec(conditional, scrutinee, then_pat, then_body, else_pat, else_body, ctx)
            matches Some((text, app)) ==> {
            let expr_ctxt = conditional.span.ctxt;
            let cand = candidate_spec(then_pat, then_body, else_pat, else_body, expr_ctxt)->0;
            let se = get_some_expr_spec(cand.some_body, false, expr_ctxt)->0;
            &&& app_le(app, snip_level(opt_view(peel_addr_of_spec(scrutinee).text)))
            &&& (point_free_callee(cand.some_pat, se) matches Some(f) ==> app_le(
                app,
                snip_level(opt_view(f.text)),
            ))
            &&& (point_free_callee(cand.some_pat, se) is None ==> app_le(
                app,
                snip_level(opt_view(se.expr.text)),
            ))
            &&& (!(cand.some_pat.kind matches PatKind::Binding { sub: None, .. }) ==> app_le(
                app,
                snip_level(opt_view(cand.some_pat.text)),
            ))
        },
{
    let r = map_check_spec(conditional, scrutinee, then_pat, then_body, else_pat, else_body, ctx);
    if r is Some {
        let expr_ctxt = conditional.span.ctxt;
        let cand = candidate_spec(then_pat, then_body, else_pat, else_body, expr_ctxt)->0;
        let se = get_some_expr_spec(cand.some_body, false, expr_ctxt)->0;
        let scrut = peel_addr_of_spec(scrutinee);
        let app1 = snip_spec(opt_view(scrut.text), Applicability::MachineApplicable).1;
        lemma_app_min_le(Applicability::MachineApplicable, snip_level(opt_view(scrut.text)));
        lemma_app_min_le(app1, snip_level(opt_view(se.expr.text)));
        match cand.some_pat.kind {
            PatKind::Binding { annotation, id, name, sub: None } => {
                if point_free_callee(cand.some_pat, se) is Some {
                    let f = point_free_callee(cand.some_pat, se)->0;
                    lemma_app_min_le(app1, snip_level(opt_view(f.text)));
                }
            },
            _ => {
                let app2 = snip_spec(opt_view(cand.some_pat.text), app1).1;
                lemma_app_min_le(app1, snip_level(opt_view(cand.some_pat.text)));
                lemma_app_min_le(app2, snip_level(opt_view(se.expr.text)));
            },
        }
    }
}

/// The rule fires: whenever the scrutinee and the conditional are of the
/// optional type, the two arms parse to a present-variant arm against a
/// catch-all or absent arm whose body is the absent value, the payload
/// pattern is a plain binding, the payload expression carries no coercions
/// and can be moved into a closure without conflicting with the scrutinee's
/// root binding, and no sibling rule takes precedence, the rule produces a
/// suggestion.
pub proof fn lemma_rule_fires(
    conditional: Expr,
    scrutinee: Expr,
    then_pat: Pat,
    then_body: Expr,
    else_pat: Option<Pat>,
    else_body: Expr,
    ctx: MapCtx,
)
    requires
        scrutinee.ty.base is OptionTy,
        conditional.ty.ref_count == 0,
        conditional.ty.base is OptionTy,
        candidate_spec(then_pat, then_body, else_pat, else_body, conditional.span.ctxt) is Some,
        ({
            let cand = candidate_spec(
                then_pat,
                then_body,
                else_pat,
                else_body,
                conditional.span.ctxt,
            )->0;
            &&& cand.some_pat.kind matches PatKind::Binding { sub: None, .. }
            &&& get_some_expr_spec(cand.some_body, false, conditional.span.ctxt) is Some
            &&& ({
                let se = get_some_expr_spec(cand.some_body, false, conditional.span.ctxt)->0;
                let explicit_ref = explicit_ref_spec(cand.some_pat);
                let binding_ref: Option<Mutability> = if explicit_ref is Some {
                    explicit_ref
                } else if scrutinee.ty.ref_count != cand.pat_ref_count {
                    Some(scrutinee.ty.ref_mutability)
                } else {
                    None
                };
                &&& !(se.expr.ty.ref_count == 0 && se.expr.ty.base is UnitTy
                    && !ctx.map_unit_fn_allowed)
                &&& !se.expr.has_adjustments
                &&& se.expr.captures matches CaptureInfo::Movable(caps) && !scrutinee_conflict(
                    scrutinee,
                    caps@,
                    binding_ref,
                )
                &&& !(is_local_path(se.expr, cand.some_pat.kind->Binding_id)
                    && !ctx.match_as_ref_allowed && binding_ref is Some)
            })
        }),
    ensures
        map_check_spec(conditional, scrutinee, then_pat, then_body, else_pat, else_body, ctx)
            is Some,
{
}

} // verus!
