//! The library's model of the host compiler's typed syntax tree: read-only
//! views of patterns and expressions, carrying the host-resolved facts the
//! rules read (types, adjustments, capture analysis, snippets, hygiene
//! contexts). All views are fully materialized before a rule runs.

use crate::diagnostics::Span;
use vstd::prelude::*;

verus! {

/// Whether a reference or binding may mutate what it points at.
#[derive(Clone, Copy, PartialEq, Eq, Structural, Debug)]
pub enum Mutability {
    Not,
    Mut,
}

/// How a local binding would be captured if an expression were moved into a
/// closure.
#[derive(Clone, Copy, PartialEq, Eq, Structural, Debug)]
pub enum CaptureKind {
    ByValue,
    ByRef(Mutability),
}

/// The annotation on a pattern binding: plain, `mut`, `ref` or `ref mut`.
#[derive(Clone, Copy, PartialEq, Eq, Structural, Debug)]
pub enum BindingAnnotation {
    Plain,
    Mutable,
    RefImm,
    RefMut,
}

/// The base of an expression's host-resolved type once its leading
/// references are peeled: the classes of types the rules distinguish.
#[derive(Clone, Copy, PartialEq, Eq, Structural, Debug)]
pub enum BaseTy {
    OptionTy,
    UnitTy,
    UnsafeFnTy,
    OtherTy,
}

/// Host type info for an expression: how many leading references its type
/// carries, whether every one of them is mutable, and the peeled base.
#[derive(Clone, Copy, PartialEq, Eq, Structural, Debug)]
pub struct Ty {
    pub ref_count: usize,
    pub ref_mutability: Mutability,
    pub base: BaseTy,
}

/// One local binding referenced by an expression, with the way a closure
/// around that expression would capture it.
#[derive(Clone, Copy, PartialEq, Eq, Structural, Debug)]
pub struct Capture {
    pub binding: u32,
    pub kind: CaptureKind,
}

/// The host's capture analysis for an expression: either the expression
/// cannot be relocated into a closure at all, or the list of captured
/// bindings with their capture kinds.
pub enum CaptureInfo {
    NotMovable,
    Movable(Vec<Capture>),
}

/// A pattern node: its span (with hygiene context), its source text as far
/// as the host can hand it out for the enclosing rule's context, and its
/// recognized structure.
pub struct Pat {
    pub span: Span,
    pub text: Option<String>,
    pub kind: PatKind,
}

/// The pattern shapes the rules distinguish. Anything else (literals,
/// struct patterns, tuples) is `Unrecognized`, carrying the one fact the
/// rules still read off such patterns: whether an explicit `ref`/`ref mut`
/// binding occurs inside, and how mutable.
pub enum PatKind {
    Wild,
    Ref(Box<Pat>),
    AbsentCtor,
    PresentCtor(Box<Pat>),
    Binding { annotation: BindingAnnotation, id: u32, name: String, sub: Option<Box<Pat>> },
    Or(Vec<Pat>),
    Unrecognized { ref_binding: Option<Mutability> },
}

/// An expression node: span, source text (as far as available for the
/// enclosing rule's hygiene context), host-resolved type, whether implicit
/// coercions apply to it, the host's capture analysis, and its structure.
pub struct Expr {
    pub span: Span,
    pub text: Option<String>,
    pub ty: Ty,
    pub has_adjustments: bool,
    pub captures: CaptureInfo,
    pub kind: ExprKind,
}

/// The expression shapes the rules distinguish. Anything else is
/// `Unrecognized`, carrying the one parser fact still read off such
/// expressions: whether their precedence binds more loosely than a postfix
/// method call.
pub enum ExprKind {
    Call { callee: Box<Expr>, args: Vec<Expr> },
    PathLocal(u32),
    AbsentCtor,
    PresentCtor,
    Block { has_stmts: bool, inner: Option<Box<Expr>>, user_unsafe: bool },
    Field(Box<Expr>),
    AddrOf(Mutability, Box<Expr>),
    Unrecognized { prec_below_postfix: bool },
}

/// The more mutable of two optional mutabilities.
pub open spec fn mut_max(a: Option<Mutability>, b: Option<Mutability>) -> Option<Mutability> {
    match a {
        Some(Mutability::Mut) => a,
        Some(Mutability::Not) => match b {
            Some(Mutability::Mut) => b,
            _ => a,
        },
        None => b,
    }
}

/// The more mutable of two optional mutabilities, executable form.
pub fn mut_max_exec(a: Option<Mutability>, b: Option<Mutability>) -> (r: Option<Mutability>)
    ensures
        r == mut_max(a, b),
{
    match a {
        Some(Mutability::Mut) => a,
        Some(Mutability::Not) => match b {
            Some(Mutability::Mut) => b,
            _ => a,
        },
        None => b,
    }
}

/// Whether an explicit `ref` or `ref mut` binding occurs anywhere in the
/// pattern, and the strongest mutability among them.
pub open spec fn explicit_ref_spec(p: Pat) -> Option<Mutability>
    decreases p,
{
    match p.kind {
        PatKind::Wild => None,
        PatKind::Ref(sub) => explicit_ref_spec(*sub),
        PatKind::AbsentCtor => None,
        PatKind::PresentCtor(sub) => explicit_ref_spec(*sub),
        PatKind::Binding { annotation, sub, .. } => {
            let own = match annotation {
                BindingAnnotation::RefImm => Some(Mutability::Not),
                BindingAnnotation::RefMut => Some(Mutability::Mut),
                _ => None,
            };
            let rest = match sub {
                Some(sp) => explicit_ref_spec(*sp),
                None => None,
            };
            mut_max(own, rest)
        },
        PatKind::Or(ps) => explicit_ref_list(ps@),
        PatKind::Unrecognized { ref_binding } => ref_binding,
    }
}

/// The strongest explicit `ref` binding across a list of alternatives.
pub open spec fn explicit_ref_list(ps: Seq<Pat>) -> Option<Mutability>
    decreases ps,
{
    if ps.len() == 0 {
        None
    } else {
        mut_max(explicit_ref_spec(ps[0]), explicit_ref_list(ps.skip(1)))
    }
}

/// Walk the pattern for explicit `ref`/`ref mut` bindings.
pub fn contains_explicit_ref_binding(p: &Pat) -> (r: Option<Mutability>)
    ensures
        r == explicit_ref_spec(*p),
    decreases *p,
{
    match &p.kind {
        PatKind::Wild => None,
        PatKind::Ref(sub) => contains_explicit_ref_binding(sub),
        PatKind::AbsentCtor => None,
        PatKind::PresentCtor(sub) => contains_explicit_ref_binding(sub),
        PatKind::Binding { annotation, sub, .. } => {
            let own = match annotation {
                BindingAnnotation::RefImm => Some(Mutability::Not),
                BindingAnnotation::RefMut => Some(Mutability::Mut),
                _ => None,
            };
            let rest = match sub {
                Some(sp) => contains_explicit_ref_binding(sp),
                None => None,
            };
            mut_max_exec(own, rest)
        },
        PatKind::Or(ps) => {
            let mut acc: Option<Mutability> = None;
            let n = ps.len();
            let mut i: usize = 0;
            proof {
                assert(ps@.skip(0) =~= ps@);
            }
            while i < n
                invariant
                    i <= n,
                    n == ps@.len(),
                    p.kind == PatKind::Or(*ps),
                    explicit_ref_list(ps@) == mut_max(acc, explicit_ref_list(ps@.skip(i as int))),
                decreases n - i,
            {
                proof {
                    assert(ps@.skip(i as int).skip(1) =~= ps@.skip(i + 1));
                    lemma_mut_max_assoc(
                        acc,
                        explicit_ref_spec(ps@[i as int]),
                        explicit_ref_list(ps@.skip(i + 1)),
                    );
                    assert(decreases_to!(*p => p.kind));
                    assert(decreases_to!(p.kind => p.kind->Or_0));
                    assert(p.kind->Or_0 == *ps);
                    assert(decreases_to!(*ps => ps@));
                    assert(decreases_to!(ps@ => ps@[i as int]));
                    assert(decreases_to!(*p => ps@[i as int]));
                }
                let sub = contains_explicit_ref_binding(&ps[i]);
                acc = mut_max_exec(acc, sub);
                i = i + 1;
            }
            proof {
                assert(ps@.skip(n as int) =~= Seq::<Pat>::empty());
            }
            acc
        },
        PatKind::Unrecognized { ref_binding } => *ref_binding,
    }
}

proof fn lemma_mut_max_assoc(a: Option<Mutability>, b: Option<Mutability>, c: Option<Mutability>)
    ensures
        mut_max(a, mut_max(b, c)) == mut_max(mut_max(a, b), c),
{
}

/// Whether the expression is a path to exactly the given local binding.
pub open spec fn is_local_path(e: Expr, id: u32) -> bool {
    e.kind matches ExprKind::PathLocal(l) && l == id
}

/// Executable test for a path to the given local binding.
pub fn path_to_local_id(e: &Expr, id: u32) -> (r: bool)
    ensures
        r == is_local_path(*e, id),
{
    match &e.kind {
        ExprKind::PathLocal(l) => *l == id,
        _ => false,
    }
}

/// Whether inserting a postfix method call after this expression's text
/// would bind more loosely than required (so the text needs parentheses).
pub open spec fn prec_below_postfix_spec(e: Expr) -> bool {
    match e.kind {
        ExprKind::AddrOf(_, _) => true,
        ExprKind::Unrecognized { prec_below_postfix } => prec_below_postfix,
        _ => false,
    }
}

/// Executable precedence test.
pub fn prec_below_postfix(e: &Expr) -> (r: bool)
    ensures
        r == prec_below_postfix_spec(*e),
{
    match &e.kind {
        ExprKind::AddrOf(_, _) => true,
        ExprKind::Unrecognized { prec_below_postfix } => *prec_below_postfix,
        _ => false,
    }
}

/// The expression under any wrapping blocks that hold no statements.
pub open spec fn peel_blocks_spec(e: Expr) -> Expr
    decreases e,
{
    match e.kind {
        ExprKind::Block { has_stmts: false, inner: Some(i), .. } => peel_blocks_spec(*i),
        _ => e,
    }
}

/// Peel wrapping blocks that hold no statements.
pub fn peel_blocks(e: &Expr) -> (r: &Expr)
    ensures
        *r == peel_blocks_spec(*e),
    decreases *e,
{
    match &e.kind {
        ExprKind::Block { has_stmts: false, inner: Some(i), .. } => peel_blocks(i),
        _ => e,
    }
}

/// The expression under any leading reference-taking operators.
pub open spec fn peel_addr_of_spec(e: Expr) -> Expr
    decreases e,
{
    match e.kind {
        ExprKind::AddrOf(_, inner) => peel_addr_of_spec(*inner),
        _ => e,
    }
}

/// Peel leading reference-taking operators.
pub fn peel_addr_of(e: &Expr) -> (r: &Expr)
    ensures
        *r == peel_addr_of_spec(*e),
    decreases *e,
{
    match &e.kind {
        ExprKind::AddrOf(_, inner) => peel_addr_of(inner),
        _ => e,
    }
}

/// The innermost expression under a chain of field accesses and
/// reference-taking operators: the root the scrutinee reads from.
pub open spec fn peel_field_addr_spec(e: Expr) -> Expr
    decreases e,
{
    match e.kind {
        ExprKind::Field(inner) => peel_field_addr_spec(*inner),
        ExprKind::AddrOf(_, inner) => peel_field_addr_spec(*inner),
        _ => e,
    }
}

/// Walk a chain of field accesses and reference-taking operators down to
/// its root.
pub fn peel_field_addr(e: &Expr) -> (r: &Expr)
    ensures
        *r == peel_field_addr_spec(*e),
    decreases *e,
{
    match &e.kind {
        ExprKind::Field(inner) => peel_field_addr(inner),
        ExprKind::AddrOf(_, inner) => peel_field_addr(inner),
        _ => e,
    }
}

/// The capture kind recorded for a binding, if any (first entry wins).
pub open spec fn find_capture(caps: Seq<Capture>, id: u32) -> Option<CaptureKind>
    decreases caps,
{
    if caps.len() == 0 {
        None
    } else if caps[0].binding == id {
        Some(caps[0].kind)
    } else {
        find_capture(caps.skip(1), id)
    }
}

/// Look a binding up in a capture list.
pub fn lookup_capture(caps: &Vec<Capture>, id: u32) -> (r: Option<CaptureKind>)
    ensures
        r == find_capture(caps@, id),
{
    let n = caps.len();
    let mut i: usize = 0;
    proof {
        assert(caps@.skip(0) =~= caps@);
    }
    while i < n
        invariant
            i <= n,
            n == caps@.len(),
            find_capture(caps@, id) == find_capture(caps@.skip(i as int), id),
        decreases n - i,
    {
        proof {
            assert(caps@.skip(i as int).skip(1) =~= caps@.skip(i + 1));
        }
        if caps[i].binding == id {
            return Some(caps[i].kind);
        }
        i = i + 1;
    }
    proof {
        assert(caps@.skip(n as int) =~= Seq::<Capture>::empty());
    }
    None
}

} // verus!
