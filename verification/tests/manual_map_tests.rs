use lintcore::ast::{
    BaseTy, BindingAnnotation, Capture, CaptureInfo, CaptureKind, Expr, ExprKind, Mutability, Pat,
    PatKind, Ty,
};
use lintcore::diagnostics::{Applicability, LintId, Span};
use lintcore::manual_map::{check, check_if_let, check_match, try_parse_pattern, Arm, MapCtx, OptionPat};

fn sp(ctxt: u32) -> Span {
    Span { lo: 0, hi: 9, ctxt }
}

fn ty(ref_count: usize, base: BaseTy) -> Ty {
    Ty { ref_count, ref_mutability: Mutability::Not, base }
}

fn expr(kind: ExprKind, text: Option<&str>, t: Ty, captures: CaptureInfo) -> Expr {
    Expr {
        span: sp(0),
        text: text.map(String::from),
        ty: t,
        has_adjustments: false,
        captures,
        kind,
    }
}

fn no_caps() -> CaptureInfo {
    CaptureInfo::Movable(vec![])
}

fn plain_expr(text: &str, captures: CaptureInfo) -> Expr {
    expr(ExprKind::Unrecognized { prec_below_postfix: false }, Some(text), ty(0, BaseTy::OtherTy), captures)
}

fn conditional_expr() -> Expr {
    expr(ExprKind::Unrecognized { prec_below_postfix: false }, None, ty(0, BaseTy::OptionTy), no_caps())
}

fn local_scrutinee(text: &str, ref_count: usize) -> Expr {
    let mut t = ty(ref_count, BaseTy::OptionTy);
    t.ref_mutability = Mutability::Not;
    expr(ExprKind::PathLocal(1), Some(text), t, no_caps())
}

fn some_call(payload: Expr) -> Expr {
    let callee = expr(ExprKind::PresentCtor, None, ty(0, BaseTy::OtherTy), no_caps());
    expr(
        ExprKind::Call { callee: Box::new(callee), args: vec![payload] },
        None,
        ty(0, BaseTy::OptionTy),
        no_caps(),
    )
}

fn absent_expr() -> Expr {
    expr(ExprKind::AbsentCtor, None, ty(0, BaseTy::OptionTy), no_caps())
}

fn pat(kind: PatKind, text: Option<&str>) -> Pat {
    Pat { span: sp(0), text: text.map(String::from), kind }
}

fn binding_pat(name: &str, id: u32) -> Pat {
    pat(
        PatKind::Binding {
            annotation: BindingAnnotation::Plain,
            id,
            name: String::from(name),
            sub: None,
        },
        Some(name),
    )
}

fn present_pat(inner: Pat) -> Pat {
    pat(PatKind::PresentCtor(Box::new(inner)), None)
}

fn absent_pat() -> Pat {
    pat(PatKind::AbsentCtor, None)
}

fn wild_pat() -> Pat {
    pat(PatKind::Wild, None)
}

fn ctx() -> MapCtx {
    MapCtx { map_unit_fn_allowed: false, match_as_ref_allowed: false, in_else_clause: false }
}

fn replacement(d: lintcore::diagnostics::Diagnostic) -> (String, Applicability) {
    assert_eq!(d.lint, LintId::ManualMap);
    assert_eq!(d.message, String::from("manual implementation of `Option::map`"));
    let sugg = d.suggestion.expect("a fix is expected");
    assert_eq!(sugg.edits.len(), 1);
    let text = sugg.edits[0].text.clone();
    (text, sugg.applicability)
}

#[test]
fn rewrites_present_increment_with_absent_arm() {
    // conditional matching the present variant with body `n + 1` rewrapped,
    // else arm producing the absent value
    let payload = plain_expr(
        "n + 1",
        CaptureInfo::Movable(vec![Capture { binding: 2, kind: CaptureKind::ByValue }]),
    );
    let d = check(
        &conditional_expr(),
        &local_scrutinee("x", 0),
        &present_pat(binding_pat("n", 2)),
        &some_call(payload),
        Some(&absent_pat()),
        &absent_expr(),
        ctx(),
    )
    .expect("the rule should fire");
    let (text, app) = replacement(d);
    assert_eq!(text, String::from("x.map(|n| n + 1)"));
    assert_eq!(app, Applicability::MachineApplicable);
}

#[test]
fn abstains_when_both_arms_match_present() {
    // `Present(_)` with an absent body against `Present(n)`: not a candidate,
    // whatever the captures say
    let payload = plain_expr(
        "f(n)",
        CaptureInfo::Movable(vec![Capture { binding: 2, kind: CaptureKind::ByValue }]),
    );
    let r = check(
        &conditional_expr(),
        &local_scrutinee("x", 0),
        &present_pat(wild_pat()),
        &absent_expr(),
        Some(&present_pat(binding_pat("n", 2))),
        &some_call(payload),
        ctx(),
    );
    assert!(r.is_none());
}

#[test]
fn abstains_on_conflicting_by_value_capture() {
    // destructuring a reference to `x` while the closure body would consume
    // the same binding by value
    let payload = plain_expr(
        "g(x, n)",
        CaptureInfo::Movable(vec![Capture { binding: 1, kind: CaptureKind::ByValue }]),
    );
    let r = check(
        &conditional_expr(),
        &local_scrutinee("x", 1),
        &present_pat(binding_pat("n", 2)),
        &some_call(payload),
        Some(&absent_pat()),
        &absent_expr(),
        ctx(),
    );
    assert!(r.is_none());
}

#[test]
fn two_immutable_borrows_never_conflict() {
    let payload = plain_expr(
        "g(&x, n)",
        CaptureInfo::Movable(vec![Capture { binding: 1, kind: CaptureKind::ByRef(Mutability::Not) }]),
    );
    let d = check(
        &conditional_expr(),
        &local_scrutinee("x", 1),
        &present_pat(binding_pat("n", 2)),
        &some_call(payload),
        Some(&absent_pat()),
        &absent_expr(),
        ctx(),
    )
    .expect("an immutable capture against an immutable borrow is fine");
    let (text, _) = replacement(d);
    assert_eq!(text, String::from("x.as_ref().map(|n| g(&x, n))"));
}

#[test]
fn mutable_destructuring_conflicts_with_immutable_capture() {
    let payload = plain_expr(
        "g(&x, n)",
        CaptureInfo::Movable(vec![Capture { binding: 1, kind: CaptureKind::ByRef(Mutability::Not) }]),
    );
    let mut scrutinee = local_scrutinee("x", 1);
    scrutinee.ty.ref_mutability = Mutability::Mut;
    let r = check(
        &conditional_expr(),
        &scrutinee,
        &present_pat(binding_pat("n", 2)),
        &some_call(payload),
        Some(&absent_pat()),
        &absent_expr(),
        ctx(),
    );
    assert!(r.is_none());
}

#[test]
fn point_free_form_passes_the_callee() {
    // body `f(n)` where `n` is the binding itself: pass `f` alone
    let f_callee = expr(ExprKind::PathLocal(9), Some("f"), ty(0, BaseTy::OtherTy), no_caps());
    let arg = expr(ExprKind::PathLocal(2), Some("n"), ty(0, BaseTy::OtherTy), no_caps());
    let call = expr(
        ExprKind::Call { callee: Box::new(f_callee), args: vec![arg] },
        Some("f(n)"),
        ty(0, BaseTy::OtherTy),
        no_caps(),
    );
    let d = check(
        &conditional_expr(),
        &local_scrutinee("x", 0),
        &present_pat(binding_pat("n", 2)),
        &some_call(call),
        Some(&absent_pat()),
        &absent_expr(),
        ctx(),
    )
    .expect("the rule should fire");
    let (text, _) = replacement(d);
    assert_eq!(text, String::from("x.map(f)"));
}

#[test]
fn unsafe_callee_forces_a_closure() {
    let f_callee = expr(ExprKind::PathLocal(9), Some("f"), ty(0, BaseTy::UnsafeFnTy), no_caps());
    let arg = expr(ExprKind::PathLocal(2), Some("n"), ty(0, BaseTy::OtherTy), no_caps());
    let call = expr(
        ExprKind::Call { callee: Box::new(f_callee), args: vec![arg] },
        Some("f(n)"),
        ty(0, BaseTy::OtherTy),
        no_caps(),
    );
    let d = check(
        &conditional_expr(),
        &local_scrutinee("x", 0),
        &present_pat(binding_pat("n", 2)),
        &some_call(call),
        Some(&absent_pat()),
        &absent_expr(),
        ctx(),
    )
    .expect("the rule should fire");
    let (text, _) = replacement(d);
    assert_eq!(text, String::from("x.map(|n| f(n))"));
}

#[test]
fn defers_to_reference_style_rule_on_bare_binding_body() {
    // body is exactly the binding and an adapter call would be inserted:
    // the sibling rule owns this shape
    let body = expr(ExprKind::PathLocal(2), Some("n"), ty(0, BaseTy::OtherTy), no_caps());
    let r = check(
        &conditional_expr(),
        &local_scrutinee("x", 1),
        &present_pat(binding_pat("n", 2)),
        &some_call(body),
        Some(&absent_pat()),
        &absent_expr(),
        ctx(),
    );
    assert!(r.is_none());
}

#[test]
fn else_clause_wraps_replacement_in_braces() {
    let payload = plain_expr("n + 1", no_caps());
    let mut c = ctx();
    c.in_else_clause = true;
    let d = check_if_let(
        &conditional_expr(),
        &present_pat(binding_pat("n", 2)),
        &local_scrutinee("x", 0),
        &some_call(payload),
        &absent_expr(),
        c,
    )
    .expect("the rule should fire");
    let (text, _) = replacement(d);
    assert_eq!(text, String::from("{ x.map(|n| n + 1) }"));
}

#[test]
fn missing_scrutinee_text_downgrades_applicability() {
    let payload = plain_expr("n + 1", no_caps());
    let mut scrutinee = local_scrutinee("x", 0);
    scrutinee.text = None;
    let d = check(
        &conditional_expr(),
        &scrutinee,
        &present_pat(binding_pat("n", 2)),
        &some_call(payload),
        Some(&absent_pat()),
        &absent_expr(),
        ctx(),
    )
    .expect("the rule should still fire");
    let (text, app) = replacement(d);
    assert_eq!(text, String::from("...map(|n| n + 1)"));
    assert_eq!(app, Applicability::HasPlaceholders);
}

#[test]
fn low_precedence_scrutinee_is_parenthesized() {
    let payload = plain_expr("n + 1", no_caps());
    let scrutinee = expr(
        ExprKind::Unrecognized { prec_below_postfix: true },
        Some("a + b"),
        ty(0, BaseTy::OptionTy),
        no_caps(),
    );
    let d = check(
        &conditional_expr(),
        &scrutinee,
        &present_pat(binding_pat("n", 2)),
        &some_call(payload),
        Some(&absent_pat()),
        &absent_expr(),
        ctx(),
    )
    .expect("the rule should fire");
    let (text, _) = replacement(d);
    assert_eq!(text, String::from("(a + b).map(|n| n + 1)"));
}

#[test]
fn unsafe_block_is_reintroduced_in_closure() {
    let payload = plain_expr("n + 1", no_caps());
    let body = expr(
        ExprKind::Block {
            has_stmts: false,
            inner: Some(Box::new(some_call(payload))),
            user_unsafe: true,
        },
        None,
        ty(0, BaseTy::OptionTy),
        no_caps(),
    );
    let d = check(
        &conditional_expr(),
        &local_scrutinee("x", 0),
        &present_pat(binding_pat("n", 2)),
        &body,
        Some(&absent_pat()),
        &absent_expr(),
        ctx(),
    )
    .expect("the rule should fire");
    let (text, _) = replacement(d);
    assert_eq!(text, String::from("x.map(|n| unsafe { n + 1 })"));
}

#[test]
fn destructuring_pattern_becomes_closure_parameter() {
    let payload = plain_expr("a + b", no_caps());
    let inner = pat(PatKind::Unrecognized { ref_binding: None }, Some("(a, b)"));
    let d = check(
        &conditional_expr(),
        &local_scrutinee("x", 0),
        &present_pat(inner),
        &some_call(payload),
        Some(&absent_pat()),
        &absent_expr(),
        ctx(),
    )
    .expect("the rule should fire");
    let (text, _) = replacement(d);
    assert_eq!(text, String::from("x.map(|(a, b)| a + b)"));
}

#[test]
fn destructuring_against_wildcard_abstains() {
    let payload = plain_expr("a + b", no_caps());
    let inner = pat(PatKind::Unrecognized { ref_binding: None }, Some("(a, b)"));
    let r = check(
        &conditional_expr(),
        &local_scrutinee("x", 0),
        &present_pat(inner),
        &some_call(payload),
        Some(&wild_pat()),
        &absent_expr(),
        ctx(),
    );
    assert!(r.is_none());
}

#[test]
fn or_pattern_payload_abstains() {
    let payload = plain_expr("n + 1", no_caps());
    let inner = pat(
        PatKind::Or(vec![binding_pat("n", 2), binding_pat("n", 2)]),
        Some("0 | n"),
    );
    let r = check(
        &conditional_expr(),
        &local_scrutinee("x", 0),
        &present_pat(inner),
        &some_call(payload),
        Some(&absent_pat()),
        &absent_expr(),
        ctx(),
    );
    assert!(r.is_none());
}

#[test]
fn adjusted_payload_abstains() {
    let mut payload = plain_expr("n + 1", no_caps());
    payload.has_adjustments = true;
    let r = check(
        &conditional_expr(),
        &local_scrutinee("x", 0),
        &present_pat(binding_pat("n", 2)),
        &some_call(payload),
        Some(&absent_pat()),
        &absent_expr(),
        ctx(),
    );
    assert!(r.is_none());
}

#[test]
fn immovable_payload_abstains() {
    let payload = plain_expr("n + 1", CaptureInfo::NotMovable);
    let r = check(
        &conditional_expr(),
        &local_scrutinee("x", 0),
        &present_pat(binding_pat("n", 2)),
        &some_call(payload),
        Some(&absent_pat()),
        &absent_expr(),
        ctx(),
    );
    assert!(r.is_none());
}

#[test]
fn unit_typed_payload_defers_to_unit_fn_rule() {
    let payload = expr(
        ExprKind::Unrecognized { prec_below_postfix: false },
        Some("h(n)"),
        ty(0, BaseTy::UnitTy),
        no_caps(),
    );
    let r = check(
        &conditional_expr(),
        &local_scrutinee("x", 0),
        &present_pat(binding_pat("n", 2)),
        &some_call(payload),
        Some(&absent_pat()),
        &absent_expr(),
        ctx(),
    );
    assert!(r.is_none());

    // with the sibling rule suppressed, this rule may fire
    let payload = expr(
        ExprKind::Unrecognized { prec_below_postfix: false },
        Some("h(n)"),
        ty(0, BaseTy::UnitTy),
        no_caps(),
    );
    let mut c = ctx();
    c.map_unit_fn_allowed = true;
    let d = check(
        &conditional_expr(),
        &local_scrutinee("x", 0),
        &present_pat(binding_pat("n", 2)),
        &some_call(payload),
        Some(&absent_pat()),
        &absent_expr(),
        c,
    );
    assert!(d.is_some());
}

#[test]
fn non_optional_scrutinee_abstains() {
    let payload = plain_expr("n + 1", no_caps());
    let mut scrutinee = local_scrutinee("x", 0);
    scrutinee.ty.base = BaseTy::OtherTy;
    let r = check(
        &conditional_expr(),
        &scrutinee,
        &present_pat(binding_pat("n", 2)),
        &some_call(payload),
        Some(&absent_pat()),
        &absent_expr(),
        ctx(),
    );
    assert!(r.is_none());
}

#[test]
fn check_match_considers_only_guardless_two_armed_matches() {
    let payload = plain_expr("n + 1", no_caps());
    let arms = vec![
        Arm { pat: present_pat(binding_pat("n", 2)), has_guard: false, body: some_call(payload) },
        Arm { pat: absent_pat(), has_guard: false, body: absent_expr() },
    ];
    let d = check_match(&conditional_expr(), &local_scrutinee("x", 0), &arms, ctx());
    assert!(d.is_some());

    let payload = plain_expr("n + 1", no_caps());
    let arms = vec![
        Arm { pat: present_pat(binding_pat("n", 2)), has_guard: true, body: some_call(payload) },
        Arm { pat: absent_pat(), has_guard: false, body: absent_expr() },
    ];
    let d = check_match(&conditional_expr(), &local_scrutinee("x", 0), &arms, ctx());
    assert!(d.is_none());
}

#[test]
fn explicit_ref_annotation_selects_the_adapter_call() {
    // `Present(ref n)` destructures by reference even when the scrutinee is
    // owned: the immutable adapter call is prepended
    let payload = plain_expr("n + 1", no_caps());
    let inner = pat(
        PatKind::Binding {
            annotation: BindingAnnotation::RefImm,
            id: 2,
            name: String::from("n"),
            sub: None,
        },
        Some("ref n"),
    );
    let d = check(
        &conditional_expr(),
        &local_scrutinee("x", 0),
        &present_pat(inner),
        &some_call(payload),
        Some(&absent_pat()),
        &absent_expr(),
        ctx(),
    )
    .expect("the rule should fire");
    let (text, _) = replacement(d);
    assert_eq!(text, String::from("x.as_ref().map(|n| n + 1)"));
}

#[test]
fn mut_binding_keeps_its_annotation() {
    let payload = plain_expr("n + 1", no_caps());
    let inner = pat(
        PatKind::Binding {
            annotation: BindingAnnotation::Mutable,
            id: 2,
            name: String::from("n"),
            sub: None,
        },
        Some("mut n"),
    );
    let d = check(
        &conditional_expr(),
        &local_scrutinee("x", 0),
        &present_pat(inner),
        &some_call(payload),
        Some(&absent_pat()),
        &absent_expr(),
        ctx(),
    )
    .expect("the rule should fire");
    let (text, _) = replacement(d);
    assert_eq!(text, String::from("x.map(|mut n| n + 1)"));
}

#[test]
fn destructuring_with_ref_annotations_abstains() {
    // per-field reference annotations cannot stand in a single-parameter
    // closure form
    let payload = plain_expr("a + b", no_caps());
    let inner = pat(
        PatKind::Unrecognized { ref_binding: Some(Mutability::Not) },
        Some("(ref a, b)"),
    );
    let r = check(
        &conditional_expr(),
        &local_scrutinee("x", 0),
        &present_pat(inner),
        &some_call(payload),
        Some(&absent_pat()),
        &absent_expr(),
        ctx(),
    );
    assert!(r.is_none());
}

#[test]
fn classifier_counts_peeled_reference_layers() {
    let inner = present_pat(binding_pat("n", 2));
    let once = pat(PatKind::Ref(Box::new(inner)), None);
    let twice = pat(PatKind::Ref(Box::new(once)), None);
    match try_parse_pattern(&twice, 0) {
        Some(OptionPat::Present { ref_count, .. }) => assert_eq!(ref_count, 2),
        _ => panic!("expected the present shape"),
    }
}

#[test]
fn classifier_rejects_foreign_hygiene_context() {
    let mut p = present_pat(binding_pat("n", 2));
    p.span.ctxt = 7;
    assert!(try_parse_pattern(&p, 0).is_none());
}
