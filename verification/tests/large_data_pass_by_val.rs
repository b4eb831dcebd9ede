use semlint::diagnostics::{Applicability, RuleId, Severity, Span};
use semlint::large_data_pass_by_val::{
    FnDecl, FnKind, LargeDataPassByVal, Param, ParentKind, TraitItem, TraitItemKind,
};
use semlint::oracle::ResolvedType;

fn span(lo: usize, hi: usize) -> Span {
    Span { lo, hi, from_expansion: false }
}

fn aggregate(copyable: bool, size: Option<u64>) -> ResolvedType {
    ResolvedType {
        nominal: true,
        identity: String::from("demo::BigStruct"),
        copyable,
        size,
    }
}

fn param(lo: usize, copyable: bool, size: Option<u64>) -> Param {
    Param {
        span: span(lo, lo + 5),
        ty: aggregate(copyable, size),
        is_self: false,
        snippet: String::from("BigStruct"),
    }
}

fn decl(params: Vec<Param>) -> FnDecl {
    FnDecl { inputs: params }
}

fn plain_fn() -> FnKind {
    FnKind::ItemFn { abi_is_default: true, has_derive_marker: false }
}

#[test]
fn copyable_large_parameter_is_flagged() {
    // default limit on a 64-bit target: 16 bytes
    let detector = LargeDataPassByVal::new(None, 64);
    let d = decl(vec![param(30, true, Some(4096))]);
    let out = detector.check_fn(plain_fn(), &d, span(0, 100), ParentKind::Other);
    assert_eq!(out.len(), 1);
    let diag = &out[0];
    assert_eq!(diag.rule, RuleId::LargeDataPassByVal);
    assert_eq!(diag.severity, Severity::Warning);
    assert_eq!(diag.span, span(30, 35));
    assert_eq!(
        diag.message,
        "this argument (4096 byte) is passed by value, but would be more efficient if passed by ref (limit: 16 byte)"
    );
    assert_eq!(diag.help.as_deref(), Some("consider passing by ref instead"));
    let sugg = diag.suggestion.as_ref().expect("suggestion expected");
    assert_eq!(sugg.replacement, "&BigStruct");
    assert_eq!(sugg.applicability, Applicability::Unspecified);
}

#[test]
fn non_copyable_parameter_is_never_flagged() {
    let detector = LargeDataPassByVal::new(None, 64);
    let d = decl(vec![param(30, false, Some(4096))]);
    let out = detector.check_fn(plain_fn(), &d, span(0, 100), ParentKind::Other);
    assert!(out.is_empty());
}

#[test]
fn size_equal_to_limit_is_not_flagged() {
    let detector = LargeDataPassByVal::new(None, 64);
    let d = decl(vec![param(30, true, Some(16))]);
    let out = detector.check_fn(plain_fn(), &d, span(0, 100), ParentKind::Other);
    assert!(out.is_empty());
    let d2 = decl(vec![param(30, true, Some(17))]);
    let out2 = detector.check_fn(plain_fn(), &d2, span(0, 100), ParentKind::Other);
    assert_eq!(out2.len(), 1);
}

#[test]
fn configured_override_moves_the_boundary() {
    let detector = LargeDataPassByVal::new(Some(4096), 64);
    let at = decl(vec![param(30, true, Some(4096))]);
    assert!(detector.check_fn(plain_fn(), &at, span(0, 100), ParentKind::Other).is_empty());
    let above = decl(vec![param(30, true, Some(4097))]);
    assert_eq!(
        detector.check_fn(plain_fn(), &above, span(0, 100), ParentKind::Other).len(),
        1
    );
}

#[test]
fn default_limit_follows_pointer_width() {
    // 32-bit target: 2 * 4 bytes = 8
    let detector = LargeDataPassByVal::new(None, 32);
    let at = decl(vec![param(30, true, Some(8))]);
    assert!(detector.check_fn(plain_fn(), &at, span(0, 100), ParentKind::Other).is_empty());
    let above = decl(vec![param(30, true, Some(9))]);
    assert_eq!(
        detector.check_fn(plain_fn(), &above, span(0, 100), ParentKind::Other).len(),
        1
    );
}

#[test]
fn unknown_layout_is_not_flagged() {
    let detector = LargeDataPassByVal::new(None, 64);
    let d = decl(vec![param(30, true, None)]);
    assert!(detector.check_fn(plain_fn(), &d, span(0, 100), ParentKind::Other).is_empty());
}

#[test]
fn non_nominal_type_is_not_flagged() {
    let detector = LargeDataPassByVal::new(None, 64);
    let mut p = param(30, true, Some(4096));
    p.ty.nominal = false;
    let d = decl(vec![p]);
    assert!(detector.check_fn(plain_fn(), &d, span(0, 100), ParentKind::Other).is_empty());
}

#[test]
fn self_receiver_suggests_self_by_reference() {
    let detector = LargeDataPassByVal::new(None, 64);
    let mut p = param(30, true, Some(4096));
    p.is_self = true;
    let d = decl(vec![p]);
    let out = detector.check_fn(FnKind::Method, &d, span(0, 100), ParentKind::Other);
    assert_eq!(out.len(), 1);
    let sugg = out[0].suggestion.as_ref().expect("suggestion expected");
    assert_eq!(sugg.replacement, "&self");
}

#[test]
fn every_flagged_parameter_reports_in_order() {
    let detector = LargeDataPassByVal::new(None, 64);
    let d = decl(vec![
        param(10, true, Some(100)),
        param(20, true, Some(8)),
        param(30, true, Some(200)),
    ]);
    let out = detector.check_fn(plain_fn(), &d, span(0, 100), ParentKind::Other);
    assert_eq!(out.len(), 2);
    assert_eq!(out[0].span, span(10, 15));
    assert_eq!(out[1].span, span(30, 35));
}

#[test]
fn expansion_artifact_abandons_rest_of_declaration() {
    // A parameter whose span equals the declaration's own span marks a
    // macro-expansion duplication artifact: the walk stops there, keeping
    // what was already flagged and inspecting nothing further.
    let detector = LargeDataPassByVal::new(None, 64);
    let fn_span = span(0, 100);
    let mut artifact = param(0, true, Some(5000));
    artifact.span = fn_span;
    let d = decl(vec![param(10, true, Some(100)), artifact, param(30, true, Some(200))]);
    let out = detector.check_fn(plain_fn(), &d, fn_span, ParentKind::Other);
    assert_eq!(out.len(), 1);
    assert_eq!(out[0].span, span(10, 15));
}

#[test]
fn expansion_span_skips_whole_function() {
    let detector = LargeDataPassByVal::new(None, 64);
    let d = decl(vec![param(30, true, Some(4096))]);
    let mut fn_span = span(0, 100);
    fn_span.from_expansion = true;
    assert!(detector.check_fn(plain_fn(), &d, fn_span, ParentKind::Other).is_empty());
}

#[test]
fn non_default_abi_is_skipped() {
    let detector = LargeDataPassByVal::new(None, 64);
    let d = decl(vec![param(30, true, Some(4096))]);
    let kind = FnKind::ItemFn { abi_is_default: false, has_derive_marker: false };
    assert!(detector.check_fn(kind, &d, span(0, 100), ParentKind::Other).is_empty());
}

#[test]
fn derive_marker_is_skipped() {
    let detector = LargeDataPassByVal::new(None, 64);
    let d = decl(vec![param(30, true, Some(4096))]);
    let kind = FnKind::ItemFn { abi_is_default: true, has_derive_marker: true };
    assert!(detector.check_fn(kind, &d, span(0, 100), ParentKind::Other).is_empty());
}

#[test]
fn closure_is_skipped() {
    let detector = LargeDataPassByVal::new(None, 64);
    let d = decl(vec![param(30, true, Some(4096))]);
    assert!(detector.check_fn(FnKind::Closure, &d, span(0, 100), ParentKind::Other).is_empty());
}

#[test]
fn trait_implementation_method_is_skipped() {
    let detector = LargeDataPassByVal::new(None, 64);
    let d = decl(vec![param(30, true, Some(4096))]);
    let out = detector.check_fn(FnKind::Method, &d, span(0, 100), ParentKind::TraitImpl);
    assert!(out.is_empty());
    let d2 = decl(vec![param(30, true, Some(4096))]);
    let out2 = detector.check_fn(FnKind::Method, &d2, span(0, 100), ParentKind::TraitDecl);
    assert!(out2.is_empty());
}

#[test]
fn inherent_method_is_checked() {
    let detector = LargeDataPassByVal::new(None, 64);
    let d = decl(vec![param(30, true, Some(4096))]);
    let out = detector.check_fn(FnKind::Method, &d, span(0, 100), ParentKind::Other);
    assert_eq!(out.len(), 1);
}

#[test]
fn trait_item_method_is_checked() {
    let detector = LargeDataPassByVal::new(None, 64);
    let item = TraitItem {
        span: span(0, 100),
        kind: TraitItemKind::Method(decl(vec![param(30, true, Some(4096))])),
    };
    let out = detector.check_trait_item(&item);
    assert_eq!(out.len(), 1);
    assert_eq!(out[0].span, span(30, 35));
}

#[test]
fn trait_item_from_expansion_is_skipped() {
    let detector = LargeDataPassByVal::new(None, 64);
    let mut item_span = span(0, 100);
    item_span.from_expansion = true;
    let item = TraitItem {
        span: item_span,
        kind: TraitItemKind::Method(decl(vec![param(30, true, Some(4096))])),
    };
    assert!(detector.check_trait_item(&item).is_empty());
}

#[test]
fn non_method_trait_item_is_skipped() {
    let detector = LargeDataPassByVal::new(None, 64);
    let item = TraitItem { span: span(0, 100), kind: TraitItemKind::Other };
    assert!(detector.check_trait_item(&item).is_empty());
}

#[test]
fn check_poly_fn_without_artifact_watch_checks_all_parameters() {
    let detector = LargeDataPassByVal::new(None, 64);
    let fn_span = span(0, 100);
    let mut p = param(0, true, Some(5000));
    p.span = fn_span;
    // without a declaration span there is no artifact watch, so even a
    // parameter span equal to the declaration's is inspected
    let d = decl(vec![p, param(30, true, Some(200))]);
    let out = detector.check_poly_fn(&d, None);
    assert_eq!(out.len(), 2);
}
