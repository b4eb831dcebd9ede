use semlint::atomic_ordering::ExprNode;
use semlint::diagnostics::{RuleId, Span};
use semlint::engine::{registry, Engine, Node, RuleCategory};
use semlint::large_data_pass_by_val::{FnDecl, FnKind, Param, ParentKind};
use semlint::oracle::{Arg, ExprShape, ResolvedType};
use semlint::text::{decimal_string, str_eq};
use semlint::validity::{is_disallowed, valid_alternatives, OperationKind, OrderingVariant};

fn span(lo: usize, hi: usize) -> Span {
    Span { lo, hi, from_expansion: false }
}

fn store_acquire_node() -> Node {
    Node::Expression(ExprNode::MethodCall {
        method_name: String::from("store"),
        receiver_type: ResolvedType {
            nominal: true,
            identity: String::from("core::sync::atomic::AtomicU32"),
            copyable: false,
            size: None,
        },
        args: vec![
            Arg { shape: ExprShape::Other, span: span(0, 5), snippet: String::from("g") },
            Arg { shape: ExprShape::Other, span: span(6, 10), snippet: String::from("10") },
            Arg {
                shape: ExprShape::Path {
                    identity: String::from("core::sync::atomic::Ordering::Acquire"),
                },
                span: span(11, 30),
                snippet: String::from("Ordering::Acquire"),
            },
        ],
    })
}

fn large_fn_node() -> Node {
    Node::Function {
        kind: FnKind::ItemFn { abi_is_default: true, has_derive_marker: false },
        decl: FnDecl {
            inputs: vec![Param {
                span: span(50, 60),
                ty: ResolvedType {
                    nominal: true,
                    identity: String::from("demo::BigStruct"),
                    copyable: true,
                    size: Some(4096),
                },
                is_self: false,
                snippet: String::from("BigStruct"),
            }],
        },
        span: span(40, 90),
        parent: ParentKind::Other,
    }
}

fn program() -> Vec<Node> {
    vec![
        store_acquire_node(),
        Node::Expression(ExprNode::Other),
        large_fn_node(),
    ]
}

#[test]
fn run_reports_in_traversal_order() {
    let engine = Engine::new(None, 64);
    let nodes = program();
    let out = engine.run(&nodes);
    assert_eq!(out.len(), 2);
    assert_eq!(out[0].rule, RuleId::AtomicOrdering);
    assert_eq!(out[0].span, span(11, 30));
    assert_eq!(out[1].rule, RuleId::LargeDataPassByVal);
    assert_eq!(out[1].span, span(50, 60));
}

#[test]
fn run_twice_yields_identical_ordered_list() {
    let engine = Engine::new(None, 64);
    let nodes = program();
    let first = engine.run(&nodes);
    let second = engine.run(&nodes);
    assert_eq!(first, second);
}

#[test]
fn check_node_dispatches_by_node_kind() {
    let engine = Engine::new(None, 64);
    let atomic = engine.check_node(&store_acquire_node());
    assert_eq!(atomic.len(), 1);
    assert_eq!(atomic[0].rule, RuleId::AtomicOrdering);
    let large = engine.check_node(&large_fn_node());
    assert_eq!(large.len(), 1);
    assert_eq!(large[0].rule, RuleId::LargeDataPassByVal);
    assert!(engine.check_node(&Node::Expression(ExprNode::Other)).is_empty());
}

#[test]
fn registry_lists_both_rules() {
    let r = registry();
    assert_eq!(r.len(), 2);
    assert_eq!(r[0].rule, RuleId::AtomicOrdering);
    assert_eq!(r[0].category, RuleCategory::Correctness);
    assert_eq!(r[0].description, "Use of an incorrect atomic ordering will cause panic");
    assert_eq!(r[1].rule, RuleId::LargeDataPassByVal);
    assert_eq!(r[1].category, RuleCategory::Perf);
    assert_eq!(r[1].description, "functions taking large copyable arguments by value");
}

#[test]
fn validity_table_disallows_four_combinations() {
    let all = [
        OrderingVariant::SequentiallyConsistent,
        OrderingVariant::Acquire,
        OrderingVariant::Release,
        OrderingVariant::AcquireRelease,
        OrderingVariant::Relaxed,
    ];
    for v in all.iter() {
        let store_bad = matches!(v, OrderingVariant::Acquire | OrderingVariant::AcquireRelease);
        let load_bad = matches!(v, OrderingVariant::Release | OrderingVariant::AcquireRelease);
        assert_eq!(is_disallowed(OperationKind::Store, *v), store_bad);
        assert_eq!(is_disallowed(OperationKind::Load, *v), load_bad);
    }
}

#[test]
fn valid_alternatives_match_the_table() {
    assert_eq!(
        valid_alternatives(OperationKind::Store),
        vec![
            OrderingVariant::SequentiallyConsistent,
            OrderingVariant::Release,
            OrderingVariant::Relaxed,
        ]
    );
    assert_eq!(
        valid_alternatives(OperationKind::Load),
        vec![
            OrderingVariant::SequentiallyConsistent,
            OrderingVariant::Acquire,
            OrderingVariant::Relaxed,
        ]
    );
}

#[test]
fn decimal_string_renders_exact_values() {
    assert_eq!(decimal_string(0), "0");
    assert_eq!(decimal_string(7), "7");
    assert_eq!(decimal_string(10), "10");
    assert_eq!(decimal_string(4096), "4096");
    assert_eq!(decimal_string(18446744073709551615), "18446744073709551615");
}

#[test]
fn str_eq_compares_by_characters() {
    assert!(str_eq("store", "store"));
    assert!(!str_eq("store", "load"));
    assert!(!str_eq("store", "stor"));
    assert!(str_eq("", ""));
}
