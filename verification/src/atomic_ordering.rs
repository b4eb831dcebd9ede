//! The atomic-ordering validator: flags atomic `load`/`store` calls whose
//! memory-ordering argument is invalid for the operation.

use vstd::prelude::*;
use vstd::string::StringExecFns;
use crate::diagnostics::{Diagnostic, DiagnosticModel, RuleId, Severity, Span};
use crate::oracle::{Arg, ArgModel, ExprShape, ExprShapeModel, ResolvedType, ResolvedTypeModel};
use crate::text::str_eq;
use crate::validity::{
    is_disallowed, operation_name, spec_disallowed, spec_operation_name, spec_valid_alternatives,
    spec_variant_name, valid_alternatives, variant_name, OperationKind, OrderingVariant,
};

verus! {

/// Marker for the atomic-ordering rule; the check itself is stateless.
#[derive(Clone, Copy)]
pub struct AtomicOrdering;

/// The fixed catalog of atomic wrapper types whose `load`/`store` calls are
/// checked. Membership is by exact fully-qualified identity, never by name
/// or structure.
pub open spec fn spec_is_catalog_identity(id: Seq<char>) -> bool {
    ||| id == "core::sync::atomic::AtomicBool"@
    ||| id == "core::sync::atomic::AtomicI8"@
    ||| id == "core::sync::atomic::AtomicI16"@
    ||| id == "core::sync::atomic::AtomicI32"@
    ||| id == "core::sync::atomic::AtomicI64"@
    ||| id == "core::sync::atomic::AtomicIsize"@
    ||| id == "core::sync::atomic::AtomicPtr"@
    ||| id == "core::sync::atomic::AtomicU8"@
    ||| id == "core::sync::atomic::AtomicU16"@
    ||| id == "core::sync::atomic::AtomicU32"@
    ||| id == "core::sync::atomic::AtomicU64"@
    ||| id == "core::sync::atomic::AtomicUsize"@
}

/// Whether the resolved type is one of the catalog atomic types.
pub open spec fn spec_is_atomic(t: ResolvedTypeModel) -> bool {
    t.nominal && spec_is_catalog_identity(t.identity)
}

/// Whether `ty`, the oracle's answer for a receiver expression, is one of
/// the catalog atomic types.
pub fn is_atomic(ty: &ResolvedType) -> (r: bool)
    ensures
        r == spec_is_atomic(ty@),
{
    if !ty.nominal {
        return false;
    }
    let id: &str = ty.identity.as_str();
    str_eq(id, "core::sync::atomic::AtomicBool")
        || str_eq(id, "core::sync::atomic::AtomicI8")
        || str_eq(id, "core::sync::atomic::AtomicI16")
        || str_eq(id, "core::sync::atomic::AtomicI32")
        || str_eq(id, "core::sync::atomic::AtomicI64")
        || str_eq(id, "core::sync::atomic::AtomicIsize")
        || str_eq(id, "core::sync::atomic::AtomicPtr")
        || str_eq(id, "core::sync::atomic::AtomicU8")
        || str_eq(id, "core::sync::atomic::AtomicU16")
        || str_eq(id, "core::sync::atomic::AtomicU32")
        || str_eq(id, "core::sync::atomic::AtomicU64")
        || str_eq(id, "core::sync::atomic::AtomicUsize")
}

/// The ordering variant an argument names, when the argument is
/// syntactically a direct reference to one of the five variants; `None` for
/// anything indirect or unrecognized.
pub open spec fn spec_ordering_of(shape: ExprShapeModel) -> Option<OrderingVariant> {
    match shape {
        ExprShapeModel::Path { identity } => {
            if identity == "core::sync::atomic::Ordering::SeqCst"@ {
                Some(OrderingVariant::SequentiallyConsistent)
            } else if identity == "core::sync::atomic::Ordering::Acquire"@ {
                Some(OrderingVariant::Acquire)
            } else if identity == "core::sync::atomic::Ordering::Release"@ {
                Some(OrderingVariant::Release)
            } else if identity == "core::sync::atomic::Ordering::AcqRel"@ {
                Some(OrderingVariant::AcquireRelease)
            } else if identity == "core::sync::atomic::Ordering::Relaxed"@ {
                Some(OrderingVariant::Relaxed)
            } else {
                None
            }
        },
        ExprShapeModel::Other => None,
    }
}

/// Recognizes a direct reference to one of the five ordering variants.
pub fn ordering_of(shape: &ExprShape) -> (r: Option<OrderingVariant>)
    ensures
        r == spec_ordering_of(shape@),
{
    match shape {
        ExprShape::Path { identity } => {
            let id: &str = identity.as_str();
            if str_eq(id, "core::sync::atomic::Ordering::SeqCst") {
                Some(OrderingVariant::SequentiallyConsistent)
            } else if str_eq(id, "core::sync::atomic::Ordering::Acquire") {
                Some(OrderingVariant::Acquire)
            } else if str_eq(id, "core::sync::atomic::Ordering::Release") {
                Some(OrderingVariant::Release)
            } else if str_eq(id, "core::sync::atomic::Ordering::AcqRel") {
                Some(OrderingVariant::AcquireRelease)
            } else if str_eq(id, "core::sync::atomic::Ordering::Relaxed") {
                Some(OrderingVariant::Relaxed)
            } else {
                None
            }
        },
        ExprShape::Other => None,
    }
}

/// Whether a call named `name` with ordering argument `shape` is an invalid
/// store: the name is `store` and the argument directly names an ordering
/// the store operation disallows.
pub open spec fn spec_is_invalid_store(name: Seq<char>, shape: ExprShapeModel) -> bool {
    &&& name == "store"@
    &&& match spec_ordering_of(shape) {
        Some(v) => spec_disallowed(OperationKind::Store, v),
        None => false,
    }
}

/// Whether a call named `method_name` with ordering argument `order` is a
/// store with a disallowed ordering.
pub fn is_invalid_store(method_name: &str, order: &ExprShape) -> (r: bool)
    ensures
        r == spec_is_invalid_store(method_name@, order@),
{
    if !str_eq(method_name, "store") {
        return false;
    }
    match ordering_of(order) {
        Some(v) => is_disallowed(OperationKind::Store, v),
        None => false,
    }
}

/// Whether a call named `name` with ordering argument `shape` is an invalid
/// load: the name is `load` and the argument directly names an ordering the
/// load operation disallows.
pub open spec fn spec_is_invalid_load(name: Seq<char>, shape: ExprShapeModel) -> bool {
    &&& name == "load"@
    &&& match spec_ordering_of(shape) {
        Some(v) => spec_disallowed(OperationKind::Load, v),
        None => false,
    }
}

/// Whether a call named `method_name` with ordering argument `order` is a
/// load with a disallowed ordering.
pub fn is_invalid_load(method_name: &str, order: &ExprShape) -> (r: bool)
    ensures
        r == spec_is_invalid_load(method_name@, order@),
{
    if !str_eq(method_name, "load") {
        return false;
    }
    match ordering_of(order) {
        Some(v) => is_disallowed(OperationKind::Load, v),
        None => false,
    }
}

/// An expression node as the tree walker reports it: a method call with its
/// name, the oracle's answer for the receiver's type, and the positional
/// argument list (the receiver is argument 0); or any other expression.
pub enum ExprNode {
    MethodCall { method_name: String, receiver_type: ResolvedType, args: Vec<Arg> },
    Other,
}

/// Mathematical model of an [`ExprNode`].
pub ghost enum ExprNodeModel {
    MethodCall { method_name: Seq<char>, receiver_type: ResolvedTypeModel, args: Seq<ArgModel> },
    Other,
}

impl View for ExprNode {
    type V = ExprNodeModel;

    open spec fn view(&self) -> ExprNodeModel {
        match self {
            ExprNode::MethodCall { method_name, receiver_type, args } => ExprNodeModel::MethodCall {
                method_name: method_name@,
                receiver_type: receiver_type@,
                args: args.deep_view(),
            },
            ExprNode::Other => ExprNodeModel::Other,
        }
    }
}

impl DeepView for ExprNode {
    type V = ExprNodeModel;

    open spec fn deep_view(&self) -> ExprNodeModel {
        self.view()
    }
}

/// The primary message of an ordering diagnostic: it quotes the ordering
/// argument as the user wrote it and names the operation.
pub open spec fn spec_violation_message(snippet: Seq<char>, kind: OperationKind) -> Seq<char> {
    "`"@ + snippet + "` is not a valid `atomic::Ordering` for `"@ + spec_operation_name(kind)
        + "`"@
}

fn violation_message(snippet: &str, kind: OperationKind) -> (r: String)
    ensures
        r@ == spec_violation_message(snippet@, kind),
{
    let mut s = String::from_str("`");
    s.append(snippet);
    s.append("` is not a valid `atomic::Ordering` for `");
    s.append(operation_name(kind));
    s.append("`");
    proof {
        assert(s@ =~= spec_violation_message(snippet@, kind));
    }
    s
}

/// A comma-separated list of quoted variant names.
pub open spec fn spec_quoted_list(vs: Seq<OrderingVariant>) -> Seq<char>
    decreases vs.len(),
{
    if vs.len() == 0 {
        Seq::<char>::empty()
    } else if vs.len() == 1 {
        "\""@ + spec_variant_name(vs[0]) + "\""@
    } else {
        "\""@ + spec_variant_name(vs[0]) + "\", "@ + spec_quoted_list(vs.drop_first())
    }
}

fn quoted_list_from(vs: &Vec<OrderingVariant>, i: usize) -> (r: String)
    requires
        i < vs.len(),
    ensures
        r@ == spec_quoted_list(vs@.skip(i as int)),
    decreases vs.len() - i,
{
    let ghost suffix = vs@.skip(i as int);
    proof {
        assert(suffix[0] == vs@[i as int]);
    }
    let mut s = String::from_str("\"");
    s.append(variant_name(vs[i]));
    if i + 1 == vs.len() {
        s.append("\"");
        proof {
            assert(s@ =~= spec_quoted_list(suffix));
        }
    } else {
        s.append("\", ");
        let rest = quoted_list_from(vs, i + 1);
        s.append(rest.as_str());
        proof {
            assert(suffix.drop_first() =~= vs@.skip(i as int + 1));
            assert(s@ =~= spec_quoted_list(suffix));
        }
    }
    s
}

/// The help message of an ordering diagnostic: it lists the
/// operation-specific valid alternatives.
pub open spec fn spec_help_message(kind: OperationKind) -> Seq<char> {
    "valid orderings are ["@ + spec_quoted_list(spec_valid_alternatives(kind)) + "]"@
}

fn help_message(kind: OperationKind) -> (r: String)
    ensures
        r@ == spec_help_message(kind),
{
    let alts = valid_alternatives(kind);
    let mut s = String::from_str("valid orderings are [");
    proof {
        assert(alts@.skip(0) =~= alts@);
    }
    let list = quoted_list_from(&alts, 0);
    s.append(list.as_str());
    s.append("]");
    proof {
        assert(s@ =~= spec_help_message(kind));
    }
    s
}

/// The diagnostic emitted for a disallowed ordering on an operation of
/// `kind`: at the ordering argument's span, quoting that argument's source
/// text.
pub open spec fn spec_ordering_diagnostic(kind: OperationKind, snippet: Seq<char>, span: Span) -> DiagnosticModel {
    DiagnosticModel {
        rule: RuleId::AtomicOrdering,
        severity: Severity::Warning,
        span,
        message: spec_violation_message(snippet, kind),
        help: Some(spec_help_message(kind)),
        suggestion: None,
    }
}

/// The outcome of inspecting one ordering argument for an operation of
/// `kind`: a diagnostic exactly when the argument directly names a
/// disallowed variant.
pub open spec fn spec_check_ordering_arg(kind: OperationKind, arg: ArgModel) -> Option<
    DiagnosticModel,
> {
    match spec_ordering_of(arg.shape) {
        Some(v) => if spec_disallowed(kind, v) {
            Some(spec_ordering_diagnostic(kind, arg.snippet, arg.span))
        } else {
            None
        },
        None => None,
    }
}

fn check_ordering_arg(kind: OperationKind, arg: &Arg) -> (r: Option<Diagnostic>)
    ensures
        r.deep_view() == spec_check_ordering_arg(kind, arg@),
{
    match ordering_of(&arg.shape) {
        Some(v) => {
            if is_disallowed(kind, v) {
                Some(
                    Diagnostic {
                        rule: RuleId::AtomicOrdering,
                        severity: Severity::Warning,
                        span: arg.span,
                        message: violation_message(arg.snippet.as_str(), kind),
                        help: Some(help_message(kind)),
                        suggestion: None,
                    },
                )
            } else {
                None
            }
        },
        None => None,
    }
}

/// The outcome of the atomic-ordering check on one expression node.
///
/// A method call is a violation exactly when its receiver's type is in the
/// atomic catalog, it is a `store` with argument list (receiver, value,
/// ordering) or a `load` with argument list (receiver, ordering), and the
/// ordering argument directly names a variant the operation disallows.
/// Every other node — including a call through any indirection, an
/// unrecognized method name, or a malformed argument list — produces
/// nothing.
pub open spec fn spec_check_expr(e: ExprNodeModel) -> Option<DiagnosticModel> {
    match e {
        ExprNodeModel::MethodCall { method_name, receiver_type, args } => {
            if !spec_is_atomic(receiver_type) {
                None
            } else if method_name == "store"@ && args.len() == 3 {
                spec_check_ordering_arg(OperationKind::Store, args[2])
            } else if method_name == "load"@ && args.len() == 2 {
                spec_check_ordering_arg(OperationKind::Load, args[1])
            } else {
                None
            }
        },
        ExprNodeModel::Other => None,
    }
}

impl AtomicOrdering {
    /// Runs the atomic-ordering check on one expression node, as the tree
    /// walker dispatches it.
    pub fn check_expr(&self, e: &ExprNode) -> (r: Option<Diagnostic>)
        ensures
            r.deep_view() == spec_check_expr(e@),
    {
        match e {
            ExprNode::MethodCall { method_name, receiver_type, args } => {
                if !is_atomic(receiver_type) {
                    None
                } else if str_eq(method_name.as_str(), "store") && args.len() == 3 {
                    check_ordering_arg(OperationKind::Store, &args[2])
                } else if str_eq(method_name.as_str(), "load") && args.len() == 2 {
                    check_ordering_arg(OperationKind::Load, &args[1])
                } else {
                    None
                }
            },
            ExprNode::Other => None,
        }
    }
}

/// The dispatcher agrees with the two public predicates: a node is flagged
/// exactly when it is a method call on a catalog atomic type that
/// [`spec_is_invalid_store`] accepts (with store arity) or that
/// [`spec_is_invalid_load`] accepts (with load arity).
pub proof fn lemma_check_expr_matches_predicates(e: ExprNodeModel)
    ensures
        spec_check_expr(e) is Some <==> (e matches ExprNodeModel::MethodCall {
            method_name,
            receiver_type,
            args,
        } && spec_is_atomic(receiver_type) && ((args.len() == 3 && spec_is_invalid_store(
            method_name,
            args[2].shape,
        )) || (args.len() == 2 && spec_is_invalid_load(method_name, args[1].shape)))),
{
    reveal_strlit("store");
    reveal_strlit("load");
}

/// The argument count of a well-formed call of `kind`: (receiver, value,
/// ordering) for a store, (receiver, ordering) for a load.
pub open spec fn spec_arg_count(kind: OperationKind) -> int {
    match kind {
        OperationKind::Store => 3,
        OperationKind::Load => 2,
    }
}

/// The position of the ordering argument in a call of `kind`.
pub open spec fn spec_ordering_position(kind: OperationKind) -> int {
    match kind {
        OperationKind::Store => 2,
        OperationKind::Load => 1,
    }
}

/// A direct atomic call of `kind`: the receiver's resolved type is in the
/// catalog, the method name and argument count are those of `kind`, and the
/// ordering argument directly names the variant `v`.
pub open spec fn spec_direct_atomic_call(
    e: ExprNodeModel,
    kind: OperationKind,
    v: OrderingVariant,
) -> bool {
    match e {
        ExprNodeModel::MethodCall { method_name, receiver_type, args } => {
            &&& spec_is_atomic(receiver_type)
            &&& method_name == spec_operation_name(kind)
            &&& args.len() == spec_arg_count(kind)
            &&& spec_ordering_of(args[spec_ordering_position(kind)].shape) == Some(v)
        },
        ExprNodeModel::Other => false,
    }
}

/// For every catalog atomic type, operation kind and directly named
/// ordering variant: a violation is flagged if and only if the combination
/// is (store, `Acquire`), (store, `AcquireRelease`), (load, `Release`) or
/// (load, `AcquireRelease`); every other combination produces no
/// diagnostic.
pub proof fn lemma_flagged_combinations(e: ExprNodeModel, kind: OperationKind, v: OrderingVariant)
    requires
        spec_direct_atomic_call(e, kind, v),
    ensures
        spec_check_expr(e) is Some <==> {
            ||| kind == OperationKind::Store && v == OrderingVariant::Acquire
            ||| kind == OperationKind::Store && v == OrderingVariant::AcquireRelease
            ||| kind == OperationKind::Load && v == OrderingVariant::Release
            ||| kind == OperationKind::Load && v == OrderingVariant::AcquireRelease
        },
        spec_check_expr(e) is Some <==> spec_disallowed(kind, v),
{
    match e {
        ExprNodeModel::MethodCall { method_name, receiver_type, args } => {
            match kind {
                OperationKind::Store => {
                    assert(spec_check_expr(e) == spec_check_ordering_arg(
                        OperationKind::Store,
                        args[2],
                    ));
                },
                OperationKind::Load => {
                    assert(spec_check_expr(e) == spec_check_ordering_arg(
                        OperationKind::Load,
                        args[1],
                    ));
                },
            }
        },
        ExprNodeModel::Other => {},
    }
}

} // verus!
