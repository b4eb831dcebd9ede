//! The engine: a registration table for the two rules and a dispatcher that
//! runs the relevant check on each node the host's tree walker visits, in
//! traversal order.

use vstd::prelude::*;
use crate::atomic_ordering::{spec_check_expr, AtomicOrdering, ExprNode, ExprNodeModel};
use crate::diagnostics::{Diagnostic, DiagnosticModel, RuleId, Span};
use crate::large_data_pass_by_val::{
    spec_check_fn, spec_check_trait_item, spec_configured_limit, FnDecl, FnDeclModel, FnKind,
    LargeDataPassByVal, ParentKind, TraitItem, TraitItemModel,
};

verus! {

/// Category of a rule, as the registration table reports it.
#[derive(Clone, Copy, PartialEq, Eq, Structural, Debug)]
pub enum RuleCategory {
    Correctness,
    Perf,
}

/// One entry of the registration table: a rule's identifier, its category,
/// and its human-facing description.
pub struct LintRegistration {
    pub rule: RuleId,
    pub category: RuleCategory,
    pub description: &'static str,
}

/// The statically-built registration table of the engine's rules; there is
/// no implicit global registry.
pub fn registry() -> (r: Vec<LintRegistration>)
    ensures
        r@.len() == 2,
        r@[0].rule == RuleId::AtomicOrdering,
        r@[0].category == RuleCategory::Correctness,
        r@[0].description@ == "Use of an incorrect atomic ordering will cause panic"@,
        r@[1].rule == RuleId::LargeDataPassByVal,
        r@[1].category == RuleCategory::Perf,
        r@[1].description@ == "functions taking large copyable arguments by value"@,
{
    let mut r: Vec<LintRegistration> = Vec::new();
    r.push(
        LintRegistration {
            rule: RuleId::AtomicOrdering,
            category: RuleCategory::Correctness,
            description: "Use of an incorrect atomic ordering will cause panic",
        },
    );
    r.push(
        LintRegistration {
            rule: RuleId::LargeDataPassByVal,
            category: RuleCategory::Perf,
            description: "functions taking large copyable arguments by value",
        },
    );
    r
}

/// One node of the host's traversal, with everything the checks ask of the
/// oracle about it.
pub enum Node {
    Expression(ExprNode),
    Function { kind: FnKind, decl: FnDecl, span: Span, parent: ParentKind },
    InterfaceItem(TraitItem),
}

/// Mathematical model of a [`Node`].
pub ghost enum NodeModel {
    Expression(ExprNodeModel),
    Function { kind: FnKind, decl: FnDeclModel, span: Span, parent: ParentKind },
    InterfaceItem(TraitItemModel),
}

impl View for Node {
    type V = NodeModel;

    open spec fn view(&self) -> NodeModel {
        match self {
            Node::Expression(e) => NodeModel::Expression(e@),
            Node::Function { kind, decl, span, parent } => NodeModel::Function {
                kind: *kind,
                decl: decl@,
                span: *span,
                parent: *parent,
            },
            Node::InterfaceItem(t) => NodeModel::InterfaceItem(t@),
        }
    }
}

impl DeepView for Node {
    type V = NodeModel;

    open spec fn deep_view(&self) -> NodeModel {
        self.view()
    }
}

/// The diagnostics one node contributes under a given byte limit.
pub open spec fn spec_check_node(n: NodeModel, limit: u64) -> Seq<DiagnosticModel> {
    match n {
        NodeModel::Expression(e) => match spec_check_expr(e) {
            Some(d) => seq![d],
            None => Seq::<DiagnosticModel>::empty(),
        },
        NodeModel::Function { kind, decl, span, parent } => spec_check_fn(
            kind,
            decl,
            span,
            parent,
            limit,
        ),
        NodeModel::InterfaceItem(t) => spec_check_trait_item(t, limit),
    }
}

/// The ordered diagnostic list of a whole run: each visited node's
/// diagnostics, concatenated in traversal order.
pub open spec fn spec_run(nodes: Seq<NodeModel>, limit: u64) -> Seq<DiagnosticModel>
    decreases nodes.len(),
{
    if nodes.len() == 0 {
        Seq::<DiagnosticModel>::empty()
    } else {
        spec_check_node(nodes[0], limit) + spec_run(nodes.drop_first(), limit)
    }
}

/// The engine: both checks, sharing no state but the read-only byte limit
/// fixed at construction.
pub struct Engine {
    pub atomic_ordering: AtomicOrdering,
    pub large_data_pass_by_val: LargeDataPassByVal,
}

impl Engine {
    /// The byte limit the large-value-pass detector runs with.
    pub open spec fn spec_limit(&self) -> u64 {
        self.large_data_pass_by_val.spec_limit()
    }

    /// Builds an engine from the large-value-pass configuration: an
    /// optional byte-limit override and the target's pointer width in bits.
    pub fn new(limit: Option<u64>, target_ptr_width_bits: u16) -> (r: Self)
        ensures
            r.spec_limit() == spec_configured_limit(limit, target_ptr_width_bits),
    {
        Engine {
            atomic_ordering: AtomicOrdering,
            large_data_pass_by_val: LargeDataPassByVal::new(limit, target_ptr_width_bits),
        }
    }

    /// Dispatches one visited node to the relevant check and returns its
    /// diagnostics.
    pub fn check_node(&self, n: &Node) -> (r: Vec<Diagnostic>)
        ensures
            r.deep_view() == spec_check_node(n@, self.spec_limit()),
    {
        match n {
            Node::Expression(e) => {
                let mut out: Vec<Diagnostic> = Vec::new();
                match self.atomic_ordering.check_expr(e) {
                    Some(d) => {
                        out.push(d);
                        proof {
                            assert(out.deep_view() =~= spec_check_node(n@, self.spec_limit()));
                        }
                    },
                    None => {
                        proof {
                            assert(out.deep_view() =~= spec_check_node(n@, self.spec_limit()));
                        }
                    },
                }
                out
            },
            Node::Function { kind, decl, span, parent } => self.large_data_pass_by_val.check_fn(
                *kind,
                decl,
                *span,
                *parent,
            ),
            Node::InterfaceItem(t) => self.large_data_pass_by_val.check_trait_item(t),
        }
    }

    /// Runs the engine over a whole traversal, returning the diagnostics of
    /// all visited nodes in traversal order.
    pub fn run(&self, nodes: &Vec<Node>) -> (r: Vec<Diagnostic>)
        ensures
            r.deep_view() == spec_run(nodes.deep_view(), self.spec_limit()),
    {
        let ghost full = nodes.deep_view();
        let mut out: Vec<Diagnostic> = Vec::new();
        let mut i: usize = 0;
        proof {
            assert(full.skip(0) =~= full);
            assert(out.deep_view() + spec_run(full, self.spec_limit()) =~= spec_run(
                full,
                self.spec_limit(),
            ));
        }
        while i < nodes.len()
            invariant
                i <= nodes.len(),
                full == nodes.deep_view(),
                out.deep_view() + spec_run(full.skip(i as int), self.spec_limit()) == spec_run(
                    full,
                    self.spec_limit(),
                ),
            decreases nodes.len() - i,
        {
            let ghost suffix = full.skip(i as int);
            proof {
                assert(suffix[0] == full[i as int]);
                assert(suffix.drop_first() =~= full.skip(i as int + 1));
            }
            let ghost before = out.deep_view();
            let mut chunk = self.check_node(&nodes[i]);
            let ghost chunk_view = chunk.deep_view();
            out.append(&mut chunk);
            proof {
                assert(out.deep_view() =~= before + chunk_view);
            }
            i = i + 1;
        }
        proof {
            assert(full.skip(i as int) =~= Seq::<NodeModel>::empty());
        }
        out
    }
}

/// Determinism of a run: the ordered diagnostic list is a function of the
/// visited program and the configured limit alone, so running the engine
/// twice over an unchanged program yields an identical ordered list.
pub proof fn lemma_run_deterministic(
    nodes: Seq<NodeModel>,
    limit: u64,
    first: Seq<DiagnosticModel>,
    second: Seq<DiagnosticModel>,
)
    requires
        first == spec_run(nodes, limit),
        second == spec_run(nodes, limit),
    ensures
        first == second,
{
}

} // verus!
