//! The large-value-pass detector: flags by-value parameters whose resolved
//! type is a copyable nominal aggregate larger than a configured byte limit,
//! where pass-by-reference would be cheaper.

use vstd::prelude::*;
use vstd::string::StringExecFns;
use crate::diagnostics::{
    Applicability, Diagnostic, DiagnosticModel, RuleId, Severity, Span, Suggestion,
    SuggestionModel,
};
use crate::oracle::{ResolvedType, ResolvedTypeModel};
use crate::text::{decimal_string, spec_decimal};

verus! {

/// One parameter of a resolved signature: its source location, the oracle's
/// answers about its type, whether it is the implicit `self` receiver, and
/// the source text of its type (used for the suggested replacement).
pub struct Param {
    pub span: Span,
    pub ty: ResolvedType,
    pub is_self: bool,
    pub snippet: String,
}

/// Mathematical model of a [`Param`].
pub ghost struct ParamModel {
    pub span: Span,
    pub ty: ResolvedTypeModel,
    pub is_self: bool,
    pub snippet: Seq<char>,
}

impl View for Param {
    type V = ParamModel;

    open spec fn view(&self) -> ParamModel {
        ParamModel {
            span: self.span,
            ty: self.ty@,
            is_self: self.is_self,
            snippet: self.snippet@,
        }
    }
}

impl DeepView for Param {
    type V = ParamModel;

    open spec fn deep_view(&self) -> ParamModel {
        self.view()
    }
}

/// A resolved function signature: the ordered parameter list.
pub struct FnDecl {
    pub inputs: Vec<Param>,
}

/// Mathematical model of a [`FnDecl`].
pub ghost struct FnDeclModel {
    pub inputs: Seq<ParamModel>,
}

impl View for FnDecl {
    type V = FnDeclModel;

    open spec fn view(&self) -> FnDeclModel {
        FnDeclModel { inputs: self.inputs.deep_view() }
    }
}

impl DeepView for FnDecl {
    type V = FnDeclModel;

    open spec fn deep_view(&self) -> FnDeclModel {
        self.view()
    }
}

/// What kind of function declaration the walker visited: a free function
/// (with whether its calling convention is the default one and whether it
/// carries a derive-style generation marker attribute), an inherent or
/// interface method, or a closure.
#[derive(Clone, Copy, PartialEq, Eq, Structural, Debug)]
pub enum FnKind {
    ItemFn { abi_is_default: bool, has_derive_marker: bool },
    Method,
    Closure,
}

/// What the declaration's enclosing item is: an implementation block for an
/// interface, an interface declaration itself, or anything else.
#[derive(Clone, Copy, PartialEq, Eq, Structural, Debug)]
pub enum ParentKind {
    TraitImpl,
    TraitDecl,
    Other,
}

/// An interface item as the walker reports it: its span and, when it is a
/// method declaration, its resolved signature.
pub struct TraitItem {
    pub span: Span,
    pub kind: TraitItemKind,
}

/// The kind of an interface item.
pub enum TraitItemKind {
    Method(FnDecl),
    Other,
}

/// Mathematical model of a [`TraitItemKind`].
pub ghost enum TraitItemKindModel {
    Method(FnDeclModel),
    Other,
}

/// Mathematical model of a [`TraitItem`].
pub ghost struct TraitItemModel {
    pub span: Span,
    pub kind: TraitItemKindModel,
}

impl View for TraitItem {
    type V = TraitItemModel;

    open spec fn view(&self) -> TraitItemModel {
        TraitItemModel {
            span: self.span,
            kind: match &self.kind {
                TraitItemKind::Method(decl) => TraitItemKindModel::Method(decl@),
                TraitItemKind::Other => TraitItemKindModel::Other,
            },
        }
    }
}

impl DeepView for TraitItem {
    type V = TraitItemModel;

    open spec fn deep_view(&self) -> TraitItemModel {
        self.view()
    }
}

/// The byte limit in force when an override is given, or the default of
/// twice the target's native word size when none is.
pub open spec fn spec_configured_limit(over: Option<u64>, ptr_width_bits: u16) -> u64 {
    match over {
        Some(l) => l,
        None => (((ptr_width_bits as int) / 8) * 2) as u64,
    }
}

/// Whether one parameter is flagged: its type is a nominal aggregate, is
/// copyable, its layout is known, and its byte size strictly exceeds the
/// limit.
pub open spec fn spec_param_flagged(p: ParamModel, limit: u64) -> bool {
    &&& p.ty.nominal
    &&& p.ty.copyable
    &&& match p.ty.size {
        Some(sz) => sz > limit,
        None => false,
    }
}

/// The primary message of a large-parameter diagnostic: it reports the byte
/// size and the configured limit.
pub open spec fn spec_large_message(size: u64, limit: u64) -> Seq<char> {
    "this argument ("@ + spec_decimal(size as int)
        + " byte) is passed by value, but would be more efficient if passed by ref (limit: "@
        + spec_decimal(limit as int) + " byte)"@
}

fn large_message(size: u64, limit: u64) -> (r: String)
    ensures
        r@ == spec_large_message(size, limit),
{
    let mut s = String::from_str("this argument (");
    let size_text = decimal_string(size);
    s.append(size_text.as_str());
    s.append(" byte) is passed by value, but would be more efficient if passed by ref (limit: ");
    let limit_text = decimal_string(limit);
    s.append(limit_text.as_str());
    s.append(" byte)");
    proof {
        assert(s@ =~= spec_large_message(size, limit));
    }
    s
}

/// The suggested replacement: the ampersand-reference form of the
/// parameter's type, or the `self`-by-reference spelling for the implicit
/// receiver.
pub open spec fn spec_replacement(p: ParamModel) -> Seq<char> {
    if p.is_self {
        "&self"@
    } else {
        "&"@ + p.snippet
    }
}

/// The diagnostic emitted for a flagged parameter of known size `size`.
pub open spec fn spec_large_parameter_diagnostic(p: ParamModel, size: u64, limit: u64) -> DiagnosticModel {
    DiagnosticModel {
        rule: RuleId::LargeDataPassByVal,
        severity: Severity::Warning,
        span: p.span,
        message: spec_large_message(size, limit),
        help: Some("consider passing by ref instead"@),
        suggestion: Some(
            SuggestionModel {
                replacement: spec_replacement(p),
                applicability: Applicability::Unspecified,
            },
        ),
    }
}

fn large_parameter_diagnostic(p: &Param, size: u64, limit: u64) -> (r: Diagnostic)
    ensures
        r@ == spec_large_parameter_diagnostic(p@, size, limit),
{
    let replacement: String = if p.is_self {
        String::from_str("&self")
    } else {
        let mut s = String::from_str("&");
        s.append(p.snippet.as_str());
        s
    };
    Diagnostic {
        rule: RuleId::LargeDataPassByVal,
        severity: Severity::Warning,
        span: p.span,
        message: large_message(size, limit),
        help: Some(String::from_str("consider passing by ref instead")),
        suggestion: Some(Suggestion { replacement, applicability: Applicability::Unspecified }),
    }
}

/// The diagnostics of one signature walk, in parameter order.
///
/// `artifact` is the enclosing declaration's span when the walk must watch
/// for macro-expansion duplication artifacts: a parameter whose span equals
/// it abandons the rest of the declaration (deliberately, the remaining
/// parameters are not inspected — see [`LargeDataPassByVal::check_poly_fn`]).
pub open spec fn spec_signature_diags(
    inputs: Seq<ParamModel>,
    limit: u64,
    artifact: Option<Span>,
) -> Seq<DiagnosticModel>
    decreases inputs.len(),
{
    if inputs.len() == 0 {
        Seq::<DiagnosticModel>::empty()
    } else {
        let p = inputs[0];
        let aborts = match artifact {
            Some(s) => p.span == s,
            None => false,
        };
        if aborts {
            Seq::<DiagnosticModel>::empty()
        } else {
            let rest = spec_signature_diags(inputs.drop_first(), limit, artifact);
            match p.ty.size {
                Some(sz) => if p.ty.nominal && p.ty.copyable && sz > limit {
                    seq![spec_large_parameter_diagnostic(p, sz, limit)] + rest
                } else {
                    rest
                },
                None => rest,
            }
        }
    }
}

/// The large-value-pass detector; its one piece of configuration is the
/// byte limit, fixed at construction and read-only afterwards.
#[derive(Clone, Copy)]
pub struct LargeDataPassByVal {
    limit: u64,
}

impl LargeDataPassByVal {
    /// The byte limit this detector was configured with.
    pub closed spec fn spec_limit(&self) -> u64 {
        self.limit
    }

    /// Builds a detector from an optional configured override and the
    /// target's native pointer width in bits. Without an override the limit
    /// defaults to twice the native word size in bytes.
    pub fn new(limit: Option<u64>, target_ptr_width_bits: u16) -> (r: Self)
        ensures
            r.spec_limit() == spec_configured_limit(limit, target_ptr_width_bits),
    {
        let chosen: u64 = match limit {
            Some(l) => l,
            None => ((target_ptr_width_bits as u64) / 8) * 2,
        };
        LargeDataPassByVal { limit: chosen }
    }

    /// Walks one resolved signature and returns the diagnostics for its
    /// flagged parameters, in parameter order.
    ///
    /// With `span` given (the enclosing declaration's span), a parameter
    /// whose own span equals it is taken for a macro-expansion duplication
    /// artifact, and the whole rest of the declaration is abandoned — not
    /// just that parameter. That whole-declaration abandonment is the
    /// established behavior; whether a one-parameter skip was meant instead
    /// is a policy question for maintainers.
    pub fn check_poly_fn(&self, decl: &FnDecl, span: Option<Span>) -> (r: Vec<Diagnostic>)
        ensures
            r.deep_view() == spec_signature_diags(decl@.inputs, self.spec_limit(), span),
    {
        let ghost full = decl@.inputs;
        let mut out: Vec<Diagnostic> = Vec::new();
        let mut i: usize = 0;
        proof {
            assert(full.skip(0) =~= full);
            assert(out.deep_view() + spec_signature_diags(full, self.spec_limit(), span)
                =~= spec_signature_diags(full, self.spec_limit(), span));
        }
        while i < decl.inputs.len()
            invariant
                i <= decl.inputs.len(),
                full == decl@.inputs,
                out.deep_view() + spec_signature_diags(full.skip(i as int), self.spec_limit(), span)
                    == spec_signature_diags(full, self.spec_limit(), span),
            decreases decl.inputs.len() - i,
        {
            let ghost suffix = full.skip(i as int);
            proof {
                assert(suffix[0] == full[i as int]);
                assert(suffix.drop_first() =~= full.skip(i as int + 1));
            }
            let p = &decl.inputs[i];
            let aborts = match span {
                Some(s) => p.span == s,
                None => false,
            };
            if aborts {
                proof {
                    assert(out.deep_view() =~= spec_signature_diags(
                        full,
                        self.spec_limit(),
                        span,
                    ));
                }
                return out;
            }
            if p.ty.nominal && p.ty.copyable {
                match p.ty.size {
                    Some(sz) => {
                        if sz > self.limit {
                            let ghost before = out.deep_view();
                            let d = large_parameter_diagnostic(p, sz, self.limit);
                            out.push(d);
                            proof {
                                assert(out.deep_view() =~= before.push(d@));
                            }
                        }
                    },
                    None => {},
                }
            }
            i = i + 1;
        }
        proof {
            assert(full.skip(i as int) =~= Seq::<ParamModel>::empty());
        }
        out
    }
}

/// The outcome of visiting one interface item: a declaration whose span
/// comes from a macro expansion is skipped whole; a method declaration has
/// its signature walked (without the duplication-artifact watch); anything
/// else produces nothing.
pub open spec fn spec_check_trait_item(item: TraitItemModel, limit: u64) -> Seq<DiagnosticModel> {
    if item.span.from_expansion {
        Seq::<DiagnosticModel>::empty()
    } else {
        match item.kind {
            TraitItemKindModel::Method(decl) => spec_signature_diags(decl.inputs, limit, None),
            TraitItemKindModel::Other => Seq::<DiagnosticModel>::empty(),
        }
    }
}

/// The outcome of visiting one function declaration. Skipped whole when its
/// span comes from a macro expansion; when it is a free function with a
/// non-default calling convention or a derive-generation marker; when it is
/// a closure; or when its enclosing item is an interface implementation or
/// an interface declaration (those signatures are checked at the interface
/// declaration itself, never again at an implementation). Otherwise its
/// signature is walked with the duplication-artifact watch armed on the
/// declaration's span.
pub open spec fn spec_check_fn(
    kind: FnKind,
    decl: FnDeclModel,
    span: Span,
    parent: ParentKind,
    limit: u64,
) -> Seq<DiagnosticModel> {
    if span.from_expansion {
        Seq::<DiagnosticModel>::empty()
    } else {
        let eligible = match kind {
            FnKind::ItemFn { abi_is_default, has_derive_marker } => abi_is_default
                && !has_derive_marker,
            FnKind::Method => true,
            FnKind::Closure => false,
        };
        if !eligible {
            Seq::<DiagnosticModel>::empty()
        } else if parent == ParentKind::TraitImpl || parent == ParentKind::TraitDecl {
            Seq::<DiagnosticModel>::empty()
        } else {
            spec_signature_diags(decl.inputs, limit, Some(span))
        }
    }
}

impl LargeDataPassByVal {
    /// Runs the detector on one interface item, as the tree walker
    /// dispatches it.
    pub fn check_trait_item(&self, item: &TraitItem) -> (r: Vec<Diagnostic>)
        ensures
            r.deep_view() == spec_check_trait_item(item@, self.spec_limit()),
    {
        if item.span.from_expansion {
            return Vec::new();
        }
        match &item.kind {
            TraitItemKind::Method(decl) => self.check_poly_fn(decl, None),
            TraitItemKind::Other => Vec::new(),
        }
    }

    /// Runs the detector on one function declaration, as the tree walker
    /// dispatches it. `parent` is the kind of the declaration's enclosing
    /// item.
    pub fn check_fn(&self, kind: FnKind, decl: &FnDecl, span: Span, parent: ParentKind) -> (r:
        Vec<Diagnostic>)
        ensures
            r.deep_view() == spec_check_fn(kind, decl@, span, parent, self.spec_limit()),
    {
        if span.from_expansion {
            return Vec::new();
        }
        let eligible = match kind {
            FnKind::ItemFn { abi_is_default, has_derive_marker } => abi_is_default
                && !has_derive_marker,
            FnKind::Method => true,
            FnKind::Closure => false,
        };
        if !eligible {
            return Vec::new();
        }
        if matches!(parent, ParentKind::TraitImpl | ParentKind::TraitDecl) {
            return Vec::new();
        }
        self.check_poly_fn(decl, Some(span))
    }
}

/// A parameter of known resolved size is flagged if and only if its type is
/// a nominal aggregate, copyable, and strictly larger than the limit in
/// force; changing the limit moves the flag boundary exactly to the new
/// threshold.
pub proof fn lemma_flag_boundary(p: ParamModel, size: u64, limit: u64)
    requires
        p.ty.size == Some(size),
    ensures
        spec_param_flagged(p, limit) <==> (p.ty.nominal && p.ty.copyable && size > limit),
{
}

/// A type that is not copyable is never flagged, whatever its size; neither
/// is one whose layout is unknown. A parameter of exactly the limit's byte
/// size is not flagged: the comparison is strictly greater-than.
pub proof fn lemma_never_flagged(p: ParamModel, limit: u64)
    ensures
        !p.ty.copyable ==> !spec_param_flagged(p, limit),
        p.ty.size is None ==> !spec_param_flagged(p, limit),
        p.ty.size == Some(limit) ==> !spec_param_flagged(p, limit),
{
}

/// The diagnostic a flagged parameter contributes.
pub open spec fn spec_flag_diagnostic(p: ParamModel, limit: u64) -> DiagnosticModel {
    spec_large_parameter_diagnostic(p, p.ty.size.unwrap(), limit)
}

/// Without the duplication-artifact watch, a signature walk produces
/// exactly the flagged parameters' diagnostics, in parameter order: the
/// walk's output is the parameter list filtered by the flag predicate and
/// mapped to each parameter's diagnostic.
pub proof fn lemma_signature_flags_exactly(inputs: Seq<ParamModel>, limit: u64)
    ensures
        spec_signature_diags(inputs, limit, None) == inputs.filter(
            |p: ParamModel| spec_param_flagged(p, limit),
        ).map_values(|p: ParamModel| spec_flag_diagnostic(p, limit)),
    decreases inputs.len(),
{
    let pred = |p: ParamModel| spec_param_flagged(p, limit);
    let f = |p: ParamModel| spec_flag_diagnostic(p, limit);
    if inputs.len() == 0 {
        reveal_with_fuel(Seq::filter, 1);
        assert(inputs.filter(pred).map_values(f) =~= Seq::<DiagnosticModel>::empty());
    } else {
        let head = inputs[0];
        let head_seq = seq![head];
        let rest = inputs.drop_first();
        lemma_signature_flags_exactly(rest, limit);
        assert(inputs =~= head_seq + rest);
        Seq::filter_distributes_over_add(head_seq, rest, pred);
        reveal_with_fuel(Seq::filter, 2);
        assert(head_seq.drop_last() =~= Seq::<ParamModel>::empty());
        if pred(head) {
            assert(head_seq.filter(pred) =~= seq![head]);
            assert((seq![head] + rest.filter(pred)).map_values(f) =~= seq![f(head)]
                + rest.filter(pred).map_values(f));
            assert(spec_signature_diags(inputs, limit, None) =~= inputs.filter(pred).map_values(
                f,
            ));
        } else {
            assert(head_seq.filter(pred) =~= Seq::<ParamModel>::empty());
            assert(Seq::<ParamModel>::empty() + rest.filter(pred) =~= rest.filter(pred));
            assert(spec_signature_diags(inputs, limit, None) =~= inputs.filter(pred).map_values(
                f,
            ));
        }
    }
}

} // verus!
