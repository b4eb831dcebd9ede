//! Operation kinds, ordering variants, and the ordering validity table.

use vstd::prelude::*;

verus! {

/// The two atomic operations whose ordering argument is checked.
#[derive(Clone, Copy, PartialEq, Eq, Structural, Debug)]
pub enum OperationKind {
    Load,
    Store,
}

/// The five named synchronization strength levels an atomic operation can
/// take as its ordering argument.
#[derive(Clone, Copy, PartialEq, Eq, Structural, Debug)]
pub enum OrderingVariant {
    SequentiallyConsistent,
    Acquire,
    Release,
    AcquireRelease,
    Relaxed,
}

/// The validity rule: whether `kind` disallows the ordering `v`.
///
/// A store disallows `Acquire` and `AcquireRelease`; a load disallows
/// `Release` and `AcquireRelease`. `Relaxed` and `SequentiallyConsistent`
/// are always valid for both kinds.
pub open spec fn spec_disallowed(kind: OperationKind, v: OrderingVariant) -> bool {
    match kind {
        OperationKind::Store => v == OrderingVariant::Acquire || v
            == OrderingVariant::AcquireRelease,
        OperationKind::Load => v == OrderingVariant::Release || v
            == OrderingVariant::AcquireRelease,
    }
}

/// Whether `kind` disallows the ordering `v`.
pub fn is_disallowed(kind: OperationKind, v: OrderingVariant) -> (r: bool)
    ensures
        r == spec_disallowed(kind, v),
{
    match kind {
        OperationKind::Store => matches!(v, OrderingVariant::Acquire | OrderingVariant::AcquireRelease),
        OperationKind::Load => matches!(v, OrderingVariant::Release | OrderingVariant::AcquireRelease),
    }
}

/// The ordered list of valid alternatives that a diagnostic for `kind`
/// reports.
pub open spec fn spec_valid_alternatives(kind: OperationKind) -> Seq<OrderingVariant> {
    match kind {
        OperationKind::Store => seq![
            OrderingVariant::SequentiallyConsistent,
            OrderingVariant::Release,
            OrderingVariant::Relaxed,
        ],
        OperationKind::Load => seq![
            OrderingVariant::SequentiallyConsistent,
            OrderingVariant::Acquire,
            OrderingVariant::Relaxed,
        ],
    }
}

/// The ordered list of valid alternatives for `kind`, as reported in
/// diagnostic help text.
pub fn valid_alternatives(kind: OperationKind) -> (r: Vec<OrderingVariant>)
    ensures
        r@ == spec_valid_alternatives(kind),
{
    let mut r: Vec<OrderingVariant> = Vec::new();
    r.push(OrderingVariant::SequentiallyConsistent);
    match kind {
        OperationKind::Store => r.push(OrderingVariant::Release),
        OperationKind::Load => r.push(OrderingVariant::Acquire),
    }
    r.push(OrderingVariant::Relaxed);
    proof {
        assert(r@ =~= spec_valid_alternatives(kind));
    }
    r
}

/// `Relaxed` and `SequentiallyConsistent` are valid for every operation
/// kind.
pub proof fn lemma_relaxed_seqcst_always_valid(kind: OperationKind)
    ensures
        !spec_disallowed(kind, OrderingVariant::Relaxed),
        !spec_disallowed(kind, OrderingVariant::SequentiallyConsistent),
{
}

/// The alternatives a diagnostic reports for `kind` are exactly the
/// orderings that `kind` does not disallow: the hard-coded three-element
/// help list agrees with the validity table.
pub proof fn lemma_alternatives_agree_with_table(kind: OperationKind, v: OrderingVariant)
    ensures
        spec_valid_alternatives(kind).contains(v) <==> !spec_disallowed(kind, v),
{
    let alts = spec_valid_alternatives(kind);
    if !spec_disallowed(kind, v) {
        match kind {
            OperationKind::Store => {
                match v {
                    OrderingVariant::SequentiallyConsistent => assert(alts[0] == v),
                    OrderingVariant::Release => assert(alts[1] == v),
                    OrderingVariant::Relaxed => assert(alts[2] == v),
                    _ => {},
                }
            },
            OperationKind::Load => {
                match v {
                    OrderingVariant::SequentiallyConsistent => assert(alts[0] == v),
                    OrderingVariant::Acquire => assert(alts[1] == v),
                    OrderingVariant::Relaxed => assert(alts[2] == v),
                    _ => {},
                }
            },
        }
    }
}

/// The short source-level name of an ordering variant, as it appears in
/// diagnostic text.
pub open spec fn spec_variant_name(v: OrderingVariant) -> Seq<char> {
    match v {
        OrderingVariant::SequentiallyConsistent => "SeqCst"@,
        OrderingVariant::Acquire => "Acquire"@,
        OrderingVariant::Release => "Release"@,
        OrderingVariant::AcquireRelease => "AcqRel"@,
        OrderingVariant::Relaxed => "Relaxed"@,
    }
}

/// The short source-level name of `v`.
pub fn variant_name(v: OrderingVariant) -> (r: &'static str)
    ensures
        r@ == spec_variant_name(v),
{
    match v {
        OrderingVariant::SequentiallyConsistent => "SeqCst",
        OrderingVariant::Acquire => "Acquire",
        OrderingVariant::Release => "Release",
        OrderingVariant::AcquireRelease => "AcqRel",
        OrderingVariant::Relaxed => "Relaxed",
    }
}

/// The method name belonging to an operation kind.
pub open spec fn spec_operation_name(kind: OperationKind) -> Seq<char> {
    match kind {
        OperationKind::Load => "load"@,
        OperationKind::Store => "store"@,
    }
}

/// The method name belonging to `kind`.
pub fn operation_name(kind: OperationKind) -> (r: &'static str)
    ensures
        r@ == spec_operation_name(kind),
{
    match kind {
        OperationKind::Load => "load",
        OperationKind::Store => "store",
    }
}

} // verus!
