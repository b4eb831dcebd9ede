//! Plain records of the host's answers about the program under analysis.
//!
//! The host toolchain owns name/type resolution and layout computation. For
//! each node it visits it hands the checks a record built from its oracle
//! queries: the resolved type of a sub-expression, whether a type is
//! copyable, its byte size, and the fully-qualified identity of a nominal
//! type. The checks work on these records alone.

use vstd::prelude::*;
use crate::diagnostics::Span;

verus! {

/// The oracle's answers about one resolved type.
#[derive(Clone, PartialEq, Eq, Debug)]
pub struct ResolvedType {
    /// Whether the type is a nominal aggregate (a struct, enum or union with
    /// a definition of its own).
    pub nominal: bool,
    /// Fully-qualified identity of the definition, such as
    /// `core::sync::atomic::AtomicBool`; meaningful only when `nominal`.
    pub identity: String,
    /// Whether a value of the type can be duplicated bitwise.
    pub copyable: bool,
    /// Byte size under the target's layout rules; `None` when layout
    /// computation fails (an unsized or still-generic type).
    pub size: Option<u64>,
}

/// Mathematical model of a [`ResolvedType`].
pub ghost struct ResolvedTypeModel {
    pub nominal: bool,
    pub identity: Seq<char>,
    pub copyable: bool,
    pub size: Option<u64>,
}

impl View for ResolvedType {
    type V = ResolvedTypeModel;

    open spec fn view(&self) -> ResolvedTypeModel {
        ResolvedTypeModel {
            nominal: self.nominal,
            identity: self.identity@,
            copyable: self.copyable,
            size: self.size,
        }
    }
}

impl DeepView for ResolvedType {
    type V = ResolvedTypeModel;

    open spec fn deep_view(&self) -> ResolvedTypeModel {
        self.view()
    }
}

/// What one expression argument looks like syntactically: either a direct
/// path reference, reported with the fully-qualified identity the path
/// resolves to, or anything else. Indirection (a variable, a call) is
/// deliberately opaque.
#[derive(Clone, PartialEq, Eq, Debug)]
pub enum ExprShape {
    Path { identity: String },
    Other,
}

/// Mathematical model of an [`ExprShape`].
pub ghost enum ExprShapeModel {
    Path { identity: Seq<char> },
    Other,
}

impl View for ExprShape {
    type V = ExprShapeModel;

    open spec fn view(&self) -> ExprShapeModel {
        match self {
            ExprShape::Path { identity } => ExprShapeModel::Path { identity: identity@ },
            ExprShape::Other => ExprShapeModel::Other,
        }
    }
}

impl DeepView for ExprShape {
    type V = ExprShapeModel;

    open spec fn deep_view(&self) -> ExprShapeModel {
        self.view()
    }
}

/// One positional argument of a call, with its source location and its
/// source text as the user wrote it (used in diagnostic text).
#[derive(Clone, PartialEq, Eq, Debug)]
pub struct Arg {
    pub shape: ExprShape,
    pub span: Span,
    pub snippet: String,
}

/// Mathematical model of an [`Arg`].
pub ghost struct ArgModel {
    pub shape: ExprShapeModel,
    pub span: Span,
    pub snippet: Seq<char>,
}

impl View for Arg {
    type V = ArgModel;

    open spec fn view(&self) -> ArgModel {
        ArgModel { shape: self.shape@, span: self.span, snippet: self.snippet@ }
    }
}

impl DeepView for Arg {
    type V = ArgModel;

    open spec fn deep_view(&self) -> ArgModel {
        self.view()
    }
}

} // verus!
