//! Structured diagnostics: what a check hands back to the host's reporter.

use vstd::prelude::*;

verus! {

/// A source location as the host reports it: a byte range plus whether the
/// location originates from a macro expansion.
#[derive(Clone, Copy, PartialEq, Eq, Structural, Debug)]
pub struct Span {
    pub lo: usize,
    pub hi: usize,
    pub from_expansion: bool,
}

/// Severity of a diagnostic. Every rule here reports a warning; the engine
/// never escalates to a hard failure.
#[derive(Clone, Copy, PartialEq, Eq, Structural, Debug)]
pub enum Severity {
    Warning,
}

/// Confidence tag on a suggested replacement: whether it can be applied
/// mechanically or needs human review.
#[derive(Clone, Copy, PartialEq, Eq, Structural, Debug)]
pub enum Applicability {
    MachineApplicable,
    MaybeIncorrect,
    HasPlaceholders,
    Unspecified,
}

/// Identifier of the rule that produced a diagnostic.
#[derive(Clone, Copy, PartialEq, Eq, Structural, Debug)]
pub enum RuleId {
    AtomicOrdering,
    LargeDataPassByVal,
}

/// A suggested replacement for the code under the primary span.
#[derive(Clone, PartialEq, Eq, Debug)]
pub struct Suggestion {
    pub replacement: String,
    pub applicability: Applicability,
}

/// One diagnostic record, created per visited node and pushed to the host's
/// reporter; nothing of it persists across runs.
#[derive(Clone, PartialEq, Eq, Debug)]
pub struct Diagnostic {
    pub rule: RuleId,
    pub severity: Severity,
    pub span: Span,
    pub message: String,
    pub help: Option<String>,
    pub suggestion: Option<Suggestion>,
}

/// Mathematical model of a [`Suggestion`].
pub ghost struct SuggestionModel {
    pub replacement: Seq<char>,
    pub applicability: Applicability,
}

/// Mathematical model of a [`Diagnostic`].
pub ghost struct DiagnosticModel {
    pub rule: RuleId,
    pub severity: Severity,
    pub span: Span,
    pub message: Seq<char>,
    pub help: Option<Seq<char>>,
    pub suggestion: Option<SuggestionModel>,
}

impl View for Suggestion {
    type V = SuggestionModel;

    open spec fn view(&self) -> SuggestionModel {
        SuggestionModel { replacement: self.replacement@, applicability: self.applicability }
    }
}

impl DeepView for Suggestion {
    type V = SuggestionModel;

    open spec fn deep_view(&self) -> SuggestionModel {
        self.view()
    }
}

impl View for Diagnostic {
    type V = DiagnosticModel;

    open spec fn view(&self) -> DiagnosticModel {
        DiagnosticModel {
            rule: self.rule,
            severity: self.severity,
            span: self.span,
            message: self.message@,
            help: match self.help {
                Some(h) => Some(h@),
                None => None,
            },
            suggestion: match self.suggestion {
                Some(s) => Some(s@),
                None => None,
            },
        }
    }
}

impl DeepView for Diagnostic {
    type V = DiagnosticModel;

    open spec fn deep_view(&self) -> DiagnosticModel {
        self.view()
    }
}

} // verus!
