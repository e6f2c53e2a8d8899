//! Findings reported by rules.

use crate::span::Span;
use vstd::prelude::*;

verus! {

/// One finding: which rule reports it, where, what it says, and optionally how
/// to remedy it.
#[derive(Debug, PartialEq, Eq)]
pub struct Diagnostic {
    /// Code of the rule that reported the finding.
    pub code: String,
    /// Where in the source the finding is anchored.
    pub span: Span,
    /// What is wrong.
    pub message: String,
    /// How to put it right, where the rule has advice.
    pub hint: Option<String>,
}

/// The mathematical content of a [`Diagnostic`].
pub struct DiagnosticView {
    pub code: Seq<char>,
    pub span: Span,
    pub message: Seq<char>,
    pub hint: Option<Seq<char>>,
}

impl View for Diagnostic {
    type V = DiagnosticView;

    open spec fn view(&self) -> DiagnosticView {
        DiagnosticView {
            code: self.code@,
            span: self.span,
            message: self.message@,
            hint: match self.hint {
                Some(hint) => Some(hint@),
                None => None,
            },
        }
    }
}

/// The contents of a list of diagnostics, in order.
pub open spec fn diagnostic_views(list: Seq<Diagnostic>) -> Seq<DiagnosticView> {
    Seq::new(list.len(), |i: int| list[i]@)
}

impl Diagnostic {
    /// A finding without a hint.
    pub fn new(span: Span, code: &str, message: &str) -> (diagnostic: Diagnostic)
        ensures
            diagnostic@ == (DiagnosticView {
                code: code@,
                span,
                message: message@,
                hint: None,
            }),
    {
        Diagnostic { code: code.to_owned(), span, message: message.to_owned(), hint: None }
    }

    /// A finding with a hint.
    pub fn with_hint(span: Span, code: &str, message: &str, hint: &str) -> (diagnostic: Diagnostic)
        ensures
            diagnostic@ == (DiagnosticView {
                code: code@,
                span,
                message: message@,
                hint: Some(hint@),
            }),
    {
        Diagnostic {
            code: code.to_owned(),
            span,
            message: message.to_owned(),
            hint: Some(hint.to_owned()),
        }
    }
}

} // verus!
