//! The state that every rule of one analysis run shares.

use crate::code_set::CodeSet;
use crate::control_flow::{ControlFlow, ControlFlowFact};
use crate::diagnostic::{diagnostic_views, Diagnostic, DiagnosticView};
use crate::span::Span;
use vstd::prelude::*;

verus! {

/// The run-scoped state: the findings so far, the control-flow facts of the
/// program under analysis, and the plugin rule codes seen as active.
///
/// It is created once per run and handed to each rule in turn. The list of
/// findings only ever grows, and it keeps the order in which they were added.
pub struct Context {
    diagnostics: Vec<Diagnostic>,
    control_flow: ControlFlow,
    plugin_codes: CodeSet,
}

/// The mathematical content of a [`Context`].
pub struct ContextView {
    /// The findings, oldest first.
    pub diagnostics: Seq<DiagnosticView>,
    /// The control-flow facts by offset.
    pub control_flow: Map<u32, ControlFlowFact>,
    /// The active plugin rule codes, in order of arrival.
    pub plugin_codes: Seq<Seq<char>>,
}

impl View for Context {
    type V = ContextView;

    closed spec fn view(&self) -> ContextView {
        ContextView {
            diagnostics: diagnostic_views(self.diagnostics@),
            control_flow: self.control_flow@,
            plugin_codes: self.plugin_codes@,
        }
    }
}

impl ContextView {
    /// This content with one more finding at the end.
    pub open spec fn with_diagnostic(self, diagnostic: DiagnosticView) -> ContextView {
        ContextView { diagnostics: self.diagnostics.push(diagnostic), ..self }
    }

    /// This content with `more` findings at the end.
    pub open spec fn with_diagnostics(self, more: Seq<DiagnosticView>) -> ContextView {
        ContextView { diagnostics: self.diagnostics + more, ..self }
    }
}

/// Appending findings in two steps is appending both lists joined.
pub proof fn lemma_with_diagnostics_twice(
    content: ContextView,
    first: Seq<DiagnosticView>,
    second: Seq<DiagnosticView>,
)
    ensures
        content.with_diagnostics(first).with_diagnostics(second) == content.with_diagnostics(
            first + second,
        ),
        content.with_diagnostics(Seq::empty()) == content,
        forall|d: DiagnosticView| #[trigger] content.with_diagnostic(d) == content.with_diagnostics(seq![d]),
{
    assert((content.diagnostics + first) + second =~= content.diagnostics + (first + second));
    assert(content.diagnostics + Seq::<DiagnosticView>::empty() =~= content.diagnostics);
    assert forall|d: DiagnosticView| #[trigger]
        content.with_diagnostic(d) == content.with_diagnostics(seq![d]) by {
        assert(content.diagnostics.push(d) =~= content.diagnostics + seq![d]);
    }
}

/// Findings are never taken back: what a context held is in front of what it
/// holds after more findings were appended, unchanged and in the same order.
pub proof fn lemma_findings_are_kept(content: ContextView, more: Seq<DiagnosticView>)
    ensures
        content.diagnostics.is_prefix_of(content.with_diagnostics(more).diagnostics),
        content.with_diagnostics(more).diagnostics.len() == content.diagnostics.len() + more.len(),
        content.with_diagnostics(more).control_flow == content.control_flow,
        content.with_diagnostics(more).plugin_codes == content.plugin_codes,
{
}

impl Context {
    /// A context for a new run over a program with the given control-flow
    /// facts: no findings yet, no plugin codes.
    pub fn new(control_flow: ControlFlow) -> (context: Context)
        ensures
            context@ == (ContextView {
                diagnostics: Seq::empty(),
                control_flow: control_flow@,
                plugin_codes: Seq::empty(),
            }),
    {
        let diagnostics: Vec<Diagnostic> = Vec::new();
        assert(diagnostic_views(diagnostics@) =~= Seq::<DiagnosticView>::empty());
        Context { diagnostics, control_flow, plugin_codes: CodeSet::new() }
    }

    /// Appends a finding without a hint.
    pub fn add_diagnostic(&mut self, span: Span, code: &str, message: &str)
        ensures
            final(self)@ == old(self)@.with_diagnostic(
                DiagnosticView { code: code@, span, message: message@, hint: None },
            ),
            final(self)@.diagnostics.last().hint is None,
    {
        let ghost before = diagnostic_views(self.diagnostics@);
        let diagnostic = Diagnostic::new(span, code, message);
        self.diagnostics.push(diagnostic);
        assert(diagnostic_views(self.diagnostics@) =~= before.push(diagnostic@));
    }

    /// Appends a finding that carries a hint.
    pub fn add_diagnostic_with_hint(&mut self, span: Span, code: &str, message: &str, hint: &str)
        ensures
            final(self)@ == old(self)@.with_diagnostic(
                DiagnosticView { code: code@, span, message: message@, hint: Some(hint@) },
            ),
            final(self)@.diagnostics.last().hint == Some(hint@),
    {
        let ghost before = diagnostic_views(self.diagnostics@);
        let diagnostic = Diagnostic::with_hint(span, code, message, hint);
        self.diagnostics.push(diagnostic);
        assert(diagnostic_views(self.diagnostics@) =~= before.push(diagnostic@));
    }

    /// Records which plugin rule codes were active in this run, in place of
    /// what was recorded before. The findings are left as they are: a code
    /// need not be recorded here for its findings to count.
    pub fn set_plugin_codes(&mut self, codes: CodeSet)
        ensures
            final(self)@ == (ContextView { plugin_codes: codes@, ..old(self)@ }),
    {
        self.plugin_codes = codes;
    }

    /// The findings so far, oldest first.
    pub fn diagnostics(&self) -> (list: &Vec<Diagnostic>)
        ensures
            diagnostic_views(list@) == self@.diagnostics,
    {
        &self.diagnostics
    }

    /// The control-flow facts of the program under analysis.
    pub fn control_flow(&self) -> (table: &ControlFlow)
        ensures
            table@ == self@.control_flow,
    {
        &self.control_flow
    }

    /// The plugin rule codes recorded as active.
    pub fn plugin_codes(&self) -> (codes: &CodeSet)
        ensures
            codes@ == self@.plugin_codes,
    {
        &self.plugin_codes
    }
}

} // verus!
