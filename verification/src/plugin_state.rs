//! The state that the host keeps for a plugin while its script runs.

use crate::code_set::CodeSet;
use crate::control_flow::{ControlFlow, ControlFlowFact};
use crate::text::str_eq;
use crate::wire::{reported_views, DiagnosticReport, ReportView};
use vstd::prelude::*;

verus! {

/// The contents of a list of reports, in order.
pub open spec fn report_views(list: Seq<DiagnosticReport>) -> Seq<ReportView> {
    Seq::new(list.len(), |i: int| list[i]@)
}

/// The index of the first report for `code`, or the length of the list if
/// there is none.
pub open spec fn position_of(reports: Seq<ReportView>, code: Seq<char>) -> int
    decreases reports.len(),
{
    if reports.len() == 0 {
        0
    } else if reports[0].code == code {
        0
    } else {
        1 + position_of(reports.drop_first(), code)
    }
}

/// `position_of` finds the first report for the code, if there is one.
pub proof fn lemma_position_of(reports: Seq<ReportView>, code: Seq<char>)
    ensures
        0 <= position_of(reports, code) <= reports.len(),
        position_of(reports, code) < reports.len() ==> reports[position_of(reports, code)].code
            == code,
        forall|i: int| 0 <= i < position_of(reports, code) ==> (#[trigger] reports[i]).code != code,
    decreases reports.len(),
{
    if reports.len() > 0 && reports[0].code != code {
        let rest = reports.drop_first();
        lemma_position_of(rest, code);
        assert forall|i: int| 0 <= i < position_of(reports, code) implies (
        #[trigger] reports[i]).code != code by {
            if i > 0 {
                assert(reports[i] == rest[i - 1]);
            }
        }
    }
}

/// The reports after one more has arrived. Where the list already holds a
/// report for the same code, the new findings go to the end of that one;
/// otherwise the new report goes to the end of the list. Nothing that was
/// there is dropped or replaced.
pub open spec fn merged(reports: Seq<ReportView>, report: ReportView) -> Seq<ReportView> {
    let at = position_of(reports, report.code);
    if at < reports.len() {
        reports.update(
            at,
            ReportView {
                code: report.code,
                diagnostics: reports[at].diagnostics + report.diagnostics,
            },
        )
    } else {
        reports.push(report)
    }
}

/// The codes of the reports, in the order of the list.
pub open spec fn report_codes(reports: Seq<ReportView>) -> Seq<Seq<char>> {
    Seq::new(reports.len(), |i: int| reports[i].code)
}

/// Taking in a report leaves the list with one report per code, if it had one
/// report per code before.
pub proof fn lemma_merged_keeps_codes_apart(reports: Seq<ReportView>, report: ReportView)
    requires
        report_codes(reports).no_duplicates(),
    ensures
        report_codes(merged(reports, report)).no_duplicates(),
{
    lemma_position_of(reports, report.code);
    let at = position_of(reports, report.code);
    if at < reports.len() {
        assert(report_codes(merged(reports, report)) =~= report_codes(reports));
    } else {
        assert(report_codes(merged(reports, report)) =~= report_codes(reports).push(report.code));
        assert forall|i: int| 0 <= i < reports.len() implies report_codes(reports)[i]
            != report.code by {
            assert(reports[i].code != report.code);
        }
    }
}

/// Announcing a code leaves the codes distinct, if they were distinct before.
pub proof fn lemma_announced_keeps_codes_apart(codes: Seq<Seq<char>>, code: Seq<char>)
    requires
        codes.no_duplicates(),
    ensures
        announced(codes, code).no_duplicates(),
{
}

/// The codes after `code` has been announced: as before if it was there, with
/// `code` at the end otherwise.
pub open spec fn announced(codes: Seq<Seq<char>>, code: Seq<char>) -> Seq<Seq<char>> {
    if codes.contains(code) {
        codes
    } else {
        codes.push(code)
    }
}

/// What one evaluation of a plugin script accumulates on the host side, and
/// what the script may ask about: the findings by rule code, the rule codes
/// that registered, and the control-flow table of the run.
///
/// Each slot has one writer at a time. The operations fill the first two while
/// the script runs; the pass installs the third before the script runs and
/// drains the first two after it. The state also remembers whether an
/// operation was handed a malformed payload, until the pass has answered for
/// it.
pub struct PluginRunState {
    reports: Vec<DiagnosticReport>,
    codes: CodeSet,
    control_flow: Option<ControlFlow>,
    protocol_fault: bool,
}

/// The mathematical content of a [`PluginRunState`].
pub struct PluginRunStateView {
    /// One report per rule code, in the order in which the codes first
    /// reported.
    pub reports: Seq<ReportView>,
    /// The codes that registered, in order.
    pub codes: Seq<Seq<char>>,
    /// The control-flow facts, once a table is installed.
    pub control_flow: Option<Map<u32, ControlFlowFact>>,
    /// Whether an operation was handed a malformed payload since the last
    /// pass ended.
    pub protocol_fault: bool,
}

impl View for PluginRunState {
    type V = PluginRunStateView;

    closed spec fn view(&self) -> PluginRunStateView {
        PluginRunStateView {
            reports: report_views(self.reports@),
            codes: self.codes@,
            control_flow: match self.control_flow {
                Some(table) => Some(table@),
                None => None,
            },
            protocol_fault: self.protocol_fault,
        }
    }
}

impl PluginRunStateView {
    /// The findings are kept as a map from rule code to findings and the
    /// registered codes as a set: no code has two reports, and no code is
    /// registered twice. Every state made by `new` is well formed, and every
    /// operation keeps it so.
    pub open spec fn wf(self) -> bool {
        report_codes(self.reports).no_duplicates() && self.codes.no_duplicates()
    }

    /// The content of a state in which nothing has happened yet.
    pub open spec fn fresh() -> PluginRunStateView {
        PluginRunStateView {
            reports: Seq::empty(),
            codes: Seq::empty(),
            control_flow: None,
            protocol_fault: false,
        }
    }
}

impl PluginRunState {
    /// A state in which nothing has happened yet.
    pub fn new() -> (state: PluginRunState)
        ensures
            state@ == PluginRunStateView::fresh(),
            state@.wf(),
    {
        let reports: Vec<DiagnosticReport> = Vec::new();
        assert(report_views(reports@) =~= Seq::<ReportView>::empty());
        PluginRunState { reports, codes: CodeSet::new(), control_flow: None, protocol_fault: false }
    }

    /// Installs the control-flow table of the current run, in place of the one
    /// of an earlier run.
    pub fn install_control_flow(&mut self, control_flow: ControlFlow)
        ensures
            final(self)@ == (PluginRunStateView {
                control_flow: Some(control_flow@),
                ..old(self)@
            }),
    {
        self.control_flow = Some(control_flow);
    }

    /// The control-flow table, if one is installed.
    pub fn control_flow(&self) -> (table: Option<&ControlFlow>)
        ensures
            match table {
                Some(table) => self@.control_flow == Some(table@),
                None => self@.control_flow is None,
            },
    {
        self.control_flow.as_ref()
    }

    /// Whether an operation was handed a malformed payload since the last
    /// pass ended.
    pub fn protocol_fault(&self) -> (fault: bool)
        ensures
            fault == self@.protocol_fault,
    {
        self.protocol_fault
    }

    /// Remembers that an operation was handed a malformed payload.
    pub fn mark_protocol_fault(&mut self)
        ensures
            final(self)@ == (PluginRunStateView { protocol_fault: true, ..old(self)@ }),
    {
        self.protocol_fault = true;
    }

    /// Forgets that an operation was handed a malformed payload.
    pub fn clear_protocol_fault(&mut self)
        ensures
            final(self)@ == (PluginRunStateView { protocol_fault: false, ..old(self)@ }),
    {
        self.protocol_fault = false;
    }

    /// Registers a rule code.
    pub fn add_rule_code(&mut self, code: String)
        ensures
            final(self)@ == (PluginRunStateView {
                codes: announced(old(self)@.codes, code@),
                ..old(self)@
            }),
            old(self)@.wf() ==> final(self)@.wf(),
    {
        self.codes.insert(code);
    }

    /// Takes in one report of findings.
    pub fn add_report(&mut self, report: DiagnosticReport)
        ensures
            final(self)@ == (PluginRunStateView {
                reports: merged(old(self)@.reports, report@),
                ..old(self)@
            }),
            old(self)@.wf() ==> final(self)@.wf(),
    {
        let ghost before = report_views(self.reports@);
        let at = self.position(report.code.as_str());
        proof {
            lemma_position_of(before, report.code@);
            if report_codes(before).no_duplicates() {
                lemma_merged_keeps_codes_apart(before, report@);
            }
        }
        if at < self.reports.len() {
            let ghost incoming = report@;
            let ghost held = self.reports@[at as int].diagnostics@;
            let mut report = report;
            let entry = &mut self.reports[at];
            entry.diagnostics.append(&mut report.diagnostics);
            assert(reported_views(self.reports@[at as int].diagnostics@) =~= reported_views(held)
                + incoming.diagnostics);
            assert(report_views(self.reports@) =~= merged(before, incoming));
        } else {
            self.reports.push(report);
            assert(report_views(self.reports@) =~= merged(before, report@));
        }
    }

    /// The index of the first report for `code`, or the number of reports if
    /// there is none.
    fn position(&self, code: &str) -> (at: usize)
        ensures
            at == position_of(self@.reports, code@),
            at <= self.reports@.len(),
    {
        let ghost reports = report_views(self.reports@);
        let mut i: usize = 0;
        assert(reports.skip(0) =~= reports);
        while i < self.reports.len()
            invariant
                i <= self.reports.len(),
                reports == report_views(self.reports@),
                position_of(reports, code@) == i + position_of(reports.skip(i as int), code@),
            decreases self.reports.len() - i,
        {
            assert(reports.skip(i as int)[0] == reports[i as int]);
            if str_eq(self.reports[i].code.as_str(), code) {
                return i;
            }
            assert(reports.skip(i as int).drop_first() =~= reports.skip(i as int + 1));
            i += 1;
        }
        i
    }

    /// Hands out the codes that registered, and forgets them.
    pub fn take_codes(&mut self) -> (codes: CodeSet)
        ensures
            codes@ == old(self)@.codes,
            final(self)@ == (PluginRunStateView { codes: Seq::empty(), ..old(self)@ }),
    {
        let mut codes = CodeSet::new();
        std::mem::swap(&mut self.codes, &mut codes);
        codes
    }

    /// Hands out the reports that came in, and forgets them.
    pub fn take_reports(&mut self) -> (reports: Vec<DiagnosticReport>)
        ensures
            report_views(reports@) == old(self)@.reports,
            final(self)@ == (PluginRunStateView { reports: Seq::empty(), ..old(self)@ }),
    {
        let mut reports: Vec<DiagnosticReport> = Vec::new();
        assert(report_views(reports@) =~= Seq::<ReportView>::empty());
        std::mem::swap(&mut self.reports, &mut reports);
        reports
    }
}

} // verus!
