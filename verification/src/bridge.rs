//! The host side of the plugin bridge: the entry module that loads a plugin,
//! the operations that a plugin script may call, and the steps of one pass of
//! a plugin over a program.
//!
//! The script runtime itself is not here. Whoever embeds one hands each
//! operation call to the functions of this module, and drives a pass by
//! feeding [`advance`] what the runtime did and doing what it answers.

use crate::code_set::{string_views, CodeSet};
use crate::context::{lemma_with_diagnostics_twice, Context, ContextView};
use crate::control_flow::{reachable_at, stops_at, ControlFlowFact};
use crate::diagnostic::DiagnosticView;
use crate::error::BridgeError;
use crate::plugin_state::{
    announced, merged, report_codes, report_views, PluginRunState, PluginRunStateView,
};
use crate::span::Span;
use crate::wire::{
    answer_of, decode_query, decode_report, decode_rule_code, encode_answer, encode_nothing,
    query_of, report_of, rule_code_of, DiagnosticReport, Json, JsonView, ReportView,
};
use vstd::prelude::*;
use vstd::string::StringExecFns;

verus! {

/// What follows the import line in every entry module: the registry of rule
/// classes, `registerRule`, the global `runPlugins`, and the registration of
/// the plugin's default export.
pub const ENTRY_MODULE_BODY: &'static str = "Deno.core.ops();
const rules = new Map();
function registerRule(ruleClass) {
  const code = ruleClass.ruleCode();
  rules.set(code, ruleClass);
  Deno.core.jsonOpSync('op_add_rule_code', { code });
}
globalThis.runPlugins = function(programAst, ruleCodes) {
  for (const code of ruleCodes) {
    const rule = rules.get(code);
    if (rule === undefined) {
      continue;
    }
    const diagnostics = new rule().collectDiagnostics(programAst);
    Deno.core.jsonOpSync('op_add_diagnostics', { code, diagnostics });
  }
};
registerRule(Plugin);
";

/// The source of the entry module for the plugin at `plugin_path`: a line that
/// imports the plugin's default export from that path, written out as it is,
/// and then [`ENTRY_MODULE_BODY`].
pub open spec fn entry_module_source(plugin_path: Seq<char>) -> Seq<char> {
    "import Plugin from '"@ + plugin_path + "';\n"@ + ENTRY_MODULE_BODY@
}

/// Writes the entry module for the plugin at `plugin_path`. The module is
/// never read from disk: the runtime is given this text.
pub fn create_dummy_source(plugin_path: &str) -> (source: String)
    ensures
        source@ == entry_module_source(plugin_path@),
{
    let mut source = String::from_str("import Plugin from '");
    source.append(plugin_path);
    source.append("';\n");
    source.append(ENTRY_MODULE_BODY);
    source
}

/// The entry module is a function of the plugin path alone, and its first
/// line holds the path unchanged between `import Plugin from '` and `';`.
pub proof fn lemma_entry_module_embeds_path(plugin_path: Seq<char>)
    ensures
        entry_module_source(plugin_path).len() == 20 + plugin_path.len() + 3
            + ENTRY_MODULE_BODY@.len(),
        entry_module_source(plugin_path).subrange(0, 20) == "import Plugin from '"@,
        entry_module_source(plugin_path).subrange(20, 20 + plugin_path.len() as int)
            == plugin_path,
        entry_module_source(plugin_path).subrange(
            20 + plugin_path.len() as int,
            23 + plugin_path.len() as int,
        ) == "';\n"@,
{
    reveal_strlit("import Plugin from '");
    reveal_strlit("';\n");
    let source = entry_module_source(plugin_path);
    assert(source.subrange(0, 20) =~= "import Plugin from '"@);
    assert(source.subrange(20, 20 + plugin_path.len() as int) =~= plugin_path);
    assert(source.subrange(20 + plugin_path.len() as int, 23 + plugin_path.len() as int)
        =~= "';\n"@);
}

/// Two plugin paths give the same entry module only if they are the same
/// path.
pub proof fn lemma_entry_module_tells_paths_apart(first: Seq<char>, second: Seq<char>)
    requires
        entry_module_source(first) == entry_module_source(second),
    ensures
        first == second,
{
    lemma_entry_module_embeds_path(first);
    lemma_entry_module_embeds_path(second);
}

/// The operation `add_diagnostics`: a plugin delivers the findings of one rule.
///
/// The findings are kept with those that the same code delivered before. A
/// payload of the wrong shape fails the call; the state then keeps what it
/// held and remembers the fault, so that the pass fails too.
pub fn op_add_diagnostics(state: &mut PluginRunState, args: &Json) -> (answer: Result<
    Json,
    BridgeError,
>)
    ensures
        match report_of(args@) {
            Some(report) => {
                &&& answer matches Ok(nothing) && nothing@ == JsonView::Object(Seq::empty())
                &&& final(state)@ == (PluginRunStateView {
                    reports: merged(old(state)@.reports, report),
                    ..old(state)@
                })
            },
            None => {
                &&& answer matches Err(BridgeError::Protocol)
                &&& final(state)@ == (PluginRunStateView { protocol_fault: true, ..old(state)@ })
            },
        },
        old(state)@.wf() ==> final(state)@.wf(),
{
    match decode_report(args) {
        Ok(report) => {
            state.add_report(report);
            Ok(encode_nothing())
        },
        Err(e) => {
            state.mark_protocol_fault();
            Err(e)
        },
    }
}

/// The operation `add_rule_code`: a plugin registers a rule.
///
/// A payload of the wrong shape fails the call; the state then keeps what it
/// held and remembers the fault, so that the pass fails too.
pub fn op_add_rule_code(state: &mut PluginRunState, args: &Json) -> (answer: Result<
    Json,
    BridgeError,
>)
    ensures
        match rule_code_of(args@) {
            Some(code) => {
                &&& answer matches Ok(nothing) && nothing@ == JsonView::Object(Seq::empty())
                &&& final(state)@ == (PluginRunStateView {
                    codes: announced(old(state)@.codes, code),
                    ..old(state)@
                })
            },
            None => {
                &&& answer matches Err(BridgeError::Protocol)
                &&& final(state)@ == (PluginRunStateView { protocol_fault: true, ..old(state)@ })
            },
        },
        old(state)@.wf() ==> final(state)@.wf(),
{
    match decode_rule_code(args) {
        Ok(code) => {
            state.add_rule_code(code);
            Ok(encode_nothing())
        },
        Err(e) => {
            state.mark_protocol_fault();
            Err(e)
        },
    }
}

/// The operation `query_control_flow_by_span`: a plugin asks what is known
/// about control flow at the start of a span.
///
/// Without an installed control-flow table the call fails, whatever the
/// payload; that fails this call only, not the pass. With a table, a payload
/// of the wrong shape fails the call, and the state remembers the fault, so
/// that the pass fails too. Any other payload gets an answer: both parts of it
/// are `null` where the table has no fact for the offset.
pub fn op_query_control_flow_by_span(state: &mut PluginRunState, args: &Json) -> (answer: Result<
    Json,
    BridgeError,
>)
    ensures
        match (old(state)@.control_flow, query_of(args@)) {
            (None, _) => {
                &&& answer matches Err(BridgeError::MissingContext)
                &&& final(state)@ == old(state)@
            },
            (Some(_), None) => {
                &&& answer matches Err(BridgeError::Protocol)
                &&& final(state)@ == (PluginRunStateView { protocol_fault: true, ..old(state)@ })
            },
            (Some(facts), Some(span)) => {
                &&& answer matches Ok(encoded) && encoded@ == query_answer(facts, span)
                &&& final(state)@ == old(state)@
            },
        },
        old(state)@.wf() ==> final(state)@.wf(),
{
    if state.control_flow().is_none() {
        return Err(BridgeError::MissingContext);
    }
    let span = match decode_query(args) {
        Ok(span) => span,
        Err(e) => {
            state.mark_protocol_fault();
            return Err(e);
        },
    };
    match state.control_flow() {
        Some(control_flow) => {
            let is_reachable = control_flow.is_reachable(span.lo);
            let stops_execution = control_flow.stops_execution(span.lo);
            Ok(encode_answer(is_reachable, stops_execution))
        },
        None => Err(BridgeError::MissingContext),
    }
}

/// The answer to a query about `span`, given the facts of the run.
pub open spec fn query_answer(facts: Map<u32, ControlFlowFact>, span: Span) -> JsonView {
    answer_of(reachable_at(facts, span.lo), stops_at(facts, span.lo))
}

/// A query about an offset without a recorded fact is answered with
/// `{ isReachable: null, stopsExecution: null }`.
pub proof fn lemma_query_without_fact(facts: Map<u32, ControlFlowFact>, span: Span)
    requires
        !facts.contains_key(span.lo),
    ensures
        query_answer(facts, span) == JsonView::Object(
            seq![("isReachable"@, JsonView::Null), ("stopsExecution"@, JsonView::Null)],
        ),
{
}

/// The findings of one report, each with the report's code.
pub open spec fn report_diagnostics(report: ReportView) -> Seq<DiagnosticView> {
    Seq::new(
        report.diagnostics.len(),
        |i: int|
            DiagnosticView {
                code: report.code,
                span: report.diagnostics[i].span,
                message: report.diagnostics[i].message,
                hint: report.diagnostics[i].hint,
            },
    )
}

/// The findings of a list of reports: those of the first report in their
/// order, then those of the second, and so on.
pub open spec fn all_diagnostics(reports: Seq<ReportView>) -> Seq<DiagnosticView>
    decreases reports.len(),
{
    if reports.len() == 0 {
        Seq::empty()
    } else {
        all_diagnostics(reports.drop_last()) + report_diagnostics(reports.last())
    }
}

/// The statement that starts the plugin's rules: a call of `runPlugins` with
/// the program and the rule codes, both as JSON text.
pub open spec fn statement_text(program: Seq<char>, codes: Seq<char>) -> Seq<char> {
    "runPlugins("@ + program + ", "@ + codes + ");"@
}

/// What `serde_json` makes of a list of strings: the JSON text that it
/// writes, or `None` where it declines to write one.
pub uninterp spec fn json_text_of_strings(items: Seq<Seq<char>>) -> Option<Seq<char>>;

/// `serde_json::Error`, which is only ever carried from the serializer to the
/// place where it is told apart from success.
#[verifier::external_type_specification]
#[verifier::external_body]
pub struct ExJsonError(serde_json::Error);

/// `serde_json::to_string`, on a list of strings. Its result is the one that
/// `json_text_of_strings` names: the same list always gives the same outcome,
/// success with the same text or failure. Nothing is claimed about which
/// lists succeed, nor about what the text holds.
#[verifier::external_body]
fn strings_to_json(items: &Vec<String>) -> (text: Result<String, serde_json::Error>)
    ensures
        match text {
            Ok(written) => json_text_of_strings(string_views(items@)) == Some(written@),
            Err(_) => json_text_of_strings(string_views(items@)) is None,
        },
{
    serde_json::to_string(items)
}

/// Writes the statement that starts the plugin's rules.
pub fn compose_statement(program: &str, codes: &str) -> (statement: String)
    ensures
        statement@ == statement_text(program@, codes@),
{
    let mut statement = String::from_str("runPlugins(");
    statement.append(program);
    statement.append(", ");
    statement.append(codes);
    statement.append(");");
    statement
}

/// The statement that starts the rules with the given codes over `program`,
/// given what the serializer made of the codes: the call of `runPlugins` with
/// the program and that text, or none where there is no text.
pub open spec fn statement_for(program: Seq<char>, codes: Option<Seq<char>>) -> Option<
    Seq<char>,
> {
    match codes {
        Some(written) => Some(statement_text(program, written)),
        None => None,
    }
}

/// Writes the statement that starts the rules with the given codes over
/// `program`, which is the program as JSON text. There is a statement exactly
/// where the codes can be written as JSON, and it then holds the program as
/// it was given and the codes as they were written.
pub fn run_plugins_statement(program: &str, codes: &CodeSet) -> (statement: Option<String>)
    ensures
        match statement_for(program@, json_text_of_strings(codes@)) {
            Some(text) => statement matches Some(written) && written@ == text,
            None => statement is None,
        },
{
    match strings_to_json(codes.as_vec()) {
        Ok(written) => Some(compose_statement(program, written.as_str())),
        Err(_) => None,
    }
}

/// First step of a pass: the control-flow table of the run goes into the
/// plugin's state, in place of the table of an earlier run. What the state
/// has accumulated stays.
pub fn begin_pass(state: &mut PluginRunState, context: &Context)
    ensures
        final(state)@ == (PluginRunStateView {
            control_flow: Some(context@.control_flow),
            ..old(state)@
        }),
{
    state.install_control_flow(context.control_flow().clone());
}

/// Step after the entry module has been evaluated: the codes that registered
/// so far leave the plugin's state and are recorded in the context as this
/// run's active plugin codes. They are handed out for the dispatch.
pub fn publish_codes(state: &mut PluginRunState, context: &mut Context) -> (codes: CodeSet)
    ensures
        codes@ == old(state)@.codes,
        final(state)@ == (PluginRunStateView { codes: Seq::empty(), ..old(state)@ }),
        final(context)@ == (ContextView { plugin_codes: codes@, ..old(context)@ }),
{
    let codes = state.take_codes();
    context.set_plugin_codes(codes.clone());
    codes
}

/// Appends the findings of one report to the context, each under the
/// report's code, with or without a hint as it was reported.
pub fn merge_report(context: &mut Context, report: &DiagnosticReport)
    ensures
        final(context)@ == old(context)@.with_diagnostics(report_diagnostics(report@)),
{
    let ghost before = context@;
    let ghost all = report_diagnostics(report@);
    let mut i: usize = 0;
    proof {
        lemma_with_diagnostics_twice(before, Seq::empty(), Seq::empty());
        assert(all.take(0) =~= Seq::<DiagnosticView>::empty());
    }
    while i < report.diagnostics.len()
        invariant
            i <= report.diagnostics.len(),
            all == report_diagnostics(report@),
            all.len() == report.diagnostics@.len(),
            context@ == before.with_diagnostics(all.take(i as int)),
        decreases report.diagnostics.len() - i,
    {
        let reported = &report.diagnostics[i];
        proof {
            lemma_with_diagnostics_twice(context@, Seq::empty(), Seq::empty());
            lemma_with_diagnostics_twice(before, all.take(i as int), seq![all[i as int]]);
            assert(all.take(i as int) + seq![all[i as int]] =~= all.take(i as int + 1));
            assert(report@.diagnostics[i as int] == reported@);
        }
        match &reported.hint {
            Some(hint) => {
                context.add_diagnostic_with_hint(
                    reported.span,
                    report.code.as_str(),
                    reported.message.as_str(),
                    hint.as_str(),
                );
            },
            None => {
                context.add_diagnostic(
                    reported.span,
                    report.code.as_str(),
                    reported.message.as_str(),
                );
            },
        }
        i += 1;
    }
    assert(all.take(report.diagnostics.len() as int) =~= all);
}

/// Last step of a pass: the reports that came in leave the plugin's state,
/// and their findings go to the end of the context's list, report by report
/// in the order in which the codes first reported, each report's findings in
/// the order in which they arrived. What the context held stays in front.
pub fn merge_reports(state: &mut PluginRunState, context: &mut Context)
    ensures
        final(state)@ == (PluginRunStateView { reports: Seq::empty(), ..old(state)@ }),
        final(context)@ == old(context)@.with_diagnostics(all_diagnostics(old(state)@.reports)),
{
    let ghost before = context@;
    let reports = state.take_reports();
    let ghost views = report_views(reports@);
    let mut i: usize = 0;
    proof {
        lemma_with_diagnostics_twice(before, Seq::empty(), Seq::empty());
        assert(views.take(0) =~= Seq::<ReportView>::empty());
    }
    while i < reports.len()
        invariant
            i <= reports.len(),
            views == report_views(reports@),
            context@ == before.with_diagnostics(all_diagnostics(views.take(i as int))),
        decreases reports.len() - i,
    {
        merge_report(context, &reports[i]);
        proof {
            assert(views.take(i as int + 1).drop_last() =~= views.take(i as int));
            assert(views.take(i as int + 1).last() == reports@[i as int]@);
            lemma_with_diagnostics_twice(
                before,
                all_diagnostics(views.take(i as int)),
                report_diagnostics(reports@[i as int]@),
            );
        }
        i += 1;
    }
    assert(views.take(reports.len() as int) =~= views);
}

/// Where a pass stands.
#[derive(Clone, Copy, Debug, PartialEq, Eq, Structural)]
pub enum PassPhase {
    /// No pass is under way.
    Idle,
    /// The runtime is evaluating the entry module.
    Evaluating,
    /// The runtime is executing the statement that starts the rules.
    Dispatching,
}

/// What happened outside since the last step.
#[derive(Debug, PartialEq, Eq)]
pub enum PassEvent {
    /// The engine asks for a pass over a program.
    Started,
    /// The entry module has been evaluated to completion.
    Evaluated,
    /// The statement that starts the rules has been executed to completion.
    Dispatched,
    /// What the runtime was asked to do has failed.
    Failed(BridgeError),
}

/// What is to be done outside next.
#[derive(Debug, PartialEq, Eq)]
pub enum PassAction {
    /// Evaluate the entry module, and wait until that is complete.
    Evaluate,
    /// Execute this statement, and wait until that is complete.
    Dispatch(String),
    /// The pass is over, and it succeeded.
    Finished,
    /// The pass is over, and it failed.
    Failed(BridgeError),
}

/// Whether `event` can follow in `phase`. A pass is started from `Idle`, each
/// completion answers the action that was asked for, and only what was asked
/// for can fail.
pub open spec fn fits(phase: PassPhase, event: PassEvent) -> bool {
    match event {
        PassEvent::Started => phase == PassPhase::Idle,
        PassEvent::Evaluated => phase == PassPhase::Evaluating,
        PassEvent::Dispatched => phase == PassPhase::Dispatching,
        PassEvent::Failed(_) => phase != PassPhase::Idle,
    }
}

/// Whether `event` can follow in `phase`.
pub fn event_fits(phase: PassPhase, event: &PassEvent) -> (answer: bool)
    ensures
        answer == fits(phase, *event),
{
    match event {
        PassEvent::Started => phase == PassPhase::Idle,
        PassEvent::Evaluated => phase == PassPhase::Evaluating,
        PassEvent::Dispatched => phase == PassPhase::Dispatching,
        PassEvent::Failed(_) => phase != PassPhase::Idle,
    }
}

/// The plugin's state once a pass over the program of `context` has started.
pub open spec fn after_started(
    state: PluginRunStateView,
    context: ContextView,
) -> PluginRunStateView {
    PluginRunStateView { control_flow: Some(context.control_flow), ..state }
}

/// The plugin's state and the context once the entry module has been
/// evaluated and the codes have been published.
pub open spec fn after_evaluated(state: PluginRunStateView, context: ContextView) -> (
    PluginRunStateView,
    ContextView,
) {
    (
        PluginRunStateView { codes: Seq::empty(), ..state },
        ContextView { plugin_codes: state.codes, ..context },
    )
}

/// The plugin's state and the context once the rules have run and their
/// findings have been merged.
pub open spec fn after_dispatched(state: PluginRunStateView, context: ContextView) -> (
    PluginRunStateView,
    ContextView,
) {
    (
        PluginRunStateView { reports: Seq::empty(), ..state },
        context.with_diagnostics(all_diagnostics(state.reports)),
    )
}

/// What follows the attempt to write the statement that starts the rules:
/// with a statement the pass goes on to execute it, without one it fails.
pub fn dispatch_or_fail(statement: Option<String>) -> (next: (PassPhase, PassAction))
    ensures
        match statement {
            Some(text) => next.0 == PassPhase::Dispatching && next.1 == PassAction::Dispatch(text),
            None => next.0 == PassPhase::Idle && next.1 == PassAction::Failed(
                BridgeError::Protocol,
            ),
        },
{
    match statement {
        Some(text) => (PassPhase::Dispatching, PassAction::Dispatch(text)),
        None => (PassPhase::Idle, PassAction::Failed(BridgeError::Protocol)),
    }
}

/// The plugin's state once a pass has answered for a malformed payload.
pub open spec fn after_fault(state: PluginRunStateView) -> PluginRunStateView {
    PluginRunStateView { protocol_fault: false, ..state }
}

/// One step of a pass of the plugin over a program: takes in what happened
/// outside, updates the plugin's state and the context, and says what is to be
/// done outside next, and in which phase the pass then is.
///
/// `program` is the program under analysis as JSON text. A pass goes:
/// `Started`, answered by `Evaluate`; `Evaluated`, answered by `Dispatch` with
/// the statement to execute; `Dispatched`, answered by `Finished`.
///
/// Where an operation was handed a malformed payload while the runtime was at
/// work, the pass ends there with a protocol error, whether or not the script
/// got over it. Any other failure outside ends the pass with that failure.
/// Either way the context keeps what it held, and the plugin's state keeps
/// what it has accumulated.
pub fn advance(
    phase: PassPhase,
    event: PassEvent,
    state: &mut PluginRunState,
    context: &mut Context,
    program: &str,
) -> (next: (PassPhase, PassAction))
    requires
        fits(phase, event),
    ensures
        !(event is Started) && old(state)@.protocol_fault ==> {
            &&& next.0 == PassPhase::Idle
            &&& next.1 == PassAction::Failed(BridgeError::Protocol)
            &&& final(state)@ == after_fault(old(state)@)
            &&& final(context)@ == old(context)@
        },
        event is Started || !old(state)@.protocol_fault ==> match event {
            PassEvent::Started => {
                &&& next.0 == PassPhase::Evaluating
                &&& next.1 is Evaluate
                &&& final(state)@ == after_started(old(state)@, old(context)@)
                &&& final(context)@ == old(context)@
            },
            PassEvent::Evaluated => {
                &&& (final(state)@, final(context)@) == after_evaluated(
                    old(state)@,
                    old(context)@,
                )
                &&& match statement_for(program@, json_text_of_strings(old(state)@.codes)) {
                    Some(text) => {
                        &&& next.0 == PassPhase::Dispatching
                        &&& next.1 matches PassAction::Dispatch(statement) && statement@ == text
                    },
                    None => {
                        &&& next.0 == PassPhase::Idle
                        &&& next.1 == PassAction::Failed(BridgeError::Protocol)
                    },
                }
            },
            PassEvent::Dispatched => {
                &&& next.0 == PassPhase::Idle
                &&& next.1 is Finished
                &&& (final(state)@, final(context)@) == after_dispatched(
                    old(state)@,
                    old(context)@,
                )
            },
            PassEvent::Failed(error) => {
                &&& next.0 == PassPhase::Idle
                &&& next.1 == PassAction::Failed(error)
                &&& final(state)@ == old(state)@
                &&& final(context)@ == old(context)@
            },
        },
{
    let faulted = state.protocol_fault();
    match event {
        PassEvent::Started => {
            begin_pass(state, context);
            (PassPhase::Evaluating, PassAction::Evaluate)
        },
        PassEvent::Evaluated => {
            if faulted {
                fail_for_fault(state)
            } else {
                let codes = publish_codes(state, context);
                dispatch_or_fail(run_plugins_statement(program, &codes))
            }
        },
        PassEvent::Dispatched => {
            if faulted {
                fail_for_fault(state)
            } else {
                merge_reports(state, context);
                (PassPhase::Idle, PassAction::Finished)
            }
        },
        PassEvent::Failed(error) => {
            if faulted {
                fail_for_fault(state)
            } else {
                (PassPhase::Idle, PassAction::Failed(error))
            }
        },
    }
}

/// Ends the pass with a protocol error, and forgets the fault that it answers
/// for.
fn fail_for_fault(state: &mut PluginRunState) -> (next: (PassPhase, PassAction))
    ensures
        next.0 == PassPhase::Idle,
        next.1 == PassAction::Failed(BridgeError::Protocol),
        final(state)@ == after_fault(old(state)@),
{
    state.clear_protocol_fault();
    (PassPhase::Idle, PassAction::Failed(BridgeError::Protocol))
}

/// No step of a pass breaks the plugin's state: it stays a map from rule code
/// to findings and a set of codes.
pub proof fn lemma_pass_keeps_state_well_formed(state: PluginRunStateView, context: ContextView)
    requires
        state.wf(),
    ensures
        after_started(state, context).wf(),
        after_evaluated(state, context).0.wf(),
        after_dispatched(state, context).0.wf(),
        after_fault(state).wf(),
{
    assert(report_codes(Seq::<ReportView>::empty()) =~= Seq::<Seq<char>>::empty());
}

/// The findings of a plugin pass go behind those that the context held
/// before the pass, and both keep their order: with the findings of built-in
/// rules in the context, the merged list is those findings followed by the
/// plugin's.
pub proof fn lemma_plugin_findings_follow(
    context: ContextView,
    native: Seq<DiagnosticView>,
    state: PluginRunStateView,
)
    ensures
        after_dispatched(state, context.with_diagnostics(native)).1.diagnostics
            == context.diagnostics + native + all_diagnostics(state.reports),
        context.diagnostics.len() == 0 ==> after_dispatched(
            state,
            context.with_diagnostics(native),
        ).1.diagnostics == native + all_diagnostics(state.reports),
{
    if context.diagnostics.len() == 0 {
        assert(context.diagnostics + native =~= native);
    }
}

/// The findings of a single report are its findings in order, each under the
/// report's code.
pub proof fn lemma_single_report(report: ReportView)
    ensures
        all_diagnostics(seq![report]) == report_diagnostics(report),
        report_diagnostics(report).len() == report.diagnostics.len(),
        forall|i: int|
            0 <= i < report.diagnostics.len() ==> #[trigger] report_diagnostics(report)[i] == (
                DiagnosticView {
                    code: report.code,
                    span: report.diagnostics[i].span,
                    message: report.diagnostics[i].message,
                    hint: report.diagnostics[i].hint,
                }),
{
    assert(seq![report].drop_last() =~= Seq::<ReportView>::empty());
    assert(seq![report].last() == report);
    assert(all_diagnostics(Seq::<ReportView>::empty()) =~= Seq::<DiagnosticView>::empty());
    assert(Seq::<DiagnosticView>::empty() + report_diagnostics(report) =~= report_diagnostics(
        report,
    ));
}

/// A plugin that calls no operation during a pass leaves no trace: starting
/// from a state in which nothing has happened, no step of the pass finds a
/// fault to answer for, and the pass records no active code and adds no
/// finding; the plugin's state ends as it was after the start.
pub proof fn lemma_silent_plugin(context: ContextView)
    ensures
        ({
            let started = after_started(PluginRunStateView::fresh(), context);
            let evaluated = after_evaluated(started, context);
            let dispatched = after_dispatched(evaluated.0, evaluated.1);
            &&& !started.protocol_fault && !evaluated.0.protocol_fault
            &&& evaluated.1.plugin_codes == Seq::<Seq<char>>::empty()
            &&& dispatched.1.diagnostics == context.diagnostics
            &&& dispatched.1 == ContextView { plugin_codes: Seq::empty(), ..context }
            &&& dispatched.0 == started
        }),
{
    assert(all_diagnostics(Seq::<ReportView>::empty()) =~= Seq::<DiagnosticView>::empty());
    assert(context.diagnostics + Seq::<DiagnosticView>::empty() =~= context.diagnostics);
}

} // verus!
