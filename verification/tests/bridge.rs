use lint_core::bridge::{
    advance, begin_pass, compose_statement, create_dummy_source, dispatch_or_fail, event_fits,
    merge_report, merge_reports, op_add_diagnostics, op_add_rule_code,
    op_query_control_flow_by_span, publish_codes, run_plugins_statement, PassAction, PassEvent,
    PassPhase, ENTRY_MODULE_BODY,
};
use lint_core::code_set::CodeSet;
use lint_core::context::Context;
use lint_core::control_flow::{ControlFlow, ControlFlowFact};
use lint_core::diagnostic::Diagnostic;
use lint_core::error::BridgeError;
use lint_core::plugin_state::PluginRunState;
use lint_core::span::Span;
use lint_core::wire::{DiagnosticReport, Json, Member, ReportedDiagnostic};

fn text(value: &str) -> Json {
    Json::Str(value.to_string())
}

fn object(members: Vec<(&str, Json)>) -> Json {
    Json::Object(
        members.into_iter().map(|(name, value)| Member { name: name.to_string(), value }).collect(),
    )
}

fn span(lo: i128, hi: i128) -> Json {
    object(vec![("lo", Json::Integer(lo)), ("hi", Json::Integer(hi))])
}

fn reported(lo: i128, message: &str, hint: Option<&str>) -> Json {
    object(vec![
        ("span", span(lo, lo + 1)),
        ("message", text(message)),
        ("hint", hint.map(text).unwrap_or(Json::Null)),
    ])
}

fn report(code: &str, diagnostics: Vec<Json>) -> Json {
    object(vec![("code", text(code)), ("diagnostics", Json::Array(diagnostics))])
}

fn code(code: &str) -> Json {
    object(vec![("code", text(code))])
}

fn query(lo: i128) -> Json {
    object(vec![("span", span(lo, lo + 4))])
}

fn diagnostic(code: &str, lo: u32, message: &str, hint: Option<&str>) -> Diagnostic {
    Diagnostic {
        code: code.to_string(),
        span: Span { lo, hi: lo + 1 },
        message: message.to_string(),
        hint: hint.map(str::to_string),
    }
}

fn codes(set: &CodeSet) -> Vec<&str> {
    set.as_vec().iter().map(|code| code.as_str()).collect()
}

#[test]
fn test_create_dummy_source() {
    assert_eq!(
        create_dummy_source("./foo.ts"),
        r#"import Plugin from './foo.ts';
Deno.core.ops();
const rules = new Map();
function registerRule(ruleClass) {
  const code = ruleClass.ruleCode();
  rules.set(code, ruleClass);
  Deno.core.jsonOpSync('op_add_rule_code', { code });
}
globalThis.runPlugins = function(programAst, ruleCodes) {
  for (const code of ruleCodes) {
    const rule = rules.get(code);
    if (rule === undefined) {
      continue;
    }
    const diagnostics = new rule().collectDiagnostics(programAst);
    Deno.core.jsonOpSync('op_add_diagnostics', { code, diagnostics });
  }
};
registerRule(Plugin);
"#
    );
}

#[test]
fn the_entry_module_is_reproducible_and_embeds_the_path() {
    for path in ["./foo.ts", "", "file:///home/me/plugins/my rule.js", "../a'b\\c", "ünï.ts"] {
        let first = create_dummy_source(path);
        let second = create_dummy_source(path);
        assert_eq!(first, second);
        let import = format!("import Plugin from '{}';\n", path);
        assert!(first.starts_with(&import), "{}", path);
        assert_eq!(&first[import.len()..], ENTRY_MODULE_BODY);
    }
    assert_ne!(create_dummy_source("./a.ts"), create_dummy_source("./b.ts"));
}

#[test]
fn rule_codes_register_once_and_in_order() {
    let mut state = PluginRunState::new();
    assert_eq!(op_add_rule_code(&mut state, &code("b")), Ok(object(vec![])));
    assert_eq!(op_add_rule_code(&mut state, &code("a")), Ok(object(vec![])));
    assert_eq!(op_add_rule_code(&mut state, &code("b")), Ok(object(vec![])));
    assert_eq!(codes(&state.take_codes()), vec!["b", "a"]);
    assert_eq!(codes(&state.take_codes()), Vec::<&str>::new());
}

#[test]
fn a_malformed_rule_code_fails_and_drops_nothing() {
    let mut state = PluginRunState::new();
    op_add_rule_code(&mut state, &code("kept")).unwrap();
    assert!(!state.protocol_fault());
    assert_eq!(op_add_rule_code(&mut state, &Json::Null), Err(BridgeError::Protocol));
    assert_eq!(op_add_rule_code(&mut state, &text("code")), Err(BridgeError::Protocol));
    assert_eq!(
        op_add_rule_code(&mut state, &object(vec![("code", Json::Integer(1))])),
        Err(BridgeError::Protocol)
    );
    assert_eq!(
        op_add_rule_code(&mut state, &object(vec![("Code", text("x"))])),
        Err(BridgeError::Protocol)
    );
    assert_eq!(codes(&state.take_codes()), vec!["kept"]);
    assert!(state.protocol_fault());
}

#[test]
fn findings_of_one_code_accumulate() {
    let mut state = PluginRunState::new();
    let first = report("a", vec![reported(1, "a1", None)]);
    let other = report("b", vec![reported(2, "b1", Some("hint"))]);
    let second = report("a", vec![reported(3, "a2", None), reported(4, "a3", None)]);
    assert_eq!(op_add_diagnostics(&mut state, &first), Ok(object(vec![])));
    assert_eq!(op_add_diagnostics(&mut state, &other), Ok(object(vec![])));
    assert_eq!(op_add_diagnostics(&mut state, &second), Ok(object(vec![])));
    let reports = state.take_reports();
    assert_eq!(reports.len(), 2);
    assert_eq!(reports[0].code, "a");
    let messages: Vec<&str> = reports[0].diagnostics.iter().map(|d| d.message.as_str()).collect();
    assert_eq!(messages, vec!["a1", "a2", "a3"]);
    assert_eq!(reports[1].code, "b");
    assert_eq!(reports[1].diagnostics.len(), 1);
    assert!(state.take_reports().is_empty());
}

#[test]
fn a_report_without_findings_still_opens_its_code() {
    let mut state = PluginRunState::new();
    op_add_diagnostics(&mut state, &report("quiet", vec![])).unwrap();
    op_add_diagnostics(&mut state, &report("loud", vec![reported(0, "x", None)])).unwrap();
    op_add_diagnostics(&mut state, &report("quiet", vec![reported(1, "y", None)])).unwrap();
    let mut context = Context::new(ControlFlow::new());
    merge_reports(&mut state, &mut context);
    assert_eq!(
        context.diagnostics(),
        &vec![diagnostic("quiet", 1, "y", None), diagnostic("loud", 0, "x", None)]
    );
}

#[test]
fn a_malformed_report_fails_and_drops_nothing() {
    let mut state = PluginRunState::new();
    op_add_diagnostics(&mut state, &report("a", vec![reported(1, "kept", None)])).unwrap();
    let bad = vec![
        Json::Null,
        text("a"),
        object(vec![("code", text("a"))]),
        object(vec![("diagnostics", Json::Array(vec![]))]),
        report("a", vec![Json::Null]),
        report("a", vec![reported(2, "fine", None), object(vec![("message", text("no span"))])]),
        report("a", vec![object(vec![("span", span(-1, 0)), ("message", text("m"))])]),
        object(vec![("code", Json::Integer(1)), ("diagnostics", Json::Array(vec![]))]),
    ];
    for payload in &bad {
        assert_eq!(op_add_diagnostics(&mut state, payload), Err(BridgeError::Protocol));
    }
    let reports = state.take_reports();
    assert_eq!(reports.len(), 1);
    assert_eq!(reports[0].diagnostics.len(), 1);
    assert_eq!(reports[0].diagnostics[0].message, "kept");
    assert!(state.protocol_fault());
}

#[test]
fn a_query_without_control_flow_is_a_missing_context() {
    let mut state = PluginRunState::new();
    assert_eq!(
        op_query_control_flow_by_span(&mut state, &query(0)),
        Err(BridgeError::MissingContext)
    );
    assert_eq!(
        op_query_control_flow_by_span(&mut state, &Json::Null),
        Err(BridgeError::MissingContext)
    );
    assert!(!state.protocol_fault());
}

#[test]
fn a_query_about_an_offset_without_fact_answers_null_twice() {
    let mut table = ControlFlow::new();
    table.record(5, ControlFlowFact { unreachable: true, stops_execution: true });
    let mut state = PluginRunState::new();
    state.install_control_flow(table);
    assert_eq!(
        op_query_control_flow_by_span(&mut state, &query(6)),
        Ok(object(vec![("isReachable", Json::Null), ("stopsExecution", Json::Null)]))
    );
    let mut empty = PluginRunState::new();
    empty.install_control_flow(ControlFlow::new());
    assert_eq!(
        op_query_control_flow_by_span(&mut empty, &query(0)),
        Ok(object(vec![("isReachable", Json::Null), ("stopsExecution", Json::Null)]))
    );
}

#[test]
fn a_query_is_answered_from_the_fact_at_the_low_offset() {
    let mut table = ControlFlow::new();
    table.record(5, ControlFlowFact { unreachable: true, stops_execution: false });
    table.record(9, ControlFlowFact { unreachable: false, stops_execution: true });
    let mut state = PluginRunState::new();
    state.install_control_flow(table);
    assert_eq!(
        op_query_control_flow_by_span(&mut state, &query(5)),
        Ok(object(vec![("isReachable", Json::Bool(false)), ("stopsExecution", Json::Bool(false))]))
    );
    assert_eq!(
        op_query_control_flow_by_span(&mut state, &object(vec![("span", span(9, 5))])),
        Ok(object(vec![("isReachable", Json::Bool(true)), ("stopsExecution", Json::Bool(true))]))
    );
}

#[test]
fn a_malformed_query_is_a_protocol_error() {
    let mut state = PluginRunState::new();
    state.install_control_flow(ControlFlow::new());
    for payload in [
        Json::Null,
        span(1, 2),
        object(vec![("span", Json::Integer(1))]),
        object(vec![("span", object(vec![("lo", Json::Integer(1))]))]),
        object(vec![("span", span(0, -1))]),
        object(vec![("span", object(vec![("lo", Json::OtherNumber), ("hi", Json::Integer(1))]))]),
    ] {
        assert!(!state.protocol_fault());
        assert_eq!(op_query_control_flow_by_span(&mut state, &payload), Err(BridgeError::Protocol));
        assert!(state.protocol_fault());
        state.clear_protocol_fault();
    }
}

#[test]
fn a_new_table_replaces_the_installed_one() {
    let mut first = ControlFlow::new();
    first.record(1, ControlFlowFact { unreachable: true, stops_execution: true });
    let mut state = PluginRunState::new();
    state.install_control_flow(first);
    state.install_control_flow(ControlFlow::new());
    assert_eq!(state.control_flow().unwrap().lookup(1), None);
}

#[test]
fn the_statement_holds_the_program_and_the_codes_as_json() {
    let mut set = CodeSet::new();
    set.insert("no-foo".to_string());
    set.insert("say \"hi\"\n".to_string());
    assert_eq!(
        run_plugins_statement("{\"type\":\"Module\"}", &set),
        Some("runPlugins({\"type\":\"Module\"}, [\"no-foo\",\"say \\\"hi\\\"\\n\"]);".to_string())
    );
    assert_eq!(run_plugins_statement("null", &CodeSet::new()), Some("runPlugins(null, []);".to_string()));
    assert_eq!(compose_statement("A", "B"), "runPlugins(A, B);");
    assert_eq!(compose_statement("", ""), "runPlugins(, );");
}

#[test]
fn without_a_statement_the_pass_fails() {
    assert_eq!(
        dispatch_or_fail(Some("runPlugins(1, 2);".to_string())),
        (PassPhase::Dispatching, PassAction::Dispatch("runPlugins(1, 2);".to_string()))
    );
    assert_eq!(
        dispatch_or_fail(None),
        (PassPhase::Idle, PassAction::Failed(BridgeError::Protocol))
    );
}

#[test]
fn events_fit_their_phase_only() {
    let failed = || PassEvent::Failed(BridgeError::ScriptFault("boom".to_string()));
    assert!(event_fits(PassPhase::Idle, &PassEvent::Started));
    assert!(!event_fits(PassPhase::Idle, &PassEvent::Evaluated));
    assert!(!event_fits(PassPhase::Idle, &PassEvent::Dispatched));
    assert!(!event_fits(PassPhase::Idle, &failed()));
    assert!(!event_fits(PassPhase::Evaluating, &PassEvent::Started));
    assert!(event_fits(PassPhase::Evaluating, &PassEvent::Evaluated));
    assert!(!event_fits(PassPhase::Evaluating, &PassEvent::Dispatched));
    assert!(event_fits(PassPhase::Evaluating, &failed()));
    assert!(!event_fits(PassPhase::Dispatching, &PassEvent::Started));
    assert!(!event_fits(PassPhase::Dispatching, &PassEvent::Evaluated));
    assert!(event_fits(PassPhase::Dispatching, &PassEvent::Dispatched));
    assert!(event_fits(PassPhase::Dispatching, &failed()));
}

#[test]
fn plugin_findings_follow_native_findings() {
    let mut table = ControlFlow::new();
    table.record(3, ControlFlowFact { unreachable: false, stops_execution: false });
    let mut context = Context::new(table);
    context.add_diagnostic(Span { lo: 1, hi: 2 }, "N", "a");
    context.add_diagnostic_with_hint(Span { lo: 2, hi: 3 }, "N", "b", "hint b");
    let mut state = PluginRunState::new();

    let (phase, action) =
        advance(PassPhase::Idle, PassEvent::Started, &mut state, &mut context, "{}");
    assert_eq!((phase, action), (PassPhase::Evaluating, PassAction::Evaluate));
    assert!(state.control_flow().unwrap().lookup(3).is_some());

    op_add_rule_code(&mut state, &code("P")).unwrap();
    let (phase, action) = advance(phase, PassEvent::Evaluated, &mut state, &mut context, "{}");
    assert_eq!(
        (phase, action),
        (PassPhase::Dispatching, PassAction::Dispatch("runPlugins({}, [\"P\"]);".to_string()))
    );
    assert_eq!(codes(context.plugin_codes()), vec!["P"]);

    let payload = report("P", vec![reported(3, "c", None), reported(4, "d", Some("hint d"))]);
    op_add_diagnostics(&mut state, &payload).unwrap();
    let (phase, action) = advance(phase, PassEvent::Dispatched, &mut state, &mut context, "{}");
    assert_eq!((phase, action), (PassPhase::Idle, PassAction::Finished));

    assert_eq!(
        context.diagnostics(),
        &vec![
            diagnostic("N", 1, "a", None),
            diagnostic("N", 2, "b", Some("hint b")),
            diagnostic("P", 3, "c", None),
            diagnostic("P", 4, "d", Some("hint d")),
        ]
    );
    assert!(state.take_reports().is_empty());
    assert_eq!(state.take_codes().len(), 0);
}

#[test]
fn a_plugin_that_never_registers_leaves_no_trace() {
    let mut context = Context::new(ControlFlow::new());
    context.add_diagnostic(Span { lo: 0, hi: 1 }, "N", "native");
    let mut state = PluginRunState::new();
    let (phase, _) = advance(PassPhase::Idle, PassEvent::Started, &mut state, &mut context, "[]");
    let (phase, action) = advance(phase, PassEvent::Evaluated, &mut state, &mut context, "[]");
    assert_eq!(action, PassAction::Dispatch("runPlugins([], []);".to_string()));
    let (phase, action) = advance(phase, PassEvent::Dispatched, &mut state, &mut context, "[]");
    assert_eq!((phase, action), (PassPhase::Idle, PassAction::Finished));
    assert_eq!(context.diagnostics(), &vec![diagnostic("N", 0, "native", None)]);
    assert_eq!(context.plugin_codes().len(), 0);
}

#[test]
fn a_failure_ends_the_pass_and_keeps_what_was_found() {
    let mut context = Context::new(ControlFlow::new());
    context.add_diagnostic(Span { lo: 0, hi: 1 }, "N", "native");
    let mut state = PluginRunState::new();
    let (phase, _) = advance(PassPhase::Idle, PassEvent::Started, &mut state, &mut context, "{}");
    let fault = PassEvent::Failed(BridgeError::Io("no such file: ./plugin.js".to_string()));
    let (phase, action) = advance(phase, fault, &mut state, &mut context, "{}");
    assert_eq!(phase, PassPhase::Idle);
    assert_eq!(
        action,
        PassAction::Failed(BridgeError::Io("no such file: ./plugin.js".to_string()))
    );
    assert_eq!(context.diagnostics(), &vec![diagnostic("N", 0, "native", None)]);

    let (phase, _) = advance(phase, PassEvent::Started, &mut state, &mut context, "{}");
    let (phase, _) = advance(phase, PassEvent::Evaluated, &mut state, &mut context, "{}");
    op_add_diagnostics(&mut state, &report("P", vec![reported(5, "half", None)])).unwrap();
    let fault = PassEvent::Failed(BridgeError::ScriptFault("Uncaught TypeError".to_string()));
    let (phase, action) = advance(phase, fault, &mut state, &mut context, "{}");
    assert_eq!(phase, PassPhase::Idle);
    assert_eq!(
        action,
        PassAction::Failed(BridgeError::ScriptFault("Uncaught TypeError".to_string()))
    );
    assert_eq!(context.diagnostics(), &vec![diagnostic("N", 0, "native", None)]);
}

#[test]
fn a_malformed_payload_fails_the_pass_with_a_protocol_error() {
    let mut context = Context::new(ControlFlow::new());
    context.add_diagnostic(Span { lo: 0, hi: 1 }, "N", "native");
    let mut state = PluginRunState::new();

    // during the evaluation of the entry module
    let (phase, _) = advance(PassPhase::Idle, PassEvent::Started, &mut state, &mut context, "{}");
    op_add_rule_code(&mut state, &code("P")).unwrap();
    assert_eq!(op_add_rule_code(&mut state, &Json::Null), Err(BridgeError::Protocol));
    let (phase, action) = advance(phase, PassEvent::Evaluated, &mut state, &mut context, "{}");
    assert_eq!((phase, action), (PassPhase::Idle, PassAction::Failed(BridgeError::Protocol)));
    assert_eq!(context.plugin_codes().len(), 0);
    assert!(!state.protocol_fault());

    // during the dispatch, whether the script got over it or not
    let (phase, _) = advance(phase, PassEvent::Started, &mut state, &mut context, "{}");
    let (phase, _) = advance(phase, PassEvent::Evaluated, &mut state, &mut context, "{}");
    op_add_diagnostics(&mut state, &report("P", vec![reported(5, "found", None)])).unwrap();
    assert_eq!(op_add_diagnostics(&mut state, &code("P")), Err(BridgeError::Protocol));
    let (phase, action) = advance(phase, PassEvent::Dispatched, &mut state, &mut context, "{}");
    assert_eq!((phase, action), (PassPhase::Idle, PassAction::Failed(BridgeError::Protocol)));
    assert_eq!(context.diagnostics(), &vec![diagnostic("N", 0, "native", None)]);

    let (phase, _) = advance(phase, PassEvent::Started, &mut state, &mut context, "{}");
    let (phase, _) = advance(phase, PassEvent::Evaluated, &mut state, &mut context, "{}");
    assert_eq!(
        op_query_control_flow_by_span(&mut state, &text("span")),
        Err(BridgeError::Protocol)
    );
    let fault = PassEvent::Failed(BridgeError::ScriptFault("Uncaught Error".to_string()));
    let (phase, action) = advance(phase, fault, &mut state, &mut context, "{}");
    assert_eq!((phase, action), (PassPhase::Idle, PassAction::Failed(BridgeError::Protocol)));
}

#[test]
fn a_query_without_context_does_not_fail_the_pass() {
    let mut context = Context::new(ControlFlow::new());
    let mut state = PluginRunState::new();
    assert_eq!(
        op_query_control_flow_by_span(&mut state, &query(1)),
        Err(BridgeError::MissingContext)
    );
    let (phase, _) = advance(PassPhase::Idle, PassEvent::Started, &mut state, &mut context, "{}");
    let (phase, action) = advance(phase, PassEvent::Evaluated, &mut state, &mut context, "{}");
    assert_eq!(action, PassAction::Dispatch("runPlugins({}, []);".to_string()));
    let (phase, action) = advance(phase, PassEvent::Dispatched, &mut state, &mut context, "{}");
    assert_eq!((phase, action), (PassPhase::Idle, PassAction::Finished));
}

#[test]
fn the_steps_of_a_pass_one_by_one() {
    let mut table = ControlFlow::new();
    table.record(8, ControlFlowFact { unreachable: true, stops_execution: false });
    let mut context = Context::new(table);
    let mut state = PluginRunState::new();
    begin_pass(&mut state, &context);
    assert_eq!(state.control_flow().unwrap().is_reachable(8), Some(false));
    state.add_rule_code("x".to_string());
    state.add_rule_code("y".to_string());
    let published = publish_codes(&mut state, &mut context);
    assert_eq!(codes(&published), vec!["x", "y"]);
    assert_eq!(codes(context.plugin_codes()), vec!["x", "y"]);
    assert_eq!(state.take_codes().len(), 0);
    let one = DiagnosticReport {
        code: "x".to_string(),
        diagnostics: vec![
            ReportedDiagnostic {
                span: Span { lo: 1, hi: 2 },
                message: "m1".to_string(),
                hint: None,
            },
            ReportedDiagnostic {
                span: Span { lo: 2, hi: 3 },
                message: "m2".to_string(),
                hint: Some("h2".to_string()),
            },
        ],
    };
    merge_report(&mut context, &one);
    assert_eq!(
        context.diagnostics(),
        &vec![diagnostic("x", 1, "m1", None), diagnostic("x", 2, "m2", Some("h2"))]
    );
}

#[test]
fn errors_say_what_went_wrong() {
    assert_eq!(BridgeError::Protocol.message(), "malformed payload");
    assert_eq!(BridgeError::MissingContext.message(), "ControlFlow is not set");
    assert_eq!(BridgeError::Io("cannot read ./p.js".to_string()).message(), "cannot read ./p.js");
    assert_eq!(BridgeError::ScriptFault("boom".to_string()).message(), "boom");
}
