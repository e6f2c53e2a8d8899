use lint_core::code_set::CodeSet;
use lint_core::context::Context;
use lint_core::control_flow::{ControlFlow, ControlFlowFact};
use lint_core::diagnostic::Diagnostic;
use lint_core::span::Span;
use lint_core::text::str_eq;

fn codes(set: &CodeSet) -> Vec<&str> {
    set.as_vec().iter().map(|code| code.as_str()).collect()
}

#[test]
fn a_new_context_is_empty() {
    let context = Context::new(ControlFlow::new());
    assert!(context.diagnostics().is_empty());
    assert_eq!(context.plugin_codes().len(), 0);
    assert_eq!(context.control_flow().lookup(0), None);
}

#[test]
fn add_diagnostic_records_no_hint() {
    let mut context = Context::new(ControlFlow::new());
    context.add_diagnostic(Span::new(3, 9), "no-empty", "Empty block statement");
    assert_eq!(
        context.diagnostics(),
        &vec![Diagnostic {
            code: "no-empty".to_string(),
            span: Span { lo: 3, hi: 9 },
            message: "Empty block statement".to_string(),
            hint: None,
        }]
    );
}

#[test]
fn add_diagnostic_with_hint_records_the_hint() {
    let mut context = Context::new(ControlFlow::new());
    context.add_diagnostic_with_hint(Span::new(0, 4), "eqeqeq", "expected '==='", "Use '==='");
    assert_eq!(
        context.diagnostics(),
        &vec![Diagnostic {
            code: "eqeqeq".to_string(),
            span: Span { lo: 0, hi: 4 },
            message: "expected '==='".to_string(),
            hint: Some("Use '==='".to_string()),
        }]
    );
}

#[test]
fn an_empty_hint_is_still_a_hint() {
    let mut context = Context::new(ControlFlow::new());
    context.add_diagnostic_with_hint(Span::new(0, 1), "a", "b", "");
    assert_eq!(context.diagnostics()[0].hint, Some(String::new()));
}

#[test]
fn diagnostics_keep_the_order_of_insertion() {
    let mut context = Context::new(ControlFlow::new());
    context.add_diagnostic(Span::new(9, 10), "b", "second in the source, first reported");
    context.add_diagnostic_with_hint(Span::new(1, 2), "a", "first in the source", "hint");
    context.add_diagnostic(Span::new(9, 10), "b", "second in the source, first reported");
    let diagnostics = context.diagnostics();
    assert_eq!(diagnostics.len(), 3);
    assert_eq!(diagnostics[0].code, "b");
    assert_eq!(diagnostics[1].code, "a");
    assert_eq!(diagnostics[2], diagnostics[0]);
}

#[test]
fn set_plugin_codes_replaces_the_codes_and_nothing_else() {
    let mut table = ControlFlow::new();
    table.record(4, ControlFlowFact { unreachable: true, stops_execution: false });
    let mut context = Context::new(table);
    context.add_diagnostic(Span::new(0, 1), "x", "kept");
    let mut first = CodeSet::new();
    first.insert("one".to_string());
    context.set_plugin_codes(first);
    let mut second = CodeSet::new();
    second.insert("two".to_string());
    second.insert("three".to_string());
    context.set_plugin_codes(second);
    assert_eq!(codes(context.plugin_codes()), vec!["two", "three"]);
    assert_eq!(context.diagnostics().len(), 1);
    assert!(context.control_flow().lookup(4).is_some());
}

#[test]
fn findings_of_a_code_that_is_not_recorded_still_count() {
    let mut context = Context::new(ControlFlow::new());
    context.set_plugin_codes(CodeSet::new());
    context.add_diagnostic(Span::new(0, 1), "unknown-plugin-rule", "found");
    assert_eq!(context.diagnostics().len(), 1);
}

#[test]
fn code_set_keeps_first_arrival_and_drops_repeats() {
    let mut set = CodeSet::new();
    assert!(set.insert("b".to_string()));
    assert!(set.insert("a".to_string()));
    assert!(!set.insert("b".to_string()));
    assert!(set.insert("".to_string()));
    assert_eq!(codes(&set), vec!["b", "a", ""]);
    assert_eq!(set.len(), 3);
    assert!(set.contains("a"));
    assert!(set.contains(""));
    assert!(!set.contains("c"));
    assert!(!set.contains("A"));
    let copy = set.clone();
    assert_eq!(codes(&copy), vec!["b", "a", ""]);
}

#[test]
fn lookup_of_an_offset_without_fact_is_none() {
    let mut table = ControlFlow::new();
    table.record(10, ControlFlowFact { unreachable: false, stops_execution: true });
    assert_eq!(table.lookup(9), None);
    assert_eq!(table.is_reachable(9), None);
    assert_eq!(table.stops_execution(9), None);
    assert_eq!(table.lookup(u32::MAX), None);
}

#[test]
fn queries_follow_the_recorded_fact() {
    let mut table = ControlFlow::new();
    table.record(10, ControlFlowFact { unreachable: false, stops_execution: true });
    table.record(20, ControlFlowFact { unreachable: true, stops_execution: false });
    assert_eq!(
        table.lookup(10),
        Some(ControlFlowFact { unreachable: false, stops_execution: true })
    );
    assert_eq!(table.is_reachable(10), Some(true));
    assert_eq!(table.stops_execution(10), Some(true));
    assert_eq!(table.is_reachable(20), Some(false));
    assert_eq!(table.stops_execution(20), Some(false));
}

#[test]
fn a_later_fact_replaces_an_earlier_one() {
    let mut table = ControlFlow::new();
    table.record(0, ControlFlowFact { unreachable: true, stops_execution: true });
    table.record(0, ControlFlowFact { unreachable: false, stops_execution: false });
    assert_eq!(table.is_reachable(0), Some(true));
    assert_eq!(table.stops_execution(0), Some(false));
}

#[test]
fn a_cloned_table_is_a_snapshot() {
    let mut table = ControlFlow::new();
    table.record(1, ControlFlowFact { unreachable: true, stops_execution: false });
    let snapshot = table.clone();
    table.record(2, ControlFlowFact { unreachable: false, stops_execution: false });
    assert_eq!(snapshot.is_reachable(1), Some(false));
    assert_eq!(snapshot.is_reachable(2), None);
    assert_eq!(table.is_reachable(2), Some(true));
}

#[test]
fn str_eq_compares_characters() {
    assert!(str_eq("", ""));
    assert!(str_eq("valid-typeof", "valid-typeof"));
    assert!(!str_eq("valid-typeof", "valid-typeoF"));
    assert!(!str_eq("abc", "ab"));
    assert!(!str_eq("ab", "abc"));
    assert!(str_eq("naïve ☃", "naïve ☃"));
    assert!(!str_eq("naïve", "naive"));
}
