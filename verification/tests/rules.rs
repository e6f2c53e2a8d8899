use lint_core::ast::{BinExpr, BinaryOp, Expr, Module, OtherExpr, UnaryExpr, UnaryOp};
use lint_core::context::Context;
use lint_core::control_flow::ControlFlow;
use lint_core::rules::valid_typeof::ValidTypeof;
use lint_core::rules::{has_rule, lint_with_rules, register_rule, LintRule};
use lint_core::span::Span;

fn module() -> Module {
    // typeof a == b
    let a = Expr::Other(OtherExpr { span: Span::new(7, 8), children: vec![] });
    let b = Expr::Other(OtherExpr { span: Span::new(12, 13), children: vec![] });
    let left =
        Expr::Unary(UnaryExpr { span: Span::new(0, 8), op: UnaryOp::TypeOf, arg: Box::new(a) });
    Module {
        body: vec![Expr::Bin(BinExpr {
            span: Span::new(0, 13),
            op: BinaryOp::EqEq,
            left: Box::new(left),
            right: Box::new(b),
        })],
    }
}

#[test]
fn rules_run_in_the_order_of_the_list() {
    let rules: Vec<Box<dyn LintRule>> = vec![ValidTypeof::new(), ValidTypeof::new()];
    let mut context = Context::new(ControlFlow::new());
    context.add_diagnostic(Span::new(0, 0), "first", "kept in front");
    lint_with_rules(&rules, &mut context, &module());
    let seen: Vec<(&str, u32)> =
        context.diagnostics().iter().map(|d| (d.code.as_str(), d.span.lo)).collect();
    assert_eq!(seen, vec![("first", 0), ("valid-typeof", 12), ("valid-typeof", 12)]);
}

#[test]
fn no_rules_no_findings() {
    let rules: Vec<Box<dyn LintRule>> = Vec::new();
    let mut context = Context::new(ControlFlow::new());
    lint_with_rules(&rules, &mut context, &module());
    assert!(context.diagnostics().is_empty());
}

#[test]
fn a_code_is_found_among_the_rules() {
    let mut rules: Vec<Box<dyn LintRule>> = Vec::new();
    assert!(!has_rule(&rules, "valid-typeof"));
    rules.push(ValidTypeof::new());
    assert!(has_rule(&rules, "valid-typeof"));
    assert!(!has_rule(&rules, "valid-typeo"));
    assert!(!has_rule(&rules, ""));
}

#[test]
fn a_rule_whose_code_is_taken_is_not_added() {
    let mut rules: Vec<Box<dyn LintRule>> = Vec::new();
    assert!(register_rule(&mut rules, ValidTypeof::new()));
    assert!(!register_rule(&mut rules, ValidTypeof::new()));
    assert_eq!(rules.len(), 1);
    let mut context = Context::new(ControlFlow::new());
    lint_with_rules(&rules, &mut context, &module());
    assert_eq!(context.diagnostics().len(), 1);
}
