//! Built-in rules and the contract that each of them meets.

pub mod valid_typeof;

use crate::ast::Module;
use crate::context::{lemma_with_diagnostics_twice, Context, ContextView};
use crate::control_flow::ControlFlowFact;
use crate::diagnostic::DiagnosticView;
use crate::text::str_eq;
use vstd::prelude::*;

verus! {

/// A rule that is compiled into the linter.
///
/// A rule has a code that identifies it, documentation, and one pass over a
/// parsed module in which it appends its findings to the shared context. It
/// keeps no state of its own between passes: what it reports is a function of
/// the module and of the control-flow facts that the context holds.
pub trait LintRule {
    /// The rule's code.
    spec fn spec_code(&self) -> Seq<char>;

    /// What the rule reports for `module`, in the order in which it reports
    /// it, given the control-flow facts of the program.
    spec fn findings(
        &self,
        module: &Module,
        control_flow: Map<u32, ControlFlowFact>,
    ) -> Seq<DiagnosticView>;

    /// Every finding of the rule carries the rule's code.
    proof fn lemma_findings_carry_code(
        &self,
        module: &Module,
        control_flow: Map<u32, ControlFlowFact>,
    ) where Self: Sized
        ensures
            forall|i: int|
                0 <= i < self.findings(module, control_flow).len() ==> (
                #[trigger] self.findings(module, control_flow)[i]).code == self.spec_code(),
    ;

    /// A new instance of the rule.
    fn new() -> Box<Self> where Self: Sized;

    /// The code under which the rule reports.
    fn code(&self) -> (code: &'static str)
        ensures
            code@ == self.spec_code(),
    ;

    /// Runs the rule over `module`: its findings are appended to the context
    /// in order, and nothing else in the context changes.
    fn lint_module(&self, context: &mut Context, module: &Module)
        ensures
            final(context)@ == old(context)@.with_diagnostics(
                self.findings(module, old(context)@.control_flow),
            ),
    ;

    /// What the rule is for, with examples, as Markdown.
    fn docs(&self) -> &'static str;
}

/// A rule keeps nothing from one pass to the next: two passes of the same rule
/// over the same module, each into a context without findings and with the
/// same control-flow facts, leave the same list of findings, which is what
/// the rule reports for the module.
pub proof fn lemma_rule_is_repeatable<R: LintRule>(
    rule: &R,
    module: &Module,
    first: ContextView,
    second: ContextView,
)
    requires
        first.diagnostics.len() == 0,
        second.diagnostics.len() == 0,
        first.control_flow == second.control_flow,
    ensures
        first.with_diagnostics(rule.findings(module, first.control_flow)).diagnostics
            == second.with_diagnostics(rule.findings(module, second.control_flow)).diagnostics,
        first.with_diagnostics(rule.findings(module, first.control_flow)).diagnostics
            == rule.findings(module, first.control_flow),
{
    let found = rule.findings(module, first.control_flow);
    assert(first.diagnostics + found =~= found);
    assert(second.diagnostics + found =~= found);
}

/// The codes of the rules, in the order of the list.
pub open spec fn codes_of(rules: Seq<Box<dyn LintRule>>) -> Seq<Seq<char>> {
    Seq::new(rules.len(), |i: int| rules[i].spec_code())
}

/// What the rules report for `module`, rule after rule in the order of the
/// list, each rule's findings in the rule's own order.
pub open spec fn findings_of_all(
    rules: Seq<Box<dyn LintRule>>,
    module: &Module,
    control_flow: Map<u32, ControlFlowFact>,
) -> Seq<DiagnosticView>
    decreases rules.len(),
{
    if rules.len() == 0 {
        Seq::empty()
    } else {
        findings_of_all(rules.drop_last(), module, control_flow) + rules.last().findings(
            module,
            control_flow,
        )
    }
}

/// Whether one of the rules has this code. A code stands for at most one
/// built-in rule: [`register_rule`] asks this before it adds one.
pub fn has_rule(rules: &Vec<Box<dyn LintRule>>, code: &str) -> (found: bool)
    ensures
        found == codes_of(rules@).contains(code@),
{
    let mut i: usize = 0;
    while i < rules.len()
        invariant
            i <= rules.len(),
            forall|j: int| 0 <= j < i ==> codes_of(rules@)[j] != code@,
        decreases rules.len() - i,
    {
        if str_eq(rules[i].code(), code) {
            assert(codes_of(rules@)[i as int] == code@);
            return true;
        }
        i += 1;
    }
    false
}

/// Adds `rule` behind the rules that are there, unless its code is taken;
/// says whether it was added.
pub fn register_rule(rules: &mut Vec<Box<dyn LintRule>>, rule: Box<dyn LintRule>) -> (added: bool)
    ensures
        added == !codes_of(old(rules)@).contains(rule.spec_code()),
        final(rules)@ == (if added {
            old(rules)@.push(rule)
        } else {
            old(rules)@
        }),
{
    if has_rule(rules, rule.code()) {
        false
    } else {
        rules.push(rule);
        true
    }
}

/// Runs the rules over `module`, one after the other in the order of the
/// list.
pub fn lint_with_rules(rules: &Vec<Box<dyn LintRule>>, context: &mut Context, module: &Module)
    ensures
        final(context)@ == old(context)@.with_diagnostics(
            findings_of_all(rules@, module, old(context)@.control_flow),
        ),
{
    let ghost before = context@;
    let mut i: usize = 0;
    proof {
        lemma_with_diagnostics_twice(before, Seq::empty(), Seq::empty());
        assert(rules@.take(0) =~= Seq::<Box<dyn LintRule>>::empty());
    }
    while i < rules.len()
        invariant
            i <= rules.len(),
            context@ == before.with_diagnostics(
                findings_of_all(rules@.take(i as int), module, before.control_flow),
            ),
        decreases rules.len() - i,
    {
        rules[i].lint_module(context, module);
        proof {
            assert(rules@.take(i as int + 1).drop_last() =~= rules@.take(i as int));
            assert(rules@.take(i as int + 1).last() == rules@[i as int]);
            lemma_with_diagnostics_twice(
                before,
                findings_of_all(rules@.take(i as int), module, before.control_flow),
                rules@[i as int].findings(module, before.control_flow),
            );
        }
        i += 1;
    }
    assert(rules@.take(rules.len() as int) =~= rules@);
}

} // verus!
