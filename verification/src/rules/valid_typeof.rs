//! The rule `valid-typeof`: the result of `typeof` may only be compared with
//! another `typeof` or with a string literal that names a type.

use crate::ast::{BinExpr, Expr, Module};
use crate::context::{lemma_with_diagnostics_twice, Context};
use crate::control_flow::ControlFlowFact;
use crate::diagnostic::DiagnosticView;
use crate::rules::LintRule;
use crate::span::Span;
use crate::text::str_eq;
use vstd::prelude::*;

verus! {

/// The code under which the rule reports.
pub const CODE: &'static str = "valid-typeof";

/// The message of every finding of the rule.
pub const MESSAGE: &'static str = "Invalid typeof comparison value";

/// Whether `text` is one of the strings that `typeof` can evaluate to.
pub open spec fn valid_typeof_string(text: Seq<char>) -> bool {
    ||| text == "undefined"@
    ||| text == "object"@
    ||| text == "boolean"@
    ||| text == "number"@
    ||| text == "string"@
    ||| text == "function"@
    ||| text == "symbol"@
    ||| text == "bigint"@
}

/// Where `operand`, compared with a `typeof`, is at fault: nowhere if it is a
/// `typeof` itself or a string literal that names a type, at its own span
/// otherwise.
pub open spec fn operand_fault(operand: Expr) -> Option<Span> {
    match operand {
        Expr::Unary(unary) => if operand.is_typeof() {
            None
        } else {
            Some(unary.span)
        },
        Expr::Str(literal) => if valid_typeof_string(literal.value@) {
            None
        } else {
            Some(literal.span)
        },
        _ => Some(operand.span()),
    }
}

/// Where the binary expression itself is at fault. Only a comparison for
/// equality or inequality with a `typeof` on one side can be; the operand on
/// the other side is then judged by [`operand_fault`]. With a `typeof` on
/// both sides nothing is at fault.
pub open spec fn comparison_fault(bin_expr: BinExpr) -> Option<Span> {
    if !bin_expr.op.spec_is_equality() {
        None
    } else if bin_expr.left.is_typeof() {
        operand_fault(*bin_expr.right)
    } else if bin_expr.right.is_typeof() {
        operand_fault(*bin_expr.left)
    } else {
        None
    }
}

/// The finding that the rule reports for a fault at `span`.
pub open spec fn finding(span: Span) -> DiagnosticView {
    DiagnosticView { code: CODE@, span, message: MESSAGE@, hint: None }
}

/// Whether `diagnostic` has the shape of the rule's findings: its code, its
/// message and no hint.
pub open spec fn is_rule_finding(diagnostic: DiagnosticView) -> bool {
    diagnostic.code == CODE@ && diagnostic.message == MESSAGE@ && diagnostic.hint is None
}

/// What the rule reports for the binary expression itself: one finding if it
/// is at fault, none otherwise.
pub open spec fn comparison_findings(bin_expr: BinExpr) -> Seq<DiagnosticView> {
    match comparison_fault(bin_expr) {
        Some(span) => seq![finding(span)],
        None => Seq::empty(),
    }
}

/// A comparison yields at most one finding, and none unless it compares for
/// equality or inequality with a `typeof` on exactly one side. The finding
/// is anchored at the operand on the other side.
pub proof fn lemma_comparison_findings(bin_expr: BinExpr)
    ensures
        comparison_findings(bin_expr).len() <= 1,
        comparison_findings(bin_expr).len() == 1 ==> {
            &&& bin_expr.op.spec_is_equality()
            &&& bin_expr.left.is_typeof() != bin_expr.right.is_typeof()
            &&& comparison_findings(bin_expr)[0] == finding(
                if bin_expr.left.is_typeof() {
                    bin_expr.right.span()
                } else {
                    bin_expr.left.span()
                },
            )
        },
{
}

/// What the rule reports for an expression and everything inside it: a
/// binary expression is judged first, then its left operand, then its right
/// one; any other expression contributes what the expressions inside it do,
/// in source order.
pub open spec fn expr_findings(expr: Expr) -> Seq<DiagnosticView>
    decreases expr,
{
    match expr {
        Expr::Bin(bin_expr) => comparison_findings(bin_expr) + expr_findings(*bin_expr.left)
            + expr_findings(*bin_expr.right),
        Expr::Unary(unary) => expr_findings(*unary.arg),
        Expr::Str(_) => Seq::empty(),
        Expr::Other(other) => list_findings(other.children@),
    }
}

/// What the rule reports for a list of expressions, one after the other.
pub open spec fn list_findings(list: Seq<Expr>) -> Seq<DiagnosticView>
    decreases list,
{
    if list.len() == 0 {
        Seq::empty()
    } else {
        list_findings(list.drop_last()) + expr_findings(list.last())
    }
}

/// Whether `str` is one of the strings that `typeof` can evaluate to.
pub fn is_valid_typeof_string(str: &str) -> (valid: bool)
    ensures
        valid == valid_typeof_string(str@),
{
    str_eq(str, "undefined")
        || str_eq(str, "object")
        || str_eq(str, "boolean")
        || str_eq(str, "number")
        || str_eq(str, "string")
        || str_eq(str, "function")
        || str_eq(str, "symbol")
        || str_eq(str, "bigint")
}

/// The rule itself.
#[derive(Clone, Copy, Debug, PartialEq, Eq, Structural)]
pub struct ValidTypeof;

impl LintRule for ValidTypeof {
    open spec fn spec_code(&self) -> Seq<char> {
        CODE@
    }

    open spec fn findings(
        &self,
        module: &Module,
        control_flow: Map<u32, ControlFlowFact>,
    ) -> Seq<DiagnosticView> {
        list_findings(module.body@)
    }

    proof fn lemma_findings_carry_code(
        &self,
        module: &Module,
        control_flow: Map<u32, ControlFlowFact>,
    ) {
        lemma_list_findings_carry_code(module.body@);
    }

    fn new() -> (rule: Box<Self>)
        ensures
            *rule == ValidTypeof,
    {
        Box::new(ValidTypeof)
    }

    fn code(&self) -> (code: &'static str) {
        CODE
    }

    fn lint_module(&self, context: &mut Context, module: &Module) {
        let mut visitor = ValidTypeofVisitor::new(context);
        visitor.visit_module(module);
    }

    fn docs(&self) -> (docs: &'static str)
        ensures
            docs@ == DOCS@,
    {
        DOCS
    }
}

/// One pass of the rule over a tree. It borrows the context of the run and
/// has no other state.
pub struct ValidTypeofVisitor<'a> {
    pub context: &'a mut Context,
}

impl<'a> ValidTypeofVisitor<'a> {
    /// A visitor that reports into `context`.
    pub fn new(context: &'a mut Context) -> (visitor: Self)
        ensures
            *visitor.context == *old(context),
            *final(visitor.context) == *final(context),
    {
        ValidTypeofVisitor { context }
    }

    /// Judges one binary expression, without looking inside its operands:
    /// appends the finding for it, if it is at fault.
    pub fn visit_bin_expr(&mut self, bin_expr: &BinExpr)
        ensures
            final(self).context@ == old(self).context@.with_diagnostics(
                comparison_findings(*bin_expr),
            ),
            *final(final(self).context) == *final(old(self).context),
    {
        proof {
            lemma_with_diagnostics_twice(self.context@, Seq::empty(), Seq::empty());
        }
        if !bin_expr.is_eq_expr() {
            return;
        }
        if bin_expr.left.is_typeof() {
            self.check_operand(&bin_expr.right);
        } else if bin_expr.right.is_typeof() {
            self.check_operand(&bin_expr.left);
        }
    }

    /// Judges the operand that a `typeof` is compared with.
    fn check_operand(&mut self, operand: &Expr)
        ensures
            final(self).context@ == old(self).context@.with_diagnostics(
                match operand_fault(*operand) {
                    Some(span) => seq![finding(span)],
                    None => Seq::empty(),
                },
            ),
            *final(final(self).context) == *final(old(self).context),
    {
        proof {
            lemma_with_diagnostics_twice(self.context@, Seq::empty(), Seq::empty());
        }
        match operand {
            Expr::Unary(unary) => {
                if !operand.is_typeof() {
                    self.context.add_diagnostic(unary.span, CODE, MESSAGE);
                }
            },
            Expr::Str(literal) => {
                if !is_valid_typeof_string(literal.value.as_str()) {
                    self.context.add_diagnostic(literal.span, CODE, MESSAGE);
                }
            },
            _ => {
                self.context.add_diagnostic(operand.span(), CODE, MESSAGE);
            },
        }
    }

    /// Visits an expression and everything inside it.
    pub fn visit_expr(&mut self, expr: &Expr)
        ensures
            final(self).context@ == old(self).context@.with_diagnostics(expr_findings(*expr)),
            *final(final(self).context) == *final(old(self).context),
        decreases *expr,
    {
        let ghost before = self.context@;
        match expr {
            Expr::Bin(bin_expr) => {
                self.visit_bin_expr(bin_expr);
                self.visit_expr(&bin_expr.left);
                self.visit_expr(&bin_expr.right);
                proof {
                    lemma_with_diagnostics_twice(
                        before,
                        comparison_findings(*bin_expr),
                        expr_findings(*bin_expr.left),
                    );
                    lemma_with_diagnostics_twice(
                        before,
                        comparison_findings(*bin_expr) + expr_findings(*bin_expr.left),
                        expr_findings(*bin_expr.right),
                    );
                }
            },
            Expr::Unary(unary) => {
                self.visit_expr(&unary.arg);
            },
            Expr::Str(_) => {
                proof {
                    lemma_with_diagnostics_twice(before, Seq::empty(), Seq::empty());
                }
            },
            Expr::Other(other) => {
                let children = &other.children;
                let mut i: usize = 0;
                proof {
                    lemma_with_diagnostics_twice(before, Seq::empty(), Seq::empty());
                    assert(children@.take(0) =~= Seq::<Expr>::empty());
                }
                while i < children.len()
                    invariant
                        i <= children.len(),
                        *expr == Expr::Other(*other),
                        *children == other.children,
                        self.context@ == before.with_diagnostics(
                            list_findings(children@.take(i as int)),
                        ),
                        *final(self.context) == *final(old(self).context),
                    decreases children.len() - i,
                {
                    proof {
                        assert(expr->Other_0 == *other);
                        assert(decreases_to!(*expr => expr->Other_0));
                        assert(decreases_to!(*other => other.children));
                        assert(decreases_to!(other.children => other.children@));
                        assert(decreases_to!(other.children@ => other.children@[i as int]));
                    }
                    self.visit_expr(&children[i]);
                    proof {
                        lemma_list_findings_push(children@.take(i as int), children@[i as int]);
                        assert(children@.take(i as int).push(children@[i as int])
                            =~= children@.take(i as int + 1));
                        lemma_with_diagnostics_twice(
                            before,
                            list_findings(children@.take(i as int)),
                            expr_findings(children@[i as int]),
                        );
                    }
                    i += 1;
                }
                assert(children@.take(children.len() as int) =~= children@);
            },
        }
    }

    /// Visits every expression of a module, in source order.
    pub fn visit_module(&mut self, module: &Module)
        ensures
            final(self).context@ == old(self).context@.with_diagnostics(
                list_findings(module.body@),
            ),
            *final(final(self).context) == *final(old(self).context),
    {
        let ghost before = self.context@;
        let mut i: usize = 0;
        proof {
            lemma_with_diagnostics_twice(before, Seq::empty(), Seq::empty());
            assert(module.body@.take(0) =~= Seq::<Expr>::empty());
        }
        while i < module.body.len()
            invariant
                i <= module.body.len(),
                self.context@ == before.with_diagnostics(
                    list_findings(module.body@.take(i as int)),
                ),
                *final(self.context) == *final(old(self).context),
            decreases module.body.len() - i,
        {
            self.visit_expr(&module.body[i]);
            proof {
                lemma_list_findings_push(module.body@.take(i as int), module.body@[i as int]);
                assert(module.body@.take(i as int).push(module.body@[i as int])
                    =~= module.body@.take(i as int + 1));
                lemma_with_diagnostics_twice(
                    before,
                    list_findings(module.body@.take(i as int)),
                    expr_findings(module.body@[i as int]),
                );
            }
            i += 1;
        }
        assert(module.body@.take(module.body.len() as int) =~= module.body@);
    }
}

/// The findings for a list with one more expression at its end.
pub proof fn lemma_list_findings_push(list: Seq<Expr>, last: Expr)
    ensures
        list_findings(list.push(last)) == list_findings(list) + expr_findings(last),
{
    assert(list.push(last).drop_last() =~= list);
}

/// Whether every element of `list` has the shape of the rule's findings.
pub open spec fn all_rule_findings(list: Seq<DiagnosticView>) -> bool {
    forall|i: int| 0 <= i < list.len() ==> is_rule_finding(#[trigger] list[i])
}

proof fn lemma_all_rule_findings_join(first: Seq<DiagnosticView>, second: Seq<DiagnosticView>)
    requires
        all_rule_findings(first),
        all_rule_findings(second),
    ensures
        all_rule_findings(first + second),
{
    assert forall|i: int| 0 <= i < (first + second).len() implies is_rule_finding(
        #[trigger] (first + second)[i],
    ) by {
        if i < first.len() {
            assert((first + second)[i] == first[i]);
        } else {
            assert((first + second)[i] == second[i - first.len()]);
        }
    }
}

/// Every finding for an expression carries the rule's code and message and
/// no hint.
pub proof fn lemma_expr_findings_carry_code(expr: Expr)
    ensures
        all_rule_findings(expr_findings(expr)),
    decreases expr,
{
    match expr {
        Expr::Bin(bin_expr) => {
            lemma_expr_findings_carry_code(*bin_expr.left);
            lemma_expr_findings_carry_code(*bin_expr.right);
            lemma_all_rule_findings_join(
                comparison_findings(bin_expr),
                expr_findings(*bin_expr.left),
            );
            lemma_all_rule_findings_join(
                comparison_findings(bin_expr) + expr_findings(*bin_expr.left),
                expr_findings(*bin_expr.right),
            );
        },
        Expr::Unary(unary) => {
            lemma_expr_findings_carry_code(*unary.arg);
        },
        Expr::Str(_) => {},
        Expr::Other(other) => {
            lemma_list_findings_carry_code(other.children@);
        },
    }
}

/// Every finding for a list of expressions carries the rule's code and
/// message and no hint.
pub proof fn lemma_list_findings_carry_code(list: Seq<Expr>)
    ensures
        all_rule_findings(list_findings(list)),
    decreases list,
{
    if list.len() > 0 {
        lemma_list_findings_carry_code(list.drop_last());
        lemma_expr_findings_carry_code(list.last());
        lemma_all_rule_findings_join(
            list_findings(list.drop_last()),
            expr_findings(list.last()),
        );
    }
}

/// What the rule is for, with examples.
pub const DOCS: &'static str = r#"Restricts the use of the `typeof` operator to a specific set of string literals.

When used with a value the `typeof` operator returns one of the following strings:
- `"undefined"`
- `"object"`
- `"boolean"`
- `"number"`
- `"string"`
- `"function"`
- `"symbol"`
- `"bigint"`

This rule disallows comparison with anything other than one of these string literals when using the `typeof` operator, as this likely represents a typing mistake in the string. The rule also disallows comparing the result of a `typeof` operation with any non-string literal value, such as `undefined`, which can represent an inadvertent use of a keyword instead of a string. This includes comparing against string variables even if they contain one of the above values as this cannot be guaranteed. An exception to this is comparing the results of two `typeof` operations as these are both guaranteed to return on of the above strings.

### Invalid:
```typescript
typeof foo === "strnig"
```
```typescript
typeof foo == "undefimed"
```
```typescript
typeof bar != "nunber"
```
```typescript
typeof bar !== "fucntion"
```
```typescript
typeof foo === undefined
```
```typescript
typeof bar == Object
```
```typescript
typeof baz === anotherVariable
```
```typescript
typeof foo == 5
```

### Valid:
```typescript
typeof foo === "undefined"
```
```typescript
typeof bar == "object"
```
```typescript
typeof baz === "string"
```
```typescript
typeof bar === typeof qux
```"#;

} // verus!
