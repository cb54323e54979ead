//! Conservative constructibility classifier for superclass expressions.
//!
//! `classify` maps an expression to one of three verdicts: the value is
//! callable as a constructor, it cannot be, or the question is
//! undecidable from the shape alone. `Unknown` tells the caller to
//! suppress any diagnostic that depends on the answer, so the rule never
//! reports on insufficient information.

use vstd::prelude::*;

use crate::model::{AssignOp, Expr, ExprKind, LogicalOp};
use vstd::string::StringExecFns;

verus! {

/// Tri-state constructibility verdict.
#[derive(Clone, Copy, Debug, PartialEq, Eq, Structural)]
pub enum Verdict {
    /// The expression yields a value callable as a constructor.
    Constructible,
    /// The expression can never yield a constructor.
    NotConstructible,
    /// Undecidable from the shape alone; suppress any dependent finding.
    Unknown,
}

/// True for the assignment operators that forward the right-hand value
/// unchanged: plain assignment and the logical/nullish compound forms.
pub open spec fn forwards_right_operand(op: AssignOp) -> bool {
    ||| op == AssignOp::Assign
    ||| op == AssignOp::LogicalAndAssign
    ||| op == AssignOp::LogicalOrAssign
    ||| op == AssignOp::NullishCoalescingAssign
}

/// The classifier, as a structural fold over the expression shape:
/// - `this`, function, call, dynamic import, `import.meta`, `yield`,
///   `new`, `new.target` and class expressions are constructible;
/// - an identifier is constructible unless its text is exactly
///   `undefined`;
/// - an assignment forwards the verdict of its right-hand side when its
///   operator forwards that value, and is otherwise not constructible;
/// - logical AND forwards the right operand's verdict; logical OR and
///   nullish coalescing take the left operand's verdict when it is
///   decidable and otherwise the right one's;
/// - a conditional takes the alternate's verdict when it is decidable
///   and otherwise the consequent's;
/// - a sequence forwards its rightmost operand's verdict, a
///   parenthesized expression its inner one's;
/// - every other shape (literals among them) is not constructible;
/// - a missing required child anywhere makes the verdict `Unknown`.
pub open spec fn classify(e: Expr) -> Verdict
    decreases e,
{
    match e.kind {
        ExprKind::This => Verdict::Constructible,
        ExprKind::Function => Verdict::Constructible,
        ExprKind::Call { .. } => Verdict::Constructible,
        ExprKind::ImportCall => Verdict::Constructible,
        ExprKind::ImportMeta => Verdict::Constructible,
        ExprKind::Yield => Verdict::Constructible,
        ExprKind::New => Verdict::Constructible,
        ExprKind::NewTarget => Verdict::Constructible,
        ExprKind::Class => Verdict::Constructible,
        ExprKind::Identifier { name } => match name {
            Option::Some(s) => if s@ == "undefined"@ {
                Verdict::NotConstructible
            } else {
                Verdict::Constructible
            },
            Option::None => Verdict::Unknown,
        },
        ExprKind::Assignment { operator, right } => match operator {
            Option::Some(op) => if forwards_right_operand(op) {
                match right {
                    Option::Some(r) => classify(*r),
                    Option::None => Verdict::Unknown,
                }
            } else {
                Verdict::NotConstructible
            },
            Option::None => Verdict::Unknown,
        },
        ExprKind::Logical { operator, left, right } => match operator {
            Option::Some(op) => if op == LogicalOp::LogicalAnd {
                match right {
                    Option::Some(r) => classify(*r),
                    Option::None => Verdict::Unknown,
                }
            } else {
                match left {
                    Option::Some(l) => if classify(*l) != Verdict::Unknown {
                        classify(*l)
                    } else {
                        match right {
                            Option::Some(r) => classify(*r),
                            Option::None => Verdict::Unknown,
                        }
                    },
                    Option::None => Verdict::Unknown,
                }
            },
            Option::None => Verdict::Unknown,
        },
        ExprKind::Conditional { consequent, alternate } => match alternate {
            Option::Some(a) => if classify(*a) != Verdict::Unknown {
                classify(*a)
            } else {
                match consequent {
                    Option::Some(c) => classify(*c),
                    Option::None => Verdict::Unknown,
                }
            },
            Option::None => Verdict::Unknown,
        },
        ExprKind::Sequence { right } => match right {
            Option::Some(r) => classify(*r),
            Option::None => Verdict::Unknown,
        },
        ExprKind::Parenthesized { inner } => match inner {
            Option::Some(i) => classify(*i),
            Option::None => Verdict::Unknown,
        },
        ExprKind::Super => Verdict::NotConstructible,
        ExprKind::Literal => Verdict::NotConstructible,
        ExprKind::Other => Verdict::NotConstructible,
    }
}

/// Executable classifier; returns exactly the verdict of `classify`.
pub fn is_valid_constructor(e: &Expr) -> (v: Verdict)
    ensures
        v == classify(*e),
    decreases *e,
{
    match &e.kind {
        ExprKind::This => Verdict::Constructible,
        ExprKind::Function => Verdict::Constructible,
        ExprKind::Call { .. } => Verdict::Constructible,
        ExprKind::ImportCall => Verdict::Constructible,
        ExprKind::ImportMeta => Verdict::Constructible,
        ExprKind::Yield => Verdict::Constructible,
        ExprKind::New => Verdict::Constructible,
        ExprKind::NewTarget => Verdict::Constructible,
        ExprKind::Class => Verdict::Constructible,
        ExprKind::Identifier { name } => match name {
            Option::Some(s) => {
                let undefined_text = String::from_str("undefined");
                if *s == undefined_text {
                    Verdict::NotConstructible
                } else {
                    Verdict::Constructible
                }
            },
            Option::None => Verdict::Unknown,
        },
        ExprKind::Assignment { operator, right } => match operator {
            Option::Some(op) => if forwards_right_operand_exec(*op) {
                match right {
                    Option::Some(r) => is_valid_constructor(r),
                    Option::None => Verdict::Unknown,
                }
            } else {
                Verdict::NotConstructible
            },
            Option::None => Verdict::Unknown,
        },
        ExprKind::Logical { operator, left, right } => match operator {
            Option::Some(op) => if *op == LogicalOp::LogicalAnd {
                match right {
                    Option::Some(r) => is_valid_constructor(r),
                    Option::None => Verdict::Unknown,
                }
            } else {
                match left {
                    Option::Some(l) => {
                        let lv = is_valid_constructor(l);
                        if lv != Verdict::Unknown {
                            lv
                        } else {
                            match right {
                                Option::Some(r) => is_valid_constructor(r),
                                Option::None => Verdict::Unknown,
                            }
                        }
                    },
                    Option::None => Verdict::Unknown,
                }
            },
            Option::None => Verdict::Unknown,
        },
        ExprKind::Conditional { consequent, alternate } => match alternate {
            Option::Some(a) => {
                let av = is_valid_constructor(a);
                if av != Verdict::Unknown {
                    av
                } else {
                    match consequent {
                        Option::Some(c) => is_valid_constructor(c),
                        Option::None => Verdict::Unknown,
                    }
                }
            },
            Option::None => Verdict::Unknown,
        },
        ExprKind::Sequence { right } => match right {
            Option::Some(r) => is_valid_constructor(r),
            Option::None => Verdict::Unknown,
        },
        ExprKind::Parenthesized { inner } => match inner {
            Option::Some(i) => is_valid_constructor(i),
            Option::None => Verdict::Unknown,
        },
        ExprKind::Super => Verdict::NotConstructible,
        ExprKind::Literal => Verdict::NotConstructible,
        ExprKind::Other => Verdict::NotConstructible,
    }
}

/// True when the two optional sub-expressions are either both absent or
/// both present with the same verdict.
pub open spec fn sub_verdicts_match(x: Option<Box<Expr>>, y: Option<Box<Expr>>) -> bool {
    match (x, y) {
        (Option::Some(xe), Option::Some(ye)) => classify(*xe) == classify(*ye),
        (Option::None, Option::None) => true,
        _ => false,
    }
}

/// True when the two expressions have the same top-level shape and their
/// classified sub-expressions carry matching verdicts. For shapes whose
/// verdict is decided without recursion the shapes must agree outright;
/// ranges never matter.
pub open spec fn congruent_at_top(a: Expr, b: Expr) -> bool {
    match (a.kind, b.kind) {
        (
            ExprKind::Assignment { operator: opa, right: ra },
            ExprKind::Assignment { operator: opb, right: rb },
        ) => opa == opb && sub_verdicts_match(ra, rb),
        (
            ExprKind::Logical { operator: opa, left: la, right: ra },
            ExprKind::Logical { operator: opb, left: lb, right: rb },
        ) => opa == opb && sub_verdicts_match(la, lb) && sub_verdicts_match(ra, rb),
        (
            ExprKind::Conditional { consequent: ca, alternate: aa },
            ExprKind::Conditional { consequent: cb, alternate: ab },
        ) => sub_verdicts_match(ca, cb) && sub_verdicts_match(aa, ab),
        (ExprKind::Sequence { right: ra }, ExprKind::Sequence { right: rb }) =>
            sub_verdicts_match(ra, rb),
        (ExprKind::Parenthesized { inner: ia }, ExprKind::Parenthesized { inner: ib }) =>
            sub_verdicts_match(ia, ib),
        // A call is constructible whatever its callee; the callee only
        // ever matters to the super-call scan, not to classification.
        (ExprKind::Call { .. }, ExprKind::Call { .. }) => true,
        _ => a.kind == b.kind,
    }
}

/// Classifier purity: the verdict is a function of the top-level shape
/// and of the sub-expressions' verdicts alone. Two expressions with the
/// same shape whose sub-expressions classify alike classify alike,
/// whatever their ranges or the inner form of those sub-expressions.
pub proof fn lemma_classify_congruent(a: Expr, b: Expr)
    requires
        congruent_at_top(a, b),
    ensures
        classify(a) == classify(b),
{
}

/// Executable twin of `forwards_right_operand`.
pub fn forwards_right_operand_exec(op: AssignOp) -> (b: bool)
    ensures
        b == forwards_right_operand(op),
{
    match op {
        AssignOp::Assign => true,
        AssignOp::LogicalAndAssign => true,
        AssignOp::LogicalOrAssign => true,
        AssignOp::NullishCoalescingAssign => true,
        AssignOp::OtherCompound => false,
    }
}

} // verus!
