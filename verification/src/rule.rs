//! The rule: decide, per constructor, whether its `super()` relationship
//! is valid, and emit at most one finding.
//!
//! The decision crosses the presence of a direct `super()` call with the
//! presence of an `extends` clause on the nearest enclosing class:
//! - both present: report `BadExtends` only when the superclass
//!   expression classifies as not constructible;
//! - call missing, clause present: report `MissingSuper` unless the
//!   superclass is a literal (a literal base is invalid for reasons out
//!   of this rule's scope);
//! - call present, clause missing: report `UnexpectedSuper`;
//! - neither: no finding.
//! Any missing required child aborts the analysis of that constructor
//! with no finding.

use vstd::prelude::*;

use crate::classify::{classify, is_valid_constructor, Verdict};
use crate::model::{ConstructorMember, Expr, ExprKind, TextSpan};
use crate::resolve::{find_super_call, find_super_spec, nearest_class_extends, nearest_extends};
use vstd::string::StringExecFns;

verus! {

/// Whether the rule is part of the recommended set.
pub const RULE_RECOMMENDED: bool = true;

/// The rule's registered name.
pub fn rule_name() -> (s: String)
    ensures
        s@ == "noInvalidConstructorSuper"@,
{
    String::from_str("noInvalidConstructorSuper")
}

/// The toolchain version the rule first appeared in.
pub fn rule_version() -> (s: String)
    ensures
        s@ == "10.0.0"@,
{
    String::from_str("10.0.0")
}

/// One finding about a constructor; at most one is produced per
/// constructor per pass.
#[derive(Clone, Copy, Debug, PartialEq, Eq, Structural)]
pub enum Detection {
    /// The class extends something, but the constructor never calls
    /// `super()`; the range is the whole `extends` clause.
    MissingSuper(TextSpan),
    /// The class extends nothing, yet the constructor calls `super()`;
    /// the range is the whole `super()` call.
    UnexpectedSuper(TextSpan),
    /// The constructor calls `super()`, but the superclass expression
    /// cannot yield a constructor; `super_range` is the whole `super()`
    /// call.
    BadExtends { extends_range: TextSpan, super_range: TextSpan },
}

/// True when the expression is a literal, parenthesization aside: a
/// literal superclass is invalid for reasons out of this rule's scope,
/// so `MissingSuper` stays silent on it, wrapped in parentheses or not.
pub open spec fn is_literal_superclass(e: Expr) -> bool
    decreases e,
{
    match e.kind {
        ExprKind::Literal => true,
        ExprKind::Parenthesized { inner } => match inner {
            Option::Some(i) => is_literal_superclass(*i),
            Option::None => false,
        },
        _ => false,
    }
}

/// Executable twin of `is_literal_superclass`.
pub fn is_literal_superclass_exec(e: &Expr) -> (b: bool)
    ensures
        b == is_literal_superclass(*e),
    decreases *e,
{
    match &e.kind {
        ExprKind::Literal => true,
        ExprKind::Parenthesized { inner } => match inner {
            Option::Some(i) => is_literal_superclass_exec(i),
            Option::None => false,
        },
        _ => false,
    }
}

/// The rule's decision for one constructor.
pub open spec fn run_spec(ctor: ConstructorMember) -> Option<Detection> {
    match ctor.body {
        Option::None => Option::None,
        Option::Some(stmts) => {
            let super_call = find_super_spec(stmts@);
            let extends = nearest_class_extends(ctor.ancestors@);
            match (super_call, extends) {
                (Option::Some(super_range), Option::Some(clause)) => match clause.super_class {
                    Option::Some(sc) => if classify(sc) == Verdict::NotConstructible {
                        Option::Some(Detection::BadExtends {
                            extends_range: sc.range,
                            super_range,
                        })
                    } else {
                        Option::None
                    },
                    Option::None => Option::None,
                },
                (Option::None, Option::Some(clause)) => match clause.super_class {
                    Option::Some(sc) => if !is_literal_superclass(sc) {
                        Option::Some(Detection::MissingSuper(clause.range))
                    } else {
                        Option::None
                    },
                    Option::None => Option::None,
                },
                (Option::Some(super_range), Option::None) => Option::Some(
                    Detection::UnexpectedSuper(super_range),
                ),
                (Option::None, Option::None) => Option::None,
            }
        },
    }
}

/// Analyse one constructor; returns exactly the decision of `run_spec`.
pub fn run(ctor: &ConstructorMember) -> (r: Option<Detection>)
    ensures
        r == run_spec(*ctor),
{
    let stmts = match &ctor.body {
        Option::Some(stmts) => stmts,
        Option::None => {
            return Option::None;
        },
    };
    let super_call = find_super_call(stmts);
    let extends = nearest_extends(&ctor.ancestors);
    match (super_call, extends) {
        (Option::Some(super_range), Option::Some(clause)) => match &clause.super_class {
            Option::Some(sc) => {
                if is_valid_constructor(sc) == Verdict::NotConstructible {
                    Option::Some(Detection::BadExtends { extends_range: sc.range, super_range })
                } else {
                    Option::None
                }
            },
            Option::None => Option::None,
        },
        (Option::None, Option::Some(clause)) => match &clause.super_class {
            Option::Some(sc) => {
                if !is_literal_superclass_exec(sc) {
                    Option::Some(Detection::MissingSuper(clause.range))
                } else {
                    Option::None
                }
            },
            Option::None => Option::None,
        },
        (Option::Some(super_range), Option::None) => Option::Some(
            Detection::UnexpectedSuper(super_range),
        ),
        (Option::None, Option::None) => Option::None,
    }
}

/// The findings of one pass over a tree, given as the constructors the
/// engine matched, in tree order; constructors without a finding
/// contribute nothing.
pub open spec fn detections_spec(ctors: Seq<ConstructorMember>) -> Seq<Detection>
    decreases ctors.len(),
{
    if ctors.len() == 0 {
        Seq::empty()
    } else {
        detections_spec(ctors.drop_last()) + match run_spec(ctors.last()) {
            Option::Some(d) => seq![d],
            Option::None => Seq::empty(),
        }
    }
}

/// One pass over a tree: analyse every matched constructor in order and
/// collect the findings; returns exactly `detections_spec` of the input.
pub fn run_all(ctors: &Vec<ConstructorMember>) -> (out: Vec<Detection>)
    ensures
        out@ == detections_spec(ctors@),
{
    let mut out: Vec<Detection> = Vec::new();
    let mut i: usize = 0;
    proof {
        assert(ctors@.take(0) =~= Seq::<ConstructorMember>::empty());
    }
    while i < ctors.len()
        invariant
            i <= ctors@.len(),
            out@ == detections_spec(ctors@.take(i as int)),
        decreases ctors@.len() - i,
    {
        proof {
            assert(ctors@.take(i as int + 1).drop_last() =~= ctors@.take(i as int));
            assert(ctors@.take(i as int + 1).last() == ctors@[i as int]);
        }
        match run(&ctors[i]) {
            Option::Some(d) => {
                out.push(d);
            },
            Option::None => {},
        }
        i = i + 1;
    }
    proof {
        assert(ctors@.take(ctors@.len() as int) =~= ctors@);
    }
    out
}

/// Re-running the pass on an unchanged tree yields an identical finding
/// sequence: any two results of `detections_spec` on the same input are
/// the same, so the analysis is idempotent across runs.
pub proof fn lemma_rerun_identical(
    ctors: Seq<ConstructorMember>,
    first: Seq<Detection>,
    second: Seq<Detection>,
)
    requires
        first == detections_spec(ctors),
        second == detections_spec(ctors),
    ensures
        first == second,
{
}

/// A constructor with no `super()` call among its direct statements,
/// whose nearest enclosing class has no `extends` clause (or which has
/// no enclosing class at all), produces no finding.
pub proof fn lemma_quiet_without_extends_or_super(ctor: ConstructorMember)
    requires
        match ctor.body {
            Option::Some(stmts) => find_super_spec(stmts@) is None,
            Option::None => true,
        },
        nearest_class_extends(ctor.ancestors@) is None,
    ensures
        run_spec(ctor) is None,
{
}

/// A constructor that calls `super()` inside a class whose superclass is
/// a plain identifier other than `undefined` produces no finding.
pub proof fn lemma_identifier_superclass_accepts_super(ctor: ConstructorMember, name: String)
    requires
        match ctor.body {
            Option::Some(stmts) => find_super_spec(stmts@) is Some,
            Option::None => false,
        },
        match nearest_class_extends(ctor.ancestors@) {
            Option::Some(clause) => match clause.super_class {
                Option::Some(sc) => sc.kind == (ExprKind::Identifier {
                    name: Option::Some(name),
                }) && name@ != "undefined"@,
                Option::None => false,
            },
            Option::None => false,
        },
    ensures
        run_spec(ctor) is None,
{
}

/// A constructor that calls `super()` inside a class whose superclass is
/// a conditional produces no finding when at least one branch classifies
/// as constructible and the alternate does not classify as not
/// constructible. (The alternate's verdict is decided first, so an
/// alternate that classifies as not constructible draws a finding even
/// beside a constructible consequent.)
pub proof fn lemma_conditional_superclass_accepts_super(ctor: ConstructorMember)
    requires
        match ctor.body {
            Option::Some(stmts) => find_super_spec(stmts@) is Some,
            Option::None => false,
        },
        match nearest_class_extends(ctor.ancestors@) {
            Option::Some(clause) => match clause.super_class {
                Option::Some(sc) => sc.kind matches ExprKind::Conditional {
                    consequent: Option::Some(c),
                    alternate: Option::Some(a),
                } && (classify(*c) == Verdict::Constructible || classify(*a)
                    == Verdict::Constructible) && classify(*a) != Verdict::NotConstructible,
                Option::None => false,
            },
            Option::None => false,
        },
    ensures
        run_spec(ctor) is None,
{
}

} // verus!
