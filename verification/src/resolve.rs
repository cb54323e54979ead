//! Class-context resolution: find a direct `super()` call in a
//! constructor body, and the `extends` clause of the nearest enclosing
//! class.
//!
//! The super-call scan inspects only the direct statements of the body,
//! never nested blocks or branches: a call inside `if (x) { super(); }`
//! is deliberately not found. The ancestor walk stops at the first class
//! it meets; a constructor with no enclosing class at all is treated the
//! same as one whose class has no `extends` clause.

use vstd::prelude::*;

use crate::model::{Ancestor, Expr, ExprKind, ExtendsClause, Stmt, TextSpan};

verus! {

/// The range of the whole `super(...)` call expression when the
/// statement is an expression statement whose expression is a call on
/// the `super` pseudo-expression, and `None` for every other statement,
/// a malformed one included.
pub open spec fn stmt_super_range(s: Stmt) -> Option<TextSpan> {
    match s {
        Stmt::Expression { expr } => match expr {
            Option::Some(e) => match e.kind {
                ExprKind::Call { callee } => match callee {
                    Option::Some(c) => if (*c).kind is Super {
                        Option::Some(e.range)
                    } else {
                        Option::None
                    },
                    Option::None => Option::None,
                },
                _ => Option::None,
            },
            Option::None => Option::None,
        },
        Stmt::Other => Option::None,
    }
}

/// The range of the first direct `super()` call among the statements, in
/// order, or `None` when there is none.
pub open spec fn find_super_spec(stmts: Seq<Stmt>) -> Option<TextSpan>
    decreases stmts.len(),
{
    if stmts.len() == 0 {
        Option::None
    } else if stmt_super_range(stmts[0]) is Some {
        stmt_super_range(stmts[0])
    } else {
        find_super_spec(stmts.skip(1))
    }
}

/// The `extends` clause of the nearest enclosing class, walking the
/// ancestors innermost first: `None` both when no ancestor is a class and
/// when the nearest class has no `extends` clause. Outer classes beyond
/// the nearest one are never consulted.
pub open spec fn nearest_class_extends(ancestors: Seq<Ancestor>) -> Option<ExtendsClause>
    decreases ancestors.len(),
{
    if ancestors.len() == 0 {
        Option::None
    } else {
        match ancestors[0] {
            Ancestor::Class { extends } => extends,
            Ancestor::Other => nearest_class_extends(ancestors.skip(1)),
        }
    }
}

/// Executable twin of `stmt_super_range`.
pub fn stmt_super_call(s: &Stmt) -> (r: Option<TextSpan>)
    ensures
        r == stmt_super_range(*s),
{
    match s {
        Stmt::Expression { expr } => match expr {
            Option::Some(e) => match &e.kind {
                ExprKind::Call { callee } => match callee {
                    Option::Some(c) => if matches!(c.kind, ExprKind::Super) {
                        Option::Some(e.range)
                    } else {
                        Option::None
                    },
                    Option::None => Option::None,
                },
                _ => Option::None,
            },
            Option::None => Option::None,
        },
        Stmt::Other => Option::None,
    }
}

/// Scan the direct statements for the first `super()` call; returns
/// exactly `find_super_spec` of the list.
pub fn find_super_call(stmts: &Vec<Stmt>) -> (r: Option<TextSpan>)
    ensures
        r == find_super_spec(stmts@),
{
    let mut i: usize = 0;
    proof {
        assert(stmts@.skip(0) =~= stmts@);
    }
    while i < stmts.len()
        invariant
            i <= stmts@.len(),
            find_super_spec(stmts@) == find_super_spec(stmts@.skip(i as int)),
        decreases stmts@.len() - i,
    {
        let found = stmt_super_call(&stmts[i]);
        proof {
            assert(stmts@.skip(i as int)[0] == stmts@[i as int]);
            assert(stmts@.skip(i as int).skip(1) =~= stmts@.skip(i as int + 1));
        }
        if found.is_some() {
            return found;
        }
        i = i + 1;
    }
    Option::None
}

/// Walk the ancestors innermost first and hand back the `extends` clause
/// of the first class met; returns exactly `nearest_class_extends` of the
/// chain.
pub fn nearest_extends<'a>(ancestors: &'a Vec<Ancestor>) -> (r: Option<&'a ExtendsClause>)
    ensures
        match r {
            Option::Some(c) => nearest_class_extends(ancestors@) == Option::Some(*c),
            Option::None => nearest_class_extends(ancestors@) is None,
        },
{
    let mut i: usize = 0;
    proof {
        assert(ancestors@.skip(0) =~= ancestors@);
    }
    while i < ancestors.len()
        invariant
            i <= ancestors@.len(),
            nearest_class_extends(ancestors@) == nearest_class_extends(ancestors@.skip(i as int)),
        decreases ancestors@.len() - i,
    {
        proof {
            assert(ancestors@.skip(i as int)[0] == ancestors@[i as int]);
            assert(ancestors@.skip(i as int).skip(1) =~= ancestors@.skip(i as int + 1));
        }
        match &ancestors[i] {
            Ancestor::Class { extends } => {
                return extends.as_ref();
            },
            Ancestor::Other => {
                i = i + 1;
            },
        }
    }
    Option::None
}

} // verus!
