//! Plain-value model of the syntax shapes the rule reads.
//!
//! The analysed tree comes from a lossless JS syntax tree whose nodes are
//! opaque here; a thin conversion layer outside this crate maps each node
//! to one of these values. A child that the tree could not resolve is
//! `None`: the analysis treats every such hole conservatively and stays
//! silent rather than guessing.

use vstd::prelude::*;

verus! {

/// Trimmed text range of a syntax node: start and end offsets into the
/// source, leading and trailing trivia excluded.
#[derive(Clone, Copy, Debug, PartialEq, Eq, Structural)]
pub struct TextSpan {
    pub start: u32,
    pub end: u32,
}

/// Assignment operator of an assignment expression, reduced to the split
/// the classifier makes: operators that forward the right-hand value
/// unchanged (plain `=`, `&&=`, `||=`, `??=`) versus every other compound
/// operator (arithmetic, bitwise, shift), which produces a primitive.
#[derive(Clone, Copy, Debug, PartialEq, Eq, Structural)]
pub enum AssignOp {
    Assign,
    LogicalAndAssign,
    LogicalOrAssign,
    NullishCoalescingAssign,
    OtherCompound,
}

/// Operator of a logical expression.
#[derive(Clone, Copy, Debug, PartialEq, Eq, Structural)]
pub enum LogicalOp {
    LogicalAnd,
    LogicalOr,
    NullishCoalescing,
}

/// An expression node: its trimmed range and its shape.
#[derive(Debug, PartialEq, Eq)]
pub struct Expr {
    pub range: TextSpan,
    pub kind: ExprKind,
}

/// The shape of an expression, carrying exactly the children the rule
/// inspects. A missing required child is `None`.
#[derive(Debug, PartialEq, Eq)]
pub enum ExprKind {
    /// `this`
    This,
    /// A function expression.
    Function,
    /// A call expression; the callee matters only for recognising
    /// `super(...)` statements.
    Call { callee: Option<Box<Expr>> },
    /// A dynamic `import(...)` call.
    ImportCall,
    /// `import.meta`
    ImportMeta,
    /// A `yield` expression.
    Yield,
    /// A `new` expression.
    New,
    /// `new.target`
    NewTarget,
    /// A class expression.
    Class,
    /// The `super` pseudo-expression, only ever seen as a callee.
    Super,
    /// An identifier reference; `name` is the trimmed token text.
    Identifier { name: Option<String> },
    /// An assignment expression; only the operator and the right-hand
    /// side take part in classification.
    Assignment { operator: Option<AssignOp>, right: Option<Box<Expr>> },
    /// A logical expression.
    Logical { operator: Option<LogicalOp>, left: Option<Box<Expr>>, right: Option<Box<Expr>> },
    /// A conditional (ternary) expression; the condition itself never
    /// takes part in classification.
    Conditional { consequent: Option<Box<Expr>>, alternate: Option<Box<Expr>> },
    /// A sequence (comma) expression; only the rightmost operand's value
    /// survives, so only it is kept.
    Sequence { right: Option<Box<Expr>> },
    /// A parenthesized expression.
    Parenthesized { inner: Option<Box<Expr>> },
    /// Any literal expression.
    Literal,
    /// Every other expression shape.
    Other,
}

/// A direct statement of a constructor body. Only expression statements
/// can hold a `super()` call; everything else is `Other`.
#[derive(Debug, PartialEq, Eq)]
pub enum Stmt {
    Expression { expr: Option<Expr> },
    Other,
}

/// The `extends` clause of a class: its own trimmed range and the
/// superclass expression, if the tree could resolve one.
#[derive(Debug, PartialEq, Eq)]
pub struct ExtendsClause {
    pub range: TextSpan,
    pub super_class: Option<Expr>,
}

/// One ancestor of a constructor node, innermost first: either a class
/// (declaration or expression) with its optional `extends` clause, or any
/// other enclosing node.
#[derive(Debug, PartialEq, Eq)]
pub enum Ancestor {
    Class { extends: Option<ExtendsClause> },
    Other,
}

/// A constructor class member: the direct statements of its body (`None`
/// when the body is missing) and its chain of ancestors, innermost first.
#[derive(Debug, PartialEq, Eq)]
pub struct ConstructorMember {
    pub body: Option<Vec<Stmt>>,
    pub ancestors: Vec<Ancestor>,
}

} // verus!
