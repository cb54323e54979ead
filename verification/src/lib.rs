//! Detects invalid `super()` usage in class constructors.
//!
//! A constructor of a class with an `extends` clause must call `super()`;
//! a constructor of a class without one must not; and a `super()` call is
//! wrong when the superclass expression can never yield a constructor.
//! The analysis is purely structural: it works on a plain-value model of
//! the relevant syntax shapes and is conservative, staying silent whenever
//! the tree is malformed or the superclass expression is undecidable.

pub mod classify;
pub mod diagnostic;
pub mod model;
pub mod resolve;
pub mod rule;
