//! A small computer-algebra kernel: immutable expression trees, smart
//! constructors that simplify while they build, symbolic differentiation,
//! and a precedence-aware renderer with a size cutoff.

pub mod expr;
pub mod simplify;
pub mod deriv;
pub mod render;
pub mod laws;
