//! The tree that a program is projected onto.
pub mod attr;
pub mod hir;
pub mod span;
pub mod thir;
pub mod ty;
