//! Projection of a type-checked program onto a stable, serialisable tree,
//! with the resolution of trait obligations at its centre.
//!
//! The program itself is not read here. What the compiler interns
//! (types, predicates, trait references, definitions, spans) is named by
//! handles, plain numbers that index the tables of whoever holds the
//! program, and every function takes, as plain values, what it needs to
//! know of the things behind the handles:
//!
//! - `traits` finds the witness of a trait bound: a breadth-first search
//!   through the bounds in scope, and the tree assembled around it;
//! - `project` eliminates the nodes of the typed tree that exist only for
//!   the compiler's bookkeeping and resolves those whose meaning depends on
//!   a type;
//! - `mir` types the projections of places, and refers to the callees of
//!   calls with their generic arguments and trait witnesses;
//! - `state` is the context that a projection runs in;
//! - `ident` and `types` are the tree that comes out.
pub mod example;
pub mod ident;
pub mod items;
pub mod mir;
pub mod mir_traits;
pub mod project;
pub mod state;
pub mod traits;
pub mod types;
