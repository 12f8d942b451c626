//! Resolution of trait obligations: which implementation satisfies a bound
//! at a use site, and how it is assembled.
//!
//! Selection itself, the classification of an obligation, is the
//! compiler's: it comes in as a value. What is decided here is the rest: for
//! a bound that is met by a clause in scope, which clause, and by which hops
//! through supertraits and bounds of associated types.
pub mod bounds;
pub mod graph;
pub mod resolve;
pub mod search;
pub mod shortest;
