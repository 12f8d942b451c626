//! The control-flow-graph form of a body: places, terminators and calls.
pub mod body;
pub mod call;
pub mod place;
pub mod switch;
