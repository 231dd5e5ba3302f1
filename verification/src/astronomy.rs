//! Modeled solar geometry and the operations applied to its instants.

pub mod ops;
pub mod solar;
pub mod unit;
