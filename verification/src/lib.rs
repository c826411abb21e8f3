//! Binary search over sorted slices of `i32`.
//!
//! [`binary_search`] looks a value up in a slice sorted in non-decreasing
//! order and returns the index of an occurrence, or `-1` when there is none.
//! Its result is stated over the mathematical model in [`model`], and
//! [`laws`] holds what is proved of that model.

pub mod laws;
pub mod model;
pub mod search;

pub use search::binary_search;
