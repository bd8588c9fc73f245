//! A non-empty, ordered list of values for a single HTTP header name.
//!
//! `HeaderValues` keeps every value associated with one header name in
//! insertion order and is guaranteed to hold at least one value for its
//! whole lifetime; the only exception is a list that has just been drained
//! as the source of an `append`, which is left empty and must be dropped
//! rather than reused.

pub mod header_value;
pub mod header_values;

pub use header_value::HeaderValue;
pub use header_values::HeaderValues;
