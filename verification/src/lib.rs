//! Batch (array) parameter binding for SQL statements.
//!
//! A statement that is executed once for many rows takes, for each of its
//! placeholders, one array of values.  `BatchParams` keeps those arrays in the
//! layout the database client reads: per placeholder a contiguous value
//! buffer with a fixed stride, a NULL indicator per row and a data length per
//! row.  `ToBatchSql` is implemented by the argument types (slices of values,
//! named arguments and tuples of arguments) and binds them into a
//! `BatchParams`.
use vstd::prelude::*;

pub mod args;
pub mod fixed_args;
pub mod error;
pub mod laws;
pub mod name;
pub mod pack;
pub mod text;
pub mod text_args;
pub mod tuples;
pub mod params;
pub mod plan;
pub mod raw_args;
pub mod value;
pub mod value_laws;

pub use args::ToBatchSql;
pub use error::BatchError;
pub use params::{BatchParams, BindCall};
pub use raw_args::RawValues;

verus! {

} // verus!
