//! A typed key-value layer over a relational storage engine.
//!
//! A [`Table`] names a collection; a [`DatabaseTable`] binds that name to a
//! live connection and offers `set`, `get` and `remove` on a two-column
//! table of keys and untyped values.
mod engine;
pub mod error;
pub mod scalar;
pub mod statement;
pub mod table;
pub mod text;

pub use crate::error::{Fault, Operation, StoreError};
pub use crate::scalar::{Bound, Scalar, ScalarKind, Stored};
pub use crate::statement::Statement;
pub use crate::table::{DatabaseTable, Table};
