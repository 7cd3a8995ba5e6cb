//! Default-value compilation for GraphQL query variables.
//!
//! A variable declaration carries a name, a type descriptor and, optionally, a
//! literal default written in the query language. This crate turns such a
//! default into a typed construction expression for the generated Rust code,
//! and wraps it in a nullary constructor function `default_<name>`.
//!
//! Every executable function is specified against a mathematical model of its
//! arguments (the `view` of each data type) and proved to compute exactly what
//! the corresponding specification function says.

pub mod error;
pub mod expr;
pub mod failure;
pub mod field_type;
pub mod laws;
pub mod literal;
pub mod query;
pub mod schema;
pub mod value;
pub mod variables;
