//! MySQL: the schema model and the parsers that fill it.

pub mod def;
pub mod tokens;
pub mod parser;
pub mod query;
pub mod writer;
pub mod laws;
pub mod type_laws;
