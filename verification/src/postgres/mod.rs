//! PostgreSQL: the schema model.

pub mod def;
