//! Schema discovery for MySQL and PostgreSQL: parsing the rows that
//! `information_schema` returns into typed column and index definitions.

pub mod text;
pub mod mysql;
pub mod postgres;
