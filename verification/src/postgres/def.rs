//! The PostgreSQL schema model: a schema, its tables, their columns and
//! constraints.

use vstd::prelude::*;

verus! {

/// Attributes of a character type: its maximum length.
#[derive(Clone, Copy, Debug, PartialEq, Eq)]
pub struct StringAttr {
    pub length: Option<u16>,
}

/// Precision and scale of an arbitrary precision number.
#[derive(Clone, Copy, Debug, PartialEq, Eq)]
pub struct ArbitraryPrecisionNumericAttr {
    pub precision: Option<u16>,
    pub scale: Option<u16>,
}

/// A PostgreSQL column type.
#[derive(Clone, Debug, PartialEq, Eq)]
pub enum Type {
    SmallInt,
    Integer,
    BigInt,
    Decimal(ArbitraryPrecisionNumericAttr),
    Numeric(ArbitraryPrecisionNumericAttr),
    Real,
    DoublePrecision,
    SmallSerial,
    Serial,
    BigSerial,
    Money,
    Varchar(StringAttr),
    Char(StringAttr),
    Text,
    Bytea,
    Timestamp,
    TimestampWithTimeZone,
    Date,
    Time,
    TimeWithTimeZone,
    Interval,
    Boolean,
    Uuid,
    Json,
    JsonBinary,
    Unknown(String),
}

/// A table's name and, for a typed table, the type it is made of.
#[derive(Clone, Debug, PartialEq, Eq)]
pub struct TableInfo {
    pub name: String,
    pub of_type: Option<Type>,
}

/// A column of a table.
#[derive(Clone, Debug, PartialEq, Eq)]
pub struct ColumnInfo {
    pub name: String,
    pub col_type: Type,
    pub default: Option<String>,
    pub not_null: bool,
    pub is_identity: bool,
}

/// A check constraint.
#[derive(Clone, Debug, PartialEq, Eq)]
pub struct Check {
    pub expr: String,
    pub no_inherit: bool,
}

/// A unique constraint over some columns.
#[derive(Clone, Debug, PartialEq, Eq)]
pub struct Unique {
    pub columns: Vec<String>,
}

/// A foreign key: columns of this table that refer to columns of another.
#[derive(Clone, Debug, PartialEq, Eq)]
pub struct References {
    pub columns: Vec<String>,
    pub table: String,
    pub foreign_columns: Vec<String>,
}

/// A schema and the tables in it.
#[derive(Clone, Debug, PartialEq)]
pub struct Schema {
    pub schema: String,
    pub tables: Vec<TableDef>,
}

/// A table with its columns and constraints.
#[derive(Clone, Debug, PartialEq)]
pub struct TableDef {
    pub info: TableInfo,
    pub columns: Vec<ColumnInfo>,
    pub check_constraints: Vec<Check>,
    pub unique_keys: Vec<Unique>,
    pub references: Vec<References>,
    pub of_type: Option<Type>,
}

} // verus!
