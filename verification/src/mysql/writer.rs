//! Turning a discovered index back into a `sea_query` statement that
//! creates it.

use crate::mysql::def::{index_type_name, IndexInfo, IndexOrder, IndexPart, IndexType};
use crate::text::text_is;
use sea_query::{Alias, Index, IndexCreateStatement};
use vstd::prelude::*;

verus! {

#[verifier::external_type_specification]
#[verifier::external_body]
pub struct ExIndexCreateStatement(IndexCreateStatement);

/// The order that a statement gives an index column.
#[derive(Clone, Copy, Debug, PartialEq, Eq)]
pub enum ColumnOrder {
    Asc,
    Desc,
}

/// The index type that a statement sets.
pub enum IndexMethod {
    FullText,
    Hash,
    Custom(Seq<char>),
}

/// An index type to set on a statement.
#[derive(Clone, Debug)]
pub enum StatementIndexType {
    FullText,
    Hash,
    Custom(String),
}

impl View for StatementIndexType {
    type V = IndexMethod;

    open spec fn view(&self) -> IndexMethod {
        match self {
            StatementIndexType::FullText => IndexMethod::FullText,
            StatementIndexType::Hash => IndexMethod::Hash,
            StatementIndexType::Custom(name) => IndexMethod::Custom(name@),
        }
    }
}

/// What an index creation statement holds: whether it creates a primary or
/// a unique key, the index's name, its columns (name, indexed prefix length,
/// order) in order, and its index type.
pub struct IndexStatementModel {
    pub primary: bool,
    pub unique: bool,
    pub name: Option<Seq<char>>,
    pub columns: Seq<(Seq<char>, Option<u32>, Option<ColumnOrder>)>,
    pub method: Option<IndexMethod>,
}

/// What a `sea_query::IndexCreateStatement` holds.
pub uninterp spec fn index_statement(stmt: IndexCreateStatement) -> IndexStatementModel;

/// A statement that holds nothing.
pub open spec fn empty_statement() -> IndexStatementModel {
    IndexStatementModel {
        primary: false,
        unique: false,
        name: None,
        columns: Seq::empty(),
        method: None,
    }
}

/// Calls `sea_query::Index::create`; claims, as `IndexCreateStatement::new`
/// shows, that the statement holds no name, no column, no index type, and
/// neither the primary nor the unique flag.
#[verifier::external_body]
fn new_statement() -> (res: IndexCreateStatement)
    ensures
        index_statement(res) == empty_statement(),
{
    Index::create()
}

/// Calls `IndexCreateStatement::primary`; claims that it sets the primary
/// flag and leaves the rest.
#[verifier::external_body]
fn mark_primary(stmt: &mut IndexCreateStatement)
    ensures
        index_statement(*final(stmt)) == (IndexStatementModel {
            primary: true,
            ..index_statement(*old(stmt))
        }),
{
    stmt.primary();
}

/// Calls `IndexCreateStatement::unique`; claims that it sets the unique flag
/// and leaves the rest.
#[verifier::external_body]
fn mark_unique(stmt: &mut IndexCreateStatement)
    ensures
        index_statement(*final(stmt)) == (IndexStatementModel {
            unique: true,
            ..index_statement(*old(stmt))
        }),
{
    stmt.unique();
}

/// Calls `IndexCreateStatement::name`; claims that it sets the index's name
/// and leaves the rest.
#[verifier::external_body]
fn set_name(stmt: &mut IndexCreateStatement, name: &str)
    ensures
        index_statement(*final(stmt)) == (IndexStatementModel {
            name: Some(name@),
            ..index_statement(*old(stmt))
        }),
{
    stmt.name(name);
}

/// Calls `IndexCreateStatement::col` with an `Alias` of the column's name;
/// claims that it appends the column, with no prefix length and no order.
#[verifier::external_body]
fn add_column(stmt: &mut IndexCreateStatement, column: &str)
    ensures
        index_statement(*final(stmt)) == (IndexStatementModel {
            columns: index_statement(*old(stmt)).columns.push((column@, None, None)),
            ..index_statement(*old(stmt))
        }),
{
    stmt.col(Alias::new(column));
}

/// Calls `IndexCreateStatement::col` with an `Alias` of the column's name
/// and a prefix length; claims that it appends the column with that prefix
/// length and no order.
#[verifier::external_body]
fn add_column_prefix(stmt: &mut IndexCreateStatement, column: &str, prefix: u32)
    ensures
        index_statement(*final(stmt)) == (IndexStatementModel {
            columns: index_statement(*old(stmt)).columns.push((column@, Some(prefix), None)),
            ..index_statement(*old(stmt))
        }),
{
    stmt.col((Alias::new(column), prefix));
}

/// Calls `IndexCreateStatement::col` with an `Alias` of the column's name
/// and an `IndexOrder`; claims that it appends the column with that order and
/// no prefix length.
#[verifier::external_body]
fn add_column_order(stmt: &mut IndexCreateStatement, column: &str, order: ColumnOrder)
    ensures
        index_statement(*final(stmt)) == (IndexStatementModel {
            columns: index_statement(*old(stmt)).columns.push((column@, None, Some(order))),
            ..index_statement(*old(stmt))
        }),
{
    let order = match order {
        ColumnOrder::Asc => sea_query::IndexOrder::Asc,
        ColumnOrder::Desc => sea_query::IndexOrder::Desc,
    };
    stmt.col((Alias::new(column), order));
}

/// Calls `IndexCreateStatement::col` with an `Alias` of the column's name,
/// a prefix length and an `IndexOrder`; claims that it appends the column
/// with both.
#[verifier::external_body]
fn add_column_prefix_order(
    stmt: &mut IndexCreateStatement,
    column: &str,
    prefix: u32,
    order: ColumnOrder,
)
    ensures
        index_statement(*final(stmt)) == (IndexStatementModel {
            columns: index_statement(*old(stmt)).columns.push(
                (column@, Some(prefix), Some(order)),
            ),
            ..index_statement(*old(stmt))
        }),
{
    let order = match order {
        ColumnOrder::Asc => sea_query::IndexOrder::Asc,
        ColumnOrder::Desc => sea_query::IndexOrder::Desc,
    };
    stmt.col((Alias::new(column), prefix, order));
}

/// Calls `IndexCreateStatement::index_type` with the `sea_query::IndexType`
/// that `kind` stands for (a custom one named by an `Alias`); claims that it
/// sets the index type and leaves the rest.
#[verifier::external_body]
fn set_index_type(stmt: &mut IndexCreateStatement, kind: StatementIndexType)
    ensures
        index_statement(*final(stmt)) == (IndexStatementModel {
            method: Some(kind@),
            ..index_statement(*old(stmt))
        }),
{
    let kind = match kind {
        StatementIndexType::FullText => sea_query::IndexType::FullText,
        StatementIndexType::Hash => sea_query::IndexType::Hash,
        StatementIndexType::Custom(name) => sea_query::IndexType::Custom(Alias::new(name).into()),
    };
    stmt.index_type(kind);
}

/// An index named `PRIMARY` is the table's primary key.
pub open spec fn is_primary_key(info: IndexInfo) -> bool {
    info.name@ == "PRIMARY"@
}

/// The column that an index part becomes: its order is kept only when it is
/// descending and the index has a single part.
pub open spec fn part_column(part: IndexPart, single: bool) -> (
    Seq<char>,
    Option<u32>,
    Option<ColumnOrder>,
) {
    (
        part.column@,
        part.sub_part,
        if single && part.order == IndexOrder::Descending {
            Some(ColumnOrder::Desc)
        } else {
            None
        },
    )
}

/// The index type that a statement sets for an index type of MySQL: none
/// for `BTREE`, which is the default, and a custom type by name for the
/// spatial ones.
pub open spec fn statement_method(t: IndexType) -> Option<IndexMethod> {
    match t {
        IndexType::BTree => None,
        IndexType::FullText => Some(IndexMethod::FullText),
        IndexType::Hash => Some(IndexMethod::Hash),
        IndexType::RTree => Some(IndexMethod::Custom(index_type_name(t))),
        IndexType::Spatial => Some(IndexMethod::Custom(index_type_name(t))),
    }
}

/// What the statement that recreates an index holds.
pub open spec fn written_index(info: IndexInfo) -> IndexStatementModel {
    let primary = is_primary_key(info);
    IndexStatementModel {
        primary,
        unique: !primary && info.unique,
        name: if primary {
            None
        } else {
            Some(info.name@)
        },
        columns: info.parts@.map_values(|p: IndexPart| part_column(p, info.parts@.len() == 1)),
        method: statement_method(info.idx_type),
    }
}

impl IndexInfo {
    /// The statement that creates this index.
    pub fn write(&self) -> (res: IndexCreateStatement)
        ensures
            index_statement(res) == written_index(*self),
    {
        let mut index = new_statement();
        let primary = text_is(self.name.as_str(), "PRIMARY");
        if primary {
            mark_primary(&mut index);
        } else {
            set_name(&mut index, self.name.as_str());
            if self.unique {
                mark_unique(&mut index);
            }
        }
        let single = self.parts.len() == 1;
        let ghost start = index_statement(index);
        let mut i: usize = 0;
        assert(self.parts@.take(0).map_values(|p: IndexPart| part_column(p, single))
            =~= start.columns);
        while i < self.parts.len()
            invariant
                i <= self.parts.len(),
                single == (self.parts@.len() == 1),
                index_statement(index) == (IndexStatementModel {
                    columns: self.parts@.take(i as int).map_values(
                        |p: IndexPart| part_column(p, single),
                    ),
                    ..start
                }),
            decreases self.parts.len() - i,
        {
            let part = &self.parts[i];
            let order = if single {
                match part.order {
                    IndexOrder::Ascending => None,
                    IndexOrder::Descending => Some(ColumnOrder::Desc),
                    IndexOrder::Unordered => None,
                }
            } else {
                None
            };
            let column = part.column.as_str();
            match (part.sub_part, order) {
                (None, None) => add_column(&mut index, column),
                (None, Some(o)) => add_column_order(&mut index, column, o),
                (Some(p), None) => add_column_prefix(&mut index, column, p),
                (Some(p), Some(o)) => add_column_prefix_order(&mut index, column, p, o),
            }
            assert(self.parts@.take(i + 1).map_values(|p: IndexPart| part_column(p, single))
                =~= self.parts@.take(i as int).map_values(|p: IndexPart| part_column(p, single)).push(
                part_column(self.parts@[i as int], single),
            ));
            i = i + 1;
        }
        assert(self.parts@.take(self.parts.len() as int) =~= self.parts@);
        match self.idx_type {
            IndexType::BTree => {},
            IndexType::FullText => set_index_type(&mut index, StatementIndexType::FullText),
            IndexType::Hash => set_index_type(&mut index, StatementIndexType::Hash),
            IndexType::RTree => set_index_type(
                &mut index,
                StatementIndexType::Custom(self.idx_type.to_string()),
            ),
            IndexType::Spatial => set_index_type(
                &mut index,
                StatementIndexType::Custom(self.idx_type.to_string()),
            ),
        }
        index
    }
}

} // verus!
