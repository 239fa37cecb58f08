//! Properties of the parsers that hold for every input.

use crate::mysql::def::{
    default_attr, AttrModel, BlobAttr, ColumnExtra, ColumnKey, GeometryAttr, IndexInfo, IndexOrder,
    IndexType, NumericAttr, StringAttrModel, TimeAttr, TypeName,
};
use crate::mysql::writer::{written_index, ColumnOrder, IndexMethod};
use crate::mysql::parser::{
    attrs_after_name, column_extra_of, column_key_of, column_type_of, extra_from, leading_name,
    named_type, type_name_of,
};
use crate::mysql::tokens::{significant, sql_tokens, TokenKind};
use crate::text::{lowercase, split_spaces};
use vstd::prelude::*;

verus! {

/// Some word of `words` reads `kw` once lowercased.
pub open spec fn has_word(words: Seq<Seq<char>>, kw: Seq<char>) -> bool {
    exists|j: int| 0 <= j < words.len() && #[trigger] lowercase(words[j]) == kw
}

/// `words` holds the phrase `ON update CURRENT_TIMESTAMP`.
pub open spec fn has_on_update(words: Seq<Seq<char>>) -> bool {
    exists|j: int|
        0 <= j && j + 2 < words.len() && #[trigger] lowercase(words[j]) == "on"@ && words[j + 1]
            == "update"@ && lowercase(words[j + 2]) == "current_timestamp"@
}

/// `words` holds `STORED GENERATED` or `VIRTUAL GENERATED`.
pub open spec fn has_generated(words: Seq<Seq<char>>) -> bool {
    exists|j: int|
        0 <= j && j + 1 < words.len() && (#[trigger] lowercase(words[j]) == "stored"@ || lowercase(
            words[j],
        ) == "virtual"@) && lowercase(words[j + 1]) == "generated"@
}

proof fn lemma_extra_from_sound(words: Seq<Seq<char>>, i: int, e: ColumnExtra)
    requires
        0 <= i,
    ensures
        extra_from(words, i, e).auto_increment ==> e.auto_increment || has_word(
            words,
            "auto_increment"@,
        ),
        extra_from(words, i, e).on_update_current_timestamp ==> e.on_update_current_timestamp
            || has_on_update(words),
        extra_from(words, i, e).generated ==> e.generated || has_generated(words),
        extra_from(words, i, e).default_generated ==> e.default_generated || has_word(
            words,
            "default_generated"@,
        ),
    decreases words.len() - i,
{
    if i < words.len() {
        let word = lowercase(words[i]);
        if word == "auto_increment"@ {
            lemma_extra_from_sound(words, i + 1, ColumnExtra { auto_increment: true, ..e });
        } else if word == "on"@ {
            if i + 2 < words.len() && words[i + 1] == "update"@ && lowercase(words[i + 2])
                == "current_timestamp"@ {
                lemma_extra_from_sound(
                    words,
                    i + 3,
                    ColumnExtra { on_update_current_timestamp: true, ..e },
                );
            } else {
                lemma_extra_from_sound(words, i + 1, e);
            }
        } else if word == "stored"@ || word == "virtual"@ {
            if i + 1 < words.len() && lowercase(words[i + 1]) == "generated"@ {
                lemma_extra_from_sound(words, i + 2, ColumnExtra { generated: true, ..e });
            } else {
                lemma_extra_from_sound(words, i + 1, e);
            }
        } else if word == "default_generated"@ {
            lemma_extra_from_sound(words, i + 1, ColumnExtra { default_generated: true, ..e });
        } else {
            lemma_extra_from_sound(words, i + 1, e);
        }
    }
}

/// `parse_column_extra` sets a property only when the text names it: each
/// flag of the result needs its keyword, or its phrase, among the words of
/// the text.
pub proof fn lemma_extra_flags_need_their_words(expr: Seq<char>)
    ensures
        column_extra_of(expr).auto_increment ==> has_word(split_spaces(expr), "auto_increment"@),
        column_extra_of(expr).on_update_current_timestamp ==> has_on_update(split_spaces(expr)),
        column_extra_of(expr).generated ==> has_generated(split_spaces(expr)),
        column_extra_of(expr).default_generated ==> has_word(
            split_spaces(expr),
            "default_generated"@,
        ),
{
    lemma_extra_from_sound(
        split_spaces(expr),
        0,
        ColumnExtra {
            auto_increment: false,
            on_update_current_timestamp: false,
            generated: false,
            default_generated: false,
        },
    );
}

/// Type names are read without regard to case: two names that lowercase
/// alike and name a known type give the same type.
pub proof fn lemma_type_names_ignore_case(a: Seq<char>, b: Seq<char>)
    requires
        lowercase(a) == lowercase(b),
        type_name_of(lowercase(a)) is Some,
    ensures
        named_type(a) == named_type(b),
{
}

/// What follows a type name in a declaration never changes which type it
/// is: `parse_column_type` gives the type that `parse_type_name` gives for
/// the declaration's leading word; and a declaration that is that word alone
/// gives exactly `parse_type_name`'s result, default attributes included.
pub proof fn lemma_declared_type_is_named_type(declaration: Seq<char>)
    requires
        significant(sql_tokens(declaration)).len() > 0,
    ensures
        column_type_of(declaration).name == named_type(
            leading_name(significant(sql_tokens(declaration))),
        ).name,
        significant(sql_tokens(declaration)).len() == 1 ==> column_type_of(declaration)
            == named_type(leading_name(significant(sql_tokens(declaration)))),
{
    let t = significant(sql_tokens(declaration));
    if t.len() == 1 {
        assert(t.skip(1) =~= Seq::<(TokenKind, Seq<char>)>::empty());
        match type_name_of(lowercase(leading_name(t))) {
            Some(n) => {
                assert(attrs_after_name(n.category_of(), t.skip(1)) == default_attr(
                    n.category_of(),
                ));
            },
            None => {},
        }
    }
}

/// The statement that `IndexInfo::write` builds recreates the index part for
/// part: it has one column per part, in order, each with the part's column
/// name and its prefix length unchanged; a column carries an order exactly
/// when the index has a single part and that part is descending, and then the
/// order is descending whatever the prefix length. An index named `PRIMARY`
/// becomes an unnamed primary key that is never marked unique; any other keeps
/// its name and its uniqueness. `BTREE` sets no index type, `FULLTEXT` and
/// `HASH` their own, and the spatial types a custom type by their names.
pub proof fn lemma_written_index_follows_parts(info: IndexInfo)
    ensures
        written_index(info).columns.len() == info.parts@.len(),
        forall|i: int|
            0 <= i < info.parts@.len() ==> {
                &&& (#[trigger] written_index(info).columns[i]).0 == info.parts@[i].column@
                &&& written_index(info).columns[i].1 == info.parts@[i].sub_part
                &&& (info.parts@.len() == 1 && info.parts@[i].order == IndexOrder::Descending
                    ==> written_index(info).columns[i].2 == Some(ColumnOrder::Desc))
                &&& (info.parts@.len() != 1 || info.parts@[i].order != IndexOrder::Descending
                    ==> written_index(info).columns[i].2 is None)
            },
        info.name@ == "PRIMARY"@ ==> written_index(info).primary && written_index(info).name is None
            && !written_index(info).unique,
        info.name@ != "PRIMARY"@ ==> !written_index(info).primary && written_index(info).name
            == Some(info.name@) && written_index(info).unique == info.unique,
        info.idx_type == IndexType::BTree ==> written_index(info).method is None,
        info.idx_type == IndexType::FullText ==> written_index(info).method == Some(
            IndexMethod::FullText,
        ),
        info.idx_type == IndexType::Hash ==> written_index(info).method == Some(IndexMethod::Hash),
        info.idx_type == IndexType::RTree ==> written_index(info).method == Some(
            IndexMethod::Custom("RTREE"@),
        ),
        info.idx_type == IndexType::Spatial ==> written_index(info).method == Some(
            IndexMethod::Custom("SPATIAL"@),
        ),
{
}

/// How MySQL spells each type name, in lowercase.
pub open spec fn spelling_of(n: TypeName) -> Seq<char> {
    match n {
        TypeName::Serial => "serial"@,
        TypeName::Bit => "bit"@,
        TypeName::TinyInt => "tinyint"@,
        TypeName::Bool => "bool"@,
        TypeName::SmallInt => "smallint"@,
        TypeName::MediumInt => "mediumint"@,
        TypeName::Int => "int"@,
        TypeName::BigInt => "bigint"@,
        TypeName::Decimal => "decimal"@,
        TypeName::Float => "float"@,
        TypeName::Double => "double"@,
        TypeName::Date => "date"@,
        TypeName::Time => "time"@,
        TypeName::DateTime => "datetime"@,
        TypeName::Timestamp => "timestamp"@,
        TypeName::Year => "year"@,
        TypeName::Char => "char"@,
        TypeName::NChar => "nchar"@,
        TypeName::Varchar => "varchar"@,
        TypeName::NVarchar => "nvarchar"@,
        TypeName::Binary => "binary"@,
        TypeName::Varbinary => "varbinary"@,
        TypeName::Text => "text"@,
        TypeName::TinyText => "tinytext"@,
        TypeName::MediumText => "mediumtext"@,
        TypeName::LongText => "longtext"@,
        TypeName::Blob => "blob"@,
        TypeName::TinyBlob => "tinyblob"@,
        TypeName::MediumBlob => "mediumblob"@,
        TypeName::LongBlob => "longblob"@,
        TypeName::Enum => "enum"@,
        TypeName::SetOf => "set"@,
        TypeName::Geometry => "geometry"@,
        TypeName::Point => "point"@,
        TypeName::LineString => "linestring"@,
        TypeName::Polygon => "polygon"@,
        TypeName::MultiPoint => "multipoint"@,
        TypeName::MultiLineString => "multilinestring"@,
        TypeName::MultiPolygon => "multipolygon"@,
        TypeName::GeometryCollection => "geometrycollection"@,
        TypeName::Json => "json"@,
        TypeName::Unknown => Seq::empty(),
    }
}

/// Each known name is read as the type of that name and no other: a
/// lowercased name is recognised exactly when it is the spelling of a type,
/// and then it gives that type.
#[verifier::spinoff_prover]
#[verifier::rlimit(60)]
pub proof fn lemma_type_names_follow_spelling(lower: Seq<char>, n: TypeName)
    ensures
        type_name_of(lower) == Some(n) ==> n != TypeName::Unknown && spelling_of(n) == lower,
        n != TypeName::Unknown ==> type_name_of(spelling_of(n)) == Some(n),
{
    if n != TypeName::Unknown {
        match n {
            TypeName::Serial => {
                reveal_strlit("serial");
            },
            TypeName::Bit => {
                reveal_strlit("bit");
                reveal_strlit("serial");
                assert("bit"@.len() != "serial"@.len());
            },
            TypeName::TinyInt => {
                reveal_strlit("tinyint");
                reveal_strlit("serial");
                assert("tinyint"@.len() != "serial"@.len());
                reveal_strlit("bit");
                assert("tinyint"@.len() != "bit"@.len());
            },
            TypeName::Bool => {
                reveal_strlit("bool");
                reveal_strlit("serial");
                assert("bool"@.len() != "serial"@.len());
                reveal_strlit("bit");
                assert("bool"@.len() != "bit"@.len());
                reveal_strlit("tinyint");
                assert("bool"@.len() != "tinyint"@.len());
            },
            TypeName::SmallInt => {
                reveal_strlit("smallint");
                reveal_strlit("serial");
                assert("smallint"@.len() != "serial"@.len());
                reveal_strlit("bit");
                assert("smallint"@.len() != "bit"@.len());
                reveal_strlit("tinyint");
                assert("smallint"@.len() != "tinyint"@.len());
                reveal_strlit("bool");
                assert("smallint"@.len() != "bool"@.len());
            },
            TypeName::MediumInt => {
                reveal_strlit("mediumint");
                reveal_strlit("serial");
                assert("mediumint"@.len() != "serial"@.len());
                reveal_strlit("bit");
                assert("mediumint"@.len() != "bit"@.len());
                reveal_strlit("tinyint");
                assert("mediumint"@.len() != "tinyint"@.len());
                reveal_strlit("bool");
                assert("mediumint"@.len() != "bool"@.len());
                reveal_strlit("smallint");
                assert("mediumint"@.len() != "smallint"@.len());
            },
            TypeName::Int => {
                reveal_strlit("int");
                reveal_strlit("serial");
                assert("int"@.len() != "serial"@.len());
                reveal_strlit("bit");
                assert("int"@[0] != "bit"@[0]);
                reveal_strlit("tinyint");
                assert("int"@.len() != "tinyint"@.len());
                reveal_strlit("bool");
                assert("int"@.len() != "bool"@.len());
                reveal_strlit("smallint");
                assert("int"@.len() != "smallint"@.len());
                reveal_strlit("mediumint");
                assert("int"@.len() != "mediumint"@.len());
            },
            TypeName::BigInt => {
                reveal_strlit("bigint");
                reveal_strlit("serial");
                assert("bigint"@[0] != "serial"@[0]);
                reveal_strlit("bit");
                assert("bigint"@.len() != "bit"@.len());
                reveal_strlit("tinyint");
                assert("bigint"@.len() != "tinyint"@.len());
                reveal_strlit("bool");
                assert("bigint"@.len() != "bool"@.len());
                reveal_strlit("smallint");
                assert("bigint"@.len() != "smallint"@.len());
                reveal_strlit("mediumint");
                assert("bigint"@.len() != "mediumint"@.len());
                reveal_strlit("int");
                assert("bigint"@.len() != "int"@.len());
            },
            TypeName::Decimal => {
                reveal_strlit("decimal");
                reveal_strlit("serial");
                assert("decimal"@.len() != "serial"@.len());
                reveal_strlit("bit");
                assert("decimal"@.len() != "bit"@.len());
                reveal_strlit("tinyint");
                assert("decimal"@[0] != "tinyint"@[0]);
                reveal_strlit("bool");
                assert("decimal"@.len() != "bool"@.len());
                reveal_strlit("smallint");
                assert("decimal"@.len() != "smallint"@.len());
                reveal_strlit("mediumint");
                assert("decimal"@.len() != "mediumint"@.len());
                reveal_strlit("int");
                assert("decimal"@.len() != "int"@.len());
                reveal_strlit("bigint");
                assert("decimal"@.len() != "bigint"@.len());
            },
            TypeName::Float => {
                reveal_strlit("float");
                reveal_strlit("serial");
                assert("float"@.len() != "serial"@.len());
                reveal_strlit("bit");
                assert("float"@.len() != "bit"@.len());
                reveal_strlit("tinyint");
                assert("float"@.len() != "tinyint"@.len());
                reveal_strlit("bool");
                assert("float"@.len() != "bool"@.len());
                reveal_strlit("smallint");
                assert("float"@.len() != "smallint"@.len());
                reveal_strlit("mediumint");
                assert("float"@.len() != "mediumint"@.len());
                reveal_strlit("int");
                assert("float"@.len() != "int"@.len());
                reveal_strlit("bigint");
                assert("float"@.len() != "bigint"@.len());
                reveal_strlit("decimal");
                assert("float"@.len() != "decimal"@.len());
            },
            TypeName::Double => {
                reveal_strlit("double");
                reveal_strlit("serial");
                assert("double"@[0] != "serial"@[0]);
                reveal_strlit("bit");
                assert("double"@.len() != "bit"@.len());
                reveal_strlit("tinyint");
                assert("double"@.len() != "tinyint"@.len());
                reveal_strlit("bool");
                assert("double"@.len() != "bool"@.len());
                reveal_strlit("smallint");
                assert("double"@.len() != "smallint"@.len());
                reveal_strlit("mediumint");
                assert("double"@.len() != "mediumint"@.len());
                reveal_strlit("int");
                assert("double"@.len() != "int"@.len());
                reveal_strlit("bigint");
                assert("double"@[0] != "bigint"@[0]);
                reveal_strlit("decimal");
                assert("double"@.len() != "decimal"@.len());
                reveal_strlit("float");
                assert("double"@.len() != "float"@.len());
            },
            TypeName::Date => {
                reveal_strlit("date");
                reveal_strlit("serial");
                assert("date"@.len() != "serial"@.len());
                reveal_strlit("bit");
                assert("date"@.len() != "bit"@.len());
                reveal_strlit("tinyint");
                assert("date"@.len() != "tinyint"@.len());
                reveal_strlit("bool");
                assert("date"@[0] != "bool"@[0]);
                reveal_strlit("smallint");
                assert("date"@.len() != "smallint"@.len());
                reveal_strlit("mediumint");
                assert("date"@.len() != "mediumint"@.len());
                reveal_strlit("int");
                assert("date"@.len() != "int"@.len());
                reveal_strlit("bigint");
                assert("date"@.len() != "bigint"@.len());
                reveal_strlit("decimal");
                assert("date"@.len() != "decimal"@.len());
                reveal_strlit("float");
                assert("date"@.len() != "float"@.len());
                reveal_strlit("double");
                assert("date"@.len() != "double"@.len());
            },
            TypeName::Time => {
                reveal_strlit("time");
                reveal_strlit("serial");
                assert("time"@.len() != "serial"@.len());
                reveal_strlit("bit");
                assert("time"@.len() != "bit"@.len());
                reveal_strlit("tinyint");
                assert("time"@.len() != "tinyint"@.len());
                reveal_strlit("bool");
                assert("time"@[0] != "bool"@[0]);
                reveal_strlit("smallint");
                assert("time"@.len() != "smallint"@.len());
                reveal_strlit("mediumint");
                assert("time"@.len() != "mediumint"@.len());
                reveal_strlit("int");
                assert("time"@.len() != "int"@.len());
                reveal_strlit("bigint");
                assert("time"@.len() != "bigint"@.len());
                reveal_strlit("decimal");
                assert("time"@.len() != "decimal"@.len());
                reveal_strlit("float");
                assert("time"@.len() != "float"@.len());
                reveal_strlit("double");
                assert("time"@.len() != "double"@.len());
                reveal_strlit("date");
                assert("time"@[0] != "date"@[0]);
            },
            TypeName::DateTime => {
                reveal_strlit("datetime");
                reveal_strlit("serial");
                assert("datetime"@.len() != "serial"@.len());
                reveal_strlit("bit");
                assert("datetime"@.len() != "bit"@.len());
                reveal_strlit("tinyint");
                assert("datetime"@.len() != "tinyint"@.len());
                reveal_strlit("bool");
                assert("datetime"@.len() != "bool"@.len());
                reveal_strlit("smallint");
                assert("datetime"@[0] != "smallint"@[0]);
                reveal_strlit("mediumint");
                assert("datetime"@.len() != "mediumint"@.len());
                reveal_strlit("int");
                assert("datetime"@.len() != "int"@.len());
                reveal_strlit("bigint");
                assert("datetime"@.len() != "bigint"@.len());
                reveal_strlit("decimal");
                assert("datetime"@.len() != "decimal"@.len());
                reveal_strlit("float");
                assert("datetime"@.len() != "float"@.len());
                reveal_strlit("double");
                assert("datetime"@.len() != "double"@.len());
                reveal_strlit("date");
                assert("datetime"@.len() != "date"@.len());
                reveal_strlit("time");
                assert("datetime"@.len() != "time"@.len());
            },
            TypeName::Timestamp => {
                reveal_strlit("timestamp");
                reveal_strlit("serial");
                assert("timestamp"@.len() != "serial"@.len());
                reveal_strlit("bit");
                assert("timestamp"@.len() != "bit"@.len());
                reveal_strlit("tinyint");
                assert("timestamp"@.len() != "tinyint"@.len());
                reveal_strlit("bool");
                assert("timestamp"@.len() != "bool"@.len());
                reveal_strlit("smallint");
                assert("timestamp"@.len() != "smallint"@.len());
                reveal_strlit("mediumint");
                assert("timestamp"@[0] != "mediumint"@[0]);
                reveal_strlit("int");
                assert("timestamp"@.len() != "int"@.len());
                reveal_strlit("bigint");
                assert("timestamp"@.len() != "bigint"@.len());
                reveal_strlit("decimal");
                assert("timestamp"@.len() != "decimal"@.len());
                reveal_strlit("float");
                assert("timestamp"@.len() != "float"@.len());
                reveal_strlit("double");
                assert("timestamp"@.len() != "double"@.len());
                reveal_strlit("date");
                assert("timestamp"@.len() != "date"@.len());
                reveal_strlit("time");
                assert("timestamp"@.len() != "time"@.len());
                reveal_strlit("datetime");
                assert("timestamp"@.len() != "datetime"@.len());
            },
            TypeName::Year => {
                reveal_strlit("year");
                reveal_strlit("serial");
                assert("year"@.len() != "serial"@.len());
                reveal_strlit("bit");
                assert("year"@.len() != "bit"@.len());
                reveal_strlit("tinyint");
                assert("year"@.len() != "tinyint"@.len());
                reveal_strlit("bool");
                assert("year"@[0] != "bool"@[0]);
                reveal_strlit("smallint");
                assert("year"@.len() != "smallint"@.len());
                reveal_strlit("mediumint");
                assert("year"@.len() != "mediumint"@.len());
                reveal_strlit("int");
                assert("year"@.len() != "int"@.len());
                reveal_strlit("bigint");
                assert("year"@.len() != "bigint"@.len());
                reveal_strlit("decimal");
                assert("year"@.len() != "decimal"@.len());
                reveal_strlit("float");
                assert("year"@.len() != "float"@.len());
                reveal_strlit("double");
                assert("year"@.len() != "double"@.len());
                reveal_strlit("date");
                assert("year"@[0] != "date"@[0]);
                reveal_strlit("time");
                assert("year"@[0] != "time"@[0]);
                reveal_strlit("datetime");
                assert("year"@.len() != "datetime"@.len());
                reveal_strlit("timestamp");
                assert("year"@.len() != "timestamp"@.len());
            },
            TypeName::Char => {
                reveal_strlit("char");
                reveal_strlit("serial");
                assert("char"@.len() != "serial"@.len());
                reveal_strlit("bit");
                assert("char"@.len() != "bit"@.len());
                reveal_strlit("tinyint");
                assert("char"@.len() != "tinyint"@.len());
                reveal_strlit("bool");
                assert("char"@[0] != "bool"@[0]);
                reveal_strlit("smallint");
                assert("char"@.len() != "smallint"@.len());
                reveal_strlit("mediumint");
                assert("char"@.len() != "mediumint"@.len());
                reveal_strlit("int");
                assert("char"@.len() != "int"@.len());
                reveal_strlit("bigint");
                assert("char"@.len() != "bigint"@.len());
                reveal_strlit("decimal");
                assert("char"@.len() != "decimal"@.len());
                reveal_strlit("float");
                assert("char"@.len() != "float"@.len());
                reveal_strlit("double");
                assert("char"@.len() != "double"@.len());
                reveal_strlit("date");
                assert("char"@[0] != "date"@[0]);
                reveal_strlit("time");
                assert("char"@[0] != "time"@[0]);
                reveal_strlit("datetime");
                assert("char"@.len() != "datetime"@.len());
                reveal_strlit("timestamp");
                assert("char"@.len() != "timestamp"@.len());
                reveal_strlit("year");
                assert("char"@[0] != "year"@[0]);
            },
            TypeName::NChar => {
                reveal_strlit("nchar");
                reveal_strlit("serial");
                assert("nchar"@.len() != "serial"@.len());
                reveal_strlit("bit");
                assert("nchar"@.len() != "bit"@.len());
                reveal_strlit("tinyint");
                assert("nchar"@.len() != "tinyint"@.len());
                reveal_strlit("bool");
                assert("nchar"@.len() != "bool"@.len());
                reveal_strlit("smallint");
                assert("nchar"@.len() != "smallint"@.len());
                reveal_strlit("mediumint");
                assert("nchar"@.len() != "mediumint"@.len());
                reveal_strlit("int");
                assert("nchar"@.len() != "int"@.len());
                reveal_strlit("bigint");
                assert("nchar"@.len() != "bigint"@.len());
                reveal_strlit("decimal");
                assert("nchar"@.len() != "decimal"@.len());
                reveal_strlit("float");
                assert("nchar"@[0] != "float"@[0]);
                reveal_strlit("double");
                assert("nchar"@.len() != "double"@.len());
                reveal_strlit("date");
                assert("nchar"@.len() != "date"@.len());
                reveal_strlit("time");
                assert("nchar"@.len() != "time"@.len());
                reveal_strlit("datetime");
                assert("nchar"@.len() != "datetime"@.len());
                reveal_strlit("timestamp");
                assert("nchar"@.len() != "timestamp"@.len());
                reveal_strlit("year");
                assert("nchar"@.len() != "year"@.len());
                reveal_strlit("char");
                assert("nchar"@.len() != "char"@.len());
            },
            TypeName::Varchar => {
                reveal_strlit("varchar");
                reveal_strlit("serial");
                assert("varchar"@.len() != "serial"@.len());
                reveal_strlit("bit");
                assert("varchar"@.len() != "bit"@.len());
                reveal_strlit("tinyint");
                assert("varchar"@[0] != "tinyint"@[0]);
                reveal_strlit("bool");
                assert("varchar"@.len() != "bool"@.len());
                reveal_strlit("smallint");
                assert("varchar"@.len() != "smallint"@.len());
                reveal_strlit("mediumint");
                assert("varchar"@.len() != "mediumint"@.len());
                reveal_strlit("int");
                assert("varchar"@.len() != "int"@.len());
                reveal_strlit("bigint");
                assert("varchar"@.len() != "bigint"@.len());
                reveal_strlit("decimal");
                assert("varchar"@[0] != "decimal"@[0]);
                reveal_strlit("float");
                assert("varchar"@.len() != "float"@.len());
                reveal_strlit("double");
                assert("varchar"@.len() != "double"@.len());
                reveal_strlit("date");
                assert("varchar"@.len() != "date"@.len());
                reveal_strlit("time");
                assert("varchar"@.len() != "time"@.len());
                reveal_strlit("datetime");
                assert("varchar"@.len() != "datetime"@.len());
                reveal_strlit("timestamp");
                assert("varchar"@.len() != "timestamp"@.len());
                reveal_strlit("year");
                assert("varchar"@.len() != "year"@.len());
                reveal_strlit("char");
                assert("varchar"@.len() != "char"@.len());
                reveal_strlit("nchar");
                assert("varchar"@.len() != "nchar"@.len());
            },
            TypeName::NVarchar => {
                reveal_strlit("nvarchar");
                reveal_strlit("serial");
                assert("nvarchar"@.len() != "serial"@.len());
                reveal_strlit("bit");
                assert("nvarchar"@.len() != "bit"@.len());
                reveal_strlit("tinyint");
                assert("nvarchar"@.len() != "tinyint"@.len());
                reveal_strlit("bool");
                assert("nvarchar"@.len() != "bool"@.len());
                reveal_strlit("smallint");
                assert("nvarchar"@[0] != "smallint"@[0]);
                reveal_strlit("mediumint");
                assert("nvarchar"@.len() != "mediumint"@.len());
                reveal_strlit("int");
                assert("nvarchar"@.len() != "int"@.len());
                reveal_strlit("bigint");
                assert("nvarchar"@.len() != "bigint"@.len());
                reveal_strlit("decimal");
                assert("nvarchar"@.len() != "decimal"@.len());
                reveal_strlit("float");
                assert("nvarchar"@.len() != "float"@.len());
                reveal_strlit("double");
                assert("nvarchar"@.len() != "double"@.len());
                reveal_strlit("date");
                assert("nvarchar"@.len() != "date"@.len());
                reveal_strlit("time");
                assert("nvarchar"@.len() != "time"@.len());
                reveal_strlit("datetime");
                assert("nvarchar"@[0] != "datetime"@[0]);
                reveal_strlit("timestamp");
                assert("nvarchar"@.len() != "timestamp"@.len());
                reveal_strlit("year");
                assert("nvarchar"@.len() != "year"@.len());
                reveal_strlit("char");
                assert("nvarchar"@.len() != "char"@.len());
                reveal_strlit("nchar");
                assert("nvarchar"@.len() != "nchar"@.len());
                reveal_strlit("varchar");
                assert("nvarchar"@.len() != "varchar"@.len());
            },
            TypeName::Binary => {
                reveal_strlit("binary");
                reveal_strlit("serial");
                assert("binary"@[0] != "serial"@[0]);
                reveal_strlit("bit");
                assert("binary"@.len() != "bit"@.len());
                reveal_strlit("tinyint");
                assert("binary"@.len() != "tinyint"@.len());
                reveal_strlit("bool");
                assert("binary"@.len() != "bool"@.len());
                reveal_strlit("smallint");
                assert("binary"@.len() != "smallint"@.len());
                reveal_strlit("mediumint");
                assert("binary"@.len() != "mediumint"@.len());
                reveal_strlit("int");
                assert("binary"@.len() != "int"@.len());
                reveal_strlit("bigint");
                assert("binary"@[2] != "bigint"@[2]);
                reveal_strlit("decimal");
                assert("binary"@.len() != "decimal"@.len());
                reveal_strlit("float");
                assert("binary"@.len() != "float"@.len());
                reveal_strlit("double");
                assert("binary"@[0] != "double"@[0]);
                reveal_strlit("date");
                assert("binary"@.len() != "date"@.len());
                reveal_strlit("time");
                assert("binary"@.len() != "time"@.len());
                reveal_strlit("datetime");
                assert("binary"@.len() != "datetime"@.len());
                reveal_strlit("timestamp");
                assert("binary"@.len() != "timestamp"@.len());
                reveal_strlit("year");
                assert("binary"@.len() != "year"@.len());
                reveal_strlit("char");
                assert("binary"@.len() != "char"@.len());
                reveal_strlit("nchar");
                assert("binary"@.len() != "nchar"@.len());
                reveal_strlit("varchar");
                assert("binary"@.len() != "varchar"@.len());
                reveal_strlit("nvarchar");
                assert("binary"@.len() != "nvarchar"@.len());
            },
            TypeName::Varbinary => {
                reveal_strlit("varbinary");
                reveal_strlit("serial");
                assert("varbinary"@.len() != "serial"@.len());
                reveal_strlit("bit");
                assert("varbinary"@.len() != "bit"@.len());
                reveal_strlit("tinyint");
                assert("varbinary"@.len() != "tinyint"@.len());
                reveal_strlit("bool");
                assert("varbinary"@.len() != "bool"@.len());
                reveal_strlit("smallint");
                assert("varbinary"@.len() != "smallint"@.len());
                reveal_strlit("mediumint");
                assert("varbinary"@[0] != "mediumint"@[0]);
                reveal_strlit("int");
                assert("varbinary"@.len() != "int"@.len());
                reveal_strlit("bigint");
                assert("varbinary"@.len() != "bigint"@.len());
                reveal_strlit("decimal");
                assert("varbinary"@.len() != "decimal"@.len());
                reveal_strlit("float");
                assert("varbinary"@.len() != "float"@.len());
                reveal_strlit("double");
                assert("varbinary"@.len() != "double"@.len());
                reveal_strlit("date");
                assert("varbinary"@.len() != "date"@.len());
                reveal_strlit("time");
                assert("varbinary"@.len() != "time"@.len());
                reveal_strlit("datetime");
                assert("varbinary"@.len() != "datetime"@.len());
                reveal_strlit("timestamp");
                assert("varbinary"@[0] != "timestamp"@[0]);
                reveal_strlit("year");
                assert("varbinary"@.len() != "year"@.len());
                reveal_strlit("char");
                assert("varbinary"@.len() != "char"@.len());
                reveal_strlit("nchar");
                assert("varbinary"@.len() != "nchar"@.len());
                reveal_strlit("varchar");
                assert("varbinary"@.len() != "varchar"@.len());
                reveal_strlit("nvarchar");
                assert("varbinary"@.len() != "nvarchar"@.len());
                reveal_strlit("binary");
                assert("varbinary"@.len() != "binary"@.len());
            },
            TypeName::Text => {
                reveal_strlit("text");
                reveal_strlit("serial");
                assert("text"@.len() != "serial"@.len());
                reveal_strlit("bit");
                assert("text"@.len() != "bit"@.len());
                reveal_strlit("tinyint");
                assert("text"@.len() != "tinyint"@.len());
                reveal_strlit("bool");
                assert("text"@[0] != "bool"@[0]);
                reveal_strlit("smallint");
                assert("text"@.len() != "smallint"@.len());
                reveal_strlit("mediumint");
                assert("text"@.len() != "mediumint"@.len());
                reveal_strlit("int");
                assert("text"@.len() != "int"@.len());
                reveal_strlit("bigint");
                assert("text"@.len() != "bigint"@.len());
                reveal_strlit("decimal");
                assert("text"@.len() != "decimal"@.len());
                reveal_strlit("float");
                assert("text"@.len() != "float"@.len());
                reveal_strlit("double");
                assert("text"@.len() != "double"@.len());
                reveal_strlit("date");
                assert("text"@[0] != "date"@[0]);
                reveal_strlit("time");
                assert("text"@[1] != "time"@[1]);
                reveal_strlit("datetime");
                assert("text"@.len() != "datetime"@.len());
                reveal_strlit("timestamp");
                assert("text"@.len() != "timestamp"@.len());
                reveal_strlit("year");
                assert("text"@[0] != "year"@[0]);
                reveal_strlit("char");
                assert("text"@[0] != "char"@[0]);
                reveal_strlit("nchar");
                assert("text"@.len() != "nchar"@.len());
                reveal_strlit("varchar");
                assert("text"@.len() != "varchar"@.len());
                reveal_strlit("nvarchar");
                assert("text"@.len() != "nvarchar"@.len());
                reveal_strlit("binary");
                assert("text"@.len() != "binary"@.len());
                reveal_strlit("varbinary");
                assert("text"@.len() != "varbinary"@.len());
            },
            TypeName::TinyText => {
                reveal_strlit("tinytext");
                reveal_strlit("serial");
                assert("tinytext"@.len() != "serial"@.len());
                reveal_strlit("bit");
                assert("tinytext"@.len() != "bit"@.len());
                reveal_strlit("tinyint");
                assert("tinytext"@.len() != "tinyint"@.len());
                reveal_strlit("bool");
                assert("tinytext"@.len() != "bool"@.len());
                reveal_strlit("smallint");
                assert("tinytext"@[0] != "smallint"@[0]);
                reveal_strlit("mediumint");
                assert("tinytext"@.len() != "mediumint"@.len());
                reveal_strlit("int");
                assert("tinytext"@.len() != "int"@.len());
                reveal_strlit("bigint");
                assert("tinytext"@.len() != "bigint"@.len());
                reveal_strlit("decimal");
                assert("tinytext"@.len() != "decimal"@.len());
                reveal_strlit("float");
                assert("tinytext"@.len() != "float"@.len());
                reveal_strlit("double");
                assert("tinytext"@.len() != "double"@.len());
                reveal_strlit("date");
                assert("tinytext"@.len() != "date"@.len());
                reveal_strlit("time");
                assert("tinytext"@.len() != "time"@.len());
                reveal_strlit("datetime");
                assert("tinytext"@[0] != "datetime"@[0]);
                reveal_strlit("timestamp");
                assert("tinytext"@.len() != "timestamp"@.len());
                reveal_strlit("year");
                assert("tinytext"@.len() != "year"@.len());
                reveal_strlit("char");
                assert("tinytext"@.len() != "char"@.len());
                reveal_strlit("nchar");
                assert("tinytext"@.len() != "nchar"@.len());
                reveal_strlit("varchar");
                assert("tinytext"@.len() != "varchar"@.len());
                reveal_strlit("nvarchar");
                assert("tinytext"@[0] != "nvarchar"@[0]);
                reveal_strlit("binary");
                assert("tinytext"@.len() != "binary"@.len());
                reveal_strlit("varbinary");
                assert("tinytext"@.len() != "varbinary"@.len());
                reveal_strlit("text");
                assert("tinytext"@.len() != "text"@.len());
            },
            TypeName::MediumText => {
                reveal_strlit("mediumtext");
                reveal_strlit("serial");
                assert("mediumtext"@.len() != "serial"@.len());
                reveal_strlit("bit");
                assert("mediumtext"@.len() != "bit"@.len());
                reveal_strlit("tinyint");
                assert("mediumtext"@.len() != "tinyint"@.len());
                reveal_strlit("bool");
                assert("mediumtext"@.len() != "bool"@.len());
                reveal_strlit("smallint");
                assert("mediumtext"@.len() != "smallint"@.len());
                reveal_strlit("mediumint");
                assert("mediumtext"@.len() != "mediumint"@.len());
                reveal_strlit("int");
                assert("mediumtext"@.len() != "int"@.len());
                reveal_strlit("bigint");
                assert("mediumtext"@.len() != "bigint"@.len());
                reveal_strlit("decimal");
                assert("mediumtext"@.len() != "decimal"@.len());
                reveal_strlit("float");
                assert("mediumtext"@.len() != "float"@.len());
                reveal_strlit("double");
                assert("mediumtext"@.len() != "double"@.len());
                reveal_strlit("date");
                assert("mediumtext"@.len() != "date"@.len());
                reveal_strlit("time");
                assert("mediumtext"@.len() != "time"@.len());
                reveal_strlit("datetime");
                assert("mediumtext"@.len() != "datetime"@.len());
                reveal_strlit("timestamp");
                assert("mediumtext"@.len() != "timestamp"@.len());
                reveal_strlit("year");
                assert("mediumtext"@.len() != "year"@.len());
                reveal_strlit("char");
                assert("mediumtext"@.len() != "char"@.len());
                reveal_strlit("nchar");
                assert("mediumtext"@.len() != "nchar"@.len());
                reveal_strlit("varchar");
                assert("mediumtext"@.len() != "varchar"@.len());
                reveal_strlit("nvarchar");
                assert("mediumtext"@.len() != "nvarchar"@.len());
                reveal_strlit("binary");
                assert("mediumtext"@.len() != "binary"@.len());
                reveal_strlit("varbinary");
                assert("mediumtext"@.len() != "varbinary"@.len());
                reveal_strlit("text");
                assert("mediumtext"@.len() != "text"@.len());
                reveal_strlit("tinytext");
                assert("mediumtext"@.len() != "tinytext"@.len());
            },
            TypeName::LongText => {
                reveal_strlit("longtext");
                reveal_strlit("serial");
                assert("longtext"@.len() != "serial"@.len());
                reveal_strlit("bit");
                assert("longtext"@.len() != "bit"@.len());
                reveal_strlit("tinyint");
                assert("longtext"@.len() != "tinyint"@.len());
                reveal_strlit("bool");
                assert("longtext"@.len() != "bool"@.len());
                reveal_strlit("smallint");
                assert("longtext"@[0] != "smallint"@[0]);
                reveal_strlit("mediumint");
                assert("longtext"@.len() != "mediumint"@.len());
                reveal_strlit("int");
                assert("longtext"@.len() != "int"@.len());
                reveal_strlit("bigint");
                assert("longtext"@.len() != "bigint"@.len());
                reveal_strlit("decimal");
                assert("longtext"@.len() != "decimal"@.len());
                reveal_strlit("float");
                assert("longtext"@.len() != "float"@.len());
                reveal_strlit("double");
                assert("longtext"@.len() != "double"@.len());
                reveal_strlit("date");
                assert("longtext"@.len() != "date"@.len());
                reveal_strlit("time");
                assert("longtext"@.len() != "time"@.len());
                reveal_strlit("datetime");
                assert("longtext"@[0] != "datetime"@[0]);
                reveal_strlit("timestamp");
                assert("longtext"@.len() != "timestamp"@.len());
                reveal_strlit("year");
                assert("longtext"@.len() != "year"@.len());
                reveal_strlit("char");
                assert("longtext"@.len() != "char"@.len());
                reveal_strlit("nchar");
                assert("longtext"@.len() != "nchar"@.len());
                reveal_strlit("varchar");
                assert("longtext"@.len() != "varchar"@.len());
                reveal_strlit("nvarchar");
                assert("longtext"@[0] != "nvarchar"@[0]);
                reveal_strlit("binary");
                assert("longtext"@.len() != "binary"@.len());
                reveal_strlit("varbinary");
                assert("longtext"@.len() != "varbinary"@.len());
                reveal_strlit("text");
                assert("longtext"@.len() != "text"@.len());
                reveal_strlit("tinytext");
                assert("longtext"@[0] != "tinytext"@[0]);
                reveal_strlit("mediumtext");
                assert("longtext"@.len() != "mediumtext"@.len());
            },
            TypeName::Blob => {
                reveal_strlit("blob");
                reveal_strlit("serial");
                assert("blob"@.len() != "serial"@.len());
                reveal_strlit("bit");
                assert("blob"@.len() != "bit"@.len());
                reveal_strlit("tinyint");
                assert("blob"@.len() != "tinyint"@.len());
                reveal_strlit("bool");
                assert("blob"@[1] != "bool"@[1]);
                reveal_strlit("smallint");
                assert("blob"@.len() != "smallint"@.len());
                reveal_strlit("mediumint");
                assert("blob"@.len() != "mediumint"@.len());
                reveal_strlit("int");
                assert("blob"@.len() != "int"@.len());
                reveal_strlit("bigint");
                assert("blob"@.len() != "bigint"@.len());
                reveal_strlit("decimal");
                assert("blob"@.len() != "decimal"@.len());
                reveal_strlit("float");
                assert("blob"@.len() != "float"@.len());
                reveal_strlit("double");
                assert("blob"@.len() != "double"@.len());
                reveal_strlit("date");
                assert("blob"@[0] != "date"@[0]);
                reveal_strlit("time");
                assert("blob"@[0] != "time"@[0]);
                reveal_strlit("datetime");
                assert("blob"@.len() != "datetime"@.len());
                reveal_strlit("timestamp");
                assert("blob"@.len() != "timestamp"@.len());
                reveal_strlit("year");
                assert("blob"@[0] != "year"@[0]);
                reveal_strlit("char");
                assert("blob"@[0] != "char"@[0]);
                reveal_strlit("nchar");
                assert("blob"@.len() != "nchar"@.len());
                reveal_strlit("varchar");
                assert("blob"@.len() != "varchar"@.len());
                reveal_strlit("nvarchar");
                assert("blob"@.len() != "nvarchar"@.len());
                reveal_strlit("binary");
                assert("blob"@.len() != "binary"@.len());
                reveal_strlit("varbinary");
                assert("blob"@.len() != "varbinary"@.len());
                reveal_strlit("text");
                assert("blob"@[0] != "text"@[0]);
                reveal_strlit("tinytext");
                assert("blob"@.len() != "tinytext"@.len());
                reveal_strlit("mediumtext");
                assert("blob"@.len() != "mediumtext"@.len());
                reveal_strlit("longtext");
                assert("blob"@.len() != "longtext"@.len());
            },
            TypeName::TinyBlob => {
                reveal_strlit("tinyblob");
                reveal_strlit("serial");
                assert("tinyblob"@.len() != "serial"@.len());
                reveal_strlit("bit");
                assert("tinyblob"@.len() != "bit"@.len());
                reveal_strlit("tinyint");
                assert("tinyblob"@.len() != "tinyint"@.len());
                reveal_strlit("bool");
                assert("tinyblob"@.len() != "bool"@.len());
                reveal_strlit("smallint");
                assert("tinyblob"@[0] != "smallint"@[0]);
                reveal_strlit("mediumint");
                assert("tinyblob"@.len() != "mediumint"@.len());
                reveal_strlit("int");
                assert("tinyblob"@.len() != "int"@.len());
                reveal_strlit("bigint");
                assert("tinyblob"@.len() != "bigint"@.len());
                reveal_strlit("decimal");
                assert("tinyblob"@.len() != "decimal"@.len());
                reveal_strlit("float");
                assert("tinyblob"@.len() != "float"@.len());
                reveal_strlit("double");
                assert("tinyblob"@.len() != "double"@.len());
                reveal_strlit("date");
                assert("tinyblob"@.len() != "date"@.len());
                reveal_strlit("time");
                assert("tinyblob"@.len() != "time"@.len());
                reveal_strlit("datetime");
                assert("tinyblob"@[0] != "datetime"@[0]);
                reveal_strlit("timestamp");
                assert("tinyblob"@.len() != "timestamp"@.len());
                reveal_strlit("year");
                assert("tinyblob"@.len() != "year"@.len());
                reveal_strlit("char");
                assert("tinyblob"@.len() != "char"@.len());
                reveal_strlit("nchar");
                assert("tinyblob"@.len() != "nchar"@.len());
                reveal_strlit("varchar");
                assert("tinyblob"@.len() != "varchar"@.len());
                reveal_strlit("nvarchar");
                assert("tinyblob"@[0] != "nvarchar"@[0]);
                reveal_strlit("binary");
                assert("tinyblob"@.len() != "binary"@.len());
                reveal_strlit("varbinary");
                assert("tinyblob"@.len() != "varbinary"@.len());
                reveal_strlit("text");
                assert("tinyblob"@.len() != "text"@.len());
                reveal_strlit("tinytext");
                assert("tinyblob"@[4] != "tinytext"@[4]);
                reveal_strlit("mediumtext");
                assert("tinyblob"@.len() != "mediumtext"@.len());
                reveal_strlit("longtext");
                assert("tinyblob"@[0] != "longtext"@[0]);
                reveal_strlit("blob");
                assert("tinyblob"@.len() != "blob"@.len());
            },
            TypeName::MediumBlob => {
                reveal_strlit("mediumblob");
                reveal_strlit("serial");
                assert("mediumblob"@.len() != "serial"@.len());
                reveal_strlit("bit");
                assert("mediumblob"@.len() != "bit"@.len());
                reveal_strlit("tinyint");
                assert("mediumblob"@.len() != "tinyint"@.len());
                reveal_strlit("bool");
                assert("mediumblob"@.len() != "bool"@.len());
                reveal_strlit("smallint");
                assert("mediumblob"@.len() != "smallint"@.len());
                reveal_strlit("mediumint");
                assert("mediumblob"@.len() != "mediumint"@.len());
                reveal_strlit("int");
                assert("mediumblob"@.len() != "int"@.len());
                reveal_strlit("bigint");
                assert("mediumblob"@.len() != "bigint"@.len());
                reveal_strlit("decimal");
                assert("mediumblob"@.len() != "decimal"@.len());
                reveal_strlit("float");
                assert("mediumblob"@.len() != "float"@.len());
                reveal_strlit("double");
                assert("mediumblob"@.len() != "double"@.len());
                reveal_strlit("date");
                assert("mediumblob"@.len() != "date"@.len());
                reveal_strlit("time");
                assert("mediumblob"@.len() != "time"@.len());
                reveal_strlit("datetime");
                assert("mediumblob"@.len() != "datetime"@.len());
                reveal_strlit("timestamp");
                assert("mediumblob"@.len() != "timestamp"@.len());
                reveal_strlit("year");
                assert("mediumblob"@.len() != "year"@.len());
                reveal_strlit("char");
                assert("mediumblob"@.len() != "char"@.len());
                reveal_strlit("nchar");
                assert("mediumblob"@.len() != "nchar"@.len());
                reveal_strlit("varchar");
                assert("mediumblob"@.len() != "varchar"@.len());
                reveal_strlit("nvarchar");
                assert("mediumblob"@.len() != "nvarchar"@.len());
                reveal_strlit("binary");
                assert("mediumblob"@.len() != "binary"@.len());
                reveal_strlit("varbinary");
                assert("mediumblob"@.len() != "varbinary"@.len());
                reveal_strlit("text");
                assert("mediumblob"@.len() != "text"@.len());
                reveal_strlit("tinytext");
                assert("mediumblob"@.len() != "tinytext"@.len());
                reveal_strlit("mediumtext");
                assert("mediumblob"@[6] != "mediumtext"@[6]);
                reveal_strlit("longtext");
                assert("mediumblob"@.len() != "longtext"@.len());
                reveal_strlit("blob");
                assert("mediumblob"@.len() != "blob"@.len());
                reveal_strlit("tinyblob");
                assert("mediumblob"@.len() != "tinyblob"@.len());
            },
            TypeName::LongBlob => {
                reveal_strlit("longblob");
                reveal_strlit("serial");
                assert("longblob"@.len() != "serial"@.len());
                reveal_strlit("bit");
                assert("longblob"@.len() != "bit"@.len());
                reveal_strlit("tinyint");
                assert("longblob"@.len() != "tinyint"@.len());
                reveal_strlit("bool");
                assert("longblob"@.len() != "bool"@.len());
                reveal_strlit("smallint");
                assert("longblob"@[0] != "smallint"@[0]);
                reveal_strlit("mediumint");
                assert("longblob"@.len() != "mediumint"@.len());
                reveal_strlit("int");
                assert("longblob"@.len() != "int"@.len());
                reveal_strlit("bigint");
                assert("longblob"@.len() != "bigint"@.len());
                reveal_strlit("decimal");
                assert("longblob"@.len() != "decimal"@.len());
                reveal_strlit("float");
                assert("longblob"@.len() != "float"@.len());
                reveal_strlit("double");
                assert("longblob"@.len() != "double"@.len());
                reveal_strlit("date");
                assert("longblob"@.len() != "date"@.len());
                reveal_strlit("time");
                assert("longblob"@.len() != "time"@.len());
                reveal_strlit("datetime");
                assert("longblob"@[0] != "datetime"@[0]);
                reveal_strlit("timestamp");
                assert("longblob"@.len() != "timestamp"@.len());
                reveal_strlit("year");
                assert("longblob"@.len() != "year"@.len());
                reveal_strlit("char");
                assert("longblob"@.len() != "char"@.len());
                reveal_strlit("nchar");
                assert("longblob"@.len() != "nchar"@.len());
                reveal_strlit("varchar");
                assert("longblob"@.len() != "varchar"@.len());
                reveal_strlit("nvarchar");
                assert("longblob"@[0] != "nvarchar"@[0]);
                reveal_strlit("binary");
                assert("longblob"@.len() != "binary"@.len());
                reveal_strlit("varbinary");
                assert("longblob"@.len() != "varbinary"@.len());
                reveal_strlit("text");
                assert("longblob"@.len() != "text"@.len());
                reveal_strlit("tinytext");
                assert("longblob"@[0] != "tinytext"@[0]);
                reveal_strlit("mediumtext");
                assert("longblob"@.len() != "mediumtext"@.len());
                reveal_strlit("longtext");
                assert("longblob"@[4] != "longtext"@[4]);
                reveal_strlit("blob");
                assert("longblob"@.len() != "blob"@.len());
                reveal_strlit("tinyblob");
                assert("longblob"@[0] != "tinyblob"@[0]);
                reveal_strlit("mediumblob");
                assert("longblob"@.len() != "mediumblob"@.len());
            },
            TypeName::Enum => {
                reveal_strlit("enum");
                reveal_strlit("serial");
                assert("enum"@.len() != "serial"@.len());
                reveal_strlit("bit");
                assert("enum"@.len() != "bit"@.len());
                reveal_strlit("tinyint");
                assert("enum"@.len() != "tinyint"@.len());
                reveal_strlit("bool");
                assert("enum"@[0] != "bool"@[0]);
                reveal_strlit("smallint");
                assert("enum"@.len() != "smallint"@.len());
                reveal_strlit("mediumint");
                assert("enum"@.len() != "mediumint"@.len());
                reveal_strlit("int");
                assert("enum"@.len() != "int"@.len());
                reveal_strlit("bigint");
                assert("enum"@.len() != "bigint"@.len());
                reveal_strlit("decimal");
                assert("enum"@.len() != "decimal"@.len());
                reveal_strlit("float");
                assert("enum"@.len() != "float"@.len());
                reveal_strlit("double");
                assert("enum"@.len() != "double"@.len());
                reveal_strlit("date");
                assert("enum"@[0] != "date"@[0]);
                reveal_strlit("time");
                assert("enum"@[0] != "time"@[0]);
                reveal_strlit("datetime");
                assert("enum"@.len() != "datetime"@.len());
                reveal_strlit("timestamp");
                assert("enum"@.len() != "timestamp"@.len());
                reveal_strlit("year");
                assert("enum"@[0] != "year"@[0]);
                reveal_strlit("char");
                assert("enum"@[0] != "char"@[0]);
                reveal_strlit("nchar");
                assert("enum"@.len() != "nchar"@.len());
                reveal_strlit("varchar");
                assert("enum"@.len() != "varchar"@.len());
                reveal_strlit("nvarchar");
                assert("enum"@.len() != "nvarchar"@.len());
                reveal_strlit("binary");
                assert("enum"@.len() != "binary"@.len());
                reveal_strlit("varbinary");
                assert("enum"@.len() != "varbinary"@.len());
                reveal_strlit("text");
                assert("enum"@[0] != "text"@[0]);
                reveal_strlit("tinytext");
                assert("enum"@.len() != "tinytext"@.len());
                reveal_strlit("mediumtext");
                assert("enum"@.len() != "mediumtext"@.len());
                reveal_strlit("longtext");
                assert("enum"@.len() != "longtext"@.len());
                reveal_strlit("blob");
                assert("enum"@[0] != "blob"@[0]);
                reveal_strlit("tinyblob");
                assert("enum"@.len() != "tinyblob"@.len());
                reveal_strlit("mediumblob");
                assert("enum"@.len() != "mediumblob"@.len());
                reveal_strlit("longblob");
                assert("enum"@.len() != "longblob"@.len());
            },
            TypeName::SetOf => {
                reveal_strlit("set");
                reveal_strlit("serial");
                assert("set"@.len() != "serial"@.len());
                reveal_strlit("bit");
                assert("set"@[0] != "bit"@[0]);
                reveal_strlit("tinyint");
                assert("set"@.len() != "tinyint"@.len());
                reveal_strlit("bool");
                assert("set"@.len() != "bool"@.len());
                reveal_strlit("smallint");
                assert("set"@.len() != "smallint"@.len());
                reveal_strlit("mediumint");
                assert("set"@.len() != "mediumint"@.len());
                reveal_strlit("int");
                assert("set"@[0] != "int"@[0]);
                reveal_strlit("bigint");
                assert("set"@.len() != "bigint"@.len());
                reveal_strlit("decimal");
                assert("set"@.len() != "decimal"@.len());
                reveal_strlit("float");
                assert("set"@.len() != "float"@.len());
                reveal_strlit("double");
                assert("set"@.len() != "double"@.len());
                reveal_strlit("date");
                assert("set"@.len() != "date"@.len());
                reveal_strlit("time");
                assert("set"@.len() != "time"@.len());
                reveal_strlit("datetime");
                assert("set"@.len() != "datetime"@.len());
                reveal_strlit("timestamp");
                assert("set"@.len() != "timestamp"@.len());
                reveal_strlit("year");
                assert("set"@.len() != "year"@.len());
                reveal_strlit("char");
                assert("set"@.len() != "char"@.len());
                reveal_strlit("nchar");
                assert("set"@.len() != "nchar"@.len());
                reveal_strlit("varchar");
                assert("set"@.len() != "varchar"@.len());
                reveal_strlit("nvarchar");
                assert("set"@.len() != "nvarchar"@.len());
                reveal_strlit("binary");
                assert("set"@.len() != "binary"@.len());
                reveal_strlit("varbinary");
                assert("set"@.len() != "varbinary"@.len());
                reveal_strlit("text");
                assert("set"@.len() != "text"@.len());
                reveal_strlit("tinytext");
                assert("set"@.len() != "tinytext"@.len());
                reveal_strlit("mediumtext");
                assert("set"@.len() != "mediumtext"@.len());
                reveal_strlit("longtext");
                assert("set"@.len() != "longtext"@.len());
                reveal_strlit("blob");
                assert("set"@.len() != "blob"@.len());
                reveal_strlit("tinyblob");
                assert("set"@.len() != "tinyblob"@.len());
                reveal_strlit("mediumblob");
                assert("set"@.len() != "mediumblob"@.len());
                reveal_strlit("longblob");
                assert("set"@.len() != "longblob"@.len());
                reveal_strlit("enum");
                assert("set"@.len() != "enum"@.len());
            },
            TypeName::Geometry => {
                reveal_strlit("geometry");
                reveal_strlit("serial");
                assert("geometry"@.len() != "serial"@.len());
                reveal_strlit("bit");
                assert("geometry"@.len() != "bit"@.len());
                reveal_strlit("tinyint");
                assert("geometry"@.len() != "tinyint"@.len());
                reveal_strlit("bool");
                assert("geometry"@.len() != "bool"@.len());
                reveal_strlit("smallint");
                assert("geometry"@[0] != "smallint"@[0]);
                reveal_strlit("mediumint");
                assert("geometry"@.len() != "mediumint"@.len());
                reveal_strlit("int");
                assert("geometry"@.len() != "int"@.len());
                reveal_strlit("bigint");
                assert("geometry"@.len() != "bigint"@.len());
                reveal_strlit("decimal");
                assert("geometry"@.len() != "decimal"@.len());
                reveal_strlit("float");
                assert("geometry"@.len() != "float"@.len());
                reveal_strlit("double");
                assert("geometry"@.len() != "double"@.len());
                reveal_strlit("date");
                assert("geometry"@.len() != "date"@.len());
                reveal_strlit("time");
                assert("geometry"@.len() != "time"@.len());
                reveal_strlit("datetime");
                assert("geometry"@[0] != "datetime"@[0]);
                reveal_strlit("timestamp");
                assert("geometry"@.len() != "timestamp"@.len());
                reveal_strlit("year");
                assert("geometry"@.len() != "year"@.len());
                reveal_strlit("char");
                assert("geometry"@.len() != "char"@.len());
                reveal_strlit("nchar");
                assert("geometry"@.len() != "nchar"@.len());
                reveal_strlit("varchar");
                assert("geometry"@.len() != "varchar"@.len());
                reveal_strlit("nvarchar");
                assert("geometry"@[0] != "nvarchar"@[0]);
                reveal_strlit("binary");
                assert("geometry"@.len() != "binary"@.len());
                reveal_strlit("varbinary");
                assert("geometry"@.len() != "varbinary"@.len());
                reveal_strlit("text");
                assert("geometry"@.len() != "text"@.len());
                reveal_strlit("tinytext");
                assert("geometry"@[0] != "tinytext"@[0]);
                reveal_strlit("mediumtext");
                assert("geometry"@.len() != "mediumtext"@.len());
                reveal_strlit("longtext");
                assert("geometry"@[0] != "longtext"@[0]);
                reveal_strlit("blob");
                assert("geometry"@.len() != "blob"@.len());
                reveal_strlit("tinyblob");
                assert("geometry"@[0] != "tinyblob"@[0]);
                reveal_strlit("mediumblob");
                assert("geometry"@.len() != "mediumblob"@.len());
                reveal_strlit("longblob");
                assert("geometry"@[0] != "longblob"@[0]);
                reveal_strlit("enum");
                assert("geometry"@.len() != "enum"@.len());
                reveal_strlit("set");
                assert("geometry"@.len() != "set"@.len());
            },
            TypeName::Point => {
                reveal_strlit("point");
                reveal_strlit("serial");
                assert("point"@.len() != "serial"@.len());
                reveal_strlit("bit");
                assert("point"@.len() != "bit"@.len());
                reveal_strlit("tinyint");
                assert("point"@.len() != "tinyint"@.len());
                reveal_strlit("bool");
                assert("point"@.len() != "bool"@.len());
                reveal_strlit("smallint");
                assert("point"@.len() != "smallint"@.len());
                reveal_strlit("mediumint");
                assert("point"@.len() != "mediumint"@.len());
                reveal_strlit("int");
                assert("point"@.len() != "int"@.len());
                reveal_strlit("bigint");
                assert("point"@.len() != "bigint"@.len());
                reveal_strlit("decimal");
                assert("point"@.len() != "decimal"@.len());
                reveal_strlit("float");
                assert("point"@[0] != "float"@[0]);
                reveal_strlit("double");
                assert("point"@.len() != "double"@.len());
                reveal_strlit("date");
                assert("point"@.len() != "date"@.len());
                reveal_strlit("time");
                assert("point"@.len() != "time"@.len());
                reveal_strlit("datetime");
                assert("point"@.len() != "datetime"@.len());
                reveal_strlit("timestamp");
                assert("point"@.len() != "timestamp"@.len());
                reveal_strlit("year");
                assert("point"@.len() != "year"@.len());
                reveal_strlit("char");
                assert("point"@.len() != "char"@.len());
                reveal_strlit("nchar");
                assert("point"@[0] != "nchar"@[0]);
                reveal_strlit("varchar");
                assert("point"@.len() != "varchar"@.len());
                reveal_strlit("nvarchar");
                assert("point"@.len() != "nvarchar"@.len());
                reveal_strlit("binary");
                assert("point"@.len() != "binary"@.len());
                reveal_strlit("varbinary");
                assert("point"@.len() != "varbinary"@.len());
                reveal_strlit("text");
                assert("point"@.len() != "text"@.len());
                reveal_strlit("tinytext");
                assert("point"@.len() != "tinytext"@.len());
                reveal_strlit("mediumtext");
                assert("point"@.len() != "mediumtext"@.len());
                reveal_strlit("longtext");
                assert("point"@.len() != "longtext"@.len());
                reveal_strlit("blob");
                assert("point"@.len() != "blob"@.len());
                reveal_strlit("tinyblob");
                assert("point"@.len() != "tinyblob"@.len());
                reveal_strlit("mediumblob");
                assert("point"@.len() != "mediumblob"@.len());
                reveal_strlit("longblob");
                assert("point"@.len() != "longblob"@.len());
                reveal_strlit("enum");
                assert("point"@.len() != "enum"@.len());
                reveal_strlit("set");
                assert("point"@.len() != "set"@.len());
                reveal_strlit("geometry");
                assert("point"@.len() != "geometry"@.len());
            },
            TypeName::LineString => {
                reveal_strlit("linestring");
                reveal_strlit("serial");
                assert("linestring"@.len() != "serial"@.len());
                reveal_strlit("bit");
                assert("linestring"@.len() != "bit"@.len());
                reveal_strlit("tinyint");
                assert("linestring"@.len() != "tinyint"@.len());
                reveal_strlit("bool");
                assert("linestring"@.len() != "bool"@.len());
                reveal_strlit("smallint");
                assert("linestring"@.len() != "smallint"@.len());
                reveal_strlit("mediumint");
                assert("linestring"@.len() != "mediumint"@.len());
                reveal_strlit("int");
                assert("linestring"@.len() != "int"@.len());
                reveal_strlit("bigint");
                assert("linestring"@.len() != "bigint"@.len());
                reveal_strlit("decimal");
                assert("linestring"@.len() != "decimal"@.len());
                reveal_strlit("float");
                assert("linestring"@.len() != "float"@.len());
                reveal_strlit("double");
                assert("linestring"@.len() != "double"@.len());
                reveal_strlit("date");
                assert("linestring"@.len() != "date"@.len());
                reveal_strlit("time");
                assert("linestring"@.len() != "time"@.len());
                reveal_strlit("datetime");
                assert("linestring"@.len() != "datetime"@.len());
                reveal_strlit("timestamp");
                assert("linestring"@.len() != "timestamp"@.len());
                reveal_strlit("year");
                assert("linestring"@.len() != "year"@.len());
                reveal_strlit("char");
                assert("linestring"@.len() != "char"@.len());
                reveal_strlit("nchar");
                assert("linestring"@.len() != "nchar"@.len());
                reveal_strlit("varchar");
                assert("linestring"@.len() != "varchar"@.len());
                reveal_strlit("nvarchar");
                assert("linestring"@.len() != "nvarchar"@.len());
                reveal_strlit("binary");
                assert("linestring"@.len() != "binary"@.len());
                reveal_strlit("varbinary");
                assert("linestring"@.len() != "varbinary"@.len());
                reveal_strlit("text");
                assert("linestring"@.len() != "text"@.len());
                reveal_strlit("tinytext");
                assert("linestring"@.len() != "tinytext"@.len());
                reveal_strlit("mediumtext");
                assert("linestring"@[0] != "mediumtext"@[0]);
                reveal_strlit("longtext");
                assert("linestring"@.len() != "longtext"@.len());
                reveal_strlit("blob");
                assert("linestring"@.len() != "blob"@.len());
                reveal_strlit("tinyblob");
                assert("linestring"@.len() != "tinyblob"@.len());
                reveal_strlit("mediumblob");
                assert("linestring"@[0] != "mediumblob"@[0]);
                reveal_strlit("longblob");
                assert("linestring"@.len() != "longblob"@.len());
                reveal_strlit("enum");
                assert("linestring"@.len() != "enum"@.len());
                reveal_strlit("set");
                assert("linestring"@.len() != "set"@.len());
                reveal_strlit("geometry");
                assert("linestring"@.len() != "geometry"@.len());
                reveal_strlit("point");
                assert("linestring"@.len() != "point"@.len());
            },
            TypeName::Polygon => {
                reveal_strlit("polygon");
                reveal_strlit("serial");
                assert("polygon"@.len() != "serial"@.len());
                reveal_strlit("bit");
                assert("polygon"@.len() != "bit"@.len());
                reveal_strlit("tinyint");
                assert("polygon"@[0] != "tinyint"@[0]);
                reveal_strlit("bool");
                assert("polygon"@.len() != "bool"@.len());
                reveal_strlit("smallint");
                assert("polygon"@.len() != "smallint"@.len());
                reveal_strlit("mediumint");
                assert("polygon"@.len() != "mediumint"@.len());
                reveal_strlit("int");
                assert("polygon"@.len() != "int"@.len());
                reveal_strlit("bigint");
                assert("polygon"@.len() != "bigint"@.len());
                reveal_strlit("decimal");
                assert("polygon"@[0] != "decimal"@[0]);
                reveal_strlit("float");
                assert("polygon"@.len() != "float"@.len());
                reveal_strlit("double");
                assert("polygon"@.len() != "double"@.len());
                reveal_strlit("date");
                assert("polygon"@.len() != "date"@.len());
                reveal_strlit("time");
                assert("polygon"@.len() != "time"@.len());
                reveal_strlit("datetime");
                assert("polygon"@.len() != "datetime"@.len());
                reveal_strlit("timestamp");
                assert("polygon"@.len() != "timestamp"@.len());
                reveal_strlit("year");
                assert("polygon"@.len() != "year"@.len());
                reveal_strlit("char");
                assert("polygon"@.len() != "char"@.len());
                reveal_strlit("nchar");
                assert("polygon"@.len() != "nchar"@.len());
                reveal_strlit("varchar");
                assert("polygon"@[0] != "varchar"@[0]);
                reveal_strlit("nvarchar");
                assert("polygon"@.len() != "nvarchar"@.len());
                reveal_strlit("binary");
                assert("polygon"@.len() != "binary"@.len());
                reveal_strlit("varbinary");
                assert("polygon"@.len() != "varbinary"@.len());
                reveal_strlit("text");
                assert("polygon"@.len() != "text"@.len());
                reveal_strlit("tinytext");
                assert("polygon"@.len() != "tinytext"@.len());
                reveal_strlit("mediumtext");
                assert("polygon"@.len() != "mediumtext"@.len());
                reveal_strlit("longtext");
                assert("polygon"@.len() != "longtext"@.len());
                reveal_strlit("blob");
                assert("polygon"@.len() != "blob"@.len());
                reveal_strlit("tinyblob");
                assert("polygon"@.len() != "tinyblob"@.len());
                reveal_strlit("mediumblob");
                assert("polygon"@.len() != "mediumblob"@.len());
                reveal_strlit("longblob");
                assert("polygon"@.len() != "longblob"@.len());
                reveal_strlit("enum");
                assert("polygon"@.len() != "enum"@.len());
                reveal_strlit("set");
                assert("polygon"@.len() != "set"@.len());
                reveal_strlit("geometry");
                assert("polygon"@.len() != "geometry"@.len());
                reveal_strlit("point");
                assert("polygon"@.len() != "point"@.len());
                reveal_strlit("linestring");
                assert("polygon"@.len() != "linestring"@.len());
            },
            TypeName::MultiPoint => {
                reveal_strlit("multipoint");
                reveal_strlit("serial");
                assert("multipoint"@.len() != "serial"@.len());
                reveal_strlit("bit");
                assert("multipoint"@.len() != "bit"@.len());
                reveal_strlit("tinyint");
                assert("multipoint"@.len() != "tinyint"@.len());
                reveal_strlit("bool");
                assert("multipoint"@.len() != "bool"@.len());
                reveal_strlit("smallint");
                assert("multipoint"@.len() != "smallint"@.len());
                reveal_strlit("mediumint");
                assert("multipoint"@.len() != "mediumint"@.len());
                reveal_strlit("int");
                assert("multipoint"@.len() != "int"@.len());
                reveal_strlit("bigint");
                assert("multipoint"@.len() != "bigint"@.len());
                reveal_strlit("decimal");
                assert("multipoint"@.len() != "decimal"@.len());
                reveal_strlit("float");
                assert("multipoint"@.len() != "float"@.len());
                reveal_strlit("double");
                assert("multipoint"@.len() != "double"@.len());
                reveal_strlit("date");
                assert("multipoint"@.len() != "date"@.len());
                reveal_strlit("time");
                assert("multipoint"@.len() != "time"@.len());
                reveal_strlit("datetime");
                assert("multipoint"@.len() != "datetime"@.len());
                reveal_strlit("timestamp");
                assert("multipoint"@.len() != "timestamp"@.len());
                reveal_strlit("year");
                assert("multipoint"@.len() != "year"@.len());
                reveal_strlit("char");
                assert("multipoint"@.len() != "char"@.len());
                reveal_strlit("nchar");
                assert("multipoint"@.len() != "nchar"@.len());
                reveal_strlit("varchar");
                assert("multipoint"@.len() != "varchar"@.len());
                reveal_strlit("nvarchar");
                assert("multipoint"@.len() != "nvarchar"@.len());
                reveal_strlit("binary");
                assert("multipoint"@.len() != "binary"@.len());
                reveal_strlit("varbinary");
                assert("multipoint"@.len() != "varbinary"@.len());
                reveal_strlit("text");
                assert("multipoint"@.len() != "text"@.len());
                reveal_strlit("tinytext");
                assert("multipoint"@.len() != "tinytext"@.len());
                reveal_strlit("mediumtext");
                assert("multipoint"@[1] != "mediumtext"@[1]);
                reveal_strlit("longtext");
                assert("multipoint"@.len() != "longtext"@.len());
                reveal_strlit("blob");
                assert("multipoint"@.len() != "blob"@.len());
                reveal_strlit("tinyblob");
                assert("multipoint"@.len() != "tinyblob"@.len());
                reveal_strlit("mediumblob");
                assert("multipoint"@[1] != "mediumblob"@[1]);
                reveal_strlit("longblob");
                assert("multipoint"@.len() != "longblob"@.len());
                reveal_strlit("enum");
                assert("multipoint"@.len() != "enum"@.len());
                reveal_strlit("set");
                assert("multipoint"@.len() != "set"@.len());
                reveal_strlit("geometry");
                assert("multipoint"@.len() != "geometry"@.len());
                reveal_strlit("point");
                assert("multipoint"@.len() != "point"@.len());
                reveal_strlit("linestring");
                assert("multipoint"@[0] != "linestring"@[0]);
                reveal_strlit("polygon");
                assert("multipoint"@.len() != "polygon"@.len());
            },
            TypeName::MultiLineString => {
                reveal_strlit("multilinestring");
                reveal_strlit("serial");
                assert("multilinestring"@.len() != "serial"@.len());
                reveal_strlit("bit");
                assert("multilinestring"@.len() != "bit"@.len());
                reveal_strlit("tinyint");
                assert("multilinestring"@.len() != "tinyint"@.len());
                reveal_strlit("bool");
                assert("multilinestring"@.len() != "bool"@.len());
                reveal_strlit("smallint");
                assert("multilinestring"@.len() != "smallint"@.len());
                reveal_strlit("mediumint");
                assert("multilinestring"@.len() != "mediumint"@.len());
                reveal_strlit("int");
                assert("multilinestring"@.len() != "int"@.len());
                reveal_strlit("bigint");
                assert("multilinestring"@.len() != "bigint"@.len());
                reveal_strlit("decimal");
                assert("multilinestring"@.len() != "decimal"@.len());
                reveal_strlit("float");
                assert("multilinestring"@.len() != "float"@.len());
                reveal_strlit("double");
                assert("multilinestring"@.len() != "double"@.len());
                reveal_strlit("date");
                assert("multilinestring"@.len() != "date"@.len());
                reveal_strlit("time");
                assert("multilinestring"@.len() != "time"@.len());
                reveal_strlit("datetime");
                assert("multilinestring"@.len() != "datetime"@.len());
                reveal_strlit("timestamp");
                assert("multilinestring"@.len() != "timestamp"@.len());
                reveal_strlit("year");
                assert("multilinestring"@.len() != "year"@.len());
                reveal_strlit("char");
                assert("multilinestring"@.len() != "char"@.len());
                reveal_strlit("nchar");
                assert("multilinestring"@.len() != "nchar"@.len());
                reveal_strlit("varchar");
                assert("multilinestring"@.len() != "varchar"@.len());
                reveal_strlit("nvarchar");
                assert("multilinestring"@.len() != "nvarchar"@.len());
                reveal_strlit("binary");
                assert("multilinestring"@.len() != "binary"@.len());
                reveal_strlit("varbinary");
                assert("multilinestring"@.len() != "varbinary"@.len());
                reveal_strlit("text");
                assert("multilinestring"@.len() != "text"@.len());
                reveal_strlit("tinytext");
                assert("multilinestring"@.len() != "tinytext"@.len());
                reveal_strlit("mediumtext");
                assert("multilinestring"@.len() != "mediumtext"@.len());
                reveal_strlit("longtext");
                assert("multilinestring"@.len() != "longtext"@.len());
                reveal_strlit("blob");
                assert("multilinestring"@.len() != "blob"@.len());
                reveal_strlit("tinyblob");
                assert("multilinestring"@.len() != "tinyblob"@.len());
                reveal_strlit("mediumblob");
                assert("multilinestring"@.len() != "mediumblob"@.len());
                reveal_strlit("longblob");
                assert("multilinestring"@.len() != "longblob"@.len());
                reveal_strlit("enum");
                assert("multilinestring"@.len() != "enum"@.len());
                reveal_strlit("set");
                assert("multilinestring"@.len() != "set"@.len());
                reveal_strlit("geometry");
                assert("multilinestring"@.len() != "geometry"@.len());
                reveal_strlit("point");
                assert("multilinestring"@.len() != "point"@.len());
                reveal_strlit("linestring");
                assert("multilinestring"@.len() != "linestring"@.len());
                reveal_strlit("polygon");
                assert("multilinestring"@.len() != "polygon"@.len());
                reveal_strlit("multipoint");
                assert("multilinestring"@.len() != "multipoint"@.len());
            },
            TypeName::MultiPolygon => {
                reveal_strlit("multipolygon");
                reveal_strlit("serial");
                assert("multipolygon"@.len() != "serial"@.len());
                reveal_strlit("bit");
                assert("multipolygon"@.len() != "bit"@.len());
                reveal_strlit("tinyint");
                assert("multipolygon"@.len() != "tinyint"@.len());
                reveal_strlit("bool");
                assert("multipolygon"@.len() != "bool"@.len());
                reveal_strlit("smallint");
                assert("multipolygon"@.len() != "smallint"@.len());
                reveal_strlit("mediumint");
                assert("multipolygon"@.len() != "mediumint"@.len());
                reveal_strlit("int");
                assert("multipolygon"@.len() != "int"@.len());
                reveal_strlit("bigint");
                assert("multipolygon"@.len() != "bigint"@.len());
                reveal_strlit("decimal");
                assert("multipolygon"@.len() != "decimal"@.len());
                reveal_strlit("float");
                assert("multipolygon"@.len() != "float"@.len());
                reveal_strlit("double");
                assert("multipolygon"@.len() != "double"@.len());
                reveal_strlit("date");
                assert("multipolygon"@.len() != "date"@.len());
                reveal_strlit("time");
                assert("multipolygon"@.len() != "time"@.len());
                reveal_strlit("datetime");
                assert("multipolygon"@.len() != "datetime"@.len());
                reveal_strlit("timestamp");
                assert("multipolygon"@.len() != "timestamp"@.len());
                reveal_strlit("year");
                assert("multipolygon"@.len() != "year"@.len());
                reveal_strlit("char");
                assert("multipolygon"@.len() != "char"@.len());
                reveal_strlit("nchar");
                assert("multipolygon"@.len() != "nchar"@.len());
                reveal_strlit("varchar");
                assert("multipolygon"@.len() != "varchar"@.len());
                reveal_strlit("nvarchar");
                assert("multipolygon"@.len() != "nvarchar"@.len());
                reveal_strlit("binary");
                assert("multipolygon"@.len() != "binary"@.len());
                reveal_strlit("varbinary");
                assert("multipolygon"@.len() != "varbinary"@.len());
                reveal_strlit("text");
                assert("multipolygon"@.len() != "text"@.len());
                reveal_strlit("tinytext");
                assert("multipolygon"@.len() != "tinytext"@.len());
                reveal_strlit("mediumtext");
                assert("multipolygon"@.len() != "mediumtext"@.len());
                reveal_strlit("longtext");
                assert("multipolygon"@.len() != "longtext"@.len());
                reveal_strlit("blob");
                assert("multipolygon"@.len() != "blob"@.len());
                reveal_strlit("tinyblob");
                assert("multipolygon"@.len() != "tinyblob"@.len());
                reveal_strlit("mediumblob");
                assert("multipolygon"@.len() != "mediumblob"@.len());
                reveal_strlit("longblob");
                assert("multipolygon"@.len() != "longblob"@.len());
                reveal_strlit("enum");
                assert("multipolygon"@.len() != "enum"@.len());
                reveal_strlit("set");
                assert("multipolygon"@.len() != "set"@.len());
                reveal_strlit("geometry");
                assert("multipolygon"@.len() != "geometry"@.len());
                reveal_strlit("point");
                assert("multipolygon"@.len() != "point"@.len());
                reveal_strlit("linestring");
                assert("multipolygon"@.len() != "linestring"@.len());
                reveal_strlit("polygon");
                assert("multipolygon"@.len() != "polygon"@.len());
                reveal_strlit("multipoint");
                assert("multipolygon"@.len() != "multipoint"@.len());
                reveal_strlit("multilinestring");
                assert("multipolygon"@.len() != "multilinestring"@.len());
            },
            TypeName::GeometryCollection => {
                reveal_strlit("geometrycollection");
                reveal_strlit("serial");
                assert("geometrycollection"@.len() != "serial"@.len());
                reveal_strlit("bit");
                assert("geometrycollection"@.len() != "bit"@.len());
                reveal_strlit("tinyint");
                assert("geometrycollection"@.len() != "tinyint"@.len());
                reveal_strlit("bool");
                assert("geometrycollection"@.len() != "bool"@.len());
                reveal_strlit("smallint");
                assert("geometrycollection"@.len() != "smallint"@.len());
                reveal_strlit("mediumint");
                assert("geometrycollection"@.len() != "mediumint"@.len());
                reveal_strlit("int");
                assert("geometrycollection"@.len() != "int"@.len());
                reveal_strlit("bigint");
                assert("geometrycollection"@.len() != "bigint"@.len());
                reveal_strlit("decimal");
                assert("geometrycollection"@.len() != "decimal"@.len());
                reveal_strlit("float");
                assert("geometrycollection"@.len() != "float"@.len());
                reveal_strlit("double");
                assert("geometrycollection"@.len() != "double"@.len());
                reveal_strlit("date");
                assert("geometrycollection"@.len() != "date"@.len());
                reveal_strlit("time");
                assert("geometrycollection"@.len() != "time"@.len());
                reveal_strlit("datetime");
                assert("geometrycollection"@.len() != "datetime"@.len());
                reveal_strlit("timestamp");
                assert("geometrycollection"@.len() != "timestamp"@.len());
                reveal_strlit("year");
                assert("geometrycollection"@.len() != "year"@.len());
                reveal_strlit("char");
                assert("geometrycollection"@.len() != "char"@.len());
                reveal_strlit("nchar");
                assert("geometrycollection"@.len() != "nchar"@.len());
                reveal_strlit("varchar");
                assert("geometrycollection"@.len() != "varchar"@.len());
                reveal_strlit("nvarchar");
                assert("geometrycollection"@.len() != "nvarchar"@.len());
                reveal_strlit("binary");
                assert("geometrycollection"@.len() != "binary"@.len());
                reveal_strlit("varbinary");
                assert("geometrycollection"@.len() != "varbinary"@.len());
                reveal_strlit("text");
                assert("geometrycollection"@.len() != "text"@.len());
                reveal_strlit("tinytext");
                assert("geometrycollection"@.len() != "tinytext"@.len());
                reveal_strlit("mediumtext");
                assert("geometrycollection"@.len() != "mediumtext"@.len());
                reveal_strlit("longtext");
                assert("geometrycollection"@.len() != "longtext"@.len());
                reveal_strlit("blob");
                assert("geometrycollection"@.len() != "blob"@.len());
                reveal_strlit("tinyblob");
                assert("geometrycollection"@.len() != "tinyblob"@.len());
                reveal_strlit("mediumblob");
                assert("geometrycollection"@.len() != "mediumblob"@.len());
                reveal_strlit("longblob");
                assert("geometrycollection"@.len() != "longblob"@.len());
                reveal_strlit("enum");
                assert("geometrycollection"@.len() != "enum"@.len());
                reveal_strlit("set");
                assert("geometrycollection"@.len() != "set"@.len());
                reveal_strlit("geometry");
                assert("geometrycollection"@.len() != "geometry"@.len());
                reveal_strlit("point");
                assert("geometrycollection"@.len() != "point"@.len());
                reveal_strlit("linestring");
                assert("geometrycollection"@.len() != "linestring"@.len());
                reveal_strlit("polygon");
                assert("geometrycollection"@.len() != "polygon"@.len());
                reveal_strlit("multipoint");
                assert("geometrycollection"@.len() != "multipoint"@.len());
                reveal_strlit("multilinestring");
                assert("geometrycollection"@.len() != "multilinestring"@.len());
                reveal_strlit("multipolygon");
                assert("geometrycollection"@.len() != "multipolygon"@.len());
            },
            TypeName::Json => {
                reveal_strlit("json");
                reveal_strlit("serial");
                assert("json"@.len() != "serial"@.len());
                reveal_strlit("bit");
                assert("json"@.len() != "bit"@.len());
                reveal_strlit("tinyint");
                assert("json"@.len() != "tinyint"@.len());
                reveal_strlit("bool");
                assert("json"@[0] != "bool"@[0]);
                reveal_strlit("smallint");
                assert("json"@.len() != "smallint"@.len());
                reveal_strlit("mediumint");
                assert("json"@.len() != "mediumint"@.len());
                reveal_strlit("int");
                assert("json"@.len() != "int"@.len());
                reveal_strlit("bigint");
                assert("json"@.len() != "bigint"@.len());
                reveal_strlit("decimal");
                assert("json"@.len() != "decimal"@.len());
                reveal_strlit("float");
                assert("json"@.len() != "float"@.len());
                reveal_strlit("double");
                assert("json"@.len() != "double"@.len());
                reveal_strlit("date");
                assert("json"@[0] != "date"@[0]);
                reveal_strlit("time");
                assert("json"@[0] != "time"@[0]);
                reveal_strlit("datetime");
                assert("json"@.len() != "datetime"@.len());
                reveal_strlit("timestamp");
                assert("json"@.len() != "timestamp"@.len());
                reveal_strlit("year");
                assert("json"@[0] != "year"@[0]);
                reveal_strlit("char");
                assert("json"@[0] != "char"@[0]);
                reveal_strlit("nchar");
                assert("json"@.len() != "nchar"@.len());
                reveal_strlit("varchar");
                assert("json"@.len() != "varchar"@.len());
                reveal_strlit("nvarchar");
                assert("json"@.len() != "nvarchar"@.len());
                reveal_strlit("binary");
                assert("json"@.len() != "binary"@.len());
                reveal_strlit("varbinary");
                assert("json"@.len() != "varbinary"@.len());
                reveal_strlit("text");
                assert("json"@[0] != "text"@[0]);
                reveal_strlit("tinytext");
                assert("json"@.len() != "tinytext"@.len());
                reveal_strlit("mediumtext");
                assert("json"@.len() != "mediumtext"@.len());
                reveal_strlit("longtext");
                assert("json"@.len() != "longtext"@.len());
                reveal_strlit("blob");
                assert("json"@[0] != "blob"@[0]);
                reveal_strlit("tinyblob");
                assert("json"@.len() != "tinyblob"@.len());
                reveal_strlit("mediumblob");
                assert("json"@.len() != "mediumblob"@.len());
                reveal_strlit("longblob");
                assert("json"@.len() != "longblob"@.len());
                reveal_strlit("enum");
                assert("json"@[0] != "enum"@[0]);
                reveal_strlit("set");
                assert("json"@.len() != "set"@.len());
                reveal_strlit("geometry");
                assert("json"@.len() != "geometry"@.len());
                reveal_strlit("point");
                assert("json"@.len() != "point"@.len());
                reveal_strlit("linestring");
                assert("json"@.len() != "linestring"@.len());
                reveal_strlit("polygon");
                assert("json"@.len() != "polygon"@.len());
                reveal_strlit("multipoint");
                assert("json"@.len() != "multipoint"@.len());
                reveal_strlit("multilinestring");
                assert("json"@.len() != "multilinestring"@.len());
                reveal_strlit("multipolygon");
                assert("json"@.len() != "multipolygon"@.len());
                reveal_strlit("geometrycollection");
                assert("json"@.len() != "geometrycollection"@.len());
            },
            TypeName::Unknown => {},
        }
    }
}

/// Two spellings that are read as the same type are the same spelling.
pub proof fn lemma_type_names_are_distinct(a: Seq<char>, b: Seq<char>)
    requires
        type_name_of(a) is Some,
        type_name_of(a) == type_name_of(b),
    ensures
        a == b,
{
    lemma_type_names_follow_spelling(a, type_name_of(a)->0);
    lemma_type_names_follow_spelling(b, type_name_of(b)->0);
}

/// `COLUMN_KEY` is read exactly: `PRI` is the primary key, `UNI` a unique
/// key, `MUL` a non-unique key, and any other text, whatever its case, no key.
pub proof fn lemma_column_keys(column_key: Seq<char>)
    ensures
        column_key_of(column_key) == ColumnKey::Primary <==> column_key == "PRI"@,
        column_key_of(column_key) == ColumnKey::Unique <==> column_key == "UNI"@,
        column_key_of(column_key) == ColumnKey::Multiple <==> column_key == "MUL"@,
        column_key_of(column_key) == ColumnKey::Null <==> (column_key != "PRI"@ && column_key
            != "UNI"@ && column_key != "MUL"@),
{
    reveal_strlit("PRI");
    reveal_strlit("UNI");
    reveal_strlit("MUL");
    assert("PRI"@[0] != "UNI"@[0] && "PRI"@[0] != "MUL"@[0] && "UNI"@[0] != "MUL"@[0]);
}

proof fn lemma_extra_from_keeps(words: Seq<Seq<char>>, i: int, e: ColumnExtra)
    ensures
        e.auto_increment ==> extra_from(words, i, e).auto_increment,
        e.on_update_current_timestamp ==> extra_from(words, i, e).on_update_current_timestamp,
        e.generated ==> extra_from(words, i, e).generated,
        e.default_generated ==> extra_from(words, i, e).default_generated,
    decreases words.len() - i,
{
    if 0 <= i < words.len() {
        let word = lowercase(words[i]);
        if word == "auto_increment"@ {
            lemma_extra_from_keeps(words, i + 1, ColumnExtra { auto_increment: true, ..e });
        } else if word == "on"@ {
            if i + 2 < words.len() && words[i + 1] == "update"@ && lowercase(words[i + 2])
                == "current_timestamp"@ {
                lemma_extra_from_keeps(
                    words,
                    i + 3,
                    ColumnExtra { on_update_current_timestamp: true, ..e },
                );
            } else {
                lemma_extra_from_keeps(words, i + 1, e);
            }
        } else if word == "stored"@ || word == "virtual"@ {
            if i + 1 < words.len() && lowercase(words[i + 1]) == "generated"@ {
                lemma_extra_from_keeps(words, i + 2, ColumnExtra { generated: true, ..e });
            } else {
                lemma_extra_from_keeps(words, i + 1, e);
            }
        } else if word == "default_generated"@ {
            lemma_extra_from_keeps(words, i + 1, ColumnExtra { default_generated: true, ..e });
        } else {
            lemma_extra_from_keeps(words, i + 1, e);
        }
    }
}

/// A text that opens with a property's keyword or phrase has that
/// property, whatever follows: `AUTO_INCREMENT`, `DEFAULT_GENERATED`,
/// `ON update CURRENT_TIMESTAMP`, and `STORED GENERATED` or `VIRTUAL
/// GENERATED` (keywords in any case, `update` in lowercase).
pub proof fn lemma_extra_leading_phrase(expr: Seq<char>)
    ensures
        split_spaces(expr).len() >= 1 && lowercase(split_spaces(expr)[0]) == "auto_increment"@
            ==> column_extra_of(expr).auto_increment,
        split_spaces(expr).len() >= 1 && lowercase(split_spaces(expr)[0]) == "default_generated"@
            ==> column_extra_of(expr).default_generated,
        split_spaces(expr).len() >= 3 && lowercase(split_spaces(expr)[0]) == "on"@ && split_spaces(
            expr,
        )[1] == "update"@ && lowercase(split_spaces(expr)[2]) == "current_timestamp"@
            ==> column_extra_of(expr).on_update_current_timestamp,
        split_spaces(expr).len() >= 2 && (lowercase(split_spaces(expr)[0]) == "stored"@ || lowercase(
            split_spaces(expr)[0],
        ) == "virtual"@) && lowercase(split_spaces(expr)[1]) == "generated"@
            ==> column_extra_of(expr).generated,
{
    reveal_strlit("auto_increment");
    reveal_strlit("default_generated");
    reveal_strlit("on");
    reveal_strlit("stored");
    reveal_strlit("virtual");
    let w = split_spaces(expr);
    let none = ColumnExtra {
        auto_increment: false,
        on_update_current_timestamp: false,
        generated: false,
        default_generated: false,
    };
    if w.len() >= 1 {
        lemma_extra_from_keeps(w, 1, ColumnExtra { auto_increment: true, ..none });
        lemma_extra_from_keeps(w, 1, ColumnExtra { default_generated: true, ..none });
        lemma_extra_from_keeps(w, 3, ColumnExtra { on_update_current_timestamp: true, ..none });
        lemma_extra_from_keeps(w, 2, ColumnExtra { generated: true, ..none });
        let word = lowercase(w[0]);
        if word == "default_generated"@ {
            assert("default_generated"@.len() != "auto_increment"@.len());
            assert("default_generated"@.len() != "on"@.len());
            assert("default_generated"@[0] != "stored"@[0]);
            assert("default_generated"@[0] != "virtual"@[0]);
        }
        if word == "on"@ {
            assert("on"@.len() != "auto_increment"@.len());
        }
        if word == "stored"@ || word == "virtual"@ {
            assert("stored"@.len() != "auto_increment"@.len());
            assert("virtual"@.len() != "auto_increment"@.len());
            assert("stored"@.len() != "on"@.len());
            assert("virtual"@.len() != "on"@.len());
        }
    }
}

/// A declaration whose leading word names no known type is an unknown type
/// that carries that word (or nothing, when the leading token is not a bare
/// word); a declaration with no tokens but spaces is an unknown type that
/// carries the whole text.
pub proof fn lemma_unknown_declarations(declaration: Seq<char>)
    ensures
        significant(sql_tokens(declaration)).len() == 0 ==> column_type_of(declaration) == (
        crate::mysql::def::TypeModel {
            name: TypeName::Unknown,
            attr: AttrModel::Unknown(declaration),
        }),
        significant(sql_tokens(declaration)).len() > 0 && significant(sql_tokens(declaration))[0].0
            == TokenKind::Unquoted && type_name_of(
            lowercase(significant(sql_tokens(declaration))[0].1),
        ) is None ==> column_type_of(declaration) == (crate::mysql::def::TypeModel {
            name: TypeName::Unknown,
            attr: AttrModel::Unknown(significant(sql_tokens(declaration))[0].1),
        }),
        significant(sql_tokens(declaration)).len() > 0 && significant(sql_tokens(declaration))[0].0
            != TokenKind::Unquoted && type_name_of(lowercase(""@)) is None ==> column_type_of(
            declaration,
        ) == (crate::mysql::def::TypeModel {
            name: TypeName::Unknown,
            attr: AttrModel::Unknown(""@),
        }),
{
}

/// A bare type name carries no attributes: every attribute that
/// `parse_type_name` gives a known type is unset and every value list empty.
pub proof fn lemma_named_types_have_no_attributes(name: Seq<char>)
    requires
        type_name_of(lowercase(name)) is Some,
    ensures
        named_type(name).attr matches AttrModel::Numeric(a) ==> a == (NumericAttr {
            maximum: None,
            decimal: None,
            unsigned: None,
            zero_fill: None,
        }),
        named_type(name).attr matches AttrModel::Time(a) ==> a == (TimeAttr { fractional: None }),
        named_type(name).attr matches AttrModel::Str(a) ==> a == (StringAttrModel {
            length: None,
            charset_name: None,
            collation_name: None,
        }),
        named_type(name).attr matches AttrModel::Blob(a) ==> a == (BlobAttr { length: None }),
        named_type(name).attr matches AttrModel::Geometry(a) ==> a == (GeometryAttr { srid: None }),
        named_type(name).attr matches AttrModel::Enum(v) ==> v.values.len() == 0 && v.attr == (
        StringAttrModel { length: None, charset_name: None, collation_name: None }),
        named_type(name).attr matches AttrModel::SetMembers(v) ==> v.values.len() == 0 && v.attr
            == (StringAttrModel { length: None, charset_name: None, collation_name: None }),
        !(named_type(name).attr is Unknown),
{
}

proof fn lemma_extra_shift(x: Seq<char>, rest: Seq<Seq<char>>, i: int, e: ColumnExtra)
    requires
        i >= 0,
    ensures
        extra_from(seq![x] + rest, i + 1, e) == extra_from(rest, i, e),
    decreases rest.len() - i,
{
    let w = seq![x] + rest;
    if i < rest.len() {
        assert(w[i + 1] == rest[i]);
        if i + 1 < rest.len() {
            assert(w[i + 2] == rest[i + 1]);
        }
        if i + 2 < rest.len() {
            assert(w[i + 3] == rest[i + 2]);
        }
        let word = lowercase(rest[i]);
        if word == "auto_increment"@ {
            lemma_extra_shift(x, rest, i + 1, ColumnExtra { auto_increment: true, ..e });
        } else if word == "on"@ {
            if i + 2 < rest.len() && rest[i + 1] == "update"@ && lowercase(rest[i + 2])
                == "current_timestamp"@ {
                lemma_extra_shift(x, rest, i + 3, ColumnExtra { on_update_current_timestamp: true, ..e });
            } else {
                lemma_extra_shift(x, rest, i + 1, e);
            }
        } else if word == "stored"@ || word == "virtual"@ {
            if i + 1 < rest.len() && lowercase(rest[i + 1]) == "generated"@ {
                lemma_extra_shift(x, rest, i + 2, ColumnExtra { generated: true, ..e });
            } else {
                lemma_extra_shift(x, rest, i + 1, e);
            }
        } else if word == "default_generated"@ {
            lemma_extra_shift(x, rest, i + 1, ColumnExtra { default_generated: true, ..e });
        } else {
            lemma_extra_shift(x, rest, i + 1, e);
        }
    }
}

/// How the words of `EXTRA` are read, one at a time from the front, with
/// the properties found so far in `e`: a keyword sets its property and the
/// rest is read on; `ON update CURRENT_TIMESTAMP` and `STORED`/`VIRTUAL`
/// `GENERATED` set theirs and the rest after the phrase is read on; any
/// other word, `ON`, `STORED` or `VIRTUAL` outside those phrases included,
/// is passed over.
pub proof fn lemma_extra_word_by_word(x: Seq<char>, rest: Seq<Seq<char>>, e: ColumnExtra)
    ensures
        lowercase(x) == "auto_increment"@ ==> extra_from(seq![x] + rest, 0, e) == extra_from(
            rest,
            0,
            ColumnExtra { auto_increment: true, ..e },
        ),
        lowercase(x) == "default_generated"@ ==> extra_from(seq![x] + rest, 0, e) == extra_from(
            rest,
            0,
            ColumnExtra { default_generated: true, ..e },
        ),
        lowercase(x) == "on"@ && rest.len() >= 2 && rest[0] == "update"@ && lowercase(rest[1])
            == "current_timestamp"@ ==> extra_from(seq![x] + rest, 0, e) == extra_from(
            rest.skip(2),
            0,
            ColumnExtra { on_update_current_timestamp: true, ..e },
        ),
        (lowercase(x) == "stored"@ || lowercase(x) == "virtual"@) && rest.len() >= 1 && lowercase(
            rest[0],
        ) == "generated"@ ==> extra_from(seq![x] + rest, 0, e) == extra_from(
            rest.skip(1),
            0,
            ColumnExtra { generated: true, ..e },
        ),
        lowercase(x) != "auto_increment"@ && lowercase(x) != "default_generated"@ && !(lowercase(x)
            == "on"@ && rest.len() >= 2 && rest[0] == "update"@ && lowercase(rest[1])
            == "current_timestamp"@) && !((lowercase(x) == "stored"@ || lowercase(x) == "virtual"@)
            && rest.len() >= 1 && lowercase(rest[0]) == "generated"@) ==> extra_from(
            seq![x] + rest,
            0,
            e,
        ) == extra_from(rest, 0, e),
{
    reveal_strlit("auto_increment");
    reveal_strlit("default_generated");
    reveal_strlit("on");
    reveal_strlit("stored");
    reveal_strlit("virtual");
    assert("default_generated"@.len() != "auto_increment"@.len());
    assert("default_generated"@.len() != "on"@.len());
    assert("default_generated"@[0] != "stored"@[0]);
    assert("default_generated"@[0] != "virtual"@[0]);
    assert("on"@.len() != "auto_increment"@.len());
    assert("stored"@.len() != "auto_increment"@.len());
    assert("virtual"@.len() != "auto_increment"@.len());
    assert("stored"@.len() != "on"@.len());
    assert("virtual"@.len() != "on"@.len());
    let w = seq![x] + rest;
    assert(w[0] == x);
    if rest.len() >= 1 {
        assert(w[1] == rest[0]);
    }
    if rest.len() >= 2 {
        assert(w[2] == rest[1]);
    }
    lemma_extra_shift(x, rest, 0, ColumnExtra { auto_increment: true, ..e });
    lemma_extra_shift(x, rest, 0, ColumnExtra { default_generated: true, ..e });
    lemma_extra_shift(x, rest, 0, e);
    if rest.len() >= 2 {
        lemma_extra_shift(x, rest, 2, ColumnExtra { on_update_current_timestamp: true, ..e });
        lemma_extra_skip(rest, 2, ColumnExtra { on_update_current_timestamp: true, ..e });
    }
    if rest.len() >= 1 {
        lemma_extra_shift(x, rest, 1, ColumnExtra { generated: true, ..e });
        lemma_extra_skip(rest, 1, ColumnExtra { generated: true, ..e });
    }
}

proof fn lemma_extra_skip(w: Seq<Seq<char>>, k: int, e: ColumnExtra)
    requires
        0 <= k <= w.len(),
    ensures
        extra_from(w, k, e) == extra_from(w.skip(k), 0, e),
    decreases k,
{
    if k > 0 {
        lemma_extra_skip(w.drop_first(), k - 1, e);
        assert(w.drop_first().skip(k - 1) =~= w.skip(k));
        assert(w =~= seq![w[0]] + w.drop_first());
        lemma_extra_shift(w[0], w.drop_first(), k - 1, e);
    } else {
        assert(w.skip(0) =~= w);
    }
}

/// `EXTRA` is read as the words between its single spaces, from the first,
/// with no property set to begin with.
pub proof fn lemma_extra_reads_words(expr: Seq<char>)
    ensures
        column_extra_of(expr) == extra_from(
            split_spaces(expr),
            0,
            ColumnExtra {
                auto_increment: false,
                on_update_current_timestamp: false,
                generated: false,
                default_generated: false,
            },
        ),
{
}

/// `parse_type_name` gives the type that the name's lowercase spelling
/// names, and for a name that names no type, an unknown type that carries
/// the name as written.
pub proof fn lemma_named_type_results(name: Seq<char>)
    ensures
        type_name_of(lowercase(name)) is Some ==> named_type(name).name == type_name_of(
            lowercase(name),
        )->0,
        type_name_of(lowercase(name)) is None ==> named_type(name) == (crate::mysql::def::TypeModel {
            name: TypeName::Unknown,
            attr: AttrModel::Unknown(name),
        }),
{
}

} // verus!
