//! Parsing the column descriptions that MySQL's `information_schema`
//! reports: column types with their attributes, keys, defaults and extras.

use crate::mysql::def::{
    default_attr, AttrModel, BlobAttr, ColumnDefault, ColumnExtra, ColumnInfo, ColumnKey,
    ColumnType, EnumDef, GeometryAttr, NumericAttr, SetDef, StringAttr, StringAttrModel, TimeAttr,
    Type, TypeCategory, TypeModel, TypeName, ValueListModel, empty_string_attr, empty_value_list,
};
use crate::mysql::query::ColumnQueryResult;
use crate::mysql::tokens::{
    quoted_token_value, quoted_value, significant, significant_tokens, sql_tokens, token_views,
    Token, TokenKind,
};
use crate::text::{
    decimal_u32, lowercase, parse_u32, split_on_spaces, split_spaces, strings_view, text_is,
    to_lowercase,
};
use vstd::prelude::*;

verus! {

/// The type name that a lowercased name stands for, if any.
pub open spec fn type_name_of(lower: Seq<char>) -> Option<TypeName> {
    if lower == "serial"@ {
        Some(TypeName::Serial)
    } else if lower == "bit"@ {
        Some(TypeName::Bit)
    } else if lower == "tinyint"@ {
        Some(TypeName::TinyInt)
    } else if lower == "bool"@ {
        Some(TypeName::Bool)
    } else if lower == "smallint"@ {
        Some(TypeName::SmallInt)
    } else if lower == "mediumint"@ {
        Some(TypeName::MediumInt)
    } else if lower == "int"@ {
        Some(TypeName::Int)
    } else if lower == "bigint"@ {
        Some(TypeName::BigInt)
    } else if lower == "decimal"@ {
        Some(TypeName::Decimal)
    } else if lower == "float"@ {
        Some(TypeName::Float)
    } else if lower == "double"@ {
        Some(TypeName::Double)
    } else if lower == "date"@ {
        Some(TypeName::Date)
    } else if lower == "time"@ {
        Some(TypeName::Time)
    } else if lower == "datetime"@ {
        Some(TypeName::DateTime)
    } else if lower == "timestamp"@ {
        Some(TypeName::Timestamp)
    } else if lower == "year"@ {
        Some(TypeName::Year)
    } else if lower == "char"@ {
        Some(TypeName::Char)
    } else if lower == "nchar"@ {
        Some(TypeName::NChar)
    } else if lower == "varchar"@ {
        Some(TypeName::Varchar)
    } else if lower == "nvarchar"@ {
        Some(TypeName::NVarchar)
    } else if lower == "binary"@ {
        Some(TypeName::Binary)
    } else if lower == "varbinary"@ {
        Some(TypeName::Varbinary)
    } else if lower == "text"@ {
        Some(TypeName::Text)
    } else if lower == "tinytext"@ {
        Some(TypeName::TinyText)
    } else if lower == "mediumtext"@ {
        Some(TypeName::MediumText)
    } else if lower == "longtext"@ {
        Some(TypeName::LongText)
    } else if lower == "blob"@ {
        Some(TypeName::Blob)
    } else if lower == "tinyblob"@ {
        Some(TypeName::TinyBlob)
    } else if lower == "mediumblob"@ {
        Some(TypeName::MediumBlob)
    } else if lower == "longblob"@ {
        Some(TypeName::LongBlob)
    } else if lower == "enum"@ {
        Some(TypeName::Enum)
    } else if lower == "set"@ {
        Some(TypeName::SetOf)
    } else if lower == "geometry"@ {
        Some(TypeName::Geometry)
    } else if lower == "point"@ {
        Some(TypeName::Point)
    } else if lower == "linestring"@ {
        Some(TypeName::LineString)
    } else if lower == "polygon"@ {
        Some(TypeName::Polygon)
    } else if lower == "multipoint"@ {
        Some(TypeName::MultiPoint)
    } else if lower == "multilinestring"@ {
        Some(TypeName::MultiLineString)
    } else if lower == "multipolygon"@ {
        Some(TypeName::MultiPolygon)
    } else if lower == "geometrycollection"@ {
        Some(TypeName::GeometryCollection)
    } else if lower == "json"@ {
        Some(TypeName::Json)
    } else {
        None
    }
}

/// Looks a lowercased type name up.
fn classify_type_name(lower: &str) -> (res: Option<TypeName>)
    ensures
        res == type_name_of(lower@),
{
    if text_is(lower, "serial") {
        Some(TypeName::Serial)
    } else if text_is(lower, "bit") {
        Some(TypeName::Bit)
    } else if text_is(lower, "tinyint") {
        Some(TypeName::TinyInt)
    } else if text_is(lower, "bool") {
        Some(TypeName::Bool)
    } else if text_is(lower, "smallint") {
        Some(TypeName::SmallInt)
    } else if text_is(lower, "mediumint") {
        Some(TypeName::MediumInt)
    } else if text_is(lower, "int") {
        Some(TypeName::Int)
    } else if text_is(lower, "bigint") {
        Some(TypeName::BigInt)
    } else if text_is(lower, "decimal") {
        Some(TypeName::Decimal)
    } else if text_is(lower, "float") {
        Some(TypeName::Float)
    } else if text_is(lower, "double") {
        Some(TypeName::Double)
    } else if text_is(lower, "date") {
        Some(TypeName::Date)
    } else if text_is(lower, "time") {
        Some(TypeName::Time)
    } else if text_is(lower, "datetime") {
        Some(TypeName::DateTime)
    } else if text_is(lower, "timestamp") {
        Some(TypeName::Timestamp)
    } else if text_is(lower, "year") {
        Some(TypeName::Year)
    } else if text_is(lower, "char") {
        Some(TypeName::Char)
    } else if text_is(lower, "nchar") {
        Some(TypeName::NChar)
    } else if text_is(lower, "varchar") {
        Some(TypeName::Varchar)
    } else if text_is(lower, "nvarchar") {
        Some(TypeName::NVarchar)
    } else if text_is(lower, "binary") {
        Some(TypeName::Binary)
    } else if text_is(lower, "varbinary") {
        Some(TypeName::Varbinary)
    } else if text_is(lower, "text") {
        Some(TypeName::Text)
    } else if text_is(lower, "tinytext") {
        Some(TypeName::TinyText)
    } else if text_is(lower, "mediumtext") {
        Some(TypeName::MediumText)
    } else if text_is(lower, "longtext") {
        Some(TypeName::LongText)
    } else if text_is(lower, "blob") {
        Some(TypeName::Blob)
    } else if text_is(lower, "tinyblob") {
        Some(TypeName::TinyBlob)
    } else if text_is(lower, "mediumblob") {
        Some(TypeName::MediumBlob)
    } else if text_is(lower, "longblob") {
        Some(TypeName::LongBlob)
    } else if text_is(lower, "enum") {
        Some(TypeName::Enum)
    } else if text_is(lower, "set") {
        Some(TypeName::SetOf)
    } else if text_is(lower, "geometry") {
        Some(TypeName::Geometry)
    } else if text_is(lower, "point") {
        Some(TypeName::Point)
    } else if text_is(lower, "linestring") {
        Some(TypeName::LineString)
    } else if text_is(lower, "polygon") {
        Some(TypeName::Polygon)
    } else if text_is(lower, "multipoint") {
        Some(TypeName::MultiPoint)
    } else if text_is(lower, "multilinestring") {
        Some(TypeName::MultiLineString)
    } else if text_is(lower, "multipolygon") {
        Some(TypeName::MultiPolygon)
    } else if text_is(lower, "geometrycollection") {
        Some(TypeName::GeometryCollection)
    } else if text_is(lower, "json") {
        Some(TypeName::Json)
    } else {
        None
    }
}

/// The type that a bare type name stands for: its case is ignored, and an
/// unknown name is kept as it was written.
pub open spec fn named_type(name: Seq<char>) -> TypeModel {
    match type_name_of(lowercase(name)) {
        Some(n) => TypeModel { name: n, attr: default_attr(n.category_of()) },
        None => TypeModel { name: TypeName::Unknown, attr: AttrModel::Unknown(name) },
    }
}

/// The type with this name and the attributes that it has before any are read.
fn type_with_default_attrs(name: TypeName) -> (res: Type)
    requires
        name != TypeName::Unknown,
    ensures
        res@ == (TypeModel { name, attr: default_attr(name.category_of()) }),
{
    match name.category() {
        TypeCategory::Numeric => Type::numeric(name, NumericAttr::default()),
        TypeCategory::Time => Type::time(name, TimeAttr::default()),
        TypeCategory::Str => Type::string(name, StringAttr::default()),
        TypeCategory::FreeSizeBlob => Type::Blob(BlobAttr::default()),
        TypeCategory::Enum => Type::Enum(EnumDef::default()),
        TypeCategory::SetOf => Type::SetOf(SetDef::default()),
        TypeCategory::Geometry => Type::geometry(name, GeometryAttr::default()),
        TypeCategory::Plain => Type::plain(name),
        TypeCategory::Unknown => {
            proof {
                assert(false);
            }
            Type::Unknown(String::new())
        },
    }
}

/// Reads a bare type name such as `varchar` or `BIGINT`.
pub fn parse_type_name(name: &str) -> (res: Type)
    ensures
        res@ == named_type(name@),
{
    let lower = to_lowercase(name);
    match classify_type_name(lower.as_str()) {
        Some(name) => type_with_default_attrs(name),
        None => Type::Unknown(name.to_owned()),
    }
}

/// A token seen as its kind and text.
pub type TokenView = (TokenKind, Seq<char>);

/// The token is the punctuation `p`.
pub open spec fn is_punct(t: TokenView, p: Seq<char>) -> bool {
    t.0 == TokenKind::Punctuation && t.1 == p
}

/// The token is a bare word that reads `w` once lowercased.
pub open spec fn is_keyword(t: TokenView, w: Seq<char>) -> bool {
    t.0 == TokenKind::Unquoted && lowercase(t.1) == w
}

/// The number that a bare word reads as, if it is one.
pub open spec fn number_of(t: TokenView) -> Option<u32> {
    if t.0 == TokenKind::Unquoted {
        decimal_u32(t.1)
    } else {
        None
    }
}

/// `found` if there is one, else `current`.
pub open spec fn or_keep(found: Option<u32>, current: Option<u32>) -> Option<u32> {
    if found is Some {
        found
    } else {
        current
    }
}

fn token_is_punct(t: &Token, p: &str) -> (res: bool)
    ensures
        res == is_punct(t@, p@),
{
    t.kind == TokenKind::Punctuation && text_is(t.text.as_str(), p)
}

fn token_is_keyword(t: &Token, w: &str) -> (res: bool)
    ensures
        res == is_keyword(t@, w@),
{
    t.kind == TokenKind::Unquoted && text_is(to_lowercase(t.text.as_str()).as_str(), w)
}

fn token_number(t: &Token) -> (res: Option<u32>)
    ensures
        res == number_of(t@),
{
    if t.kind == TokenKind::Unquoted {
        parse_u32(t.text.as_str())
    } else {
        None
    }
}

/// The attributes of a numeric type read from the tokens `t` that follow
/// its name: `(M)` or `(M,D)`, then `UNSIGNED`, then `ZEROFILL`.
pub open spec fn numeric_attrs(t: Seq<TokenView>, a: NumericAttr) -> NumericAttr {
    if t.len() == 0 {
        a
    } else if is_punct(t[0], "("@) {
        if t.len() == 1 {
            a
        } else {
            let a = NumericAttr { maximum: or_keep(number_of(t[1]), a.maximum), ..a };
            if t.len() == 2 {
                a
            } else if is_punct(t[2], ","@) {
                if t.len() == 3 {
                    a
                } else {
                    let a = NumericAttr { decimal: or_keep(number_of(t[3]), a.decimal), ..a };
                    if t.len() == 4 {
                        a
                    } else {
                        numeric_after_close(t, 4, a)
                    }
                }
            } else {
                numeric_after_close(t, 2, a)
            }
        }
    } else {
        numeric_flags(t, 0, a)
    }
}

/// After `(M` or `(M,D`: the flags that follow a closing parenthesis at `k`.
pub open spec fn numeric_after_close(t: Seq<TokenView>, k: int, a: NumericAttr) -> NumericAttr {
    if !is_punct(t[k], ")"@) || t.len() == k + 1 {
        a
    } else {
        numeric_flags(t, k + 1, a)
    }
}

/// `UNSIGNED` and then `ZEROFILL`, from the token at `k` on.
pub open spec fn numeric_flags(t: Seq<TokenView>, k: int, a: NumericAttr) -> NumericAttr {
    if is_keyword(t[k], "unsigned"@) {
        let a = NumericAttr { unsigned: Some(true), ..a };
        if t.len() == k + 1 {
            a
        } else {
            with_zero_fill(t[k + 1], a)
        }
    } else {
        with_zero_fill(t[k], a)
    }
}

/// `ZEROFILL` as the token `tok`.
pub open spec fn with_zero_fill(tok: TokenView, a: NumericAttr) -> NumericAttr {
    if is_keyword(tok, "zerofill"@) {
        NumericAttr { zero_fill: Some(true), ..a }
    } else {
        a
    }
}

fn parse_numeric_flags(tokens: &Vec<Token>, k: usize, attr: NumericAttr) -> (res: NumericAttr)
    requires
        k < tokens.len(),
    ensures
        res == numeric_flags(token_views(tokens@), k as int, attr),
{
    let mut attr = attr;
    let mut k = k;
    if token_is_keyword(&tokens[k], "unsigned") {
        attr.unsigned = Some(true);
        if k + 1 == tokens.len() {
            return attr;
        }
        k = k + 1;
    }
    if token_is_keyword(&tokens[k], "zerofill") {
        attr.zero_fill = Some(true);
    }
    attr
}

/// Reads the attributes of a numeric type from the tokens after its name,
/// which start at `start`.
fn parse_numeric_attributes(tokens: &Vec<Token>, start: usize, attr: NumericAttr) -> (res:
    NumericAttr)
    requires
        start <= tokens.len(),
    ensures
        res == numeric_attrs(token_views(tokens@).skip(start as int), attr),
{
    let ghost t = token_views(tokens@).skip(start as int);
    let n = tokens.len();
    if start == n {
        return attr;
    }
    let mut attr = attr;
    let mut k = start;
    if token_is_punct(&tokens[k], "(") {
        if k + 1 == n {
            return attr;
        }
        k = k + 1;
        if let Some(m) = token_number(&tokens[k]) {
            attr.maximum = Some(m);
        }
        if k + 1 == n {
            return attr;
        }
        k = k + 1;
        if token_is_punct(&tokens[k], ",") {
            if k + 1 == n {
                return attr;
            }
            k = k + 1;
            if let Some(d) = token_number(&tokens[k]) {
                attr.decimal = Some(d);
            }
            if k + 1 == n {
                return attr;
            }
            k = k + 1;
        }
        if !token_is_punct(&tokens[k], ")") {
            return attr;
        }
        if k + 1 == n {
            return attr;
        }
        k = k + 1;
    }
    parse_numeric_flags(tokens, k, attr)
}

/// The attributes of a time type read from the tokens after its name:
/// `(fsp)` sets the fractional seconds precision.
pub open spec fn time_attrs(t: Seq<TokenView>, a: TimeAttr) -> TimeAttr {
    if t.len() >= 2 && is_punct(t[0], "("@) {
        TimeAttr { fractional: or_keep(number_of(t[1]), a.fractional) }
    } else {
        a
    }
}

/// Reads the attributes of a time type from the tokens after its name.
fn parse_time_attributes(tokens: &Vec<Token>, start: usize, attr: TimeAttr) -> (res: TimeAttr)
    requires
        start <= tokens.len(),
    ensures
        res == time_attrs(token_views(tokens@).skip(start as int), attr),
{
    let mut attr = attr;
    if tokens.len() - start >= 2 && token_is_punct(&tokens[start], "(") {
        if let Some(f) = token_number(&tokens[start + 1]) {
            attr.fractional = Some(f);
        }
    }
    attr
}

/// The attributes of `BLOB` read from the tokens after its name: `(L)`
/// sets the length.
pub open spec fn blob_attrs(t: Seq<TokenView>, a: BlobAttr) -> BlobAttr {
    if t.len() >= 2 && is_punct(t[0], "("@) {
        BlobAttr { length: or_keep(number_of(t[1]), a.length) }
    } else {
        a
    }
}

/// Reads the attributes of `BLOB` from the tokens after its name.
fn parse_blob_attributes(tokens: &Vec<Token>, start: usize, attr: BlobAttr) -> (res: BlobAttr)
    requires
        start <= tokens.len(),
    ensures
        res == blob_attrs(token_views(tokens@).skip(start as int), attr),
{
    let mut attr = attr;
    if tokens.len() - start >= 2 && token_is_punct(&tokens[start], "(") {
        if let Some(l) = token_number(&tokens[start + 1]) {
            attr.length = Some(l);
        }
    }
    attr
}

/// The attributes of a spatial type read from the tokens after its name:
/// `SRID n` sets the spatial reference system.
pub open spec fn geometry_attrs(t: Seq<TokenView>, a: GeometryAttr) -> GeometryAttr {
    if t.len() >= 2 && is_keyword(t[0], "srid"@) {
        GeometryAttr { srid: or_keep(number_of(t[1]), a.srid) }
    } else {
        a
    }
}

/// Reads the attributes of a spatial type from the tokens after its name.
fn parse_geometry_attributes(tokens: &Vec<Token>, start: usize, attr: GeometryAttr) -> (res:
    GeometryAttr)
    requires
        start <= tokens.len(),
    ensures
        res == geometry_attrs(token_views(tokens@).skip(start as int), attr),
{
    let mut attr = attr;
    if tokens.len() - start >= 2 && token_is_keyword(&tokens[start], "srid") {
        if let Some(srid) = token_number(&tokens[start + 1]) {
            attr.srid = Some(srid);
        }
    }
    attr
}

/// `CHARACTER SET cs` and then `COLLATE co`, from the token at `k` on.
pub open spec fn charset_collate(t: Seq<TokenView>, k: int, a: StringAttrModel) -> StringAttrModel {
    if is_keyword(t[k], "character"@) {
        if t.len() == k + 1 {
            a
        } else if is_keyword(t[k + 1], "set"@) {
            if t.len() == k + 2 {
                a
            } else {
                let a = StringAttrModel { charset_name: Some(t[k + 2].1), ..a };
                if t.len() == k + 3 {
                    a
                } else {
                    with_collation(t, k + 3, a)
                }
            }
        } else {
            with_collation(t, k + 1, a)
        }
    } else {
        with_collation(t, k, a)
    }
}

/// `COLLATE co` at `k`.
pub open spec fn with_collation(t: Seq<TokenView>, k: int, a: StringAttrModel) -> StringAttrModel {
    if is_keyword(t[k], "collate"@) && t.len() > k + 1 {
        StringAttrModel { collation_name: Some(t[k + 1].1), ..a }
    } else {
        a
    }
}

/// Reads `CHARACTER SET` and `COLLATE` from the token at `k` on.
fn parse_charset_collate(tokens: &Vec<Token>, k: usize, str_attr: &mut StringAttr)
    requires
        k < tokens.len(),
    ensures
        final(str_attr)@ == charset_collate(token_views(tokens@), k as int, old(str_attr)@),
{
    let n = tokens.len();
    let mut k = k;
    if token_is_keyword(&tokens[k], "character") {
        if k + 1 == n {
            return;
        }
        k = k + 1;
        if token_is_keyword(&tokens[k], "set") {
            if k + 1 == n {
                return;
            }
            k = k + 1;
            str_attr.charset_name = Some(tokens[k].text.clone());
            if k + 1 == n {
                return;
            }
            k = k + 1;
        }
    }
    if token_is_keyword(&tokens[k], "collate") {
        if k + 1 == n {
            return;
        }
        k = k + 1;
        str_attr.collation_name = Some(tokens[k].text.clone());
    }
}

/// The attributes of a string type read from the tokens after its name:
/// `(L)`, then `CHARACTER SET` and `COLLATE`.
pub open spec fn string_attrs(t: Seq<TokenView>, a: StringAttrModel) -> StringAttrModel {
    if t.len() == 0 {
        a
    } else if is_punct(t[0], "("@) {
        if t.len() == 1 {
            a
        } else {
            let a = StringAttrModel { length: or_keep(number_of(t[1]), a.length), ..a };
            if t.len() == 2 || !is_punct(t[2], ")"@) || t.len() == 3 {
                a
            } else {
                charset_collate(t, 3, a)
            }
        }
    } else {
        charset_collate(t, 0, a)
    }
}

/// Reads the attributes of a string type from the tokens after its name.
fn parse_string_attributes(tokens: &Vec<Token>, start: usize, attr: StringAttr) -> (res:
    StringAttr)
    requires
        start <= tokens.len(),
    ensures
        res@ == string_attrs(token_views(tokens@).skip(start as int), attr@),
{
    let n = tokens.len();
    if start == n {
        return attr;
    }
    let mut attr = attr;
    let mut k = start;
    if token_is_punct(&tokens[k], "(") {
        if k + 1 == n {
            return attr;
        }
        k = k + 1;
        if let Some(l) = token_number(&tokens[k]) {
            attr.length = Some(l);
        }
        if k + 1 == n {
            return attr;
        }
        k = k + 1;
        if !token_is_punct(&tokens[k], ")") {
            return attr;
        }
        if k + 1 == n {
            return attr;
        }
        k = k + 1;
    }
    parse_charset_collate(tokens, k, &mut attr);
    attr
}

/// The values of the quoted tokens among `t`, in order.
pub open spec fn quoted_values(t: Seq<TokenView>) -> Seq<Seq<char>>
    decreases t.len(),
{
    if t.len() == 0 {
        Seq::empty()
    } else {
        let before = quoted_values(t.drop_last());
        if t.last().0 == TokenKind::Quoted {
            before.push(quoted_value(t.last().1))
        } else {
            before
        }
    }
}

/// The values and string attributes of an `ENUM` or `SET` read from the
/// tokens after its name: after `(`, every quoted token up to the end is a
/// value; otherwise `CHARACTER SET` and `COLLATE` are read.
pub open spec fn value_list(t: Seq<TokenView>, d: ValueListModel) -> ValueListModel {
    if t.len() == 0 {
        d
    } else if is_punct(t[0], "("@) {
        ValueListModel { values: d.values + quoted_values(t.skip(1)), attr: d.attr }
    } else {
        ValueListModel { values: d.values, attr: charset_collate(t, 0, d.attr) }
    }
}

/// Appends the values of the quoted tokens from `from` on.
fn collect_quoted_values(tokens: &Vec<Token>, from: usize, values: &mut Vec<String>)
    requires
        from <= tokens.len(),
    ensures
        strings_view(final(values)@) == strings_view(old(values)@) + quoted_values(
            token_views(tokens@).skip(from as int),
        ),
{
    let ghost t = token_views(tokens@).skip(from as int);
    let ghost before = strings_view(values@);
    let mut i = from;
    assert(t.take(0) =~= Seq::<TokenView>::empty());
    assert(before + quoted_values(t.take(0)) =~= before);
    while i < tokens.len()
        invariant
            from <= i <= tokens.len(),
            t == token_views(tokens@).skip(from as int),
            strings_view(values@) == before + quoted_values(t.take(i - from)),
        decreases tokens.len() - i,
    {
        assert(t.take(i + 1 - from).drop_last() =~= t.take(i - from));
        if tokens[i].kind == TokenKind::Quoted {
            let v = quoted_token_value(tokens[i].text.as_str());
            let ghost prev = values@;
            values.push(v);
            assert(strings_view(values@) =~= strings_view(prev).push(v@));
            assert(strings_view(values@) =~= before + quoted_values(t.take(i + 1 - from)));
        }
        i = i + 1;
    }
    assert(t.take(tokens.len() - from) =~= t);
}

/// Reads the values of an `ENUM` from the tokens after its name.
fn parse_enum_definition(tokens: &Vec<Token>, start: usize, def: EnumDef) -> (res: EnumDef)
    requires
        start <= tokens.len(),
    ensures
        res@ == value_list(token_views(tokens@).skip(start as int), def@),
{
    let mut def = def;
    if start == tokens.len() {
        return def;
    }
    if token_is_punct(&tokens[start], "(") {
        collect_quoted_values(tokens, start + 1, &mut def.values);
        assert(token_views(tokens@).skip(start as int).skip(1) =~= token_views(tokens@).skip(
            start + 1,
        ));
    } else {
        parse_charset_collate(tokens, start, &mut def.attr);
    }
    def
}

/// Reads the members of a `SET` from the tokens after its name.
fn parse_set_definition(tokens: &Vec<Token>, start: usize, def: SetDef) -> (res: SetDef)
    requires
        start <= tokens.len(),
    ensures
        res@ == value_list(token_views(tokens@).skip(start as int), def@),
{
    let mut def = def;
    if start == tokens.len() {
        return def;
    }
    if token_is_punct(&tokens[start], "(") {
        collect_quoted_values(tokens, start + 1, &mut def.members);
        assert(token_views(tokens@).skip(start as int).skip(1) =~= token_views(tokens@).skip(
            start + 1,
        ));
    } else {
        parse_charset_collate(tokens, start, &mut def.attr);
    }
    def
}

/// The attributes of a type of family `c`, read from the tokens `t` that
/// follow its name.
pub open spec fn attrs_after_name(c: TypeCategory, t: Seq<TokenView>) -> AttrModel {
    match c {
        TypeCategory::Numeric => AttrModel::Numeric(
            numeric_attrs(t, NumericAttr { maximum: None, decimal: None, unsigned: None, zero_fill: None }),
        ),
        TypeCategory::Time => AttrModel::Time(time_attrs(t, TimeAttr { fractional: None })),
        TypeCategory::Str => AttrModel::Str(string_attrs(t, empty_string_attr())),
        TypeCategory::FreeSizeBlob => AttrModel::Blob(blob_attrs(t, BlobAttr { length: None })),
        TypeCategory::Enum => AttrModel::Enum(value_list(t, empty_value_list())),
        TypeCategory::SetOf => AttrModel::SetMembers(value_list(t, empty_value_list())),
        TypeCategory::Geometry => AttrModel::Geometry(geometry_attrs(t, GeometryAttr { srid: None })),
        TypeCategory::Plain => AttrModel::Plain,
        TypeCategory::Unknown => AttrModel::Plain,
    }
}

/// The type name that a declaration's first token gives: the token's text
/// if it is a bare word, else the empty name.
pub open spec fn leading_name(t: Seq<TokenView>) -> Seq<char> {
    if t[0].0 == TokenKind::Unquoted {
        t[0].1
    } else {
        ""@
    }
}

/// The type that a column type declaration such as `decimal(18,4) unsigned`
/// describes: its first token names the type, the tokens after it give the
/// attributes of that type's family. With no tokens at all, the whole text is
/// an unknown type; with an unknown name, that name is.
pub open spec fn column_type_of(declaration: Seq<char>) -> TypeModel {
    let t = significant(sql_tokens(declaration));
    if t.len() == 0 {
        TypeModel { name: TypeName::Unknown, attr: AttrModel::Unknown(declaration) }
    } else {
        match type_name_of(lowercase(leading_name(t))) {
            Some(n) => TypeModel { name: n, attr: attrs_after_name(n.category_of(), t.skip(1)) },
            None => TypeModel { name: TypeName::Unknown, attr: AttrModel::Unknown(leading_name(t)) },
        }
    }
}

/// Reads a column type declaration, as `information_schema.columns` reports
/// it in `COLUMN_TYPE`.
pub fn parse_column_type(column_type: String) -> (res: ColumnType)
    ensures
        res@ == column_type_of(column_type@),
{
    let tokens = significant_tokens(column_type.as_str());
    if tokens.len() == 0 {
        return Type::Unknown(column_type);
    }
    let name: &str = if tokens[0].kind == TokenKind::Unquoted {
        tokens[0].text.as_str()
    } else {
        ""
    };
    let lower = to_lowercase(name);
    let base = match classify_type_name(lower.as_str()) {
        Some(n) => n,
        None => {
            return Type::Unknown(name.to_owned());
        },
    };
    match base.category() {
        TypeCategory::Numeric => Type::numeric(
            base,
            parse_numeric_attributes(&tokens, 1, NumericAttr::default()),
        ),
        TypeCategory::Time => Type::time(
            base,
            parse_time_attributes(&tokens, 1, TimeAttr::default()),
        ),
        TypeCategory::Str => Type::string(
            base,
            parse_string_attributes(&tokens, 1, StringAttr::default()),
        ),
        TypeCategory::FreeSizeBlob => Type::Blob(
            parse_blob_attributes(&tokens, 1, BlobAttr::default()),
        ),
        TypeCategory::Enum => Type::Enum(parse_enum_definition(&tokens, 1, EnumDef::default())),
        TypeCategory::SetOf => Type::SetOf(parse_set_definition(&tokens, 1, SetDef::default())),
        TypeCategory::Geometry => Type::geometry(
            base,
            parse_geometry_attributes(&tokens, 1, GeometryAttr::default()),
        ),
        TypeCategory::Plain => Type::plain(base),
        TypeCategory::Unknown => {
            proof {
                assert(false);
            }
            Type::Unknown(String::new())
        },
    }
}

/// The key that `COLUMN_KEY` names; anything but `PRI`, `UNI` or `MUL`
/// (exactly so written) is no key.
pub open spec fn column_key_of(column_key: Seq<char>) -> ColumnKey {
    if column_key == "PRI"@ {
        ColumnKey::Primary
    } else if column_key == "UNI"@ {
        ColumnKey::Unique
    } else if column_key == "MUL"@ {
        ColumnKey::Multiple
    } else {
        ColumnKey::Null
    }
}

/// Reads `COLUMN_KEY`.
pub fn parse_column_key(column_key: String) -> (res: ColumnKey)
    ensures
        res == column_key_of(column_key@),
{
    let key = column_key.as_str();
    if text_is(key, "PRI") {
        ColumnKey::Primary
    } else if text_is(key, "UNI") {
        ColumnKey::Unique
    } else if text_is(key, "MUL") {
        ColumnKey::Multiple
    } else {
        ColumnKey::Null
    }
}

/// Reads `COLUMN_DEFAULT`: a default exists exactly when the column reports a
/// non-empty expression, and it is that expression.
pub fn parse_column_default(column_default: Option<String>) -> (res: Option<ColumnDefault>)
    ensures
        match column_default {
            Some(d) => if d@.len() > 0 {
                res == Some(ColumnDefault { expr: d })
            } else {
                res is None
            },
            None => res is None,
        },
{
    match column_default {
        Some(default) => {
            if !default.as_str().is_empty() {
                Some(ColumnDefault { expr: default })
            } else {
                None
            }
        },
        None => None,
    }
}

/// The extra properties named by the words of `EXTRA` from word `i` on,
/// added to `e`. `ON UPDATE CURRENT_TIMESTAMP` and `STORED GENERATED` or
/// `VIRTUAL GENERATED` are read as phrases; `UPDATE` must be written in
/// lowercase, the other words in any case.
pub open spec fn extra_from(words: Seq<Seq<char>>, i: int, e: ColumnExtra) -> ColumnExtra
    decreases words.len() - i,
{
    if i < 0 || i >= words.len() {
        e
    } else {
        let word = lowercase(words[i]);
        if word == "auto_increment"@ {
            extra_from(words, i + 1, ColumnExtra { auto_increment: true, ..e })
        } else if word == "on"@ {
            if i + 2 < words.len() && words[i + 1] == "update"@ && lowercase(words[i + 2])
                == "current_timestamp"@ {
                extra_from(words, i + 3, ColumnExtra { on_update_current_timestamp: true, ..e })
            } else {
                extra_from(words, i + 1, e)
            }
        } else if word == "stored"@ || word == "virtual"@ {
            if i + 1 < words.len() && lowercase(words[i + 1]) == "generated"@ {
                extra_from(words, i + 2, ColumnExtra { generated: true, ..e })
            } else {
                extra_from(words, i + 1, e)
            }
        } else if word == "default_generated"@ {
            extra_from(words, i + 1, ColumnExtra { default_generated: true, ..e })
        } else {
            extra_from(words, i + 1, e)
        }
    }
}

/// The extra properties that an `EXTRA` text names; its words are the
/// pieces between single spaces.
pub open spec fn column_extra_of(expr: Seq<char>) -> ColumnExtra {
    extra_from(
        split_spaces(expr),
        0,
        ColumnExtra {
            auto_increment: false,
            on_update_current_timestamp: false,
            generated: false,
            default_generated: false,
        },
    )
}

/// Reads `EXTRA`, such as `DEFAULT_GENERATED on update CURRENT_TIMESTAMP`.
pub fn parse_column_extra(expr: String) -> (res: ColumnExtra)
    ensures
        res == column_extra_of(expr@),
{
    let mut extra = ColumnExtra::default();
    let words = split_on_spaces(expr.as_str());
    let ghost w = strings_view(words@);
    let n = words.len();
    let mut i: usize = 0;
    while i < n
        invariant
            n == words.len(),
            w == strings_view(words@),
            w == split_spaces(expr@),
            i <= n,
            extra_from(w, i as int, extra) == column_extra_of(expr@),
        decreases n - i,
    {
        let word = to_lowercase(words[i].as_str());
        let w_str = word.as_str();
        if text_is(w_str, "auto_increment") {
            extra.auto_increment = true;
        } else if text_is(w_str, "on") {
            if n - i > 2 && text_is(words[i + 1].as_str(), "update") && text_is(
                to_lowercase(words[i + 2].as_str()).as_str(),
                "current_timestamp",
            ) {
                i = i + 2;
                extra.on_update_current_timestamp = true;
            }
        } else if text_is(w_str, "stored") || text_is(w_str, "virtual") {
            if n - i > 1 && text_is(to_lowercase(words[i + 1].as_str()).as_str(), "generated") {
                i = i + 1;
                extra.generated = true;
            }
        } else if text_is(w_str, "default_generated") {
            extra.default_generated = true;
        }
        i = i + 1;
    }
    extra
}

/// Reads one column's description.
pub fn parse_column_query_result(result: ColumnQueryResult) -> (res: ColumnInfo)
    ensures
        res.name == result.column_name,
        res.col_type@ == column_type_of(result.column_type@),
        res.key == column_key_of(result.column_key@),
        res.default == (match result.column_default {
            Some(d) => if d@.len() > 0 {
                Some(ColumnDefault { expr: d })
            } else {
                None
            },
            None => None,
        }),
        res.extra == column_extra_of(result.extra@),
        res.comment == result.column_comment,
{
    ColumnInfo {
        name: result.column_name,
        col_type: parse_column_type(result.column_type),
        key: parse_column_key(result.column_key),
        default: parse_column_default(result.column_default),
        extra: parse_column_extra(result.extra),
        comment: result.column_comment,
    }
}

} // verus!
