//! What `parse_column_type` reads from each family of declarations, stated
//! by the shape of the declaration's tokens rather than by the parser's steps.

use crate::mysql::def::{
    AttrModel, BlobAttr, GeometryAttr, NumericAttr, StringAttrModel, TimeAttr, TypeCategory,
    ValueListModel,
};
use crate::mysql::parser::{charset_collate, column_type_of, quoted_values, type_name_of, TokenView};
use crate::mysql::tokens::{significant, sql_tokens, unescaped, unquoted_text, TokenKind};
use crate::text::{decimal_u32, lowercase};
use vstd::prelude::*;

verus! {

/// The token is the bare word `w`, in any case.
pub open spec fn word(t: TokenView, w: Seq<char>) -> bool {
    t.0 == TokenKind::Unquoted && lowercase(t.1) == w
}

/// The token is the punctuation mark `p`.
pub open spec fn mark(t: TokenView, p: Seq<char>) -> bool {
    t.0 == TokenKind::Punctuation && t.1 == p
}

/// The number that a bare word spells in decimal, if it spells one.
pub open spec fn number(t: TokenView) -> Option<u32> {
    if t.0 == TokenKind::Unquoted {
        decimal_u32(t.1)
    } else {
        None
    }
}

/// The declaration `s` starts with a bare word that names a type of family
/// `c`, and `rest` are the tokens after that word.
pub open spec fn declares(s: Seq<char>, c: TypeCategory, rest: Seq<TokenView>) -> bool {
    let t = significant(sql_tokens(s));
    &&& t.len() >= 1
    &&& t[0].0 == TokenKind::Unquoted
    &&& type_name_of(lowercase(t[0].1)) is Some
    &&& type_name_of(lowercase(t[0].1))->0.category_of() == c
    &&& t.skip(1) == rest
}

/// `g` is nothing (no length), or `( L )` where `L` reads as `len`.
pub open spec fn length_group(g: Seq<TokenView>, len: Option<u32>) -> bool {
    ||| g.len() == 0 && len is None
    ||| g.len() == 3 && mark(g[0], "("@) && mark(g[2], ")"@) && len == number(g[1])
}

/// `r` is nothing, `CHARACTER SET cs`, `CHARACTER SET cs COLLATE co` or
/// `COLLATE co`, naming the character set `charset` and the collation
/// `collation`.
pub open spec fn clause_names(
    r: Seq<TokenView>,
    charset: Option<Seq<char>>,
    collation: Option<Seq<char>>,
) -> bool {
    ||| r.len() == 0 && charset is None && collation is None
    ||| r.len() == 3 && word(r[0], "character"@) && word(r[1], "set"@) && charset
        == Some(r[2].1) && collation is None
    ||| r.len() == 5 && word(r[0], "character"@) && word(r[1], "set"@) && word(
        r[3],
        "collate"@,
    ) && charset == Some(r[2].1) && collation == Some(r[4].1)
    ||| r.len() == 2 && word(r[0], "collate"@) && charset is None && collation == Some(
        r[1].1,
    )
}

proof fn lemma_clause(t: Seq<TokenView>, k: int, r: Seq<TokenView>, a: StringAttrModel, cs: Option<Seq<char>>, co: Option<Seq<char>>)
    requires
        0 <= k < t.len(),
        t.skip(k) == r,
        clause_names(r, cs, co),
        a.charset_name is None,
        a.collation_name is None,
    ensures
        charset_collate(t, k, a) == (StringAttrModel {
            length: a.length,
            charset_name: cs,
            collation_name: co,
        }),
{
    reveal_strlit("character");
    reveal_strlit("collate");
    assert(t[k] == r[0]);
    if r.len() == 2 {
        assert("collate"@[1] != "character"@[1]);
        assert(t[k + 1] == r[1]);
    } else {
        assert(t[k + 1] == r[1]);
        assert(t[k + 2] == r[2]);
        if r.len() == 5 {
            assert(t[k + 3] == r[3]);
            assert(t[k + 4] == r[4]);
        }
    }
}

/// A string type reads its length from `(L)` and, with or without that
/// length, reads `CHARACTER SET cs` into its character set and `COLLATE co`
/// into its collation.
pub proof fn lemma_string_type_attributes(
    s: Seq<char>,
    g: Seq<TokenView>,
    r: Seq<TokenView>,
    len: Option<u32>,
    cs: Option<Seq<char>>,
    co: Option<Seq<char>>,
)
    requires
        declares(s, TypeCategory::Str, g + r),
        length_group(g, len),
        clause_names(r, cs, co),
    ensures
        column_type_of(s).attr == AttrModel::Str(
            StringAttrModel { length: len, charset_name: cs, collation_name: co },
        ),
{
    reveal_strlit("(");
    reveal_strlit(")");
    let t = g + r;
    if r.len() > 0 {
        assert(t.skip(g.len() as int) =~= r);
        let a = StringAttrModel { length: len, charset_name: None, collation_name: None };
        lemma_clause(t, g.len() as int, r, a, cs, co);
        if g.len() == 0 {
            assert(t[0] == r[0]);
        } else {
            assert(t[0] == g[0] && t[1] == g[1] && t[2] == g[2]);
        }
    }
}

/// The string attributes of a type model, if it is a string type.
pub open spec fn string_attr_of(m: AttrModel) -> StringAttrModel {
    match m {
        AttrModel::Str(a) => a,
        _ => StringAttrModel { length: None, charset_name: None, collation_name: None },
    }
}

proof fn lemma_charset_collate_shift(t: Seq<TokenView>, k: int, a: StringAttrModel)
    requires
        0 <= k < t.len(),
    ensures
        charset_collate(t, k, a) == charset_collate(t.skip(k), 0, a),
{
    let r = t.skip(k);
    assert(r[0] == t[k]);
    if r.len() > 1 {
        assert(r[1] == t[k + 1]);
    }
    if r.len() > 2 {
        assert(r[2] == t[k + 2]);
    }
    if r.len() > 3 {
        assert(r[3] == t[k + 3]);
    }
    if r.len() > 4 {
        assert(r[4] == t[k + 4]);
    }
}

/// A length `(L)` in front of whatever follows a string type's name changes
/// only the length: the character set and collation read after it are the
/// ones read from the same tokens without it.
pub proof fn lemma_string_length_keeps_clauses(
    s1: Seq<char>,
    s2: Seq<char>,
    g: Seq<TokenView>,
    len: Option<u32>,
    r: Seq<TokenView>,
)
    requires
        declares(s1, TypeCategory::Str, g + r),
        declares(s2, TypeCategory::Str, r),
        length_group(g, len),
        g.len() == 3,
        r.len() > 0 ==> !mark(r[0], "("@),
    ensures
        column_type_of(s1).attr is Str,
        column_type_of(s2).attr is Str,
        string_attr_of(column_type_of(s1).attr).length == len,
        string_attr_of(column_type_of(s2).attr).length is None,
        string_attr_of(column_type_of(s1).attr).charset_name == string_attr_of(
            column_type_of(s2).attr,
        ).charset_name,
        string_attr_of(column_type_of(s1).attr).collation_name == string_attr_of(
            column_type_of(s2).attr,
        ).collation_name,
{
    let t = g + r;
    assert(t[0] == g[0] && t[1] == g[1] && t[2] == g[2]);
    if r.len() > 0 {
        assert(t.skip(3) =~= r);
        let a = StringAttrModel { length: len, charset_name: None, collation_name: None };
        let b = StringAttrModel { length: None, charset_name: None, collation_name: None };
        lemma_charset_collate_shift(t, 3, a);
        assert(r.skip(0) =~= r);
        // charset_collate only sets the charset and collation, so the two
        // readings differ in their length alone
        lemma_charset_collate_fields(r, a, b);
    }
}

proof fn lemma_charset_collate_fields(r: Seq<TokenView>, a: StringAttrModel, b: StringAttrModel)
    requires
        r.len() > 0,
        a.charset_name == b.charset_name,
        a.collation_name == b.collation_name,
    ensures
        charset_collate(r, 0, a).length == a.length,
        charset_collate(r, 0, b).length == b.length,
        charset_collate(r, 0, a).charset_name == charset_collate(r, 0, b).charset_name,
        charset_collate(r, 0, a).collation_name == charset_collate(r, 0, b).collation_name,
{
}

/// `g` is nothing, `( M )` or `( M , D )`, with `M` reading as `maximum`
/// and `D` as `decimal`.
pub open spec fn width_group(g: Seq<TokenView>, maximum: Option<u32>, decimal: Option<u32>) -> bool {
    ||| g.len() == 0 && maximum is None && decimal is None
    ||| g.len() == 3 && mark(g[0], "("@) && mark(g[2], ")"@) && maximum == number(g[1])
        && decimal is None
    ||| g.len() == 5 && mark(g[0], "("@) && mark(g[2], ","@) && mark(g[4], ")"@)
        && maximum == number(g[1]) && decimal == number(g[3])
}

/// `f` is nothing, `UNSIGNED`, `ZEROFILL` or `UNSIGNED ZEROFILL`, with the
/// flags it sets.
pub open spec fn numeric_flag_words(f: Seq<TokenView>, unsigned: Option<bool>, zero_fill: Option<bool>) -> bool {
    ||| f.len() == 0 && unsigned is None && zero_fill is None
    ||| f.len() == 1 && word(f[0], "unsigned"@) && unsigned == Some(true) && zero_fill is None
    ||| f.len() == 1 && word(f[0], "zerofill"@) && unsigned is None && zero_fill == Some(true)
    ||| f.len() == 2 && word(f[0], "unsigned"@) && word(f[1], "zerofill"@) && unsigned
        == Some(true) && zero_fill == Some(true)
}

/// `g` is nothing or `SRID n`, with `n` reading as `srid`.
pub open spec fn srid_group(g: Seq<TokenView>, srid: Option<u32>) -> bool {
    ||| g.len() == 0 && srid is None
    ||| g.len() == 2 && word(g[0], "srid"@) && srid == number(g[1])
}

/// A numeric type reads `(M)` or `(M,D)` into its maximum and decimals, and
/// then `UNSIGNED` and `ZEROFILL`, each optional but in that order, into its
/// flags; whatever is not written stays unset.
pub proof fn lemma_numeric_type_attributes(
    s: Seq<char>,
    g: Seq<TokenView>,
    f: Seq<TokenView>,
    maximum: Option<u32>,
    decimal: Option<u32>,
    unsigned: Option<bool>,
    zero_fill: Option<bool>,
)
    requires
        declares(s, TypeCategory::Numeric, g + f),
        width_group(g, maximum, decimal),
        numeric_flag_words(f, unsigned, zero_fill),
    ensures
        column_type_of(s).attr == AttrModel::Numeric(
            NumericAttr { maximum, decimal, unsigned, zero_fill },
        ),
{
    reveal_strlit("(");
    reveal_strlit(")");
    reveal_strlit(",");
    reveal_strlit("unsigned");
    reveal_strlit("zerofill");
    assert("unsigned"@[0] != "zerofill"@[0]);
    assert(")"@[0] != ","@[0]);
    let t = g + f;
    let k = g.len() as int;
    if g.len() > 0 {
        assert(t[0] == g[0] && t[1] == g[1] && t[2] == g[2]);
        if g.len() == 5 {
            assert(t[3] == g[3] && t[4] == g[4]);
        }
    }
    if f.len() > 0 {
        assert(t[k] == f[0]);
        if f.len() > 1 {
            assert(t[k + 1] == f[1]);
        }
    }
}

/// A time type reads `(fsp)` into its fractional seconds precision.
pub proof fn lemma_time_type_attributes(s: Seq<char>, g: Seq<TokenView>, fractional: Option<u32>)
    requires
        declares(s, TypeCategory::Time, g),
        length_group(g, fractional),
    ensures
        column_type_of(s).attr == AttrModel::Time(TimeAttr { fractional }),
{
}

/// `BLOB` reads `(L)` into its length.
pub proof fn lemma_blob_attributes(s: Seq<char>, g: Seq<TokenView>, length: Option<u32>)
    requires
        declares(s, TypeCategory::FreeSizeBlob, g),
        length_group(g, length),
    ensures
        column_type_of(s).attr == AttrModel::Blob(BlobAttr { length }),
{
}

/// A spatial type reads `SRID n` into its spatial reference system.
pub proof fn lemma_geometry_attributes(s: Seq<char>, g: Seq<TokenView>, srid: Option<u32>)
    requires
        declares(s, TypeCategory::Geometry, g),
        srid_group(g, srid),
    ensures
        column_type_of(s).attr == AttrModel::Geometry(GeometryAttr { srid }),
{
}

/// The token is a quoted string.
pub open spec fn is_quoted_token(x: TokenView) -> bool {
    x.0 == TokenKind::Quoted
}

/// The values that the quoted tokens among `r` stand for, in order.
pub open spec fn values_of_quoted(r: Seq<TokenView>) -> Seq<Seq<char>> {
    r.filter(|x: TokenView| is_quoted_token(x)).map_values(|x: TokenView| unescaped(unquoted_text(x.1)))
}

proof fn lemma_quoted_values_filter(r: Seq<TokenView>)
    ensures
        quoted_values(r) == values_of_quoted(r),
    decreases r.len(),
{
    reveal_with_fuel(Seq::<TokenView>::filter, 1);
    if r.len() > 0 {
        lemma_quoted_values_filter(r.drop_last());
        assert(quoted_values(r) =~= values_of_quoted(r));
    } else {
        assert(quoted_values(r) =~= values_of_quoted(r));
    }
}

/// An `ENUM` or `SET` followed by `(` takes as its values exactly the
/// quoted tokens after it, in order, each unquoted and unescaped, and sets
/// no string attribute.
pub proof fn lemma_value_list_values(s: Seq<char>, c: TypeCategory, lp: TokenView, r: Seq<TokenView>)
    requires
        c == TypeCategory::Enum || c == TypeCategory::SetOf,
        declares(s, c, seq![lp] + r),
        mark(lp, "("@),
    ensures
        c == TypeCategory::Enum ==> column_type_of(s).attr == AttrModel::Enum(
            ValueListModel {
                values: values_of_quoted(r),
                attr: StringAttrModel { length: None, charset_name: None, collation_name: None },
            },
        ),
        c == TypeCategory::SetOf ==> column_type_of(s).attr == AttrModel::SetMembers(
            ValueListModel {
                values: values_of_quoted(r),
                attr: StringAttrModel { length: None, charset_name: None, collation_name: None },
            },
        ),
{
    let t = seq![lp] + r;
    assert(t[0] == lp);
    assert(t.skip(1) =~= r);
    lemma_quoted_values_filter(r);
    assert(Seq::<Seq<char>>::empty() + values_of_quoted(r) =~= values_of_quoted(r));
}

/// An `ENUM` or `SET` not followed by `(` has no values, and reads
/// `CHARACTER SET cs` and `COLLATE co` as a string type does.
pub proof fn lemma_value_list_clauses(
    s: Seq<char>,
    c: TypeCategory,
    r: Seq<TokenView>,
    cs: Option<Seq<char>>,
    co: Option<Seq<char>>,
)
    requires
        c == TypeCategory::Enum || c == TypeCategory::SetOf,
        declares(s, c, r),
        clause_names(r, cs, co),
    ensures
        c == TypeCategory::Enum ==> column_type_of(s).attr == AttrModel::Enum(
            ValueListModel {
                values: Seq::empty(),
                attr: StringAttrModel { length: None, charset_name: cs, collation_name: co },
            },
        ),
        c == TypeCategory::SetOf ==> column_type_of(s).attr == AttrModel::SetMembers(
            ValueListModel {
                values: Seq::empty(),
                attr: StringAttrModel { length: None, charset_name: cs, collation_name: co },
            },
        ),
{
    if r.len() > 0 {
        let a = StringAttrModel { length: None, charset_name: None, collation_name: None };
        assert(r.skip(0) =~= r);
        lemma_clause(r, 0, r, a, cs, co);
    }
}

} // verus!
