use sea_schema::mysql::def::{
    BlobAttr, ColumnType, EnumDef, GeometryAttr, NumericAttr, SetDef, StringAttr, TimeAttr, Type,
};
use sea_schema::mysql::parser::{parse_column_type, parse_type_name};

fn numeric(maximum: Option<u32>, decimal: Option<u32>) -> NumericAttr {
    NumericAttr { maximum, decimal, unsigned: None, zero_fill: None }
}

fn no_string_attr() -> StringAttr {
    StringAttr { length: None, charset_name: None, collation_name: None }
}

#[test]
fn type_name_ignores_case() {
    assert_eq!(parse_type_name("VarChar"), Type::Varchar(no_string_attr()));
    assert_eq!(parse_type_name("varchar"), Type::Varchar(no_string_attr()));
    assert_eq!(parse_type_name("BIGINT"), Type::BigInt(numeric(None, None)));
}

#[test]
fn type_name_unknown_keeps_spelling() {
    assert_eq!(parse_type_name("Foo"), Type::Unknown("Foo".to_owned()));
    assert_eq!(parse_type_name(""), Type::Unknown("".to_owned()));
}

#[test]
fn type_name_plain_types() {
    assert_eq!(parse_type_name("json"), Type::Json);
    assert_eq!(parse_type_name("Year"), Type::Year);
    assert_eq!(parse_type_name("longblob"), Type::LongBlob);
    assert_eq!(parse_type_name("set"), Type::SetOf(SetDef { members: vec![], attr: no_string_attr() }));
}

#[test]
fn column_type_empty_is_unknown() {
    assert_eq!(parse_column_type("".to_owned()), ColumnType::Unknown("".to_owned()));
    assert_eq!(parse_column_type("   ".to_owned()), ColumnType::Unknown("   ".to_owned()));
}

#[test]
fn column_type_quoted_name_is_unknown() {
    assert_eq!(parse_column_type("'int'".to_owned()), ColumnType::Unknown("".to_owned()));
}

#[test]
fn column_type_unknown_name() {
    assert_eq!(parse_column_type("foo(3)".to_owned()), ColumnType::Unknown("foo".to_owned()));
}

#[test]
fn column_type_int_width() {
    assert_eq!(parse_column_type("int(11)".to_owned()), ColumnType::Int(numeric(Some(11), None)));
}

#[test]
fn column_type_sign_is_punctuation() {
    assert_eq!(parse_column_type("bigint(+20)".to_owned()), ColumnType::BigInt(numeric(None, None)));
}

#[test]
fn column_type_number_too_large() {
    assert_eq!(
        parse_column_type("decimal(99999999999,2)".to_owned()),
        ColumnType::Decimal(numeric(None, Some(2)))
    );
}

#[test]
fn column_type_negative_width_ignored() {
    assert_eq!(parse_column_type("int(-1)".to_owned()), ColumnType::Int(numeric(None, None)));
}

#[test]
fn column_type_unsigned_without_width() {
    assert_eq!(
        parse_column_type("TINYINT UNSIGNED".to_owned()),
        ColumnType::TinyInt(NumericAttr {
            maximum: None,
            decimal: None,
            unsigned: Some(true),
            zero_fill: None,
        })
    );
}

#[test]
fn column_type_zerofill_alone() {
    assert_eq!(
        parse_column_type("int(5) zerofill".to_owned()),
        ColumnType::Int(NumericAttr {
            maximum: Some(5),
            decimal: None,
            unsigned: None,
            zero_fill: Some(true),
        })
    );
}

#[test]
fn column_type_time_precision() {
    assert_eq!(parse_column_type("time(3)".to_owned()), ColumnType::Time(TimeAttr { fractional: Some(3) }));
    assert_eq!(parse_column_type("timestamp".to_owned()), ColumnType::Timestamp(TimeAttr { fractional: None }));
}

#[test]
fn column_type_plain_ignores_rest() {
    assert_eq!(parse_column_type("date(5)".to_owned()), ColumnType::Date);
    assert_eq!(parse_column_type("JSON".to_owned()), ColumnType::Json);
}

#[test]
fn column_type_varchar_with_collation() {
    assert_eq!(
        parse_column_type("varchar(255) COLLATE utf8mb4_general_ci".to_owned()),
        ColumnType::Varchar(StringAttr {
            length: Some(255),
            charset_name: None,
            collation_name: Some("utf8mb4_general_ci".to_owned()),
        })
    );
}

#[test]
fn column_type_char_charset_without_parens() {
    assert_eq!(
        parse_column_type("char character set ascii".to_owned()),
        ColumnType::Char(StringAttr {
            length: None,
            charset_name: Some("ascii".to_owned()),
            collation_name: None,
        })
    );
}

#[test]
fn column_type_blob_length() {
    assert_eq!(parse_column_type("blob(10)".to_owned()), ColumnType::Blob(BlobAttr { length: Some(10) }));
}

#[test]
fn column_type_point_srid() {
    assert_eq!(
        parse_column_type("point srid 0".to_owned()),
        ColumnType::Point(GeometryAttr { srid: Some(0) })
    );
}

#[test]
fn column_type_enum_escapes() {
    assert_eq!(
        parse_column_type("enum('a\\'b','c''d','e\\nf')".to_owned()),
        ColumnType::Enum(EnumDef {
            values: vec!["a'b".to_owned(), "c'd".to_owned(), "e\nf".to_owned()],
            attr: no_string_attr(),
        })
    );
}

#[test]
fn column_type_set_empty_list() {
    assert_eq!(
        parse_column_type("set()".to_owned()),
        ColumnType::SetOf(SetDef { members: vec![], attr: no_string_attr() })
    );
}

#[test]
fn bare_declaration_matches_type_name() {
    for name in ["VARCHAR", "int", "Enum", "point", "json", "mystery"] {
        assert_eq!(parse_column_type(name.to_owned()), parse_type_name(name));
    }
}

#[test]
fn attributes_keep_the_named_type() {
    let declared = parse_column_type("int(3) unsigned".to_owned());
    let named = parse_type_name("int");
    assert_eq!(std::mem::discriminant(&declared), std::mem::discriminant(&named));
}
