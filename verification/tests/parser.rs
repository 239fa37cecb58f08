use sea_schema::mysql::def::{
    BlobAttr, ColumnExtra, ColumnType, EnumDef, GeometryAttr, NumericAttr, SetDef, StringAttr,
    TimeAttr,
};
use sea_schema::mysql::parser::{parse_column_extra, parse_column_type};

#[test]
fn test_0() {
    assert_eq!(
        parse_column_extra("".to_owned()),
        ColumnExtra {
            auto_increment: false,
            on_update_current_timestamp: false,
            generated: false,
            default_generated: false,
        }
    );
}

#[test]
fn test_1() {
    assert_eq!(
        parse_column_extra("DEFAULT_GENERATED".to_owned()),
        ColumnExtra {
            auto_increment: false,
            on_update_current_timestamp: false,
            generated: false,
            default_generated: true,
        }
    );
}

#[test]
fn test_2() {
    assert_eq!(
        parse_column_extra("DEFAULT_GENERATED on update CURRENT_TIMESTAMP".to_owned()),
        ColumnExtra {
            auto_increment: false,
            on_update_current_timestamp: true,
            generated: false,
            default_generated: true,
        }
    );
}

#[test]
fn test_3() {
    assert_eq!(
        parse_column_type("smallint unsigned".to_owned()),
        ColumnType::SmallInt(NumericAttr {
            maximum: None,
            decimal: None,
            unsigned: Some(true),
            zero_fill: None,
        })
    );
}

#[test]
fn test_4() {
    assert_eq!(
        parse_column_type("smallint unsigned zerofill".to_owned()),
        ColumnType::SmallInt(NumericAttr {
            maximum: None,
            decimal: None,
            unsigned: Some(true),
            zero_fill: Some(true),
        })
    );
}

#[test]
fn test_5() {
    assert_eq!(
        parse_column_type("decimal(4,2)".to_owned()),
        ColumnType::Decimal(NumericAttr {
            maximum: Some(4),
            decimal: Some(2),
            unsigned: None,
            zero_fill: None,
        })
    );
}

#[test]
fn test_6() {
    assert_eq!(
        parse_column_type("decimal(18,4) zerofill".to_owned()),
        ColumnType::Decimal(NumericAttr {
            maximum: Some(18),
            decimal: Some(4),
            unsigned: None,
            zero_fill: Some(true),
        })
    );
}

#[test]
fn test_7() {
    assert_eq!(
        parse_column_type("decimal(18,4) unsigned".to_owned()),
        ColumnType::Decimal(NumericAttr {
            maximum: Some(18),
            decimal: Some(4),
            unsigned: Some(true),
            zero_fill: None,
        })
    );
}

#[test]
fn test_8() {
    assert_eq!(
        parse_column_type("decimal(18,4) unsigned zerofill".to_owned()),
        ColumnType::Decimal(NumericAttr {
            maximum: Some(18),
            decimal: Some(4),
            unsigned: Some(true),
            zero_fill: Some(true),
        })
    );
}

#[test]
fn test_9() {
    assert_eq!(
        parse_column_type("smallint(8) unsigned zerofill".to_owned()),
        ColumnType::SmallInt(NumericAttr {
            maximum: Some(8),
            decimal: None,
            unsigned: Some(true),
            zero_fill: Some(true),
        })
    );
}

#[test]
fn test_10() {
    assert_eq!(
        parse_column_type("DATETIME".to_owned()),
        ColumnType::DateTime(TimeAttr {
            fractional: None,
        })
    );
}

#[test]
fn test_11() {
    assert_eq!(
        parse_column_type("DATETIME(6)".to_owned()),
        ColumnType::DateTime(TimeAttr {
            fractional: Some(6),
        })
    );
}

#[test]
fn test_12() {
    assert_eq!(
        parse_column_type("TIMESTAMP(0)".to_owned()),
        ColumnType::Timestamp(TimeAttr {
            fractional: Some(0),
        })
    );
}

#[test]
fn test_13() {
    assert_eq!(
        parse_column_type("varchar(20)".to_owned()),
        ColumnType::Varchar(StringAttr {
            length: Some(20),
            charset_name: None,
            collation_name: None,
        })
    );
}

#[test]
fn test_14() {
    assert_eq!(
        parse_column_type("TEXT".to_owned()),
        ColumnType::Text(StringAttr {
            length: None,
            charset_name: None,
            collation_name: None,
        })
    );
}

#[test]
fn test_15() {
    assert_eq!(
        parse_column_type("TEXT CHARACTER SET utf8mb4 COLLATE utf8mb4_bin".to_owned()),
        ColumnType::Text(StringAttr {
            length: None,
            charset_name: Some("utf8mb4".to_owned()),
            collation_name: Some("utf8mb4_bin".to_owned()),
        })
    );
}

#[test]
fn test_16() {
    assert_eq!(
        parse_column_type("TEXT CHARACTER SET latin1".to_owned()),
        ColumnType::Text(StringAttr {
            length: None,
            charset_name: Some("latin1".to_owned()),
            collation_name: None,
        })
    );
}

#[test]
fn test_17() {
    assert_eq!(
        parse_column_type("BLOB".to_owned()),
        ColumnType::Blob(BlobAttr {
            length: None,
        })
    );
}

#[test]
fn test_18() {
    assert_eq!(
        parse_column_type("BLOB(256)".to_owned()),
        ColumnType::Blob(BlobAttr {
            length: Some(256),
        })
    );
}

#[test]
fn test_19() {
    assert_eq!(
        parse_column_type("enum('G','PG','PG-13','R','NC-17')".to_owned()),
        ColumnType::Enum(EnumDef {
            values: vec![
                "G".to_owned(),
                "PG".to_owned(),
                "PG-13".to_owned(),
                "R".to_owned(),
                "NC-17".to_owned(),
            ],
            attr: StringAttr {
                length: None,
                charset_name: None,
                collation_name: None,
            }
        })
    );
}

#[test]
fn test_20() {
    assert_eq!(
        parse_column_type("set('Trailers','Commentaries','Deleted Scenes','Behind the Scenes')".to_owned()),
        ColumnType::SetOf(SetDef {
            members: vec![
                "Trailers".to_owned(),
                "Commentaries".to_owned(),
                "Deleted Scenes".to_owned(),
                "Behind the Scenes".to_owned(),
            ],
            attr: StringAttr {
                length: None,
                charset_name: None,
                collation_name: None,
            }
        })
    );
}

#[test]
fn test_21() {
    assert_eq!(
        parse_column_type("GEOMETRY".to_owned()),
        ColumnType::Geometry(GeometryAttr {
            srid: None,
        })
    );
}

#[test]
fn test_22() {
    assert_eq!(
        parse_column_type("GEOMETRY SRID 4326".to_owned()),
        ColumnType::Geometry(GeometryAttr {
            srid: Some(4326),
        })
    );
}
