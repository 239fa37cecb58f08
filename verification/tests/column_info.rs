use sea_schema::mysql::def::{
    ColumnDefault, ColumnExtra, ColumnInfo, ColumnKey, NumericAttr, Type,
};
use sea_schema::mysql::parser::{
    parse_column_default, parse_column_extra, parse_column_key, parse_column_query_result,
};
use sea_schema::mysql::query::ColumnQueryResult;

fn extra(a: bool, o: bool, g: bool, d: bool) -> ColumnExtra {
    ColumnExtra {
        auto_increment: a,
        on_update_current_timestamp: o,
        generated: g,
        default_generated: d,
    }
}

#[test]
fn column_key_values() {
    assert_eq!(parse_column_key("PRI".to_owned()), ColumnKey::Primary);
    assert_eq!(parse_column_key("UNI".to_owned()), ColumnKey::Unique);
    assert_eq!(parse_column_key("MUL".to_owned()), ColumnKey::Multiple);
    assert_eq!(parse_column_key("".to_owned()), ColumnKey::Null);
}

#[test]
fn column_key_is_case_sensitive() {
    assert_eq!(parse_column_key("pri".to_owned()), ColumnKey::Null);
}

#[test]
fn column_default_values() {
    assert_eq!(parse_column_default(None), None);
    assert_eq!(parse_column_default(Some("".to_owned())), None);
    assert_eq!(
        parse_column_default(Some("CURRENT_TIMESTAMP".to_owned())),
        Some(ColumnDefault { expr: "CURRENT_TIMESTAMP".to_owned() })
    );
}

#[test]
fn column_extra_auto_increment() {
    assert_eq!(parse_column_extra("auto_increment".to_owned()), extra(true, false, false, false));
}

#[test]
fn column_extra_generated() {
    assert_eq!(parse_column_extra("STORED GENERATED".to_owned()), extra(false, false, true, false));
    assert_eq!(parse_column_extra("VIRTUAL GENERATED".to_owned()), extra(false, false, true, false));
    assert_eq!(parse_column_extra("STORED".to_owned()), extra(false, false, false, false));
}

#[test]
fn column_extra_update_must_be_lowercase() {
    assert_eq!(
        parse_column_extra("ON UPDATE CURRENT_TIMESTAMP".to_owned()),
        extra(false, false, false, false)
    );
    assert_eq!(
        parse_column_extra("on update current_timestamp".to_owned()),
        extra(false, true, false, false)
    );
}

#[test]
fn column_extra_incomplete_phrase() {
    assert_eq!(parse_column_extra("on update".to_owned()), extra(false, false, false, false));
}

#[test]
fn column_extra_double_space_is_an_empty_word() {
    assert_eq!(
        parse_column_extra("on  update current_timestamp".to_owned()),
        extra(false, false, false, false)
    );
}

#[test]
fn column_query_result_whole_row() {
    let result = ColumnQueryResult {
        column_name: "id".to_owned(),
        column_type: "int(11) unsigned".to_owned(),
        column_key: "PRI".to_owned(),
        column_default: None,
        extra: "auto_increment".to_owned(),
        column_comment: "row id".to_owned(),
    };
    assert_eq!(
        parse_column_query_result(result),
        ColumnInfo {
            name: "id".to_owned(),
            col_type: Type::Int(NumericAttr {
                maximum: Some(11),
                decimal: None,
                unsigned: Some(true),
                zero_fill: None,
            }),
            key: ColumnKey::Primary,
            default: None,
            extra: extra(true, false, false, false),
            comment: "row id".to_owned(),
        }
    );
}
