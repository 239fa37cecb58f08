use sea_query::{Alias, MysqlQueryBuilder};
use sea_schema::mysql::def::{IndexInfo, IndexOrder, IndexPart, IndexType};

fn part(column: &str, order: IndexOrder, sub_part: Option<u32>) -> IndexPart {
    IndexPart { column: column.to_owned(), order, sub_part }
}

fn sql(info: &IndexInfo) -> String {
    let mut stmt = info.write();
    stmt.table(Alias::new("t"));
    stmt.to_string(MysqlQueryBuilder)
}

#[test]
fn primary_index_has_no_name() {
    let info = IndexInfo {
        name: "PRIMARY".to_owned(),
        unique: true,
        parts: vec![part("id", IndexOrder::Ascending, None)],
        idx_type: IndexType::BTree,
    };
    let stmt = info.write();
    assert!(stmt.is_primary_key());
    assert!(!stmt.is_unique_key());
    assert_eq!(stmt.get_index_spec().get_name(), None);
    assert_eq!(stmt.get_index_spec().get_column_names(), vec!["id".to_owned()]);
}

#[test]
fn named_unique_index() {
    let info = IndexInfo {
        name: "idx_ab".to_owned(),
        unique: true,
        parts: vec![part("a", IndexOrder::Descending, None), part("b", IndexOrder::Ascending, Some(4))],
        idx_type: IndexType::BTree,
    };
    let stmt = info.write();
    assert!(!stmt.is_primary_key());
    assert!(stmt.is_unique_key());
    assert_eq!(stmt.get_index_spec().get_name(), Some("idx_ab"));
    assert_eq!(
        stmt.get_index_spec().get_column_names(),
        vec!["a".to_owned(), "b".to_owned()]
    );
    assert_eq!(sql(&info), "CREATE UNIQUE INDEX `idx_ab` ON `t` (`a`, `b` (4))");
}

#[test]
fn single_descending_part_keeps_order() {
    let info = IndexInfo {
        name: "idx_a".to_owned(),
        unique: false,
        parts: vec![part("a", IndexOrder::Descending, Some(10))],
        idx_type: IndexType::Hash,
    };
    assert_eq!(sql(&info), "CREATE INDEX `idx_a` ON `t` (`a` (10) DESC) USING HASH");
}

#[test]
fn spatial_types_are_named() {
    let info = IndexInfo {
        name: "g".to_owned(),
        unique: false,
        parts: vec![part("geo", IndexOrder::Unordered, None)],
        idx_type: IndexType::Spatial,
    };
    assert_eq!(sql(&info), "CREATE INDEX `g` ON `t` (`geo`) USING SPATIAL");
    assert_eq!(IndexType::RTree.to_string(), "RTREE".to_owned());
}

#[test]
fn full_text_index() {
    let info = IndexInfo {
        name: "ft".to_owned(),
        unique: false,
        parts: vec![part("body", IndexOrder::Unordered, None)],
        idx_type: IndexType::FullText,
    };
    assert_eq!(sql(&info), "CREATE FULLTEXT INDEX `ft` ON `t` (`body`)");
}
