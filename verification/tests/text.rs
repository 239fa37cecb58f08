use sea_schema::text::{parse_u32, split_on_spaces};

#[test]
fn parse_u32_values() {
    assert_eq!(parse_u32("0"), Some(0));
    assert_eq!(parse_u32("+7"), Some(7));
    assert_eq!(parse_u32("4294967295"), Some(4294967295));
    assert_eq!(parse_u32("4294967296"), None);
    assert_eq!(parse_u32(""), None);
    assert_eq!(parse_u32("+"), None);
    assert_eq!(parse_u32("-1"), None);
    assert_eq!(parse_u32("1a"), None);
    assert_eq!(parse_u32(" 1"), None);
}

#[test]
fn parse_u32_agrees_with_std() {
    for s in ["12", "+0", "007", "99999999999", "1_000", "", "+", "++1", "٣"] {
        assert_eq!(parse_u32(s), s.parse::<u32>().ok(), "{}", s);
    }
}

#[test]
fn split_matches_std() {
    for s in ["", " ", "a", "a b", " a  b ", "on update CURRENT_TIMESTAMP"] {
        let ours = split_on_spaces(s);
        let std: Vec<String> = s.split(" ").map(|w| w.to_owned()).collect();
        assert_eq!(ours, std, "{:?}", s);
    }
}
