use chain_graph::json::{same_text, Json};

fn object(entries: Vec<(&str, Json)>) -> Json {
    Json::Object(entries.into_iter().map(|(k, v)| (k.to_string(), v)).collect())
}

#[test]
fn member_finds_the_entry_under_the_key() {
    let doc = object(vec![("result", Json::Integer(100)), ("id", Json::Text("1".to_string()))]);
    assert_eq!(doc.member("result"), Some(&Json::Integer(100)));
    assert_eq!(doc.member("id"), Some(&Json::Text("1".to_string())));
    assert_eq!(doc.member("error"), None);
}

#[test]
fn member_takes_the_first_of_a_repeated_key() {
    let doc = object(vec![("a", Json::Integer(1)), ("a", Json::Integer(2))]);
    assert_eq!(doc.member("a"), Some(&Json::Integer(1)));
}

#[test]
fn only_objects_have_members() {
    assert_eq!(Json::Null.member("a"), None);
    assert_eq!(Json::List(vec![Json::Integer(1)]).member("a"), None);
    assert_eq!(Json::Text("a".to_string()).member("a"), None);
}

#[test]
fn as_u64_takes_integers_from_zero_to_the_top() {
    assert_eq!(Json::Integer(0).as_u64(), Some(0));
    assert_eq!(Json::Integer(100).as_u64(), Some(100));
    assert_eq!(Json::Integer(u64::MAX as i128).as_u64(), Some(u64::MAX));
    assert_eq!(Json::Integer(u64::MAX as i128 + 1).as_u64(), None);
    assert_eq!(Json::Integer(-1).as_u64(), None);
    assert_eq!(Json::Real.as_u64(), None);
    assert_eq!(Json::Text("100".to_string()).as_u64(), None);
}

#[test]
fn as_i64_takes_integers_within_its_range() {
    assert_eq!(Json::Integer(5).as_i64(), Some(5));
    assert_eq!(Json::Integer(-5).as_i64(), Some(-5));
    assert_eq!(Json::Integer(i64::MAX as i128).as_i64(), Some(i64::MAX));
    assert_eq!(Json::Integer(i64::MIN as i128).as_i64(), Some(i64::MIN));
    assert_eq!(Json::Integer(i64::MAX as i128 + 1).as_i64(), None);
    assert_eq!(Json::Integer(i64::MIN as i128 - 1).as_i64(), None);
    assert_eq!(Json::Null.as_i64(), None);
}

#[test]
fn as_str_and_as_array_take_their_own_kind_only() {
    assert_eq!(Json::Text("abc".to_string()).as_str(), Some("abc"));
    assert_eq!(Json::Integer(1).as_str(), None);
    let list = vec![Json::Integer(1), Json::Null];
    assert_eq!(Json::List(vec![Json::Integer(1), Json::Null]).as_array(), Some(&list));
    assert_eq!(Json::Text("abc".to_string()).as_array(), None);
}

#[test]
fn same_text_compares_characters() {
    assert!(same_text("abc", "abc"));
    assert!(!same_text("abc", "abd"));
    assert!(!same_text("abc", "ab"));
    assert!(same_text("", ""));
}
