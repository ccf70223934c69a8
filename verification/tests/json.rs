use vlc_discord_rpc::json::{Json, Number};

fn object(members: Vec<(&str, Json)>) -> Json {
    Json::Object(members.into_iter().map(|(k, v)| (k.to_string(), v)).collect())
}

#[test]
fn member_is_the_first_of_its_name() {
    let value = object(vec![
        ("a", Json::Bool(true)),
        ("b", Json::Null),
        ("a", Json::Bool(false)),
        ("", Json::Text("empty".to_string())),
    ]);
    assert_eq!(value.get("a"), Some(&Json::Bool(true)));
    assert_eq!(value.get("b"), Some(&Json::Null));
    assert_eq!(value.get(""), Some(&Json::Text("empty".to_string())));
    assert_eq!(value.get("c"), None);
    assert_eq!(value.get("A"), None);
    assert_eq!(Json::Array(vec![]).get("a"), None);
    assert_eq!(Json::Null.get("a"), None);
}

#[test]
fn numbers_are_read_by_the_type_they_fit() {
    let small = Json::Number(Number::Unsigned(7));
    assert_eq!(small.as_i64(), Some(7));
    assert_eq!(small.as_u64(), Some(7));
    let edge = Json::Number(Number::Unsigned(i64::MAX as u64));
    assert_eq!(edge.as_i64(), Some(i64::MAX));
    let large = Json::Number(Number::Unsigned(i64::MAX as u64 + 1));
    assert_eq!(large.as_i64(), None);
    assert_eq!(large.as_u64(), Some(i64::MAX as u64 + 1));
    let negative = Json::Number(Number::Negative(-7));
    assert_eq!(negative.as_i64(), Some(-7));
    assert_eq!(negative.as_u64(), None);
    assert_eq!(Json::Number(Number::Float).as_i64(), None);
    assert_eq!(Json::Number(Number::Float).as_u64(), None);
    assert_eq!(Json::Text("7".to_string()).as_i64(), None);
    assert_eq!(Json::Null.as_u64(), None);
}

#[test]
fn texts_and_arrays() {
    let text = Json::Text("abc".to_string());
    assert_eq!(text.as_str(), Some("abc"));
    assert_eq!(text.as_array(), None);
    let array = Json::Array(vec![Json::Null, Json::Bool(true)]);
    assert_eq!(array.as_array(), Some(&vec![Json::Null, Json::Bool(true)]));
    assert_eq!(array.as_str(), None);
}

#[test]
fn member_texts_with_their_defaults() {
    let value = object(vec![("name", Json::Text("n".to_string())), ("id", Json::Bool(true))]);
    assert_eq!(value.string_or_empty("name"), "n");
    assert_eq!(value.string_or_empty("id"), "");
    assert_eq!(value.string_or_empty("none"), "");
    assert_eq!(value.optional_string("name"), Some("n".to_string()));
    assert_eq!(value.optional_string("id"), None);
    assert_eq!(value.optional_string("none"), None);
    assert_eq!(Json::Null.optional_string("name"), None);
}
