use domeneshop_mcp::json::{Json, JsonNumber, i64_field, str_field};

fn obj(fields: Vec<(&str, Json)>) -> Json {
    Json::Object(fields.into_iter().map(|(k, v)| (k.to_string(), v)).collect())
}

#[test]
fn get_finds_members_of_objects_only() {
    let v = obj(vec![("a", Json::Null), ("b", Json::Bool(true))]);
    assert_eq!(v.get("b"), Some(&Json::Bool(true)));
    assert_eq!(v.get("a"), Some(&Json::Null));
    assert_eq!(v.get("c"), None);
    assert_eq!(Json::Array(vec![Json::Null]).get("a"), None);
    assert_eq!(Json::String("a".to_string()).get("a"), None);
}

#[test]
fn as_str_and_as_i64() {
    assert_eq!(Json::String("x".to_string()).as_str(), Some("x"));
    assert_eq!(Json::Null.as_str(), None);
    assert_eq!(Json::Number(JsonNumber::PosInt(5)).as_i64(), Some(5));
    assert_eq!(Json::Number(JsonNumber::PosInt(i64::MAX as u64)).as_i64(), Some(i64::MAX));
    assert_eq!(Json::Number(JsonNumber::PosInt(i64::MAX as u64 + 1)).as_i64(), None);
    assert_eq!(Json::Number(JsonNumber::NegInt(-5)).as_i64(), Some(-5));
    assert_eq!(Json::Number(JsonNumber::Float("2.0".to_string())).as_i64(), None);
    assert_eq!(Json::String("5".to_string()).as_i64(), None);
}

#[test]
fn typed_members() {
    let v = obj(vec![
        ("domain", Json::String("a.no".to_string())),
        ("id", Json::Number(JsonNumber::PosInt(3))),
    ]);
    assert_eq!(str_field(&v, "domain").as_deref(), Some("a.no"));
    assert_eq!(str_field(&v, "id"), None);
    assert_eq!(i64_field(&v, "id"), Some(3));
    assert_eq!(i64_field(&v, "domain"), None);
    assert_eq!(i64_field(&v, "missing"), None);
}
