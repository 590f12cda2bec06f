use wb_switch_core::json::{array, Json};
use wb_switch_core::text::{chars_of, i64_to_text, text_contains, text_eq};

fn obj(fields: Vec<(&str, Json)>) -> Json {
    Json::Object(fields.into_iter().map(|(k, v)| (k.to_string(), v)).collect())
}

#[test]
fn integers_are_written_in_decimal() {
    assert_eq!(i64_to_text(0), "0");
    assert_eq!(i64_to_text(-1), "-1");
    assert_eq!(i64_to_text(10011), "10011");
    assert_eq!(i64_to_text(i64::MIN), i64::MIN.to_string());
    assert_eq!(i64_to_text(i64::MAX), i64::MAX.to_string());
}

#[test]
fn text_search_and_equality() {
    assert!(text_contains("签到活动已过期", "已过期"));
    assert!(text_contains("abc", ""));
    assert!(!text_contains("ab", "abc"));
    assert!(text_eq("签到", "签到"));
    assert!(!text_eq("签到", "签"));
    assert_eq!(chars_of("a签"), vec!['a', '签']);
}

#[test]
fn first_field_of_a_name_is_read() {
    let v = obj(vec![("a", Json::Int(1)), ("b", Json::Int(2))]);
    assert_eq!(v.get("b"), Some(&Json::Int(2)));
    assert_eq!(v.get("c"), None);
    assert_eq!(Json::Int(1).get("a"), None);
    assert_eq!(v.deep_clone(), v);
    assert_eq!(array(vec![Json::Null]), Json::Array(vec![Json::Null]));
    assert_eq!(Json::Int(5).as_i64(), Some(5));
    assert_eq!(Json::OtherNumber("1.5".to_string()).as_i64(), None);
}
