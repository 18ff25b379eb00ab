use audible_api::error::{AppError, ErrorKind};
use audible_api::json::Json;
use audible_api::text::{chars_of, text_eq};
use audible_api::text_map::TextMap;

#[test]
fn json_get_takes_the_last_member() {
    let json = Json::Object(vec![
        ("a".to_string(), Json::Bool(true)),
        ("b".to_string(), Json::Null),
        ("a".to_string(), Json::Text("x".to_string())),
    ]);
    assert_eq!(json.get("a"), Some(&Json::Text("x".to_string())));
    assert_eq!(json.get("b"), Some(&Json::Null));
    assert!(json.get("b").is_some());
    assert_eq!(json.get("c"), None);
    assert_eq!(Json::Array(vec![]).get("a"), None);
    assert_eq!(Json::Null.get("a"), None);
}

#[test]
fn json_accessors() {
    assert_eq!(Json::text("hi").as_str(), Some("hi"));
    assert_eq!(Json::Number("1".to_string()).as_str(), None);
    assert_eq!(Json::Null.as_str(), None);
    let items = vec![Json::Bool(false), Json::Null];
    assert_eq!(Json::array(vec![Json::Bool(false), Json::Null]).as_array(), Some(&items));
    assert_eq!(Json::text("hi").as_array(), None);
    assert_eq!(
        Json::object(vec![("k".to_string(), Json::Null)]),
        Json::Object(vec![("k".to_string(), Json::Null)])
    );
}

#[test]
fn json_duplicate_is_equal() {
    let json = Json::Object(vec![
        ("n".to_string(), Json::Number("-1.5e3".to_string())),
        (
            "list".to_string(),
            Json::Array(vec![
                Json::Null,
                Json::Bool(true),
                Json::Object(vec![("deep".to_string(), Json::Text("é".to_string()))]),
            ]),
        ),
    ]);
    assert_eq!(json.duplicate(), json);
}

#[test]
fn text_map_inserts_replaces_and_removes() {
    let mut map: TextMap<u32> = TextMap::new();
    assert_eq!(map.len(), 0);
    assert_eq!(map.insert("a".to_string(), 1), None);
    assert_eq!(map.insert("b".to_string(), 2), None);
    assert_eq!(map.insert("a".to_string(), 3), Some(1));
    assert_eq!(map.len(), 2);
    assert_eq!(map.get("a"), Some(&3));
    assert_eq!(map.get("b"), Some(&2));
    assert_eq!(map.get("c"), None);
    assert!(map.contains_key("a"));
    assert!(!map.contains_key("A"));
    assert_eq!(map.remove("a"), Some(3));
    assert_eq!(map.remove("a"), None);
    assert_eq!(map.len(), 1);
    assert!(!map.contains_key("a"));
    assert_eq!(map.get("b"), Some(&2));
}

#[test]
fn text_helpers() {
    assert!(text_eq("abc", "abc"));
    assert!(text_eq("", ""));
    assert!(!text_eq("abc", "abd"));
    assert!(!text_eq("abc", "ab"));
    assert!(!text_eq("é", "e"));
    assert_eq!(chars_of("aé\n"), vec!['a', 'é', '\n']);
}

#[test]
fn error_response_text() {
    let err = AppError::new(ErrorKind::DeviceNotFound, "Device not found");
    assert_eq!(err.kind(), ErrorKind::DeviceNotFound);
    assert_eq!(err.message, "Device not found");
    assert_eq!(err.response_text(), "Error: Device not found");
}
