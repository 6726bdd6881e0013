use abraca::api::okx::value::{
    field, find_field, find_index, optional_text_value, text_entry, text_value, Value,
};
use abraca::common::msgs::Num;

fn text(s: &str) -> Value {
    Value::Text { text: s.to_string(), num: None }
}

fn number(s: &str, bits: u64) -> Value {
    Value::Text { text: s.to_string(), num: Some(Num::from_bits(bits)) }
}

fn object() -> Value {
    Value::Object(vec![
        field("a", text("first")),
        field("n", number("1.5", 7)),
        field("a", text("second")),
        field("list", Value::List(vec![text("x"), Value::Null])),
        field("null", Value::Null),
        field("other", Value::Other),
        field("", text("unnamed")),
    ])
}

#[test]
fn members_are_found_by_name() {
    let v = object();
    assert!(matches!(v.get("a"), Some(Value::Text { text, .. }) if text == "first"));
    assert!(matches!(v.get("null"), Some(Value::Null)));
    assert!(matches!(v.get("other"), Some(Value::Other)));
    assert!(matches!(v.get(""), Some(Value::Text { text, .. }) if text == "unnamed"));
    assert!(v.get("A").is_none());
    assert!(v.get("missing").is_none());
    assert!(text("a").get("a").is_none());
    assert!(Value::List(vec![object()]).get("a").is_none());
}

#[test]
fn the_first_of_equal_names_is_found() {
    if let Value::Object(fields) = object() {
        assert_eq!(find_index(&fields, "a"), Some(0));
        assert_eq!(find_index(&fields, "n"), Some(1));
        assert_eq!(find_index(&fields, ""), Some(6));
        assert_eq!(find_index(&fields, "z"), None);
        assert!(matches!(find_field(&fields, "a"), Some(Value::Text { text, .. }) if text == "first"));
        assert!(find_field(&fields, "z").is_none());
        assert_eq!(find_index(&Vec::new(), "a"), None);
    } else {
        panic!("no object");
    }
}

#[test]
fn texts_numbers_and_lists_are_told_apart() {
    let v = object();
    assert_eq!(v.get_text("a"), Some("first"));
    assert_eq!(v.get_text("n"), Some("1.5"));
    assert_eq!(v.get_text("list"), None);
    assert_eq!(v.get_text("null"), None);
    assert_eq!(v.get_text("missing"), None);
    assert_eq!(v.get_num("n"), Some(Some(Num::from_bits(7))));
    assert_eq!(v.get_num("a"), Some(None));
    assert_eq!(v.get_num("list"), None);
    assert_eq!(v.get_num("missing"), None);
    assert_eq!(v.get_list("list").map(|items| items.len()), Some(2));
    assert!(v.get_list("a").is_none());
    assert!(v.get_list("missing").is_none());
    assert_eq!(v.get_string("a"), Some("first".to_string()));
    assert_eq!(v.get_string("other"), None);
}

#[test]
fn optional_strings_may_be_absent_or_null() {
    let v = object();
    assert_eq!(v.get_optional_string("a"), Some(Some("first".to_string())));
    assert_eq!(v.get_optional_string("null"), Some(None));
    assert_eq!(v.get_optional_string("missing"), Some(None));
    assert_eq!(v.get_optional_string("list"), None);
    assert_eq!(v.get_optional_string("other"), None);
    assert_eq!(Value::Null.get_optional_string("a"), Some(None));
}

#[test]
fn lists_are_taken_out_whole() {
    let items = object().take_list("list").unwrap();
    assert_eq!(items.len(), 2);
    assert!(matches!(&items[0], Value::Text { text, .. } if text == "x"));
    assert!(matches!(&items[1], Value::Null));
    assert!(object().take_list("a").is_none());
    assert!(object().take_list("missing").is_none());
    assert!(Value::Other.take_list("list").is_none());
}

#[test]
fn numbers_are_no_texts() {
    let v = Value::Object(vec![
        field("whole", Value::Integer(7)),
        field("bare", Value::Number(Num::from_bits(1))),
        field("written", Value::Decimal(Num::from_bits(2))),
    ]);
    for name in ["whole", "bare", "written"] {
        assert!(v.get(name).is_some());
        assert_eq!(v.get_text(name), None);
        assert_eq!(v.get_num(name), None);
        assert_eq!(v.get_optional_string(name), None);
    }
}

#[test]
fn texts_and_fields_are_made_from_strings() {
    assert!(matches!(text_value("abc"), Value::Text { text, num: None } if text == "abc"));
    assert!(matches!(text_value(""), Value::Text { text, num: None } if text.is_empty()));
    assert!(matches!(optional_text_value(&None), Value::Null));
    assert!(matches!(
        optional_text_value(&Some("x".to_string())),
        Value::Text { text, num: None } if text == "x"
    ));
    let f = field("name", Value::Integer(3));
    assert_eq!(f.name, "name");
    assert!(matches!(f.value, Value::Integer(3)));
    let f = text_entry("op", "login");
    assert_eq!(f.name, "op");
    assert!(matches!(f.value, Value::Text { text, num: None } if text == "login"));
}
