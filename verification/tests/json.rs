use unspeech::json::{
    bool_value, number_value, string_value, strings_value, JsonMember, JsonNumber, JsonObject,
    JsonValue,
};

fn number(n: f64) -> JsonNumber {
    JsonNumber::from_bits(n.to_bits()).unwrap()
}

fn text(s: &str) -> JsonValue {
    JsonValue::String(s.to_string())
}

#[test]
fn number_keeps_its_bits() {
    assert_eq!(number(1.5).to_bits(), 1.5f64.to_bits());
    assert_eq!(f64::from_bits(number(-0.25).to_bits()), -0.25);
    assert_eq!(number(0.0).to_bits(), 0);
    assert_eq!(number(f64::MAX).to_bits(), f64::MAX.to_bits());
    assert_eq!(number(f64::MIN_POSITIVE / 4.0).to_bits(), (f64::MIN_POSITIVE / 4.0).to_bits());
}

#[test]
fn number_refuses_infinities_and_nans() {
    assert!(JsonNumber::from_bits(f64::INFINITY.to_bits()).is_none());
    assert!(JsonNumber::from_bits(f64::NEG_INFINITY.to_bits()).is_none());
    assert!(JsonNumber::from_bits(f64::NAN.to_bits()).is_none());
    assert!(JsonNumber::from_bits(u64::MAX).is_none());
    assert!(JsonNumber::from_bits(0x7ff0_0000_0000_0001).is_none());
    assert!(JsonNumber::from_bits(0x7fef_ffff_ffff_ffff).is_some());
}

#[test]
fn new_object_is_empty() {
    let object = JsonObject::new();
    assert!(object.members.is_empty());
    assert_eq!(object.get("a"), None);
    assert_eq!(object.position("a"), None);
}

#[test]
fn insert_then_get() {
    let mut object = JsonObject::new();
    object.insert("a".to_string(), JsonValue::Bool(true));
    object.insert("b".to_string(), JsonValue::Null);
    assert_eq!(object.get("a"), Some(&JsonValue::Bool(true)));
    assert_eq!(object.get("b"), Some(&JsonValue::Null));
    assert_eq!(object.get("c"), None);
    assert_eq!(object.get("A"), None);
    assert_eq!(object.position("b"), Some(1));
}

#[test]
fn insert_replaces_an_existing_member() {
    let mut object = JsonObject::new();
    object.insert("a".to_string(), JsonValue::Bool(true));
    object.insert("b".to_string(), JsonValue::Null);
    object.insert("a".to_string(), text("again"));
    assert_eq!(object.get("a"), Some(&text("again")));
    assert_eq!(object.get("b"), Some(&JsonValue::Null));
    assert_eq!(object.members.len(), 2);
}

#[test]
fn the_last_member_of_a_name_counts() {
    let object = JsonObject {
        members: vec![
            JsonMember { key: "a".to_string(), value: JsonValue::Bool(false) },
            JsonMember { key: "b".to_string(), value: JsonValue::Null },
            JsonMember { key: "a".to_string(), value: JsonValue::Bool(true) },
        ],
    };
    assert_eq!(object.position("a"), Some(2));
    assert_eq!(object.get("a"), Some(&JsonValue::Bool(true)));
    assert_eq!(object.try_get_bool("a"), Some(true));
}

#[test]
fn put_opt_leaves_out_what_is_not_set() {
    let mut object = JsonObject::new();
    object.put_opt("a", None);
    assert!(object.members.is_empty());
    object.put_opt("a", Some(JsonValue::Bool(false)));
    object.put("b", text("x"));
    assert_eq!(object.get("a"), Some(&JsonValue::Bool(false)));
    assert_eq!(object.get("b"), Some(&text("x")));
    assert_eq!(object.members.len(), 2);
}

#[test]
fn try_get_reads_values_of_the_right_kind() {
    let mut object = JsonObject::new();
    object.put("flag", JsonValue::Bool(true));
    object.put("count", JsonValue::Number(number(3.0)));
    object.put("name", text("n"));
    object.put("ids", JsonValue::Array(vec![text("a"), text("b")]));
    assert_eq!(object.try_get_bool("flag"), Some(true));
    assert_eq!(object.try_get_number("count"), Some(number(3.0)));
    assert_eq!(object.try_get_string("name"), Some("n".to_string()));
    assert_eq!(object.try_get_strings("ids"), Some(vec!["a".to_string(), "b".to_string()]));
}

#[test]
fn try_get_treats_the_wrong_kind_as_absent() {
    let mut object = JsonObject::new();
    object.put("flag", text("true"));
    object.put("count", text("3"));
    object.put("name", JsonValue::Number(number(1.0)));
    object.put("ids", JsonValue::Array(vec![text("a"), JsonValue::Null]));
    object.put("none", JsonValue::Null);
    assert_eq!(object.try_get_bool("flag"), None);
    assert_eq!(object.try_get_number("count"), None);
    assert_eq!(object.try_get_string("name"), None);
    assert_eq!(object.try_get_strings("ids"), None);
    assert_eq!(object.try_get_strings("name"), None);
    assert_eq!(object.try_get_bool("none"), None);
    assert_eq!(object.try_get_bool("missing"), None);
    assert_eq!(object.try_get_number("missing"), None);
    assert_eq!(object.try_get_string("missing"), None);
    assert_eq!(object.try_get_strings("missing"), None);
}

#[test]
fn optional_members_tell_unset_from_unreadable() {
    let mut object = JsonObject::new();
    object.put("n", JsonValue::Number(number(0.5)));
    object.put("b", JsonValue::Bool(false));
    object.put("s", text("v"));
    object.put("null", JsonValue::Null);
    assert_eq!(object.optional_number("n"), Some(Some(number(0.5))));
    assert_eq!(object.optional_number("null"), Some(None));
    assert_eq!(object.optional_number("missing"), Some(None));
    assert_eq!(object.optional_number("s"), None);
    assert_eq!(object.optional_bool("b"), Some(Some(false)));
    assert_eq!(object.optional_bool("null"), Some(None));
    assert_eq!(object.optional_bool("missing"), Some(None));
    assert_eq!(object.optional_bool("n"), None);
    assert_eq!(object.optional_string("s"), Some(Some("v".to_string())));
    assert_eq!(object.optional_string("null"), Some(None));
    assert_eq!(object.optional_string("missing"), Some(None));
    assert_eq!(object.optional_string("b"), None);
}

#[test]
fn values_are_read_by_kind() {
    assert_eq!(JsonValue::Bool(true).as_bool(), Some(true));
    assert_eq!(JsonValue::Null.as_bool(), None);
    assert_eq!(JsonValue::Number(number(2.0)).as_number(), Some(number(2.0)));
    assert_eq!(text("2").as_number(), None);
    assert_eq!(text("2").as_string(), Some("2".to_string()));
    assert_eq!(JsonValue::Bool(true).as_string(), None);
    assert_eq!(JsonValue::Array(vec![]).as_strings(), Some(vec![]));
    assert_eq!(JsonValue::Array(vec![JsonValue::Bool(true)]).as_strings(), None);
    assert_eq!(text("a").as_strings(), None);
    assert!(JsonValue::Object(JsonObject::new()).as_object().is_some());
    assert!(JsonValue::Array(vec![]).as_object().is_none());
}

#[test]
fn from_strings_keeps_the_order() {
    assert_eq!(
        JsonValue::from_strings(&vec!["b".to_string(), "a".to_string(), "c".to_string()]),
        JsonValue::Array(vec![text("b"), text("a"), text("c")])
    );
    assert_eq!(JsonValue::from_strings(&vec![]), JsonValue::Array(vec![]));
}

#[test]
fn optional_values_as_json() {
    assert_eq!(number_value(Some(number(1.0))), Some(JsonValue::Number(number(1.0))));
    assert_eq!(number_value(None), None);
    assert_eq!(bool_value(Some(false)), Some(JsonValue::Bool(false)));
    assert_eq!(bool_value(None), None);
    assert_eq!(string_value(Some("s".to_string())), Some(text("s")));
    assert_eq!(string_value(None), None);
    assert_eq!(strings_value(&Some(vec!["a".to_string()])), Some(JsonValue::Array(vec![text("a")])));
    assert_eq!(strings_value(&None), None);
}

#[test]
fn clones_hold_the_same_values() {
    let mut inner = JsonObject::new();
    inner.put("n", JsonValue::Number(number(1.5)));
    inner.put("list", JsonValue::Array(vec![text("a"), JsonValue::Null, JsonValue::Bool(true)]));
    let mut outer = JsonObject::new();
    outer.put("inner", JsonValue::Object(inner));
    outer.put("s", text("x"));
    let value = JsonValue::Object(outer);
    let copy = value.clone();
    assert_eq!(copy, value);
    let object = value.as_object().unwrap();
    assert_eq!(object.clone(), *object);
    assert_eq!(object.members[0].clone(), object.members[0]);
    assert_eq!(JsonValue::Null.clone(), JsonValue::Null);
    assert_eq!(JsonValue::Array(vec![]).clone(), JsonValue::Array(vec![]));
}
