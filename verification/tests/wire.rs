use watchman_pdu::codec::defaulted;
use watchman_pdu::codec::optional;
use watchman_pdu::codec::required;
use watchman_pdu::codec::Decode;
use watchman_pdu::encode::is_false;
use watchman_pdu::encode::name_array;
use watchman_pdu::encode::text_array;
use watchman_pdu::encode::ObjectBuilder;
use watchman_pdu::error::DecodeError;
use watchman_pdu::error::Shape;
use watchman_pdu::wire::Wire;

fn text(s: &str) -> Wire {
    Wire::Text(s.to_string())
}

fn entry(key: &str, value: Wire) -> (String, Wire) {
    (key.to_string(), value)
}

#[test]
fn text_of_a_value() {
    assert_eq!(text("abc").as_text(), Some("abc".to_string()));
    assert_eq!(Wire::Bytes(b"abc".to_vec()).as_text(), Some("abc".to_string()));
    assert_eq!(
        Wire::Bytes(vec![0xe2, 0x82, 0xac]).as_text(),
        Some("\u{20ac}".to_string())
    );
    assert_eq!(Wire::Bytes(vec![0xe2, 0x82]).as_text(), None);
    assert_eq!(Wire::Bytes(vec![0x80]).as_text(), None);
    assert_eq!(Wire::Bytes(vec![]).as_text(), Some(String::new()));
    assert_eq!(Wire::Integer(1).as_text(), None);
    assert_eq!(Wire::Null.as_text(), None);
}

#[test]
fn field_of_a_map() {
    let map = Wire::Object(vec![
        entry("a", Wire::Integer(1)),
        entry("b", Wire::Integer(2)),
        entry("a", Wire::Integer(3)),
    ]);
    assert_eq!(map.get("a"), Some(&Wire::Integer(1)));
    assert_eq!(map.get("b"), Some(&Wire::Integer(2)));
    assert_eq!(map.get("c"), None);
    assert_eq!(map.get(""), None);
    assert_eq!(Wire::Array(vec![text("a")]).get("a"), None);
    assert_eq!(text("a").get("a"), None);
}

#[test]
fn copy_of_a_value() {
    let value = Wire::Object(vec![
        entry("list", Wire::Array(vec![Wire::Null, Wire::Bool(true), Wire::Real(42)])),
        entry("bytes", Wire::Bytes(vec![0, 255])),
        entry("map", Wire::Object(vec![entry("n", Wire::Integer(-7)), entry("s", text("x"))])),
    ]);
    assert_eq!(value.clone(), value);
}

#[test]
fn makers_of_values() {
    assert_eq!(Wire::text("abc"), Wire::Text("abc".to_string()));
    assert_eq!(Wire::array(vec![Wire::Null]), Wire::Array(vec![Wire::Null]));
    assert_eq!(
        Wire::object(vec![entry("k", Wire::Null)]),
        Wire::Object(vec![entry("k", Wire::Null)])
    );
}

#[test]
fn flag_is_false() {
    assert!(is_false(&false));
    assert!(!is_false(&true));
}

#[test]
fn arrays_of_texts() {
    assert_eq!(
        text_array(&vec!["a".to_string(), "b".to_string()]),
        Wire::Array(vec![text("a"), text("b")])
    );
    assert_eq!(name_array(&vec!["name", "size"]), Wire::Array(vec![text("name"), text("size")]));
    assert_eq!(name_array(&vec![]), Wire::Array(vec![]));
}

#[test]
fn builder_keeps_the_order_and_leaves_out_what_is_absent() {
    let mut b = ObjectBuilder::new();
    b.put("first", Wire::Integer(1));
    b.put_if(false, "skipped", Wire::Integer(2));
    b.put_if(true, "second", Wire::Integer(2));
    b.put_some("none", None);
    b.put_some("third", Some(Wire::Null));
    b.put_flag("off", false);
    b.put_flag("on", true);
    b.put_text("text", &"t".to_string());
    b.put_some_text("no_text", &None);
    b.put_some_text("some_text", &Some("s".to_string()));
    b.put_some_integer("no_integer", &None);
    b.put_some_integer("some_integer", &Some(-3));
    b.put_some_texts("no_texts", &None);
    b.put_some_texts("some_texts", &Some(vec!["x".to_string()]));
    let mut more = ObjectBuilder::new();
    more.put("last", Wire::Bool(false));
    b.append(more);
    assert_eq!(
        b.finish(),
        Wire::Object(vec![
            entry("first", Wire::Integer(1)),
            entry("second", Wire::Integer(2)),
            entry("third", Wire::Null),
            entry("on", Wire::Bool(true)),
            entry("text", text("t")),
            entry("some_text", text("s")),
            entry("some_integer", Wire::Integer(-3)),
            entry("some_texts", Wire::Array(vec![text("x")])),
            entry("last", Wire::Bool(false)),
        ])
    );
}

#[test]
fn empty_builder() {
    assert_eq!(ObjectBuilder::new().finish(), Wire::Object(vec![]));
}

#[test]
fn scalars_from_the_wire() {
    assert_eq!(bool::decode(&Wire::Bool(true)), Ok(true));
    assert_eq!(bool::decode(&Wire::Integer(1)), Err(DecodeError::Mismatch(Shape::Bool)));
    assert_eq!(i64::decode(&Wire::Integer(-9)), Ok(-9));
    assert_eq!(i64::decode(&Wire::Real(9)), Err(DecodeError::Mismatch(Shape::Integer)));
    assert_eq!(i64::decode(&text("9")), Err(DecodeError::Mismatch(Shape::Integer)));
    assert_eq!(u64::decode(&Wire::Integer(9)), Ok(9));
    assert_eq!(u64::decode(&Wire::Integer(0)), Ok(0));
    assert_eq!(u64::decode(&Wire::Integer(i64::MAX)), Ok(i64::MAX as u64));
    assert_eq!(u64::decode(&Wire::Integer(-1)), Err(DecodeError::Mismatch(Shape::Unsigned)));
    assert_eq!(u64::decode(&Wire::Null), Err(DecodeError::Mismatch(Shape::Unsigned)));
    assert_eq!(String::decode(&text("s")), Ok("s".to_string()));
    assert_eq!(String::decode(&Wire::Null), Err(DecodeError::Mismatch(Shape::Text)));
    assert_eq!(Wire::decode(&Wire::Real(5)), Ok(Wire::Real(5)));
}

#[test]
fn lists_from_the_wire() {
    let list = Wire::Array(vec![Wire::Integer(1), Wire::Integer(2)]);
    assert_eq!(Vec::<i64>::decode(&list), Ok(vec![1, 2]));
    assert_eq!(Vec::<i64>::decode(&Wire::Array(vec![])), Ok(vec![]));
    let mixed = Wire::Array(vec![Wire::Integer(1), text("x"), Wire::Bool(true)]);
    assert_eq!(Vec::<i64>::decode(&mixed), Err(DecodeError::Mismatch(Shape::Integer)));
    assert_eq!(Vec::<i64>::decode(&Wire::Integer(1)), Err(DecodeError::Mismatch(Shape::Array)));
    let nested = Wire::Array(vec![Wire::Array(vec![Wire::Bool(true)]), Wire::Array(vec![])]);
    assert_eq!(Vec::<Vec<bool>>::decode(&nested), Ok(vec![vec![true], vec![]]));
}

#[test]
fn first_failure_in_a_list_is_reported() {
    let list = Wire::Array(vec![Wire::Integer(1), Wire::Integer(-1), text("x")]);
    assert_eq!(Vec::<u64>::decode(&list), Err(DecodeError::Mismatch(Shape::Unsigned)));
    let other = Wire::Array(vec![Wire::Array(vec![]), Wire::Null, Wire::Array(vec![text("x")])]);
    assert_eq!(Vec::<Vec<bool>>::decode(&other), Err(DecodeError::Mismatch(Shape::Array)));
}

#[test]
fn three_ways_to_a_field() {
    let map = Wire::Object(vec![
        entry("n", Wire::Integer(5)),
        entry("null", Wire::Null),
        entry("s", text("x")),
    ]);
    assert_eq!(required::<i64>(&map, "n"), Ok(5));
    assert_eq!(required::<i64>(&map, "m"), Err(DecodeError::MissingField("m")));
    assert_eq!(required::<i64>(&map, "s"), Err(DecodeError::Field("s", Shape::Integer)));
    assert_eq!(required::<i64>(&map, "null"), Err(DecodeError::Field("null", Shape::Integer)));
    assert_eq!(required::<i64>(&Wire::Null, "n"), Err(DecodeError::Mismatch(Shape::Object)));

    assert_eq!(optional::<i64>(&map, "n"), Ok(Some(5)));
    assert_eq!(optional::<i64>(&map, "m"), Ok(None));
    assert_eq!(optional::<i64>(&map, "null"), Ok(None));
    assert_eq!(optional::<i64>(&map, "s"), Err(DecodeError::Field("s", Shape::Integer)));
    assert_eq!(optional::<i64>(&Wire::Array(vec![]), "n"), Err(DecodeError::Mismatch(Shape::Object)));

    assert_eq!(defaulted::<i64>(&map, "n", 9), Ok(5));
    assert_eq!(defaulted::<i64>(&map, "m", 9), Ok(9));
    assert_eq!(defaulted::<i64>(&map, "null", 9), Err(DecodeError::Field("null", Shape::Integer)));
    assert_eq!(defaulted::<i64>(&text("x"), "n", 9), Err(DecodeError::Mismatch(Shape::Object)));
}

#[test]
fn failure_under_a_key() {
    assert_eq!(
        DecodeError::Mismatch(Shape::Text).under("name"),
        DecodeError::Field("name", Shape::Text)
    );
    assert_eq!(
        DecodeError::MissingField("inner").under("outer"),
        DecodeError::MissingField("inner")
    );
    assert_eq!(
        DecodeError::Field("inner", Shape::Bool).under("outer"),
        DecodeError::Field("inner", Shape::Bool)
    );
}
