use std::collections::HashMap;

use serde_bser::value::Value;
use watchman_pdu::codec::Decode;
use watchman_pdu::error::DecodeError;
use watchman_pdu::error::Shape;
use watchman_pdu::scalar::ContentSha1Hex;
use watchman_pdu::wire::Wire;

/// The wire value that holds what `value` holds.
fn to_wire(value: &Value) -> Wire {
    match value {
        Value::Null => Wire::Null,
        Value::Bool(b) => Wire::Bool(*b),
        Value::Integer(n) => Wire::Integer(*n),
        Value::Real(r) => Wire::Real(r.to_bits()),
        Value::Utf8String(s) => Wire::Text(s.clone()),
        Value::ByteString(b) => Wire::Bytes(b.as_bytes().to_vec()),
        Value::Array(items) => Wire::Array(items.iter().map(to_wire).collect()),
        Value::Object(entries) => Wire::Object(
            entries
                .iter()
                .map(|(key, value)| (key.clone(), to_wire(value)))
                .collect(),
        ),
    }
}

/// Sends `input` through the binary encoding and reads the result as a
/// content hash.
fn convert_bser_value(input: Value) -> ContentSha1Hex {
    let binary = serde_bser::ser::serialize(Vec::new(), input).unwrap();
    let value: Value = serde_bser::from_slice(&binary).unwrap();
    ContentSha1Hex::decode(&to_wire(&value)).unwrap()
}

#[test]
fn test_content_sha1hex_hash() {
    let value: ContentSha1Hex =
        convert_bser_value("e820c2c600a36f05ba905cf1bf32c4834e804e22".into());
    assert_eq!(
        value,
        ContentSha1Hex::Hash("e820c2c600a36f05ba905cf1bf32c4834e804e22".into())
    );
}

#[test]
fn test_content_sha1hex_error() {
    let mut error_obj: HashMap<String, Value> = HashMap::new();
    error_obj.insert("error".to_string(), "out of cookies".into());

    let value: ContentSha1Hex = convert_bser_value(error_obj.into());
    assert_eq!(
        value,
        ContentSha1Hex::Error {
            error: "out of cookies".into()
        }
    );
}

#[test]
fn test_content_sha1hex_none() {
    let value: ContentSha1Hex = convert_bser_value(Value::Null);
    assert_eq!(value, ContentSha1Hex::Deleted);
}

#[test]
fn content_hash_from_byte_string_of_utf8() {
    let wire = Wire::Bytes(b"e820c2c600a36f05ba905cf1bf32c4834e804e22".to_vec());
    assert_eq!(
        ContentSha1Hex::decode(&wire),
        Ok(ContentSha1Hex::Hash(
            "e820c2c600a36f05ba905cf1bf32c4834e804e22".to_string()
        ))
    );
}

#[test]
fn content_hash_refuses_bytes_that_are_not_utf8() {
    let wire = Wire::Bytes(vec![0xff, 0xfe, 0x41]);
    assert_eq!(
        ContentSha1Hex::decode(&wire),
        Err(DecodeError::Mismatch(Shape::ContentSha1Hex))
    );
}

#[test]
fn content_hash_refuses_other_shapes() {
    let mismatch = Err(DecodeError::Mismatch(Shape::ContentSha1Hex));
    assert_eq!(ContentSha1Hex::decode(&Wire::Integer(40)), mismatch);
    assert_eq!(ContentSha1Hex::decode(&Wire::Bool(false)), mismatch);
    assert_eq!(ContentSha1Hex::decode(&Wire::Real(0)), mismatch);
    assert_eq!(ContentSha1Hex::decode(&Wire::Array(vec![])), mismatch);
    assert_eq!(ContentSha1Hex::decode(&Wire::Object(vec![])), mismatch);
    let not_a_message = Wire::Object(vec![("error".to_string(), Wire::Integer(1))]);
    assert_eq!(ContentSha1Hex::decode(&not_a_message), mismatch);
    let other_key = Wire::Object(vec![("errors".to_string(), Wire::Text("x".to_string()))]);
    assert_eq!(ContentSha1Hex::decode(&other_key), mismatch);
}

#[test]
fn content_hash_error_ignores_other_keys() {
    let wire = Wire::Object(vec![
        ("code".to_string(), Wire::Integer(2)),
        ("error".to_string(), Wire::Text("X".to_string())),
    ]);
    assert_eq!(
        ContentSha1Hex::decode(&wire),
        Ok(ContentSha1Hex::Error {
            error: "X".to_string()
        })
    );
}

#[test]
fn content_hash_takes_any_text_as_the_hash() {
    assert_eq!(
        ContentSha1Hex::decode(&Wire::Text(String::new())),
        Ok(ContentSha1Hex::Hash(String::new()))
    );
}
