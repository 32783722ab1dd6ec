use wasm_http_filter::metadata::{frame, Metadata, Timestamp, FILTER_VERSION};
use wasm_http_filter::utf8::decode_or_empty;

fn at(secs: u64, nanos: u32) -> Timestamp {
    Timestamp { secs_since_epoch: secs, nanos_since_epoch: nanos }
}

#[test]
fn the_version_is_fixed() {
    assert_eq!(FILTER_VERSION, "0.1.0");
    assert_eq!(Metadata::new(String::new(), None).filter_version(), "0.1.0");
}

#[test]
fn metadata_keeps_what_it_was_made_of() {
    let metadata = Metadata::new("/a".to_string(), Some(at(5, 6)));
    assert_eq!(metadata.request_path(), "/a");
    assert_eq!(metadata.timestamp(), Some(at(5, 6)));
}

#[test]
fn frame_writes_the_members_in_order() {
    assert_eq!(
        frame("\"/health\"", "\"0.1.0\"", at(1700000000, 123)),
        "{\"request_path\":\"/health\",\"filter_version\":\"0.1.0\",\"timestamp\":{\"secs_since_epoch\":1700000000,\"nanos_since_epoch\":123}}"
    );
}

#[test]
fn frame_takes_the_literals_as_they_are() {
    assert_eq!(
        frame("P", "V", at(0, 0)),
        "{\"request_path\":P,\"filter_version\":V,\"timestamp\":{\"secs_since_epoch\":0,\"nanos_since_epoch\":0}}"
    );
}

#[test]
fn to_json_encodes_the_metadata() {
    let metadata = Metadata::new("/orders/42".to_string(), Some(at(1, 999_999_999)));
    assert_eq!(
        metadata.to_json().unwrap(),
        "{\"request_path\":\"/orders/42\",\"filter_version\":\"0.1.0\",\"timestamp\":{\"secs_since_epoch\":1,\"nanos_since_epoch\":999999999}}"
    );
}

#[test]
fn to_json_escapes_the_path() {
    let metadata = Metadata::new("/a\"b\\c\n".to_string(), Some(at(0, 0)));
    let json = metadata.to_json().unwrap();
    assert!(json.starts_with("{\"request_path\":\"/a\\\"b\\\\c\\n\","), "{}", json);
    let value: serde_json::Value = serde_json::from_str(&json).unwrap();
    assert_eq!(value.get("request_path").and_then(|path| path.as_str()), Some("/a\"b\\c\n"));
}

#[test]
fn to_json_of_an_empty_path() {
    let metadata = Metadata::new(String::new(), Some(at(2, 3)));
    let json = metadata.to_json().unwrap();
    assert!(json.starts_with("{\"request_path\":\"\","), "{}", json);
}

#[test]
fn to_json_is_a_json_object_of_three_members() {
    let metadata = Metadata::new("/x".to_string(), Some(at(u64::MAX, u32::MAX)));
    let value: serde_json::Value = serde_json::from_str(&metadata.to_json().unwrap()).unwrap();
    let object = value.as_object().unwrap();
    assert_eq!(object.len(), 3);
    assert_eq!(object["filter_version"].as_str(), Some("0.1.0"));
    assert_eq!(object["timestamp"]["secs_since_epoch"].as_u64(), Some(u64::MAX));
    assert_eq!(object["timestamp"]["nanos_since_epoch"].as_u64(), Some(u32::MAX as u64));
}

#[test]
fn a_time_before_the_epoch_has_no_encoding() {
    assert_eq!(Metadata::new("/a".to_string(), None).to_json(), None);
}

#[test]
fn bytes_are_read_as_utf8() {
    assert_eq!(decode_or_empty("/caf\u{e9}/\u{1f600}".as_bytes()), "/caf\u{e9}/\u{1f600}");
    assert_eq!(decode_or_empty(b""), "");
}

#[test]
fn bytes_that_are_no_utf8_give_the_empty_text() {
    assert_eq!(decode_or_empty(&[b'/', 0xff, b'a']), "");
    assert_eq!(decode_or_empty(&[0xc3]), "");
    assert_eq!(decode_or_empty(&[0xed, 0xa0, 0x80]), "");
}
