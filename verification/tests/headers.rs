use wasm_http_filter::headers::Headers;

fn pair(name: &str, value: &str) -> (String, String) {
    (name.to_string(), value.to_string())
}

#[test]
fn new_headers_are_empty() {
    let headers = Headers::new();
    assert_eq!(headers.len(), 0);
    assert_eq!(headers.get("a"), None);
    assert_eq!(headers.into_pairs(), Vec::<(String, String)>::new());
}

#[test]
fn get_gives_the_first_value_under_a_name() {
    let headers = Headers::from_pairs(vec![pair("a", "1"), pair("b", "2"), pair("a", "3")]);
    assert_eq!(headers.get("a"), Some("1"));
    assert_eq!(headers.get("b"), Some("2"));
    assert_eq!(headers.get("c"), None);
    assert_eq!(headers.len(), 3);
}

#[test]
fn names_are_compared_as_written() {
    let headers = Headers::from_pairs(vec![pair("Host", "example")]);
    assert_eq!(headers.get("host"), None);
    assert_eq!(headers.get("Host"), Some("example"));
}

#[test]
fn set_appends_a_new_name() {
    let mut headers = Headers::from_pairs(vec![pair("a", "1")]);
    headers.set("b", "2");
    assert_eq!(headers.into_pairs(), vec![pair("a", "1"), pair("b", "2")]);
}

#[test]
fn set_replaces_every_entry_under_the_name() {
    let mut headers = Headers::from_pairs(vec![
        pair("a", "1"),
        pair("b", "2"),
        pair("a", "3"),
        pair("c", "4"),
    ]);
    headers.set("a", "9");
    assert_eq!(headers.get("a"), Some("9"));
    assert_eq!(headers.into_pairs(), vec![pair("b", "2"), pair("c", "4"), pair("a", "9")]);
}

#[test]
fn set_keeps_the_values_of_other_names() {
    let mut headers = Headers::from_pairs(vec![pair("a", "1"), pair("b", "2"), pair("b", "3")]);
    headers.set("a", "9");
    assert_eq!(headers.get("b"), Some("2"));
    assert_eq!(headers.len(), 3);
}

#[test]
fn set_twice_keeps_the_last_value() {
    let mut headers = Headers::new();
    headers.set("a", "1");
    headers.set("a", "2");
    assert_eq!(headers.into_pairs(), vec![pair("a", "2")]);
}

#[test]
fn pairs_come_back_as_they_went_in() {
    let pairs = vec![pair("b", "2"), pair("a", "1"), pair("b", "")];
    assert_eq!(Headers::from_pairs(pairs.clone()).into_pairs(), pairs);
}
