use wasm_http_filter::properties::PropertyStore;

#[test]
fn a_new_store_holds_nothing() {
    let store = PropertyStore::new();
    assert_eq!(store.get("request_path"), None);
}

#[test]
fn a_value_that_was_set_comes_back() {
    let mut store = PropertyStore::new();
    store.set("request_path", Some(&b"/orders/42"[..]));
    assert_eq!(store.get("request_path"), Some(&b"/orders/42"[..]));
    assert_eq!(store.get("other"), None);
}

#[test]
fn setting_again_replaces_the_value() {
    let mut store = PropertyStore::new();
    store.set("k", Some(&[1, 2, 3][..]));
    store.set("other", Some(&[7][..]));
    store.set("k", Some(&[4][..]));
    assert_eq!(store.get("k"), Some(&[4u8][..]));
    assert_eq!(store.get("other"), Some(&[7u8][..]));
}

#[test]
fn setting_nothing_removes_the_value() {
    let mut store = PropertyStore::new();
    store.set("k", Some(&[1][..]));
    store.set("other", Some(&[][..]));
    store.set("k", None);
    assert_eq!(store.get("k"), None);
    assert_eq!(store.get("other"), Some(&[][..]));
    store.set("absent", None);
    assert_eq!(store.get("absent"), None);
}

#[test]
fn stores_with_the_same_entries_are_equal() {
    let mut left = PropertyStore::new();
    let mut right = PropertyStore::new();
    left.set("k", Some(&[1][..]));
    left.set("k", Some(&[2][..]));
    right.set("k", Some(&[2][..]));
    assert_eq!(left, right);
}
