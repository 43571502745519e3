use hello::catalog::{ResponseBody, ResponseCatalog};

#[test]
fn body_keeps_its_text_and_length() {
    let body = ResponseBody::new(String::from("hello"));
    assert_eq!(body.as_str(), "hello");
    assert_eq!(body.as_bytes(), b"hello");
    assert_eq!(body.byte_len(), 5);
}

#[test]
fn body_length_is_in_bytes() {
    let body = ResponseBody::new(String::from("\u{e9}"));
    assert_eq!(body.byte_len(), 2);
    assert_eq!(body.as_bytes(), &[0xc3, 0xa9]);
}

#[test]
fn catalog_holds_both_payloads() {
    let catalog = ResponseCatalog::new(String::from("yes"), String::from("no"));
    assert_eq!(catalog.ok().as_str(), "yes");
    assert_eq!(catalog.not_found().as_str(), "no");
}

#[test]
fn load_needs_both_payloads() {
    assert!(ResponseCatalog::load(None, None).is_none());
    assert!(ResponseCatalog::load(Some(String::from("yes")), None).is_none());
    assert!(ResponseCatalog::load(None, Some(String::from("no"))).is_none());
}

#[test]
fn load_keeps_what_was_read() {
    let catalog =
        ResponseCatalog::load(Some(String::from("yes")), Some(String::from("no"))).unwrap();
    assert_eq!(catalog.ok().as_str(), "yes");
    assert_eq!(catalog.not_found().as_str(), "no");
}
