use gib::response::{api_index, concat5, decimal, upload_form, Body, ContentType};

#[test]
fn api_index_reports_version() {
    let r = api_index();
    assert_eq!(r.status, 200);
    assert_eq!(r.content_type, ContentType::Unspecified);
    assert!(matches!(r.body, Body::Text(ref t) if t == "{\"gib-server-version\": \"1.0.0\"}"));
}

#[test]
fn upload_form_is_html() {
    let r = upload_form();
    assert_eq!(r.status, 200);
    assert!(matches!(r.body, Body::Text(ref t) if t.contains("enctype=\"multipart/form-data\"")));
}

#[test]
fn decimals() {
    assert_eq!(decimal(0), "0");
    assert_eq!(decimal(10), "10");
    assert_eq!(decimal(-5), "-5");
    assert_eq!(decimal(i32::MIN), "-2147483648");
    assert_eq!(concat5("a", "b", "", "d", "e"), "abde");
}

#[test]
fn decimals_at_the_edges() {
    assert_eq!(decimal(i32::MIN), "-2147483648");
    assert_eq!(decimal(i32::MAX), "2147483647");
    assert_eq!(decimal(-5), "-5");
    assert_eq!(decimal(9), "9");
    assert_eq!(decimal(1234567890), "1234567890");
}
