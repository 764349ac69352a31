use rust_htmx::api_sample;
use rust_htmx::form::FormError;
use rust_htmx::handlers::{add_item, Page};
use rust_htmx::reply::{malformed_reply, render_reply};
use rust_htmx::store::Store;

#[test]
fn rendered_text_is_sent_as_html() {
    let r = render_reply(Ok("<ul><li>a</li></ul>".to_string()));
    assert_eq!(r.status, 200);
    assert!(r.html);
    assert_eq!(r.body, "<ul><li>a</li></ul>");
}

#[test]
fn render_failure_is_an_internal_error_with_description() {
    let r = render_reply(Err("no such view".to_string()));
    assert_eq!(r.status, 500);
    assert!(!r.html);
    assert_eq!(r.body, "Failed to render template. Error: no such view");
}

#[test]
fn render_failure_keeps_the_append() {
    let store = Store::new();
    let pairs = vec![("todo".to_string(), "kept".to_string())];
    let page = add_item(&store, &pairs).unwrap();
    assert!(matches!(page, Page::ItemList { .. }));
    let r = render_reply(Err("forced".to_string()));
    assert_eq!(r.status, 500);
    assert_eq!(store.snapshot(), vec!["kept".to_string()]);
    let pairs = vec![("todo".to_string(), "next".to_string())];
    match add_item(&store, &pairs).unwrap() {
        Page::ItemList { items } => assert_eq!(items, vec!["kept".to_string(), "next".to_string()]),
        _ => panic!("expected the item list"),
    }
}

#[test]
fn missing_field_reply() {
    let r = malformed_reply(FormError::MissingField);
    assert_eq!(r.status, 422);
    assert!(!r.html);
    assert_eq!(r.body, "Failed to deserialize form body: missing field `todo`");
}

#[test]
fn duplicate_field_reply() {
    let r = malformed_reply(FormError::DuplicateField);
    assert_eq!(r.status, 422);
    assert_eq!(r.body, "Failed to deserialize form body: duplicate field `todo`");
    assert_eq!(FormError::DuplicateField.message(), "duplicate field `todo`");
}

#[test]
fn api_sample_text() {
    assert_eq!(api_sample(), "Hello from Axum backend!");
}
