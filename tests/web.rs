use kkowa_proxy::web;
use kkowa_proxy::web::{route, WebRoute};
use kkowa_proxy::{HttpValidationError, Method, Web};

#[test]
fn healthz() {
    let resp = web::healthz();

    assert_eq!(resp.status.as_u16(), 200);
    assert_eq!(resp.payload, b"OK".to_vec());
    assert_eq!(resp.headers.get("content-type").unwrap().as_bytes(), b"text/plain");
}

#[test]
fn metrics() {
    let resp = web::metrics(Some(b"# metrics\n".to_vec()));

    assert_eq!(resp.status.as_u16(), 200);
    assert_eq!(resp.payload, b"# metrics\n".to_vec());
    assert_eq!(web::metrics(None).status.as_u16(), 501);
}

#[test]
fn not_found() {
    let resp = web::not_found();

    assert_eq!(resp.status.as_u16(), 404);
    assert_eq!(resp.payload, b"Not found".to_vec());
}

#[test]
fn web_routes() {
    assert_eq!(route(Some(Method::Get), "/ht"), WebRoute::Health);
    assert_eq!(route(Some(Method::Get), "/healthz"), WebRoute::Health);
    assert_eq!(route(Some(Method::Get), "/metrics"), WebRoute::Metrics);
    assert_eq!(route(Some(Method::Post), "/metrics"), WebRoute::NotFound);
    assert_eq!(route(None, "/healthz"), WebRoute::NotFound);
    assert_eq!(route(Some(Method::Get), "/healthz/"), WebRoute::NotFound);
    assert_eq!(route(Some(Method::Get), "/"), WebRoute::NotFound);
}

#[test]
fn models_start_empty() {
    assert!(HttpValidationError::new().detail.is_none());
    let _ = Web::new();
    let doc = kkowa_proxy::CreateDocument::new("f".to_string());
    assert_eq!(doc.data, kkowa_proxy::DocumentData::Absent);
}
