use webmq::adapter::{
    route, Adapter, QueueAdapter, Request, Response, Route, STATUS_ACCEPTED, STATUS_NOT_FOUND,
    STATUS_NO_CONTENT, STATUS_OK,
};

fn request(method: &str, path: &str, body: &[u8]) -> Request {
    Request { method: method.to_string(), path: path.to_string(), body: body.to_vec() }
}

fn send(a: &mut QueueAdapter, method: &str, path: &str, body: &[u8]) -> Response {
    a.call(request(method, path, body))
}

#[test]
fn post_then_get_returns_body_then_no_content() {
    let mut a = QueueAdapter::new();
    let r = send(&mut a, "POST", "/queue/orders", b"hello");
    assert_eq!(r.status, 202);
    assert!(r.body.is_empty());
    let r = send(&mut a, "GET", "/queue/orders", b"");
    assert_eq!(r.status, 200);
    assert_eq!(r.body, b"hello".to_vec());
    let r = send(&mut a, "GET", "/queue/orders", b"");
    assert_eq!(r.status, 204);
    assert!(r.body.is_empty());
}

#[test]
fn unknown_routes_are_not_found() {
    let mut a = QueueAdapter::new();
    assert_eq!(send(&mut a, "GET", "/unknown", b"").status, 404);
    assert_eq!(send(&mut a, "DELETE", "/queue/x", b"").status, 404);
}

#[test]
fn missing_queue_name_is_not_found() {
    let mut a = QueueAdapter::new();
    assert_eq!(send(&mut a, "GET", "/queue", b"").status, STATUS_NOT_FOUND);
    assert_eq!(send(&mut a, "GET", "/queue/", b"").status, STATUS_NOT_FOUND);
    assert_eq!(send(&mut a, "POST", "/queue//x", b"b").status, STATUS_NOT_FOUND);
    assert_eq!(send(&mut a, "POST", "/queues/x", b"b").status, STATUS_NOT_FOUND);
}

#[test]
fn get_of_unknown_queue_is_no_content() {
    let mut a = QueueAdapter::new();
    let r = send(&mut a, "GET", "/queue/nothing", b"");
    assert_eq!(r.status, STATUS_NO_CONTENT);
    assert!(r.body.is_empty());
}

#[test]
fn name_is_first_segment_after_queue() {
    let mut a = QueueAdapter::new();
    assert_eq!(send(&mut a, "POST", "/queue/jobs/extra/parts", b"j1").status, STATUS_ACCEPTED);
    let r = send(&mut a, "GET", "/queue/jobs", b"");
    assert_eq!(r.status, STATUS_OK);
    assert_eq!(r.body, b"j1".to_vec());
}

#[test]
fn methods_are_case_sensitive() {
    let mut a = QueueAdapter::new();
    assert_eq!(send(&mut a, "post", "/queue/x", b"b").status, STATUS_NOT_FOUND);
    assert_eq!(send(&mut a, "GETS", "/queue/x", b"").status, STATUS_NOT_FOUND);
}

#[test]
fn route_extracts_queue_name() {
    match route("GET", "/queue/orders/42") {
        Route::Consume(name) => assert_eq!(name, "orders"),
        _ => panic!("expected a consume"),
    }
    match route("POST", "/queue/caf\u{e9}") {
        Route::Publish(name) => assert_eq!(name, "caf\u{e9}"),
        _ => panic!("expected a publish"),
    }
    assert!(matches!(route("PUT", "/queue/orders"), Route::NotFound));
}

#[test]
fn get_body_is_ignored() {
    let mut a = QueueAdapter::new();
    let r = send(&mut a, "GET", "/queue/q", b"ignored");
    assert_eq!(r.status, STATUS_NO_CONTENT);
    let r = send(&mut a, "GET", "/queue/q", b"");
    assert_eq!(r.status, STATUS_NO_CONTENT);
}
