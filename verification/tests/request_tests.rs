//! Request construction: automatic headers, decoration and overriding.

use jsonrpc_client_http::{HeaderValue, HostSetup, HttpTransport};

#[test]
fn create_request_writes_content_type_and_length() {
    let transport = HttpTransport::new().standalone(HostSetup::Ready).unwrap();
    let handle = transport.handle("http://127.0.0.1:3030/").unwrap();
    let request = handle.create_request(b"{\"id\":1}".to_vec());
    assert_eq!(request.uri, "http://127.0.0.1:3030/".to_string());
    assert_eq!(request.body, b"{\"id\":1}".to_vec());
    assert_eq!(request.headers.len(), 2);
    assert_eq!(
        request.headers.get(&"Content-Type".to_string()),
        Some(&HeaderValue::Text("application/json".to_string()))
    );
    assert_eq!(
        request.headers.get(&"Content-Length".to_string()),
        Some(&HeaderValue::Number(8))
    );
}

#[test]
fn empty_payload_has_content_length_zero() {
    let transport = HttpTransport::new().shared(true).unwrap();
    let handle = transport.handle("http://127.0.0.1:3030/").unwrap();
    let request = handle.create_request(Vec::new());
    assert_eq!(
        request.headers.get(&"Content-Length".to_string()),
        Some(&HeaderValue::Number(0))
    );
}

#[test]
fn custom_headers_are_sent_with_every_request() {
    let transport = HttpTransport::new().standalone(HostSetup::Ready).unwrap();
    let mut handle = transport.handle("http://127.0.0.1:3030/").unwrap();
    handle.set_header("X-Greeting".to_string(), "hello".to_string());
    let first = handle.create_request(b"a".to_vec());
    let second = handle.create_request(b"bb".to_vec());
    for request in [&first, &second] {
        assert_eq!(
            request.headers.get(&"X-Greeting".to_string()),
            Some(&HeaderValue::Text("hello".to_string()))
        );
    }
    assert_eq!(
        first.headers.get(&"Content-Length".to_string()),
        Some(&HeaderValue::Number(1))
    );
    assert_eq!(
        second.headers.get(&"Content-Length".to_string()),
        Some(&HeaderValue::Number(2))
    );
}

#[test]
fn a_custom_header_overrides_the_automatic_one() {
    let transport = HttpTransport::new().standalone(HostSetup::Ready).unwrap();
    let mut handle = transport.handle("http://127.0.0.1:3030/").unwrap();
    handle.set_header("Content-Type".to_string(), "text/plain".to_string());
    let request = handle.create_request(b"x".to_vec());
    assert_eq!(
        request.headers.get(&"Content-Type".to_string()),
        Some(&HeaderValue::Text("text/plain".to_string()))
    );
    assert_eq!(
        request.headers.get(&"Content-Length".to_string()),
        Some(&HeaderValue::Number(1))
    );
    assert_eq!(request.headers.len(), 2);
}

#[test]
fn setting_the_same_header_twice_keeps_the_last_value() {
    let transport = HttpTransport::new().standalone(HostSetup::Ready).unwrap();
    let mut handle = transport.handle("http://127.0.0.1:3030/").unwrap();
    handle.set_header("X-Token".to_string(), "stale".to_string());
    handle.set_header("X-Token".to_string(), "fresh".to_string());
    let request = handle.create_request(Vec::new());
    assert_eq!(
        request.headers.get(&"X-Token".to_string()),
        Some(&HeaderValue::Text("fresh".to_string()))
    );
    assert_eq!(request.headers.len(), 3);
}
