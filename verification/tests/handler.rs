use hello::catalog::{ResponseBody, ResponseCatalog};
use hello::handler::{classify, render, respond, Reply, Route, Status, SLEEP_DELAY_SECS};

fn catalog() -> ResponseCatalog {
    ResponseCatalog::new(String::from("<h1>Hello!</h1>"), String::from("<h1>Oops!</h1>\n"))
}

fn sent(reply: Reply) -> (u64, Vec<u8>) {
    match reply {
        Reply::Send { delay_secs, bytes } => (delay_secs, bytes),
        Reply::Close => panic!("the connection was closed without a response"),
    }
}

#[test]
fn root_line_is_the_root_route() {
    assert_eq!(classify("GET / HTTP/1.1"), Route::Root);
}

#[test]
fn sleep_line_is_the_sleep_route() {
    assert_eq!(classify("GET /sleep HTTP/1.1"), Route::Sleep);
}

#[test]
fn other_lines_are_not_found() {
    assert_eq!(classify("GET /missing HTTP/1.1"), Route::NotFound);
    assert_eq!(classify("POST / HTTP/1.1"), Route::NotFound);
    assert_eq!(classify("hello"), Route::NotFound);
}

#[test]
fn the_match_is_on_the_whole_line() {
    assert_eq!(classify("GET / HTTP/1.1 "), Route::NotFound);
    assert_eq!(classify(" GET / HTTP/1.1"), Route::NotFound);
    assert_eq!(classify("GET / HTTP/1.1\r"), Route::NotFound);
    assert_eq!(classify("GET / HTTP/1.0"), Route::NotFound);
    assert_eq!(classify("get / http/1.1"), Route::NotFound);
    assert_eq!(classify("GET /sleep HTTP/1."), Route::NotFound);
    assert_eq!(classify("GET /sleep/ HTTP/1.1"), Route::NotFound);
    assert_eq!(classify("GET /"), Route::NotFound);
}

#[test]
fn empty_line_is_not_found() {
    assert_eq!(classify(""), Route::NotFound);
}

#[test]
fn routes_have_their_status_and_delay() {
    assert_eq!(Route::Root.status(), Status::Success);
    assert_eq!(Route::Sleep.status(), Status::Success);
    assert_eq!(Route::NotFound.status(), Status::NotFound);
    assert_eq!(Route::Root.delay_secs(), 0);
    assert_eq!(Route::Sleep.delay_secs(), 5);
    assert_eq!(Route::NotFound.delay_secs(), 0);
    assert_eq!(SLEEP_DELAY_SECS, 5);
}

#[test]
fn routes_pick_their_payload() {
    let catalog = catalog();
    assert_eq!(Route::Root.body(&catalog).as_str(), "<h1>Hello!</h1>");
    assert_eq!(Route::Sleep.body(&catalog).as_str(), "<h1>Hello!</h1>");
    assert_eq!(Route::NotFound.body(&catalog).as_str(), "<h1>Oops!</h1>\n");
}

#[test]
fn status_lines_are_exact() {
    assert_eq!(Status::Success.line(), "HTTP/1.1 200 OK");
    assert_eq!(Status::NotFound.line(), "HTTP/1.1 404 NOT FOUND");
}

#[test]
fn root_response_is_exact() {
    let (delay, bytes) = sent(respond(Some("GET / HTTP/1.1"), &catalog()));
    assert_eq!(delay, 0);
    assert_eq!(
        bytes,
        b"HTTP/1.1 200 OK\r\nContent-Length: 15\r\n\r\n<h1>Hello!</h1>".to_vec()
    );
}

#[test]
fn sleep_response_is_exact_and_delayed() {
    let (delay, bytes) = sent(respond(Some("GET /sleep HTTP/1.1"), &catalog()));
    assert_eq!(delay, 5);
    assert_eq!(
        bytes,
        b"HTTP/1.1 200 OK\r\nContent-Length: 15\r\n\r\n<h1>Hello!</h1>".to_vec()
    );
}

#[test]
fn unknown_response_is_exact() {
    let (delay, bytes) = sent(respond(Some("GET /nothing HTTP/1.1"), &catalog()));
    assert_eq!(delay, 0);
    assert_eq!(
        bytes,
        b"HTTP/1.1 404 NOT FOUND\r\nContent-Length: 15\r\n\r\n<h1>Oops!</h1>\n".to_vec()
    );
}

#[test]
fn empty_line_gets_the_not_found_response() {
    let (delay, bytes) = sent(respond(Some(""), &catalog()));
    assert_eq!(delay, 0);
    assert_eq!(
        bytes,
        b"HTTP/1.1 404 NOT FOUND\r\nContent-Length: 15\r\n\r\n<h1>Oops!</h1>\n".to_vec()
    );
}

#[test]
fn no_line_closes_without_a_response() {
    assert!(matches!(respond(None, &catalog()), Reply::Close));
}

#[test]
fn content_length_counts_bytes_not_characters() {
    let body = ResponseBody::new(String::from("h\u{e9}llo \u{2713}"));
    assert_eq!(body.byte_len(), 10);
    let bytes = render(Status::Success, &body);
    let mut expected = b"HTTP/1.1 200 OK\r\nContent-Length: 10\r\n\r\n".to_vec();
    expected.extend_from_slice("h\u{e9}llo \u{2713}".as_bytes());
    assert_eq!(bytes, expected);
}

#[test]
fn empty_body_has_length_zero() {
    let body = ResponseBody::new(String::new());
    assert_eq!(
        render(Status::NotFound, &body),
        b"HTTP/1.1 404 NOT FOUND\r\nContent-Length: 0\r\n\r\n".to_vec()
    );
}

fn stated_length(len: usize) -> String {
    let body = ResponseBody::new("x".repeat(len));
    let bytes = render(Status::Success, &body);
    let text = String::from_utf8(bytes).unwrap();
    let head = "HTTP/1.1 200 OK\r\nContent-Length: ";
    assert!(text.starts_with(head));
    let rest = &text[head.len()..];
    let end = rest.find("\r\n\r\n").unwrap();
    assert_eq!(&rest[end + 4..], "x".repeat(len));
    String::from(&rest[..end])
}

#[test]
fn content_length_is_decimal_without_padding() {
    assert_eq!(stated_length(1), "1");
    assert_eq!(stated_length(9), "9");
    assert_eq!(stated_length(10), "10");
    assert_eq!(stated_length(99), "99");
    assert_eq!(stated_length(100), "100");
    assert_eq!(stated_length(1005), "1005");
    assert_eq!(stated_length(65536), "65536");
}

#[test]
fn response_ends_with_the_body() {
    let body = ResponseBody::new(String::from("tail\r\n"));
    let bytes = render(Status::Success, &body);
    assert!(bytes.ends_with(b"\r\n\r\ntail\r\n"));
    assert_eq!(bytes.len(), "HTTP/1.1 200 OK\r\nContent-Length: 6\r\n\r\n".len() + 6);
}
