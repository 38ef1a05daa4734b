use ras_service::request::{
    read_request, route_request, HeadParse, ReadEvent, Request, RequestHead, Verb, BUFFER_SIZE,
    HEADER_BUFFER_SIZE,
};
use ras_service::status::HttpStatus;

fn buffer_with(bytes: &[u8]) -> (Vec<u8>, usize) {
    let mut buffer = vec![0u8; BUFFER_SIZE];
    buffer[..bytes.len()].copy_from_slice(bytes);
    (buffer, bytes.len())
}

fn read(bytes: &[u8]) -> Result<Request, HttpStatus> {
    let (buffer, n) = buffer_with(bytes);
    read_request(&buffer, ReadEvent::Read(n))
}

fn expect_request(result: Result<Request, HttpStatus>, verb: Verb, name: &str, input: Option<&str>) {
    match result {
        Ok(request) => {
            assert_eq!(request.verb, verb);
            assert_eq!(request.function, name);
            assert_eq!(request.input.as_deref(), input);
        }
        Err(status) => panic!("no request, but {:?}", status),
    }
}

fn expect_status(result: Result<Request, HttpStatus>, expected: HttpStatus) {
    match result {
        Ok(request) => panic!("a request for {:?}", request.function),
        Err(status) => assert_eq!(status, expected),
    }
}

#[test]
fn sizes_are_fixed() {
    assert_eq!(BUFFER_SIZE, 2048);
    assert_eq!(HEADER_BUFFER_SIZE, 32);
}

#[test]
fn get_with_query() {
    expect_request(
        read(b"GET /api/some_test?x=1 HTTP/1.1\r\nHost: localhost\r\n\r\n"),
        Verb::Get,
        "some_test",
        Some("x=1"),
    );
}

#[test]
fn get_without_query() {
    expect_request(
        read(b"GET /api/some_test HTTP/1.1\r\nHost: localhost\r\n\r\n"),
        Verb::Get,
        "some_test",
        None,
    );
}

#[test]
fn get_ignores_the_body() {
    expect_request(
        read(b"GET /api/f?q HTTP/1.1\r\n\r\nsome body"),
        Verb::Get,
        "f",
        Some("q"),
    );
}

#[test]
fn get_with_escapes_in_the_path() {
    expect_request(
        read(b"GET /api/some%5Ftest?x=%31%20y HTTP/1.1\r\n\r\n"),
        Verb::Get,
        "some_test",
        Some("x=1 y"),
    );
}

#[test]
fn post_takes_the_body_as_input() {
    expect_request(
        read(b"POST /api/some_test?ignored=1 HTTP/1.1\r\nContent-Length: 11\r\n\r\n{\"data\": 1}"),
        Verb::Post,
        "some_test",
        Some("{\"data\": 1}"),
    );
}

#[test]
fn post_with_empty_body_has_empty_input() {
    expect_request(
        read(b"POST /api/some_test HTTP/1.1\r\n\r\n"),
        Verb::Post,
        "some_test",
        Some(""),
    );
}

#[test]
fn post_body_ends_where_the_read_ended() {
    let (mut buffer, n) = buffer_with(b"POST /api/f HTTP/1.1\r\n\r\nabcdef");
    buffer[n] = b'X';
    expect_request(
        read_request(&buffer, ReadEvent::Read(n - 2)),
        Verb::Post,
        "f",
        Some("abcd"),
    );
}

#[test]
fn post_body_beyond_what_was_read_is_a_bad_request() {
    let head = b"POST /api/f HTTP/1.1\r\nHost: localhost\r\n\r\n";
    let (buffer, n) = buffer_with(head);
    expect_status(read_request(&buffer, ReadEvent::Read(n - 1)), HttpStatus::BadRequest);
    expect_status(read_request(&buffer, ReadEvent::Read(1)), HttpStatus::BadRequest);
    expect_request(read_request(&buffer, ReadEvent::Read(n)), Verb::Post, "f", Some(""));
}

#[test]
fn get_head_beyond_what_was_read_is_still_routed() {
    let head = b"GET /api/f HTTP/1.1\r\nHost: localhost\r\n\r\n";
    let (buffer, _) = buffer_with(head);
    expect_request(read_request(&buffer, ReadEvent::Read(1)), Verb::Get, "f", None);
}

#[test]
fn post_read_beyond_the_buffer_is_a_bad_request() {
    let (buffer, _) = buffer_with(b"POST /api/f HTTP/1.1\r\n\r\nabc");
    expect_status(
        read_request(&buffer, ReadEvent::Read(BUFFER_SIZE + 1)),
        HttpStatus::BadRequest,
    );
    let result = read_request(&buffer, ReadEvent::Read(BUFFER_SIZE));
    assert!(result.is_ok());
}

#[test]
fn post_body_that_is_no_text_is_a_bad_request() {
    expect_status(
        read(b"POST /api/f HTTP/1.1\r\n\r\n\xff\xfe"),
        HttpStatus::BadRequest,
    );
    expect_status(
        read(b"POST /api/f HTTP/1.1\r\n\r\nab\xc3"),
        HttpStatus::BadRequest,
    );
    expect_request(
        read("POST /api/f HTTP/1.1\r\n\r\ncaf\u{e9}".as_bytes()),
        Verb::Post,
        "f",
        Some("caf\u{e9}"),
    );
}

#[test]
fn empty_read_is_a_bad_request() {
    let buffer = vec![0u8; BUFFER_SIZE];
    expect_status(read_request(&buffer, ReadEvent::Read(0)), HttpStatus::BadRequest);
    let (buffer, _) = buffer_with(b"GET /api/f HTTP/1.1\r\n\r\n");
    expect_status(read_request(&buffer, ReadEvent::Read(0)), HttpStatus::BadRequest);
}

#[test]
fn failed_read_is_an_internal_error() {
    let (buffer, _) = buffer_with(b"GET /api/f HTTP/1.1\r\n\r\n");
    expect_status(
        read_request(&buffer, ReadEvent::Failed),
        HttpStatus::InternalServerError,
    );
}

#[test]
fn partial_head_is_a_bad_request() {
    let bytes = b"GET /api/f HTTP/1.1\r\nHost: loc";
    expect_status(read_request(bytes, ReadEvent::Read(bytes.len())), HttpStatus::BadRequest);
    expect_status(read(bytes), HttpStatus::BadRequest);
}

#[test]
fn malformed_head_is_a_bad_request() {
    expect_status(read(b"\x01\x02\x03 garbage"), HttpStatus::BadRequest);
    expect_status(read(b"GET  HTTP/1.1\r\n\r\n"), HttpStatus::BadRequest);
    expect_status(read(b"GET /api/f HTTP/9.9\r\n\r\n"), HttpStatus::BadRequest);
}

#[test]
fn other_verbs_are_a_bad_request() {
    expect_status(read(b"PUT /api/f HTTP/1.1\r\n\r\n"), HttpStatus::BadRequest);
    expect_status(read(b"DELETE /api/f HTTP/1.1\r\n\r\n"), HttpStatus::BadRequest);
    expect_status(read(b"get /api/f HTTP/1.1\r\n\r\n"), HttpStatus::BadRequest);
    expect_status(read(b"POSTS /api/f HTTP/1.1\r\n\r\n"), HttpStatus::BadRequest);
}

#[test]
fn path_that_cannot_be_decoded_is_a_bad_request() {
    expect_status(read(b"GET /api/f%zz HTTP/1.1\r\n\r\n"), HttpStatus::BadRequest);
    expect_status(read(b"GET /api/f% HTTP/1.1\r\n\r\n"), HttpStatus::BadRequest);
    expect_status(
        read("GET /api/caf\u{e9} HTTP/1.1\r\n\r\n".as_bytes()),
        HttpStatus::BadRequest,
    );
    expect_status(read(b"POST /api/f%4 HTTP/1.1\r\n\r\n"), HttpStatus::BadRequest);
}

fn request_with_headers(count: usize) -> Vec<u8> {
    let mut text = String::from("GET /api/f HTTP/1.1\r\n");
    for i in 0..count {
        text.push_str(&format!("X-Header-{}: {}\r\n", i, i));
    }
    text.push_str("\r\n");
    text.into_bytes()
}

#[test]
fn as_many_headers_as_there_is_room_for() {
    expect_request(read(&request_with_headers(32)), Verb::Get, "f", None);
    expect_status(read(&request_with_headers(33)), HttpStatus::BadRequest);
}

fn head(method: Option<&str>, path: Option<&str>, body_start: usize) -> HeadParse {
    HeadParse::Complete(RequestHead {
        method: method.map(str::to_string),
        path: path.map(str::to_string),
        body_start,
    })
}

#[test]
fn routing_a_parsed_head() {
    let buffer = b"0123456789";
    expect_request(
        route_request(&head(Some("GET"), Some("/a/b?c"), 4), buffer, 10),
        Verb::Get,
        "b",
        Some("c"),
    );
    expect_request(
        route_request(&head(Some("POST"), Some("/a/b?c"), 4), buffer, 10),
        Verb::Post,
        "b",
        Some("456789"),
    );
    expect_request(
        route_request(&head(Some("POST"), Some("/a/b"), 4), buffer, 4),
        Verb::Post,
        "b",
        Some(""),
    );
    expect_request(
        route_request(&head(Some("GET"), Some("/a/b"), 40), buffer, 1),
        Verb::Get,
        "b",
        None,
    );
}

#[test]
fn routing_a_head_that_names_no_request() {
    let buffer = b"0123456789";
    let bad = HttpStatus::BadRequest;
    expect_status(route_request(&HeadParse::Partial, buffer, 10), bad);
    expect_status(route_request(&HeadParse::Malformed, buffer, 10), bad);
    expect_status(route_request(&head(Some("GET"), None, 0), buffer, 10), bad);
    expect_status(route_request(&head(None, Some("/a"), 0), buffer, 10), bad);
    expect_status(route_request(&head(Some(""), Some("/a"), 0), buffer, 10), bad);
    expect_status(route_request(&head(Some("PATCH"), Some("/a"), 0), buffer, 10), bad);
    expect_status(route_request(&head(Some("GET"), Some("/a%"), 0), buffer, 10), bad);
    expect_status(route_request(&head(Some("POST"), Some("/a"), 5), buffer, 4), bad);
    expect_status(route_request(&head(Some("POST"), Some("/a"), 5), buffer, 11), bad);
    expect_status(route_request(&head(Some("POST"), Some("/a"), 11), buffer, 11), bad);
}
