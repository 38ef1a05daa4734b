use ras_service::status::HttpStatus;

#[test]
fn status_lines_are_exact() {
    assert_eq!(HttpStatus::OK.get_string(), "HTTP/1.1 200 OK");
    assert_eq!(HttpStatus::BadRequest.get_string(), "HTTP/1.1 400 Bad Request");
    assert_eq!(HttpStatus::Forbidden.get_string(), "HTTP/1.1 403 Forbidden");
    assert_eq!(HttpStatus::Unauthorized.get_string(), "HTTP/1.1 401 Unauthorized");
    assert_eq!(
        HttpStatus::AuthenticationTimeout.get_string(),
        "HTTP/1.1 419 Authentication Timeout"
    );
    assert_eq!(HttpStatus::NotFound.get_string(), "HTTP/1.1 404 Not Found");
    assert_eq!(
        HttpStatus::InternalServerError.get_string(),
        "HTTP/1.1 500 InternalServerError"
    );
}
