//! The closed set of response codes the service answers with.

use vstd::prelude::*;

verus! {

/// Http status for result.
#[derive(Clone, Copy, Debug, PartialEq, Eq, Structural)]
pub enum HttpStatus {
    OK,
    BadRequest,
    Forbidden,
    Unauthorized,
    AuthenticationTimeout,
    InternalServerError,
    NotFound,
}

impl HttpStatus {
    /// The status line that opens a response carrying this status.
    pub open spec fn status_line(self) -> Seq<char> {
        match self {
            HttpStatus::OK => "HTTP/1.1 200 OK"@,
            HttpStatus::BadRequest => "HTTP/1.1 400 Bad Request"@,
            HttpStatus::Forbidden => "HTTP/1.1 403 Forbidden"@,
            HttpStatus::Unauthorized => "HTTP/1.1 401 Unauthorized"@,
            HttpStatus::AuthenticationTimeout => "HTTP/1.1 419 Authentication Timeout"@,
            HttpStatus::NotFound => "HTTP/1.1 404 Not Found"@,
            HttpStatus::InternalServerError => "HTTP/1.1 500 InternalServerError"@,
        }
    }

    /// Get header line
    pub fn get_string(&self) -> (line: String)
        ensures
            line@ == self.status_line(),
    {
        match self {
            HttpStatus::OK => "HTTP/1.1 200 OK".to_owned(),
            HttpStatus::BadRequest => "HTTP/1.1 400 Bad Request".to_owned(),
            HttpStatus::Forbidden => "HTTP/1.1 403 Forbidden".to_owned(),
            HttpStatus::Unauthorized => "HTTP/1.1 401 Unauthorized".to_owned(),
            HttpStatus::AuthenticationTimeout => "HTTP/1.1 419 Authentication Timeout".to_owned(),
            HttpStatus::NotFound => "HTTP/1.1 404 Not Found".to_owned(),
            HttpStatus::InternalServerError => "HTTP/1.1 500 InternalServerError".to_owned(),
        }
    }
}

} // verus!
