//! From the bytes read off a connection to the request they carry: the
//! verb, the function name and the input for the handler.

use vstd::prelude::*;
use vstd::slice::slice_subrange;
use vstd::string::StringSliceAdditionalSpecFns;
use vstd::utf8::{decode_utf8, encode_utf8_decode_utf8, valid_utf8};
use crate::path::{
    decode_path, function_name, inline_params, percent_decodable, percent_decoded, split_path,
};
use crate::status::HttpStatus;
use crate::text::{opt_text, same_text};

verus! {

/// The size of the buffer that one request is read into.
pub const BUFFER_SIZE: usize = 2048;

/// The number of header lines a request may carry.
pub const HEADER_BUFFER_SIZE: usize = 32;

/// The two kinds of request the service answers.
#[derive(Clone, Copy, Debug, PartialEq, Eq, Structural)]
pub enum Verb {
    /// A read: `GET`. The input is what follows `?` in the path.
    Get,
    /// A write: `POST`. The input is the body.
    Post,
}

/// What is read of a parsed request head.
#[derive(Debug)]
pub struct RequestHead {
    pub method: Option<String>,
    pub path: Option<String>,
    /// The offset in the buffer at which the body starts.
    pub body_start: usize,
}

/// How parsing the head of a request ended.
#[derive(Debug)]
pub enum HeadParse {
    Complete(RequestHead),
    /// The bytes end before the head does.
    Partial,
    /// The bytes are no request head.
    Malformed,
}

/// The text of a [`RequestHead`].
pub struct HeadText {
    pub method: Option<Seq<char>>,
    pub path: Option<Seq<char>>,
    pub body_start: nat,
}

/// The text of a [`HeadParse`].
pub enum ParsedHead {
    Complete(HeadText),
    Partial,
    Malformed,
}

impl View for RequestHead {
    type V = HeadText;

    open spec fn view(&self) -> HeadText {
        HeadText {
            method: opt_text(self.method),
            path: opt_text(self.path),
            body_start: self.body_start as nat,
        }
    }
}

impl View for HeadParse {
    type V = ParsedHead;

    open spec fn view(&self) -> ParsedHead {
        match self {
            HeadParse::Complete(head) => ParsedHead::Complete(head@),
            HeadParse::Partial => ParsedHead::Partial,
            HeadParse::Malformed => ParsedHead::Malformed,
        }
    }
}

/// One request, as the dispatcher sees it.
#[derive(Debug)]
pub struct Request {
    pub verb: Verb,
    /// The name of the function to call.
    pub function: String,
    /// What the function is called with.
    pub input: Option<String>,
}

/// The text of a [`Request`].
pub struct RequestText {
    pub verb: Verb,
    pub function: Seq<char>,
    pub input: Option<Seq<char>>,
}

impl View for Request {
    type V = RequestText;

    open spec fn view(&self) -> RequestText {
        RequestText { verb: self.verb, function: self.function@, input: opt_text(self.input) }
    }
}

/// What became of reading from the connection.
#[derive(Clone, Copy, Debug, PartialEq, Eq, Structural)]
pub enum ReadEvent {
    /// The connection could not be read.
    Failed,
    /// This many bytes were read into the buffer.
    Read(usize),
}

/// How `httparse` parses `buffer` as the head of a request with room for
/// `max_headers` header lines.
pub uninterp spec fn request_head(buffer: Seq<u8>, max_headers: nat) -> ParsedHead;

/// Why bytes are no UTF-8, `core::str::Utf8Error`.
#[verifier::external_type_specification]
#[verifier::external_body]
pub struct ExUtf8Error(core::str::Utf8Error);

/// `core::str::from_utf8` succeeds exactly on valid UTF-8, and the string
/// slice it then returns is made of the same bytes.
pub assume_specification<'a>[ core::str::from_utf8 ](v: &'a [u8]) -> (text: Result<
    &'a str,
    core::str::Utf8Error,
>)
    ensures
        text is Ok <==> valid_utf8(v@),
        text matches Ok(s) ==> s.spec_bytes() == v@,
;

/// `httparse::Request::parse`, on a fresh `httparse::Request` with room for
/// `max_headers` header lines: the method and the path that it leaves in the
/// request and the offset of the body that it returns where the head is
/// complete, and otherwise whether the head was partial or malformed. The
/// outcome is a function of the bytes and of the room for headers.
#[verifier::external_body]
fn parse_head(buffer: &[u8], max_headers: usize) -> (parse: HeadParse)
    ensures
        parse@ == request_head(buffer@, max_headers as nat),
{
    let mut headers = vec![httparse::EMPTY_HEADER; max_headers];
    let mut request = httparse::Request::new(&mut headers);
    match request.parse(buffer) {
        Ok(httparse::Status::Complete(body_start)) => HeadParse::Complete(
            RequestHead {
                method: request.method.map(str::to_owned),
                path: request.path.map(str::to_owned),
                body_start,
            },
        ),
        Ok(httparse::Status::Partial) => HeadParse::Partial,
        Err(_) => HeadParse::Malformed,
    }
}

/// The verb that a request method names: `GET` or `POST`, and no other.
pub open spec fn verb_of(method: Option<Seq<char>>) -> Option<Verb> {
    match method {
        Some(name) => if name == "GET"@ {
            Some(Verb::Get)
        } else if name == "POST"@ {
            Some(Verb::Post)
        } else {
            None
        },
        None => None,
    }
}

/// The body of a request as text: the bytes of `buffer` from `body_start`
/// up to `data_end`, the number of bytes read, where that is a range of the
/// buffer and holds valid UTF-8.
pub open spec fn body_text(buffer: Seq<u8>, body_start: nat, data_end: nat) -> Option<Seq<char>> {
    if body_start <= data_end <= buffer.len() && valid_utf8(
        buffer.subrange(body_start as int, data_end as int),
    ) {
        Some(decode_utf8(buffer.subrange(body_start as int, data_end as int)))
    } else {
        None
    }
}

/// The request that a parsed head, the buffer and the number of bytes read
/// amount to, or the status that answers them where they amount to none.
///
/// The head must be complete, name one of the two verbs and hold a path
/// that can be percent-decoded. The function name is the final segment of
/// the decoded path up to its first `?`. A `GET` takes its input from what
/// follows that `?`; a `POST` takes the body, which must be a range of the
/// buffer that holds text. Everything else is a bad request.
pub open spec fn routed(head: ParsedHead, buffer: Seq<u8>, data_end: nat) -> Result<
    RequestText,
    HttpStatus,
> {
    match head {
        ParsedHead::Complete(text) => match (text.path, verb_of(text.method)) {
            (Some(path), Some(verb)) => if percent_decodable(path) {
                let function = function_name(percent_decoded(path));
                match verb {
                    Verb::Get => Ok(
                        RequestText { verb, function, input: inline_params(percent_decoded(path)) },
                    ),
                    Verb::Post => match body_text(buffer, text.body_start, data_end) {
                        Some(body) => Ok(RequestText { verb, function, input: Some(body) }),
                        None => Err(HttpStatus::BadRequest),
                    },
                }
            } else {
                Err(HttpStatus::BadRequest)
            },
            _ => Err(HttpStatus::BadRequest),
        },
        _ => Err(HttpStatus::BadRequest),
    }
}

/// The request that a read from the connection amounts to: a failed read
/// is answered with an internal error, an empty one with a bad request, and
/// any other as its parsed head has it.
pub open spec fn received(buffer: Seq<u8>, read: ReadEvent) -> Result<RequestText, HttpStatus> {
    match read {
        ReadEvent::Failed => Err(HttpStatus::InternalServerError),
        ReadEvent::Read(data_end) => if data_end == 0 {
            Err(HttpStatus::BadRequest)
        } else {
            routed(request_head(buffer, HEADER_BUFFER_SIZE as nat), buffer, data_end as nat)
        },
    }
}

/// The text of a routing result.
pub open spec fn routing_text(routing: Result<Request, HttpStatus>) -> Result<
    RequestText,
    HttpStatus,
> {
    match routing {
        Ok(request) => Ok(request@),
        Err(status) => Err(status),
    }
}

/// An empty read is answered with a bad request, whatever the buffer
/// holds.
pub proof fn law_empty_read_is_bad_request(buffer: Seq<u8>)
    ensures
        received(buffer, ReadEvent::Read(0)) == Err::<RequestText, HttpStatus>(
            HttpStatus::BadRequest,
        ),
{
}

/// A read that failed is answered with an internal error, whatever the
/// buffer holds.
pub proof fn law_failed_read_is_internal_error(buffer: Seq<u8>)
    ensures
        received(buffer, ReadEvent::Failed) == Err::<RequestText, HttpStatus>(
            HttpStatus::InternalServerError,
        ),
{
}

/// A write whose body would start beyond the bytes that were read is
/// answered with a bad request.
pub proof fn law_body_beyond_read_is_bad_request(head: HeadText, buffer: Seq<u8>, data_end: nat)
    requires
        verb_of(head.method) == Some(Verb::Post),
        head.body_start > data_end,
    ensures
        routed(ParsedHead::Complete(head), buffer, data_end) == Err::<RequestText, HttpStatus>(
            HttpStatus::BadRequest,
        ),
{
}

/// Whatever is wrong with a request head is answered with a bad request,
/// and a request that is routed has the verb that its head names and takes
/// its function name from the decoded path.
pub proof fn law_routed(head: ParsedHead, buffer: Seq<u8>, data_end: nat)
    ensures
        match routed(head, buffer, data_end) {
            Ok(request) => {
                &&& head matches ParsedHead::Complete(text)
                &&& text.path matches Some(path)
                &&& percent_decodable(path)
                &&& verb_of(text.method) == Some(request.verb)
                &&& request.function == function_name(percent_decoded(path))
                &&& request.verb == Verb::Get ==> request.input == inline_params(
                    percent_decoded(path),
                )
                &&& request.verb == Verb::Post ==> request.input == body_text(
                    buffer,
                    text.body_start,
                    data_end,
                ) && request.input is Some
            },
            Err(status) => status == HttpStatus::BadRequest,
        },
{
}

fn method_verb(method: &Option<String>) -> (verb: Option<Verb>)
    ensures
        verb == verb_of(opt_text(*method)),
{
    match method {
        Some(name) => {
            if same_text(name.as_str(), "GET") {
                Some(Verb::Get)
            } else if same_text(name.as_str(), "POST") {
                Some(Verb::Post)
            } else {
                None
            }
        },
        None => None,
    }
}

fn read_body(buffer: &[u8], body_start: usize, data_end: usize) -> (body: Option<String>)
    ensures
        opt_text(body) == body_text(buffer@, body_start as nat, data_end as nat),
{
    if buffer.len() < data_end || body_start > data_end {
        return None;
    }
    match core::str::from_utf8(slice_subrange(buffer, body_start, data_end)) {
        Ok(content) => {
            proof {
                encode_utf8_decode_utf8(content@);
            }
            Some(content.to_owned())
        },
        Err(_) => None,
    }
}

/// Routes a parsed request head: finds the verb, the function name and the
/// input, or the status that answers a request that has none.
pub fn route_request(parse: &HeadParse, buffer: &[u8], data_end: usize) -> (routing: Result<
    Request,
    HttpStatus,
>)
    ensures
        routing_text(routing) == routed(parse@, buffer@, data_end as nat),
{
    let head = match parse {
        HeadParse::Complete(head) => head,
        _ => { return Err(HttpStatus::BadRequest); },
    };
    let path = match &head.path {
        Some(path) => path,
        None => { return Err(HttpStatus::BadRequest); },
    };
    let decoded = match decode_path(path.as_str()) {
        Some(decoded) => decoded,
        None => { return Err(HttpStatus::BadRequest); },
    };
    let (function, params) = split_path(decoded.as_str());
    match method_verb(&head.method) {
        Some(Verb::Get) => Ok(Request { verb: Verb::Get, function, input: params }),
        Some(Verb::Post) => match read_body(buffer, head.body_start, data_end) {
            Some(content) => Ok(Request { verb: Verb::Post, function, input: Some(content) }),
            None => Err(HttpStatus::BadRequest),
        },
        None => Err(HttpStatus::BadRequest),
    }
}

/// Turns what was read off a connection into a request, or into the status
/// that answers it where there is none.
pub fn read_request(buffer: &[u8], read: ReadEvent) -> (routing: Result<Request, HttpStatus>)
    ensures
        routing_text(routing) == received(buffer@, read),
{
    match read {
        ReadEvent::Failed => Err(HttpStatus::InternalServerError),
        ReadEvent::Read(data_end) => {
            if data_end == 0 {
                Err(HttpStatus::BadRequest)
            } else {
                let parse = parse_head(buffer, HEADER_BUFFER_SIZE);
                route_request(&parse, buffer, data_end)
            }
        },
    }
}

} // verus!
