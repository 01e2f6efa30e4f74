use vstd::prelude::*;
use vstd::slice::slice_to_vec;
use vstd::utf8::encode_utf8;

verus! {

/// The class of a response, written on the wire as a single digit.
#[derive(Clone, Copy, Debug, PartialEq, Eq, Structural)]
pub enum StatusCode {
    Success,
    Redirect,
    ClientError,
    ServerError,
}

/// The status that a digit stands for; unknown digits stand for a server error.
pub open spec fn status_of_number(number: u8) -> StatusCode {
    if number == 2 {
        StatusCode::Success
    } else if number == 3 {
        StatusCode::Redirect
    } else if number == 4 {
        StatusCode::ClientError
    } else {
        StatusCode::ServerError
    }
}

/// The digit that stands for a status.
pub open spec fn status_digit(code: StatusCode) -> u8 {
    match code {
        StatusCode::Success => 2,
        StatusCode::Redirect => 3,
        StatusCode::ClientError => 4,
        StatusCode::ServerError => 5,
    }
}

impl StatusCode {
    pub fn from_number(number: u8) -> (r: StatusCode)
        ensures
            r == status_of_number(number),
    {
        match number {
            2 => StatusCode::Success,
            3 => StatusCode::Redirect,
            4 => StatusCode::ClientError,
            _ => StatusCode::ServerError,
        }
    }

    /// The digit that stands for this status.
    pub fn int_value(&self) -> (r: u8)
        ensures
            r == status_digit(*self),
    {
        match self {
            StatusCode::Success => 2,
            StatusCode::Redirect => 3,
            StatusCode::ClientError => 4,
            StatusCode::ServerError => 5,
        }
    }
}

/// A response: its status, its status line (a content type, a message or a
/// location) and, for content, the body bytes.
#[derive(Clone, Debug, PartialEq, Eq)]
pub struct Response {
    pub status_code: StatusCode,
    pub status_line: String,
    pub content: Option<Vec<u8>>,
}

/// What a response is, as values.
pub struct ResponseView {
    pub status_code: StatusCode,
    pub status_line: Seq<char>,
    pub content: Option<Seq<u8>>,
}

impl View for Response {
    type V = ResponseView;

    open spec fn view(&self) -> ResponseView {
        ResponseView {
            status_code: self.status_code,
            status_line: self.status_line@,
            content: self.content.deep_view(),
        }
    }
}

/// The header line of a response: its digit, a space, the status line and CRLF.
pub open spec fn header_bytes(code: StatusCode, line: Seq<char>) -> Seq<u8> {
    seq![(status_digit(code) + 48) as u8, 32u8] + encode_utf8(line) + seq![13u8, 10u8]
}

impl Default for Response {
    fn default() -> (r: Response)
        ensures
            r.status_code == StatusCode::ClientError,
            r.status_line@ == "Unknown error"@,
            r.content is None,
    {
        Response {
            status_code: StatusCode::ClientError,
            status_line: String::from_str("Unknown error"),
            content: None,
        }
    }
}

impl Response {
    pub fn new(status_code: StatusCode, status_line: String, content: Option<Vec<u8>>) -> (r:
        Response)
        ensures
            r.status_code == status_code,
            r.status_line == status_line,
            r.content == content,
    {
        Response { status_code, status_line, content }
    }

    pub fn new_success(content_type: String, content: Vec<u8>) -> (r: Response)
        ensures
            r.status_code == StatusCode::Success,
            r.status_line == content_type,
            r.content == Some(content),
    {
        Response::new(StatusCode::Success, content_type, Some(content))
    }

    pub fn new_client_error(error: String) -> (r: Response)
        ensures
            r.status_code == StatusCode::ClientError,
            r.status_line == error,
            r.content is None,
    {
        Response::new(StatusCode::ClientError, error, None)
    }

    pub fn new_server_error(error: String) -> (r: Response)
        ensures
            r.status_code == StatusCode::ServerError,
            r.status_line == error,
            r.content is None,
    {
        Response::new(StatusCode::ServerError, error, None)
    }

    pub fn new_redirect(location: String) -> (r: Response)
        ensures
            r.status_code == StatusCode::Redirect,
            r.status_line == location,
            r.content is None,
    {
        Response::new(StatusCode::Redirect, location, None)
    }

    /// The header line that goes on the wire before the content.
    pub fn render_header(&self) -> (r: Vec<u8>)
        ensures
            r@ == header_bytes(self.status_code, self.status_line@),
    {
        let mut out: Vec<u8> = Vec::new();
        out.push(self.status_code.int_value() + 48);
        out.push(32u8);
        let mut line = slice_to_vec(self.status_line.as_str().as_bytes());
        out.append(&mut line);
        out.push(13u8);
        out.push(10u8);
        assert(out@ =~= header_bytes(self.status_code, self.status_line@));
        out
    }
}

} // verus!
