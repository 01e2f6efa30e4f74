use crate::error::{Error, ErrorKind};
use crate::mime::{filename_to_mime, mime_of};
use crate::pipe::router::{join, join_path};
use crate::protocol::response::{status_of_number, Response, ResponseView, StatusCode};
use crate::text::{find_through, through_first, trim_line_end, trimmed_range, utf8_text, INVALID_TEXT};
use vstd::prelude::*;
use vstd::utf8::{decode_utf8, valid_utf8};

verus! {

/// A locator as a path relative to its host directory.
pub open spec fn without_leading_slash(locator: Seq<char>) -> Seq<char> {
    if locator.len() > 0 && locator[0] == '/' {
        locator.drop_first()
    } else {
        locator
    }
}

/// The file that a locator names under a host of the server root.
pub open spec fn resolved_path(root: Seq<char>, host: Seq<char>, locator: Seq<char>) -> Seq<char> {
    join_path(join_path(root, host), without_leading_slash(locator))
}

pub fn resolve_path(root: &String, host: &String, locator: &String) -> (r: String)
    ensures
        r@ == resolved_path(root@, host@, locator@),
{
    let dir = join(root.as_str(), host.as_str());
    let n = locator.unicode_len();
    if n > 0 && locator.get_char(0) == '/' {
        join(dir.as_str(), locator.as_str().substring_char(1, n))
    } else {
        assert(without_leading_slash(locator@) == locator@);
        join(dir.as_str(), locator.as_str())
    }
}

/// The response that serves a plain file: its guessed type and its bytes.
pub fn plain_file_response(path: String, content: Vec<u8>) -> (r: Response)
    ensures
        r@ == (ResponseView {
            status_code: StatusCode::Success,
            status_line: mime_of(path@),
            content: Some(content@),
        }),
{
    let mime = filename_to_mime(path);
    let r = Response::new_success(mime, content);
    assert(r@.content == Some(content@));
    r
}

/// The status that a program's reply starts with: its first token, before
/// the first space, when that token is a single digit; any other token is a
/// server error.
pub open spec fn cgi_status(out: Seq<u8>) -> StatusCode {
    if out.len() >= 2 && out[1] == 32u8 && 48u8 <= out[0] <= 57u8 {
        status_of_number((out[0] - 48) as u8)
    } else {
        StatusCode::ServerError
    }
}

/// Where a program's status line ends: through the first space, then
/// through the next line feed.
pub open spec fn cgi_line_end(out: Seq<u8>) -> int {
    let a = through_first(out, 32u8);
    a + through_first(out.subrange(a, out.len() as int), 10u8)
}

/// The response that a program's reply stands for: its status digit, the
/// text up to the next line feed (without CR/LF) as status line, and the
/// rest as content; an error when that text is not UTF-8.
pub open spec fn cgi_reply(out: Seq<u8>) -> Result<ResponseView, (ErrorKind, Seq<char>)> {
    let a = through_first(out, 32u8);
    let b = cgi_line_end(out);
    let line = trim_line_end(out.subrange(a, b));
    if valid_utf8(line) {
        Ok(
            ResponseView {
                status_code: cgi_status(out),
                status_line: decode_utf8(line),
                content: Some(out.subrange(b, out.len() as int)),
            },
        )
    } else {
        Err((ErrorKind::Io, INVALID_TEXT@))
    }
}

/// A response result seen as values.
pub open spec fn response_result(r: Result<Response, Error>) -> Result<ResponseView, (ErrorKind, Seq<char>)> {
    match r {
        Ok(q) => Ok(q@),
        Err(e) => Err(e@),
    }
}

/// Decodes what a program wrote on its standard output.
pub fn decode_cgi_output(out: Vec<u8>) -> (r: Result<Response, Error>)
    ensures
        response_result(r) == cgi_reply(out@),
{
    let a = find_through(&out, 0, 32u8);
    assert(out@.subrange(0, out@.len() as int) =~= out@);
    let b = find_through(&out, a, 10u8);
    let status = if out.len() >= 2 && out[1] == 32u8 && 48u8 <= out[0] && out[0] <= 57u8 {
        StatusCode::from_number(out[0] - 48)
    } else {
        StatusCode::ServerError
    };
    let line_bytes = trimmed_range(&out, a, b);
    let line = match utf8_text(line_bytes) {
        Some(t) => t,
        None => {
            return Err(Error::new_io(INVALID_TEXT));
        },
    };
    let mut body: Vec<u8> = Vec::new();
    let mut i: usize = b;
    while i < out.len()
        invariant
            b <= i <= out@.len(),
            body@ == out@.subrange(b as int, i as int),
        decreases out@.len() - i,
    {
        body.push(out[i]);
        assert(body@ =~= out@.subrange(b as int, i + 1));
        i = i + 1;
    }
    let r = Response::new(status, line, Some(body));
    assert(r@.content == Some(out@.subrange(b as int, out@.len() as int)));
    Ok(r)
}

} // verus!
