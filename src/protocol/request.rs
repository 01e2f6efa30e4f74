use crate::error::{Error, ErrorKind};
use crate::protocol::{EMPTY_REQ, PARSE_ERR, WRONG_DATA_SIZE};
use crate::protocol::locator::{
    dot_segments_removed, is_rooted_locator, lemma_dot_segments_removed_is_rooted,
    remove_dot_segments,
};
use crate::text::{parse_usize, split_spaces, three_pieces, usize_of_text};
use vstd::prelude::*;

verus! {

/// A request: the host it names, its normalized locator, the length of the
/// body it announces and, once read, that body.
#[derive(Clone, Debug, PartialEq, Eq)]
pub struct Request {
    pub host: String,
    pub locator: String,
    pub data_len: usize,
    pub data: Option<Vec<u8>>,
}

/// The path of the URL that `s` writes, or the message of the parse failure.
pub uninterp spec fn url_path_of(s: Seq<char>) -> Result<Seq<char>, Seq<char>>;

/// The text that the percent-escapes of `s` encode, or the message of the
/// failure when they do not encode UTF-8.
pub uninterp spec fn percent_decoded(s: Seq<char>) -> Result<Seq<char>, Seq<char>>;

/// A text result seen as a result of character sequences.
pub open spec fn text_result(r: Result<String, String>) -> Result<Seq<char>, Seq<char>> {
    match r {
        Ok(t) => Ok(t@),
        Err(m) => Err(m@),
    }
}

/// What a request is, as values.
pub struct RequestView {
    pub host: Seq<char>,
    pub locator: Seq<char>,
    pub data_len: usize,
    pub data: Option<Seq<u8>>,
}

impl View for Request {
    type V = RequestView;

    open spec fn view(&self) -> RequestView {
        RequestView {
            host: self.host@,
            locator: self.locator@,
            data_len: self.data_len,
            data: self.data.deep_view(),
        }
    }
}

/// The URL through which a request's locator is normalized.
pub open spec fn request_url(host: Seq<char>, locator: Seq<char>) -> Seq<char> {
    "spartan://"@ + host + locator
}

/// The decoded, normalized locator that a locator token stands for under a
/// host, or the message of the failure.
pub open spec fn normalized_locator(host: Seq<char>, locator: Seq<char>) -> Result<Seq<char>, Seq<char>> {
    match url_path_of(request_url(host, locator)) {
        Ok(path) => percent_decoded(path),
        Err(m) => Err(m),
    }
}

/// The request that a line asks for, or the message of the request error
/// that it gives.
pub open spec fn request_of_line(line: Seq<char>) -> Result<RequestView, Seq<char>> {
    let t = split_spaces(line);
    if line.len() == 0 {
        Err(EMPTY_REQ@)
    } else if t.len() != 3 {
        Err(PARSE_ERR@)
    } else {
        request_from(t[0], normalized_locator(t[0], t[1]), t[2])
    }
}

/// The request for a host, the decoded normalized path of its locator (or
/// the message of the failure to get it) and its size piece: the locator is
/// that path with its dot segments resolved, and the size a decimal `usize`.
pub open spec fn request_from(host: Seq<char>, decoded: Result<Seq<char>, Seq<char>>, size: Seq<char>) -> Result<RequestView, Seq<char>> {
    match decoded {
        Ok(path) => match dot_segments_removed(path) {
            Some(locator) => match usize_of_text(size) {
                Some(n) => Ok(RequestView { host, locator, data_len: n, data: None }),
                None => Err(PARSE_ERR@),
            },
            None => Err(PARSE_ERR@),
        },
        Err(m) => Err(m),
    }
}

/// A parse result seen as values: a request, or the message of its error.
pub open spec fn parse_result(r: Result<Request, Error>) -> Result<RequestView, Seq<char>> {
    match r {
        Ok(q) => Ok(q@),
        Err(e) => Err(e.msg@),
    }
}

/// Relies on `url::Url::parse` and `Url::path`: the path of a parsed URL, or
/// the text of the parse error, depends on the text alone.
#[verifier::external_body]
fn url_path(text: &str) -> (r: Result<String, String>)
    ensures
        text_result(r) == url_path_of(text@),
{
    match url::Url::parse(text) {
        Ok(u) => Ok(u.path().to_string()),
        Err(e) => Err(e.to_string()),
    }
}

/// Relies on `urlencoding::decode`: the result depends on the text alone.
#[verifier::external_body]
fn percent_decode(text: &str) -> (r: Result<String, String>)
    ensures
        text_result(r) == percent_decoded(text@),
{
    match urlencoding::decode(text) {
        Ok(s) => Ok(s.into_owned()),
        Err(e) => Err(e.to_string()),
    }
}

impl Default for Request {
    fn default() -> (r: Request)
        ensures
            r.host@ == "localhost"@,
            r.locator@ == "/"@,
            r.data_len == 0,
            r.data is None,
    {
        Request {
            host: String::from_str("localhost"),
            locator: String::from_str("/"),
            data_len: 0,
            data: None,
        }
    }
}

impl Request {
    /// Builds the request for a host from the decoded normalized path of its
    /// locator (or the message of the failure to get it) and its size piece.
    pub fn request_from_parts(host: String, decoded: Result<String, String>, size: &str) -> (r:
        Result<Request, Error>)
        ensures
            parse_result(r) == request_from(host@, text_result(decoded), size@),
            r matches Err(e) ==> e.kind == ErrorKind::RequestError,
            r matches Ok(q) ==> is_rooted_locator(q.locator@),
    {
        let path = match decoded {
            Ok(p) => p,
            Err(m) => {
                return Err(Error { kind: ErrorKind::RequestError, msg: m });
            },
        };
        let locator = match remove_dot_segments(path.as_str()) {
            Some(l) => l,
            None => {
                return Err(Error::new_request_error(PARSE_ERR));
            },
        };
        proof {
            lemma_dot_segments_removed_is_rooted(path@);
        }
        let size_value = match parse_usize(size) {
            Some(n) => n,
            None => {
                return Err(Error::new_request_error(PARSE_ERR));
            },
        };
        let r = Request { host, locator, data_len: size_value, data: None };
        assert(r@ == RequestView { host: host@, locator: locator@, data_len: size_value, data: None });
        Ok(r)
    }

    /// Parses a non-empty request line.
    fn try_parse_line(request: String) -> (r: Result<Request, Error>)
        requires
            request@.len() > 0,
        ensures
            parse_result(r) == request_of_line(request@),
            r matches Err(e) ==> e.kind == ErrorKind::RequestError,
            r matches Ok(q) ==> is_rooted_locator(q.locator@),
    {
        let (host, locator, size) = match three_pieces(request.as_str()) {
            Some(t) => t,
            None => {
                return Err(Error::new_request_error(PARSE_ERR));
            },
        };
        let mut url = String::from_str("spartan://");
        url.append(host.as_str());
        url.append(locator.as_str());
        assert(url@ == request_url(host@, locator@));
        assert(split_spaces(request@) == seq![host@, locator@, size@]);
        let path = match url_path(url.as_str()) {
            Ok(p) => p,
            Err(m) => {
                return Err(Error { kind: ErrorKind::RequestError, msg: m });
            },
        };
        Request::request_from_parts(host, percent_decode(path.as_str()), size.as_str())
    }

    /// Creates a request from its line; the body is not attached yet.
    pub fn create_from_request_line(request: String) -> (r: Result<Request, Error>)
        ensures
            parse_result(r) == request_of_line(request@),
            r matches Err(e) ==> e.kind == ErrorKind::RequestError,
            r matches Ok(q) ==> is_rooted_locator(q.locator@),
    {
        if request.as_str().is_empty() {
            Err(Error::new_request_error(EMPTY_REQ))
        } else {
            Request::try_parse_line(request)
        }
    }

    /// Attaches a body, which must have exactly the announced length.
    pub fn append_data(&self, data: Vec<u8>) -> (r: Result<Request, Error>)
        ensures
            r is Ok <==> data@.len() == self.data_len,
            r matches Ok(q) ==> q@ == (RequestView { data: Some(data@), ..self@ }),
            r matches Err(e) ==> e.kind == ErrorKind::RequestError && e.msg@ == WRONG_DATA_SIZE@,
    {
        if data.len() != self.data_len {
            Err(Error::new_request_error(WRONG_DATA_SIZE))
        } else {
            let r = Request {
                host: self.host.clone(),
                locator: self.locator.clone(),
                data_len: self.data_len,
                data: Some(data),
            };
            assert(r@.data == Some(data@));
            Ok(r)
        }
    }
}

/// A line of exactly three pieces, whose locator normalizes and decodes to
/// an absolute path and whose last piece is a decimal `usize`, is a request:
/// for that host, that path with its dot segments resolved, and that body
/// length, with no body yet; its locator lies inside its root.
pub proof fn lemma_well_formed_line_parses(line: Seq<char>)
    requires
        split_spaces(line).len() == 3,
        normalized_locator(split_spaces(line)[0], split_spaces(line)[1]) is Ok,
        normalized_locator(split_spaces(line)[0], split_spaces(line)[1])->Ok_0.len() > 0,
        normalized_locator(split_spaces(line)[0], split_spaces(line)[1])->Ok_0[0] == '/',
        usize_of_text(split_spaces(line)[2]) is Some,
    ensures
        request_of_line(line) == Ok::<RequestView, Seq<char>>(
            RequestView {
                host: split_spaces(line)[0],
                locator: dot_segments_removed(
                    normalized_locator(split_spaces(line)[0], split_spaces(line)[1])->Ok_0,
                )->Some_0,
                data_len: usize_of_text(split_spaces(line)[2])->Some_0,
                data: None,
            },
        ),
        is_rooted_locator(request_of_line(line)->Ok_0.locator),
{
    if line.len() == 0 {
        assert(split_spaces(line).len() == 1);
    }
    lemma_dot_segments_removed_is_rooted(
        normalized_locator(split_spaces(line)[0], split_spaces(line)[1])->Ok_0,
    );
}

/// An empty line is an empty request; any other line that does not have
/// exactly three pieces is malformed.
pub proof fn lemma_malformed_lines(line: Seq<char>)
    ensures
        line.len() == 0 ==> request_of_line(line) == Err::<RequestView, Seq<char>>(EMPTY_REQ@),
        line.len() > 0 && split_spaces(line).len() != 3 ==> request_of_line(line) == Err::<
            RequestView,
            Seq<char>,
        >(PARSE_ERR@),
{
}

/// Every request that a line gives has a locator inside its root: it starts
/// with `/` and has no `..` segment, whatever `..`, `.` or percent-escapes
/// the line held.
pub proof fn lemma_accepted_locator_is_rooted(line: Seq<char>)
    requires
        request_of_line(line) is Ok,
    ensures
        is_rooted_locator(request_of_line(line)->Ok_0.locator),
{
    let t = split_spaces(line);
    if line.len() > 0 && t.len() == 3 {
        if let Ok(path) = normalized_locator(t[0], t[1]) {
            if dot_segments_removed(path) is Some {
                lemma_dot_segments_removed_is_rooted(path);
            }
        }
    }
}

} // verus!
