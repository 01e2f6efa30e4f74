use vstd::prelude::*;

verus! {

/// The class of a failure.
#[derive(Clone, Copy, Debug, PartialEq, Eq, Structural)]
pub enum ErrorKind {
    Io,
    RequestError,
    Other,
    Unexpected,
}

/// A failure: its class and a human-readable message.
#[derive(Clone, Debug, PartialEq, Eq)]
pub struct Error {
    pub kind: ErrorKind,
    pub msg: String,
}

impl View for Error {
    type V = (ErrorKind, Seq<char>);

    open spec fn view(&self) -> (ErrorKind, Seq<char>) {
        (self.kind, self.msg@)
    }
}

/// The prefix that names each class of failure in its rendered text.
pub open spec fn kind_prefix(kind: ErrorKind) -> Seq<char> {
    match kind {
        ErrorKind::Io => "Io error: "@,
        ErrorKind::RequestError => "Request error: "@,
        ErrorKind::Other => "Other error: "@,
        ErrorKind::Unexpected => "Unexpected error: "@,
    }
}

/// The rendered text of a failure: its class prefix followed by the message.
pub open spec fn error_text(kind: ErrorKind, msg: Seq<char>) -> Seq<char> {
    kind_prefix(kind) + msg
}

impl Default for ErrorKind {
    fn default() -> (r: ErrorKind)
        ensures
            r == ErrorKind::Io,
    {
        ErrorKind::Io
    }
}

impl Error {
    pub fn new(kind: ErrorKind, msg: &str) -> (r: Error)
        ensures
            r.kind == kind,
            r.msg@ == msg@,
    {
        Error { kind, msg: msg.to_owned() }
    }

    pub fn new_io(msg: &str) -> (r: Error)
        ensures
            r.kind == ErrorKind::Io,
            r.msg@ == msg@,
    {
        Error::new(ErrorKind::Io, msg)
    }

    pub fn new_request_error(msg: &str) -> (r: Error)
        ensures
            r.kind == ErrorKind::RequestError,
            r.msg@ == msg@,
    {
        Error::new(ErrorKind::RequestError, msg)
    }

    pub fn new_other(msg: &str) -> (r: Error)
        ensures
            r.kind == ErrorKind::Other,
            r.msg@ == msg@,
    {
        Error::new(ErrorKind::Other, msg)
    }

    pub fn new_unexpected(msg: &str) -> (r: Error)
        ensures
            r.kind == ErrorKind::Unexpected,
            r.msg@ == msg@,
    {
        Error::new(ErrorKind::Unexpected, msg)
    }

    /// The rendered text of this failure, as shown to a peer.
    pub fn to_text(&self) -> (r: String)
        ensures
            r@ == error_text(self.kind, self.msg@),
    {
        let prefix = match self.kind {
            ErrorKind::Io => "Io error: ",
            ErrorKind::RequestError => "Request error: ",
            ErrorKind::Other => "Other error: ",
            ErrorKind::Unexpected => "Unexpected error: ",
        };
        let mut text = String::from_str(prefix);
        text.append(self.msg.as_str());
        text
    }
}

} // verus!
