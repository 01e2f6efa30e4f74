use crate::error::{Error, ErrorKind};
use crate::text::{trim_line_end, trimmed_range, utf8_text, INVALID_TEXT};
use vstd::prelude::*;
use vstd::utf8::{decode_utf8, valid_utf8};

verus! {

/// The request line that the bytes read up to a line feed hold: without its
/// trailing CR/LF, decoded as UTF-8; an I/O error when it is not UTF-8.
pub open spec fn line_of(bytes: Seq<u8>) -> Result<Seq<char>, (ErrorKind, Seq<char>)> {
    let t = trim_line_end(bytes);
    if valid_utf8(t) {
        Ok(decode_utf8(t))
    } else {
        Err((ErrorKind::Io, INVALID_TEXT@))
    }
}

/// Turns the bytes read up to a line feed into the request line.
pub fn line_from_bytes(buffer: Vec<u8>) -> (r: Result<String, Error>)
    ensures
        match r {
            Ok(s) => line_of(buffer@) == Ok::<Seq<char>, (ErrorKind, Seq<char>)>(s@),
            Err(e) => line_of(buffer@) == Err::<Seq<char>, (ErrorKind, Seq<char>)>(e@),
        },
{
    let n = buffer.len();
    let t = trimmed_range(&buffer, 0, n);
    assert(buffer@.subrange(0, n as int) =~= buffer@);
    match utf8_text(t) {
        Some(s) => Ok(s),
        None => Err(Error::new_io(INVALID_TEXT)),
    }
}

/// A body being read in chunks: the length announced, and what came so far.
pub struct BodyBuffer {
    pub expected: usize,
    pub data: Vec<u8>,
}

impl BodyBuffer {
    /// Never more than announced.
    pub open spec fn wf(&self) -> bool {
        self.data@.len() <= self.expected
    }

    pub fn new(expected: usize) -> (r: BodyBuffer)
        ensures
            r.wf(),
            r.expected == expected,
            r.data@ == Seq::<u8>::empty(),
    {
        BodyBuffer { expected, data: Vec::new() }
    }

    /// How many bytes are still to come.
    pub fn remaining(&self) -> (r: usize)
        requires
            self.wf(),
        ensures
            r == self.expected - self.data@.len(),
    {
        self.expected - self.data.len()
    }

    /// Takes one chunk that the peer sent; an empty chunk means that the
    /// peer closed. Says whether to read on.
    pub fn push_chunk(&mut self, chunk: Vec<u8>) -> (more: bool)
        requires
            old(self).wf(),
            chunk@.len() <= old(self).expected - old(self).data@.len(),
        ensures
            final(self).wf(),
            final(self).expected == old(self).expected,
            final(self).data@ == old(self).data@ + chunk@,
            more == (chunk@.len() > 0 && final(self).data@.len() < final(self).expected),
    {
        let empty = chunk.len() == 0;
        let mut chunk = chunk;
        self.data.append(&mut chunk);
        !empty && self.data.len() < self.expected
    }

    /// What came, which may be short of what was announced.
    pub fn into_bytes(self) -> (r: Vec<u8>)
        ensures
            r@ == self.data@,
    {
        self.data
    }
}

} // verus!
