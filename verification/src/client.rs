//! The client's side of a connection to the server: what to send, and how much
//! to read.
use crate::frame::{bytes_wanted, encode_frame, frame, take_frame};
use crate::outside::read_u32;
use std::io;
use vstd::prelude::*;

verus! {

/// A connection to the server: the bytes that have been read from it and not yet
/// been taken, and the bytes that are still to be written to it.
#[derive(Debug)]
pub struct ServerConnection {
    reader: Vec<u8>,
    writer: Vec<u8>,
}

/// What a [`ServerConnection`] holds.
pub struct ConnectionView {
    pub incoming: Seq<u8>,
    pub outgoing: Seq<u8>,
}

impl View for ServerConnection {
    type V = ConnectionView;

    closed spec fn view(&self) -> ConnectionView {
        ConnectionView { incoming: self.reader@, outgoing: self.writer@ }
    }
}

/// How far the reading of one response has come.
#[derive(Debug)]
pub enum ResponseRead {
    /// The response, still serialized.
    Response(Vec<u8>),
    /// So many bytes have to be read from the server first.
    Wanted(usize),
}

/// Why a response could not be read.
#[derive(Debug)]
pub enum ResponseError {
    /// The length could not be read.
    Header(io::Error),
    /// The length could be read, but not the response.
    Body(io::Error),
}

impl ResponseError {
    /// What is said in front of the I/O error, if anything is.
    pub fn context(&self) -> (context: Option<&'static str>)
        ensures
            match self {
                ResponseError::Header(_) => context matches Some(text) && text@
                    == "Failed to read response header"@,
                ResponseError::Body(_) => context is None,
            },
    {
        match self {
            ResponseError::Header(_) => Some("Failed to read response header"),
            ResponseError::Body(_) => None,
        }
    }
}

impl ServerConnection {
    /// A new connection, with nothing read and nothing to write.
    pub fn new() -> (conn: ServerConnection)
        ensures
            conn@ == (ConnectionView { incoming: Seq::empty(), outgoing: Seq::empty() }),
    {
        ServerConnection { reader: Vec::new(), writer: Vec::new() }
    }

    /// Have `request`, which is serialized, sent to the server. Nothing is read
    /// before it has been written; [`ServerConnection::request_sent`] goes on from
    /// there.
    pub fn request(&mut self, request: &[u8])
        requires
            request@.len() <= u32::MAX,
        ensures
            final(self)@ == (ConnectionView {
                outgoing: old(self)@.outgoing + frame(request@),
                ..old(self)@
            }),
    {
        let mut encoded = encode_frame(request);
        self.writer.append(&mut encoded);
        assert(self@.outgoing =~= old(self)@.outgoing + frame(request@));
    }

    /// Go on after a request, with what writing it to the server came to: read the
    /// response, or hand the failure on and read nothing. The request has been
    /// taken out by [`ServerConnection::take_outgoing`].
    pub fn request_sent(&mut self, written: Result<(), io::Error>) -> (read: Result<
        ResponseRead,
        io::Error,
    >)
        requires
            old(self)@.outgoing.len() == 0,
        ensures
            match written {
                Err(error) => read == Err::<ResponseRead, io::Error>(error) && final(self)@ == old(
                    self,
                )@,
                Ok(_) => match take_frame(old(self)@.incoming) {
                    Some((body, rest)) => {
                        &&& read matches Ok(ResponseRead::Response(response)) && response@ == body
                        &&& final(self)@ == (ConnectionView { incoming: rest, ..old(self)@ })
                    },
                    None => {
                        &&& read matches Ok(ResponseRead::Wanted(count)) && count == bytes_wanted(
                            old(self)@.incoming,
                        )
                        &&& final(self)@ == old(self)@
                    },
                },
            },
    {
        match written {
            Ok(()) => Ok(self.read_one_response()),
            Err(error) => Err(error),
        }
    }

    /// Take the bytes that are to be written to the server.
    pub fn take_outgoing(&mut self) -> (bytes: Vec<u8>)
        ensures
            bytes@ == old(self)@.outgoing,
            final(self)@ == (ConnectionView { outgoing: Seq::empty(), ..old(self)@ }),
    {
        let mut bytes: Vec<u8> = Vec::new();
        bytes.append(&mut self.writer);
        assert(bytes@ =~= old(self)@.outgoing);
        bytes
    }

    /// Take in bytes that have been read from the server.
    pub fn receive(&mut self, bytes: &[u8])
        ensures
            final(self)@ == (ConnectionView {
                incoming: old(self)@.incoming + bytes@,
                ..old(self)@
            }),
    {
        self.reader.extend_from_slice(bytes);
        assert(self@.incoming =~= old(self)@.incoming + bytes@);
    }

    /// Read a single response, if all of it has been received. Bytes behind it are
    /// left for the next one.
    pub fn read_one_response(&mut self) -> (read: ResponseRead)
        ensures
            match take_frame(old(self)@.incoming) {
                Some((body, rest)) => {
                    &&& read matches ResponseRead::Response(response) && response@ == body
                    &&& final(self)@ == (ConnectionView { incoming: rest, ..old(self)@ })
                },
                None => {
                    &&& read matches ResponseRead::Wanted(count) && count == bytes_wanted(
                        old(self)@.incoming,
                    )
                    &&& final(self)@ == old(self)@
                },
            },
    {
        let have: usize = self.reader.len();
        if have < 4 {
            return ResponseRead::Wanted(4 - have);
        }
        let len: usize = read_u32(self.reader.as_slice()) as usize;
        if have - 4 < len {
            return ResponseRead::Wanted(len - (have - 4));
        }
        let rest = self.reader.split_off(4 + len);
        let response = self.reader.split_off(4);
        self.reader = rest;
        assert(response@ =~= old(self)@.incoming.subrange(4, 4 + len));
        assert(self@.incoming =~= old(self)@.incoming.skip(4 + len as int));
        ResponseRead::Response(response)
    }

    /// Give up the response that is being read, because the server could not be
    /// read from.
    pub fn read_failed(&mut self, error: io::Error) -> (failure: ResponseError)
        ensures
            failure == if old(self)@.incoming.len() < 4 {
                ResponseError::Header(error)
            } else {
                ResponseError::Body(error)
            },
            final(self)@ == (ConnectionView { incoming: Seq::empty(), ..old(self)@ }),
    {
        let in_header = self.reader.len() < 4;
        self.reader = Vec::new();
        if in_header {
            ResponseError::Header(error)
        } else {
            ResponseError::Body(error)
        }
    }
}

} // verus!
