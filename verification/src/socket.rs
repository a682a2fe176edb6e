//! Collecting what a guest process writes to its socket.
//!
//! The caller owns the socket and receives into a buffer of its own; after
//! each receive it hands the buffer and the receive's result to
//! [`Received::accept`], which keeps the bytes and says whether to go on.

use vstd::prelude::*;
use vstd::slice::slice_subrange;
use vstd::utf8::{decode_utf8, valid_utf8};

verus! {

/// The size of the buffer to receive into.
pub const CHUNK_SIZE: usize = 1024;

/// The text that the standard library's lossy UTF-8 decoding gives for
/// `bytes`: well-formed parts decoded, each malformed part replaced by the
/// replacement character.
pub uninterp spec fn utf8_lossy(bytes: Seq<u8>) -> Seq<char>;

/// Calls `String::from_utf8_lossy` and takes the result as an owned string.
///
/// Trusted: the result is the lossy decoding of `bytes`, and for well-formed
/// UTF-8 it is the very text that `bytes` encode.
#[verifier::external_body]
fn decode_lossy(bytes: &[u8]) -> (text: String)
    ensures
        text@ == utf8_lossy(bytes@),
        valid_utf8(bytes@) ==> text@ == decode_utf8(bytes@),
{
    String::from_utf8_lossy(bytes).into_owned()
}

/// The part of `chunk` that a receive with result `result` filled: the first
/// `result` bytes where it is positive, nothing where the peer closed the
/// connection (zero) or the receive failed (negative).
pub open spec fn filled_part(chunk: Seq<u8>, result: int) -> Seq<u8> {
    if result > 0 {
        chunk.subrange(0, result)
    } else {
        Seq::empty()
    }
}

/// The bytes received so far.
#[derive(Debug)]
pub struct Received {
    data: Vec<u8>,
}

impl View for Received {
    type V = Seq<u8>;

    closed spec fn view(&self) -> Seq<u8> {
        self.data@
    }
}

impl Received {
    /// Nothing received yet.
    pub fn new() -> (received: Self)
        ensures
            received@ == Seq::<u8>::empty(),
    {
        Received { data: Vec::new() }
    }

    /// Takes in one receive: `chunk` is the buffer received into and `result`
    /// what the receive returned. Says whether to receive again.
    pub fn accept(&mut self, chunk: &[u8], result: i32) -> (more: bool)
        requires
            result <= chunk@.len(),
        ensures
            more == (result > 0),
            final(self)@ == old(self)@ + filled_part(chunk@, result as int),
    {
        if result <= 0 {
            assert(self@ + Seq::<u8>::empty() =~= self@);
            return false;
        }
        let filled = slice_subrange(chunk, 0, result as usize);
        self.data.extend_from_slice(filled);
        assert(self.data@ =~= old(self).data@ + filled@);
        true
    }

    /// How many bytes were received.
    pub fn len(&self) -> (n: usize)
        ensures
            n == self@.len(),
    {
        self.data.len()
    }

    /// The bytes received, in order.
    pub fn as_bytes(&self) -> (bytes: &[u8])
        ensures
            bytes@ == self@,
    {
        self.data.as_slice()
    }

    /// The received bytes as text, decoded leniently.
    pub fn into_text(self) -> (text: String)
        ensures
            text@ == utf8_lossy(self@),
            valid_utf8(self@) ==> text@ == decode_utf8(self@),
    {
        decode_lossy(self.data.as_slice())
    }
}

} // verus!
