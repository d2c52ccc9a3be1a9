//! A piece of a message body, backed by a [`bytes::Bytes`] buffer.
//!
//! The buffer type comes from the `bytes` crate and is opaque here; what it
//! holds is named by [`bytes_seq`], and the handful of buffer operations the
//! crate provides are taken on trust with contracts over that name.

use vstd::prelude::*;

verus! {

#[verifier::external_type_specification]
#[verifier::external_body]
pub struct ExBytes(bytes::Bytes);

/// The bytes that a [`bytes::Bytes`] buffer holds, in order.
pub uninterp spec fn bytes_seq(b: bytes::Bytes) -> Seq<u8>;

/// Relies on `Bytes`'s `From<Vec<u8>>`: the buffer takes over exactly the
/// vector's bytes.
pub assume_specification[ <bytes::Bytes as From<Vec<u8>>>::from ](vec: Vec<u8>) -> (b:
    bytes::Bytes)
    ensures
        bytes_seq(b) == vec@,
;

/// Relies on `Bytes`'s `AsRef<[u8]>`: it exposes the buffer's bytes.
pub assume_specification[ <bytes::Bytes as AsRef<[u8]>>::as_ref ](b: &bytes::Bytes) -> (s: &[u8])
    ensures
        s@ == bytes_seq(*b),
;

/// A piece of a message body.
pub struct Chunk(Inner);

enum Inner {
    Shared(bytes::Bytes),
}

impl View for Chunk {
    type V = Seq<u8>;

    closed spec fn view(&self) -> Seq<u8> {
        match self.0 {
            Inner::Shared(b) => bytes_seq(b),
        }
    }
}

impl Chunk {
    /// Wraps a byte vector in a chunk.
    pub fn from_vec(v: Vec<u8>) -> (c: Chunk)
        ensures
            c@ == v@,
    {
        Chunk::from_bytes(bytes::Bytes::from(v))
    }

    /// Wraps a buffer in a chunk.
    pub fn from_bytes(mem: bytes::Bytes) -> (c: Chunk)
        ensures
            c@ == bytes_seq(mem),
    {
        Chunk(Inner::Shared(mem))
    }

    /// Wraps a string's bytes in a chunk.
    pub fn from_string(s: String) -> (c: Chunk)
        ensures
            c@ == vstd::utf8::encode_utf8(s@),
    {
        Chunk::from_vec(s.as_str().as_bytes_vec())
    }

    /// Hands the underlying buffer back.
    pub fn into_bytes(self) -> (b: bytes::Bytes)
        ensures
            bytes_seq(b) == self@,
    {
        match self.0 {
            Inner::Shared(bytes) => bytes,
        }
    }

    /// The chunk's bytes as a slice.
    pub fn as_slice(&self) -> (s: &[u8])
        ensures
            s@ == self@,
    {
        match &self.0 {
            Inner::Shared(slice) => slice.as_ref(),
        }
    }
}

} // verus!
