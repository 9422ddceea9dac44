//! `ByteVec`: bytes that convert to and from `AlgoIo` without going through JSON.

use vstd::prelude::*;
use vstd::string::*;

verus! {

/// Wrapper around `Vec<u8>` for efficient `AlgoIo` conversions when working with byte data
///
/// Serde JSON serializes/deserializes `Vec<u8>` as an array of numbers.
/// This type provides a more direct way of converting to/from `AlgoIo` without going through JSON.
#[derive(Debug, PartialEq, Eq, Hash, PartialOrd, Ord)]
pub struct ByteVec {
    bytes: Vec<u8>,
}

impl View for ByteVec {
    type V = Seq<u8>;

    closed spec fn view(&self) -> Seq<u8> {
        self.bytes@
    }
}

impl Clone for ByteVec {
    /// The same bytes.
    fn clone(&self) -> (r: Self)
        ensures
            r@ == self@,
    {
        ByteVec { bytes: self.bytes.clone() }
    }
}

impl Default for ByteVec {
    /// No bytes.
    fn default() -> (r: Self)
        ensures
            r@ == Seq::<u8>::empty(),
    {
        ByteVec::new()
    }
}

impl ByteVec {
    /// Construct a new, empty `ByteVec`.
    pub fn new() -> (r: ByteVec)
        ensures
            r@ == Seq::<u8>::empty(),
    {
        ByteVec { bytes: Vec::new() }
    }

    /// Construct a new, empty `ByteVec` with the specified capacity.
    pub fn with_capacity(cap: usize) -> (r: ByteVec)
        ensures
            r@ == Seq::<u8>::empty(),
    {
        ByteVec { bytes: Vec::with_capacity(cap) }
    }

    /// The wrapped bytes as a slice (`AsRef<[u8]>`, `Deref`).
    pub fn as_slice(&self) -> (r: &[u8])
        ensures
            r@ == self@,
    {
        self.bytes.as_slice()
    }

    /// The number of bytes.
    pub fn len(&self) -> (r: usize)
        ensures
            r == self@.len(),
    {
        self.bytes.len()
    }
}

impl From<Vec<u8>> for ByteVec {
    /// The same bytes.
    fn from(bytes: Vec<u8>) -> (r: ByteVec)
        ensures
            r@ == bytes@,
    {
        ByteVec { bytes }
    }
}

impl vstd::std_specs::convert::FromSpecImpl<Vec<u8>> for ByteVec {
    open spec fn obeys_from_spec() -> bool {
        true
    }

    closed spec fn from_spec(v: Vec<u8>) -> ByteVec {
        ByteVec { bytes: v }
    }
}

impl<'a> From<&'a [u8]> for ByteVec {
    /// The same bytes.
    fn from(bytes: &'a [u8]) -> (r: ByteVec)
        ensures
            r@ == bytes@,
    {
        ByteVec { bytes: vstd::slice::slice_to_vec(bytes) }
    }
}

impl<'a> vstd::std_specs::convert::FromSpecImpl<&'a [u8]> for ByteVec {
    /// The contract of `from` is its own `ensures`, over the view.
    open spec fn obeys_from_spec() -> bool {
        false
    }

    open spec fn from_spec(v: &'a [u8]) -> ByteVec {
        choose|b: ByteVec| b@ == v@
    }
}

impl<'a> From<&'a str> for ByteVec {
    /// The UTF-8 bytes of the text.
    fn from(text: &'a str) -> (r: ByteVec)
        ensures
            r@ == vstd::utf8::encode_utf8(text@),
    {
        ByteVec { bytes: text.as_bytes_vec() }
    }
}

impl<'a> vstd::std_specs::convert::FromSpecImpl<&'a str> for ByteVec {
    /// The contract of `from` is its own `ensures`, over the view.
    open spec fn obeys_from_spec() -> bool {
        false
    }

    open spec fn from_spec(v: &'a str) -> ByteVec {
        choose|b: ByteVec| b@ == vstd::utf8::encode_utf8(v@)
    }
}

impl From<String> for ByteVec {
    /// The UTF-8 bytes of the text.
    fn from(text: String) -> (r: ByteVec)
        ensures
            r@ == vstd::utf8::encode_utf8(text@),
    {
        ByteVec { bytes: text.as_str().as_bytes_vec() }
    }
}

impl vstd::std_specs::convert::FromSpecImpl<String> for ByteVec {
    /// The contract of `from` is its own `ensures`, over the view.
    open spec fn obeys_from_spec() -> bool {
        false
    }

    open spec fn from_spec(v: String) -> ByteVec {
        choose|b: ByteVec| b@ == vstd::utf8::encode_utf8(v@)
    }
}

impl From<ByteVec> for Vec<u8> {
    /// The wrapped bytes.
    fn from(wrapper: ByteVec) -> (r: Vec<u8>)
        ensures
            r@ == wrapper@,
    {
        wrapper.bytes
    }
}

impl vstd::std_specs::convert::FromSpecImpl<ByteVec> for Vec<u8> {
    open spec fn obeys_from_spec() -> bool {
        true
    }

    closed spec fn from_spec(v: ByteVec) -> Vec<u8> {
        v.bytes
    }
}

} // verus!
