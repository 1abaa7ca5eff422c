//! Byte-slice ABI: the C-layout pair (pointer, length) that carries nullable
//! byte ranges and strings across the FFI boundary.
//!
//! This crate cannot hold raw pointers, so the pointer is modelled as its
//! address: a `usize` that is `0` exactly when the pointer is null. A null
//! pointer denotes an *absent* value; a non-null pointer with length zero
//! denotes a *present and empty* one. The range is borrowed for the duration
//! of the call that carries it; neither party frees it, so nothing here
//! allocates or releases.

use vstd::prelude::*;
use vstd::utf8::{decode_utf8, valid_utf8};

verus! {

/// Relies on `alloc::string::String::from_utf8`: it returns `Ok` exactly on
/// valid UTF-8 input, and the returned string holds exactly the input bytes.
#[verifier::external_body]
pub(crate) fn bytes_to_string(v: Vec<u8>) -> (r: Option<String>)
    ensures
        r is Some <==> valid_utf8(v@),
        r matches Some(s) ==> s@ == decode_utf8(v@),
{
    String::from_utf8(v).ok()
}

/// A nullable byte range crossing the FFI boundary: the address of its first
/// byte and its length in bytes. Address `0` stands for the null pointer.
#[derive(Clone, Copy, Debug, PartialEq, Eq, Structural)]
pub struct NativeByteSlice {
    pub ptr: usize,
    pub len: usize,
}

/// A byte range that carries UTF-8 text; same layout, decoding is the
/// receiver's responsibility.
pub type NativeString = NativeByteSlice;

impl NativeByteSlice {
    /// The borrowed range this value denotes: `None` for the null pointer,
    /// otherwise the address and length of the range.
    pub open spec fn spec_range(self) -> Option<(usize, usize)> {
        if self.ptr == 0 {
            None
        } else {
            Some((self.ptr, self.len))
        }
    }

    /// The encoding of an optional borrowed buffer as a slice value.
    pub open spec fn spec_encode(range: Option<(usize, usize)>) -> NativeByteSlice {
        match range {
            Some((addr, len)) => NativeByteSlice { ptr: addr, len },
            None => NativeByteSlice { ptr: 0, len: 0 },
        }
    }

    /// Encodes a borrowed buffer: the address of its first byte and its
    /// length. A real buffer never sits at address zero.
    pub fn from_parts(addr: usize, len: usize) -> (r: Self)
        requires
            addr != 0,
        ensures
            r.spec_range() == Some((addr, len)),
    {
        Self { ptr: addr, len }
    }

    /// Encodes an optional borrowed buffer; `None` becomes the null slice.
    pub fn from_option(range: Option<(usize, usize)>) -> (r: Self)
        requires
            range matches Some(r) ==> r.0 != 0,
        ensures
            r == Self::spec_encode(range),
            r.spec_range() == range,
    {
        match range {
            Some((addr, len)) => Self { ptr: addr, len },
            None => Self { ptr: 0, len: 0 },
        }
    }

    /// Decodes back to an optional borrowed buffer: `None` iff the pointer
    /// is null, otherwise the address and length as they were encoded.
    pub fn to_option(&self) -> (r: Option<(usize, usize)>)
        ensures
            r == self.spec_range(),
    {
        if self.ptr == 0 {
            None
        } else {
            Some((self.ptr, self.len))
        }
    }

    /// Whether this slice denotes an absent value.
    pub fn is_null(&self) -> (r: bool)
        ensures
            r == (self.spec_range() is None),
    {
        self.ptr == 0
    }
}

impl Default for NativeByteSlice {
    /// The default slice is the null pointer with length zero: absent.
    fn default() -> (r: Self)
        ensures
            r.spec_range() is None,
            r.ptr == 0,
            r.len == 0,
    {
        Self { ptr: 0, len: 0 }
    }
}

/// Round trip of the byte-slice ABI: encoding any borrowed buffer and
/// decoding it back yields a range at the same address with the same length,
/// and the absent value exactly when the buffer was absent.
pub proof fn lemma_byte_slice_round_trip(range: Option<(usize, usize)>)
    requires
        range matches Some(r) ==> r.0 != 0,
    ensures
        NativeByteSlice::spec_encode(range).spec_range() == range,
{
}

} // verus!
