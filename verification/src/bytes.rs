//! The secure buffer: bytes that are fixed when the buffer is made, can be
//! read but not changed while it lives, and are overwritten with zeros when
//! its life ends.

use crate::error::{not_text, SecureError};
use vstd::prelude::*;
use vstd::string::StringSliceAdditionalSpecFns;
use vstd::utf8::{decode_utf8, encode_utf8, valid_utf8};
use zeroize::Zeroize;

verus! {

/// `n` zero bytes.
pub open spec fn zeros(n: nat) -> Seq<u8> {
    Seq::new(n, |i: int| 0u8)
}

/// What every rendering of a [`SecureBytes`] for a developer's eyes shows.
pub open spec fn redacted_bytes() -> Seq<char> {
    "SecureBytes(b'****')"@
}

/// Overwrites the elements of `bytes` with zeros, in place.
///
/// Calls `zeroize` of the `zeroize` crate on the vector's slice (its impl
/// of `Zeroize` for `[Z]`), which writes `Z::default()`, here 0, to every
/// element with volatile writes. The length stays as it is. The one
/// assertion in it, that the length fits in `isize`, holds of every slice,
/// so the call does not unwind.
#[verifier::external_body]
fn zero_fill(bytes: &mut Vec<u8>)
    ensures
        final(bytes)@ == zeros(old(bytes)@.len()),
    opens_invariants none
    no_unwind
{
    bytes.as_mut_slice().zeroize();
}

/// The error of `std::str::from_utf8`. Nothing is read from it.
#[verifier::external_type_specification]
#[verifier::external_body]
pub struct ExUtf8Error(std::str::Utf8Error);

/// `std::str::from_utf8` checks that the bytes are valid UTF-8 and, if
/// they are, returns them as a string slice over the same bytes;
/// otherwise it returns an error.
pub assume_specification[ std::str::from_utf8 ](v: &[u8]) -> (result: Result<
    &str,
    std::str::Utf8Error,
>)
    ensures
        result is Ok <==> valid_utf8(v@),
        result matches Ok(s) ==> s.spec_bytes() == v@,
;

/// A byte container for secret material.
///
/// The bytes are fixed at construction and read-only afterwards. At the end
/// of the buffer's life they are overwritten with zeros: by
/// [`SecureBytes::release`] or [`SecureBytes::wipe`] where the owner ends
/// it, and by the destructor in any case.
pub struct SecureBytes {
    inner: Vec<u8>,
}

impl View for SecureBytes {
    type V = Seq<u8>;

    closed spec fn view(&self) -> Seq<u8> {
        self.inner@
    }
}

impl SecureBytes {
    /// Whether the bytes are valid UTF-8 text.
    pub open spec fn is_text(&self) -> bool {
        valid_utf8(self@)
    }

    /// The text that the bytes encode, where [`Self::is_text`] holds.
    pub open spec fn text(&self) -> Seq<char> {
        decode_utf8(self@)
    }

    /// Copies `data` into a fresh buffer. Locking its memory is left to
    /// the caller: [`SecureBytes::lock_region`] names it.
    pub fn new(data: &[u8]) -> (buffer: Self)
        ensures
            buffer@ == data@,
    {
        SecureBytes { inner: vstd::slice::slice_to_vec(data) }
    }

    /// The bytes, for reading.
    pub fn as_bytes(&self) -> (bytes: &[u8])
        ensures
            bytes@ == self@,
    {
        self.inner.as_slice()
    }

    /// The number of bytes.
    pub fn len(&self) -> (n: usize)
        ensures
            n == self@.len(),
    {
        self.inner.len()
    }

    /// Whether the buffer holds no byte. An empty buffer has no memory to
    /// lock.
    pub fn is_empty(&self) -> (empty: bool)
        ensures
            empty == (self@.len() == 0),
    {
        self.inner.len() == 0
    }

    /// The memory that is to be locked against swapping while the buffer
    /// lives: all of it, and none for an empty buffer.
    pub fn lock_region(&self) -> (region: Option<&[u8]>)
        ensures
            region is Some <==> self@.len() > 0,
            region matches Some(bytes) ==> bytes@ == self@,
    {
        if self.inner.len() == 0 {
            None
        } else {
            Some(self.inner.as_slice())
        }
    }

    /// The bytes as text, if they are valid UTF-8. The error says nothing
    /// of the bytes.
    pub fn as_str(&self) -> (result: Result<&str, SecureError>)
        ensures
            result is Ok <==> self.is_text(),
            result matches Ok(s) ==> s@ == self.text(),
            result matches Err(e) ==> e@ == not_text(),
    {
        broadcast use vstd::utf8::encode_utf8_decode_utf8;

        match std::str::from_utf8(self.inner.as_slice()) {
            Ok(s) => {
                assert(decode_utf8(encode_utf8(s@)) == s@);
                Ok(s)
            },
            Err(_) => Err(SecureError::invalid_text()),
        }
    }

    /// A copy of the bytes outside the buffer. The copy is not wiped when
    /// the buffer is.
    pub fn to_owned_bytes(&self) -> (copy: Vec<u8>)
        ensures
            copy@ == self@,
    {
        self.inner.clone()
    }

    /// The rendering for logs and debuggers: a fixed placeholder, whatever
    /// the buffer holds.
    pub fn redacted(&self) -> (shown: String)
        ensures
            shown@ == redacted_bytes(),
    {
        "SecureBytes(b'****')".to_owned()
    }

    /// Begins the end of the buffer's life: overwrites every byte with zero
    /// and hands out the memory that is then to be unlocked, all of it, and
    /// none for an empty buffer. The buffer holds afterwards what the
    /// holder of that memory leaves in it.
    pub fn release(&mut self) -> (region: Option<&mut [u8]>)
        ensures
            region is Some <==> old(self)@.len() > 0,
            region matches Some(bytes) ==> bytes@ == zeros(old(self)@.len()) && final(bytes)@
                == final(self)@,
            region is None ==> final(self)@ == old(self)@,
    {
        zero_fill(&mut self.inner);
        if self.inner.len() == 0 {
            None
        } else {
            Some(self.inner.as_mut_slice())
        }
    }

    /// Overwrites every byte with zero and keeps the length.
    pub fn wipe(&mut self)
        ensures
            final(self)@ == zeros(old(self)@.len()),
    {
        zero_fill(&mut self.inner);
    }
}

impl Clone for SecureBytes {
    /// A second buffer with the same bytes.
    fn clone(&self) -> (copy: Self)
        ensures
            copy@ == self@,
    {
        SecureBytes { inner: self.inner.clone() }
    }
}

impl Drop for SecureBytes {
    /// Wipes the bytes before the memory is given back.
    fn drop(&mut self)
        ensures
            final(self)@ == zeros(old(self)@.len()),
        opens_invariants none
        no_unwind
    {
        zero_fill(&mut self.inner);
    }
}

} // verus!
