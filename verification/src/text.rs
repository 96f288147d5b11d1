//! Encoding of texts for the native hosting calls.
//!
//! The hosting resolver takes NUL-terminated wide (UTF-16) strings; the
//! managed entry point takes a NUL-terminated UTF-8 buffer. Both encodings
//! reject a text with an embedded terminator character.

use vstd::prelude::*;

verus! {

use crate::error::Error;

/// The UTF-16 code units that `str::encode_utf16` produces for a text.
pub uninterp spec fn utf16_of(s: Seq<char>) -> Seq<u16>;

/// Relies on `str::encode_utf16` (collected into a vector): the UTF-16 code
/// units of the text, a function of its characters alone.
#[verifier::external_body]
fn utf16_units(s: &str) -> (r: Vec<u16>)
    ensures
        r@ == utf16_of(s@),
{
    s.encode_utf16().collect()
}

/// Whether a sequence of wide code units is free of the terminator value.
pub open spec fn no_nul_units(u: Seq<u16>) -> bool {
    forall|i: int| 0 <= i < u.len() ==> u[i] != 0
}

/// Whether a sequence of bytes is free of the terminator value.
pub open spec fn no_nul_bytes(b: Seq<u8>) -> bool {
    forall|i: int| 0 <= i < b.len() ==> b[i] != 0
}

/// The wide code units of `head` followed by those of `tail`, before
/// termination. Paths handed to the resolver are built this way: a directory
/// followed by a fixed file suffix.
pub open spec fn wide_pair(head: Seq<char>, tail: Seq<char>) -> Seq<u16> {
    utf16_of(head) + utf16_of(tail)
}

/// Append the terminator to `units`, rejecting an embedded one.
fn terminate_units(units: Vec<u16>) -> (r: Result<Vec<u16>, Error>)
    ensures
        (r is Ok) == no_nul_units(units@),
        r matches Ok(u) ==> u@ == units@.push(0u16),
        r matches Err(e) ==> e == Error::InvalidParameterEncoding,
{
    let mut i: usize = 0;
    while i < units.len()
        invariant
            0 <= i <= units@.len(),
            forall|j: int| 0 <= j < i ==> units@[j] != 0,
        decreases units@.len() - i,
    {
        if units[i] == 0 {
            return Err(Error::InvalidParameterEncoding);
        }
        i += 1;
    }
    let mut out = units;
    out.push(0);
    Ok(out)
}

/// Encode a single text as a NUL-terminated wide string.
pub fn wide_c_string(s: &str) -> (r: Result<Vec<u16>, Error>)
    ensures
        (r is Ok) == no_nul_units(utf16_of(s@)),
        r matches Ok(u) ==> u@ == utf16_of(s@).push(0u16),
        r matches Err(e) ==> e == Error::InvalidParameterEncoding,
{
    terminate_units(utf16_units(s))
}

/// Encode `head` followed by `tail` as one NUL-terminated wide string.
pub fn wide_c_pair(head: &str, tail: &str) -> (r: Result<Vec<u16>, Error>)
    ensures
        (r is Ok) == no_nul_units(wide_pair(head@, tail@)),
        r matches Ok(u) ==> u@ == wide_pair(head@, tail@).push(0u16),
        r matches Err(e) ==> e == Error::InvalidParameterEncoding,
{
    let mut units = utf16_units(head);
    let mut tail_units = utf16_units(tail);
    units.append(&mut tail_units);
    terminate_units(units)
}

/// The buffer handed to the managed entry point for a parameter text: its
/// UTF-8 bytes followed by the terminator.
pub open spec fn entry_buffer_of(text: Seq<char>) -> Seq<u8> {
    vstd::utf8::encode_utf8(text).push(0u8)
}

/// Encode the parameter text as a NUL-terminated UTF-8 buffer, byte for byte.
pub fn entry_buffer(text: &str) -> (r: Result<Vec<u8>, Error>)
    ensures
        (r is Ok) == no_nul_bytes(vstd::utf8::encode_utf8(text@)),
        r matches Ok(b) ==> b@ == entry_buffer_of(text@),
        r matches Err(e) ==> e == Error::InvalidParameterEncoding,
{
    let bytes = vstd::string::StrSliceExecFns::as_bytes_vec(text);
    let mut i: usize = 0;
    while i < bytes.len()
        invariant
            0 <= i <= bytes@.len(),
            bytes@ == vstd::utf8::encode_utf8(text@),
            forall|j: int| 0 <= j < i ==> bytes@[j] != 0,
        decreases bytes@.len() - i,
    {
        if bytes[i] == 0 {
            return Err(Error::InvalidParameterEncoding);
        }
        i += 1;
    }
    let mut out = bytes;
    out.push(0);
    Ok(out)
}

} // verus!
