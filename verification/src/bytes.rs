//! Raw byte views of parameter words, for queue uploads.
//!
//! A device queue takes plain bytes; every parameter record here is a list
//! of 64-bit words. The reinterpretation of the words as bytes is done by
//! the byte-cast crate, exactly as the upload path does it; the byte order
//! is the machine's, so nothing beyond the length is promised of the
//! contents.

use vstd::prelude::*;

verus! {

/// Relies on bytemuck::cast_slice: reinterprets a word slice as its raw
/// bytes. For a 64-bit source and a byte target the cast cannot fail — the
/// target's alignment is one and its size divides the input's — and the
/// result holds exactly eight bytes per word, in native byte order.
#[verifier::external_body]
pub(crate) fn words_as_bytes(v: &Vec<i64>) -> (r: Vec<u8>)
    ensures
        r@.len() == 8 * v@.len(),
{
    bytemuck::cast_slice::<i64, u8>(v.as_slice()).to_vec()
}

} // verus!
