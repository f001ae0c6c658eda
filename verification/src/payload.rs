//! The payload encoding, which `postcard` provides: integers as fixed-width
//! little-endian bytes, the fields of a record one after the other.

use crate::endian::{le_bytes_u16, le_bytes_u32};
use postcard::Error as PostcardError;
use vstd::prelude::*;

verus! {

/// `postcard::Error`, carried through as an opaque value.
#[verifier::external_type_specification]
#[verifier::external_body]
pub struct ExPostcardError(PostcardError);

/// `postcard::to_slice` on a `u32`. It writes the four bytes of `value`,
/// least significant first, at the start of `buf` and returns how many it
/// wrote; the rest of `buf` keeps its contents. It fails exactly when `buf`
/// is shorter than four bytes. The length of `buf` never changes.
#[verifier::external_body]
pub(crate) fn to_slice_u32(value: u32, buf: &mut Vec<u8>) -> (used: Result<usize, PostcardError>)
    ensures
        final(buf)@.len() == old(buf)@.len(),
        old(buf)@.len() >= 4 ==> (used matches Ok(n) && n == 4),
        old(buf)@.len() >= 4 ==> final(buf)@ == le_bytes_u32(value) + old(buf)@.skip(4),
        old(buf)@.len() < 4 ==> used is Err,
{
    match postcard::to_slice(&value, buf.as_mut_slice()) {
        Ok(written) => Ok(written.len()),
        Err(e) => Err(e),
    }
}

/// `postcard::to_slice` on a pair of a `u32` and a `u16`. It writes the
/// four bytes of `first` and then the two bytes of `second`, each least
/// significant first, at the start of `buf` and returns how many it wrote;
/// the rest of `buf` keeps its contents. It fails exactly when `buf` is
/// shorter than six bytes. The length of `buf` never changes.
#[verifier::external_body]
pub(crate) fn to_slice_u32_u16(first: u32, second: u16, buf: &mut Vec<u8>) -> (used: Result<
    usize,
    PostcardError,
>)
    ensures
        final(buf)@.len() == old(buf)@.len(),
        old(buf)@.len() >= 6 ==> (used matches Ok(n) && n == 6),
        old(buf)@.len() >= 6 ==> final(buf)@ == le_bytes_u32(first) + le_bytes_u16(second) + old(buf)@.skip(6),
        old(buf)@.len() < 6 ==> used is Err,
{
    match postcard::to_slice(&(first, second), buf.as_mut_slice()) {
        Ok(written) => Ok(written.len()),
        Err(e) => Err(e),
    }
}

} // verus!
