//! Reading from an input handle and writing to an output handle.

use vstd::prelude::*;

verus! {

/// `std::io::Error`, handed on unchanged.
#[verifier::external_type_specification]
#[verifier::external_body]
pub struct ExIoError(std::io::Error);

/// Relies on `std::io::Read::read`: on success the count it reports is at
/// most the length of the buffer (its documentation requires this of every
/// implementation); the buffer keeps its length.
#[verifier::external_body]
pub(crate) fn read_into<R: std::io::Read>(src: &mut R, buf: &mut [u8]) -> (r: std::io::Result<
    usize,
>)
    ensures
        final(buf)@.len() == old(buf)@.len(),
        r matches Ok(n) ==> n <= old(buf)@.len(),
{
    src.read(buf)
}

/// Relies on `std::io::Write::write`: on success the count it reports is at
/// most the length of the buffer (its documentation requires this of every
/// implementation).
#[verifier::external_body]
pub(crate) fn write_from<W: std::io::Write>(dst: &mut W, buf: &[u8]) -> (r: std::io::Result<
    usize,
>)
    ensures
        r matches Ok(n) ==> n <= buf@.len(),
{
    dst.write(buf)
}

/// Relies on `std::io::Write::flush`.
#[verifier::external_body]
pub(crate) fn flush_out<W: std::io::Write>(dst: &mut W) -> std::io::Result<()> {
    dst.flush()
}

} // verus!
