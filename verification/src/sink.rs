//! The byte sink the engine flushes encoded batches to.
//!
//! The engine only ever writes; a failure is silently droppable, so the
//! sink promises nothing.

use vstd::prelude::*;

verus! {

/// The sink rejected or could not accept the bytes.
pub struct WriteError;

#[verifier::external_type_specification]
#[verifier::external_body]
pub struct ExBytesMut(bytes::BytesMut);

/// The bytes a buffer holds.
pub uninterp spec fn buffer_contents(b: bytes::BytesMut) -> Seq<u8>;

/// Relies on bytes' `From<&[u8]> for BytesMut`, which copies the slice
/// into a fresh buffer.
#[verifier::external_body]
pub(crate) fn buffer_from_slice(v: &[u8]) -> (r: bytes::BytesMut)
    ensures
        buffer_contents(r) == v@,
{
    bytes::BytesMut::from(v)
}

/// Writes one encoded record batch into the instance it was built over.
/// The engine never reads back, never retries, and treats any failure as
/// silently droppable, so nothing is assumed of an implementation.
pub trait PerfettoWriter {
    fn write_log(&self, buf: bytes::BytesMut) -> Result<(), WriteError>;
}

} // verus!
