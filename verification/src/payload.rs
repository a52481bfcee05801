use vstd::prelude::*;

verus! {

/// A shared, immutable byte buffer from the `bytes` crate.
#[verifier::external_type_specification]
#[verifier::external_body]
pub struct ExBytes(bytes::Bytes);

/// The bytes that a `Bytes` buffer holds.
pub uninterp spec fn bytes_view(b: bytes::Bytes) -> Seq<u8>;

/// Copies a slice into a new buffer with `Bytes::copy_from_slice`.
///
/// Trusted: the new buffer holds exactly the bytes of the slice, in order.
#[verifier::external_body]
pub(crate) fn bytes_copy_from_slice(data: &[u8]) -> (r: bytes::Bytes)
    ensures
        bytes_view(r) == data@,
{
    bytes::Bytes::copy_from_slice(data)
}

/// Borrows the contents of a buffer (`<Bytes as AsRef<[u8]>>::as_ref`).
///
/// Trusted: the slice holds exactly the bytes of the buffer, in order.
#[verifier::external_body]
pub(crate) fn bytes_as_slice(b: &bytes::Bytes) -> (r: &[u8])
    ensures
        r@ == bytes_view(*b),
{
    b.as_ref()
}

/// A new buffer that holds a copy of `data`: the payload of an event.
pub fn payload_from_slice(data: &[u8]) -> (r: bytes::Bytes)
    ensures
        bytes_view(r) == data@,
{
    bytes_copy_from_slice(data)
}

/// The number of bytes a buffer holds.
pub fn payload_len(data: &bytes::Bytes) -> (r: usize)
    ensures
        r == bytes_view(*data).len(),
{
    bytes_as_slice(data).len()
}

} // verus!
