//! The inbound byte buffer of a connection, a `bytes::BytesMut`, seen through
//! the few operations that framing needs.

use vstd::prelude::*;

verus! {

#[verifier::external_type_specification]
#[verifier::external_body]
pub struct ExBytesMut(bytes::BytesMut);

/// The bytes a `BytesMut` currently holds, from its head.
pub uninterp spec fn buffered(b: bytes::BytesMut) -> Seq<u8>;

/// Relies on `BytesMut::len`: the number of bytes held.
#[verifier::external_body]
pub(crate) fn buf_len(b: &bytes::BytesMut) -> (r: usize)
    ensures
        r == buffered(*b).len(),
{
    b.len()
}

/// Relies on indexing through `BytesMut`'s `Deref<Target = [u8]>`: the byte at
/// position `i`.
#[verifier::external_body]
pub(crate) fn buf_byte(b: &bytes::BytesMut, i: usize) -> (r: u8)
    requires
        i < buffered(*b).len(),
    ensures
        r == buffered(*b)[i as int],
{
    b[i]
}

/// Relies on slicing through `BytesMut`'s `Deref<Target = [u8]>` and on
/// `<[u8]>::to_vec`: a copy of the first `n` bytes.
#[verifier::external_body]
pub(crate) fn buf_prefix(b: &bytes::BytesMut, n: usize) -> (r: Vec<u8>)
    requires
        n <= buffered(*b).len(),
    ensures
        r@ == buffered(*b).take(n as int),
{
    b[..n].to_vec()
}

/// Relies on `<BytesMut as Buf>::advance`: drops the first `n` bytes and keeps
/// the rest in order (it panics when `n` exceeds the length).
#[verifier::external_body]
pub(crate) fn buf_advance(b: &mut bytes::BytesMut, n: usize)
    requires
        n <= buffered(*old(b)).len(),
    ensures
        buffered(*final(b)) == buffered(*old(b)).skip(n as int),
{
    bytes::Buf::advance(b, n)
}

} // verus!
