//! Byte containers of the `bytes` crate, as the codec sees them.
//!
//! `Bytes` is an immutable, reference-counted byte slice; `BytesMut` is the
//! growable buffer the decoder reads from. Both are opaque to the verifier:
//! their contents are named by `bytes_view` and `bytes_mut_view`, and each
//! operation the codec performs on them is a small wrapper stating what it
//! does to those contents.
use vstd::prelude::*;

verus! {

/// `bytes::Bytes`, opaque; its contents are `bytes_view`.
#[verifier::external_type_specification]
#[verifier::external_body]
pub struct ExBytes(bytes::Bytes);

/// `bytes::BytesMut`, opaque; its contents are `bytes_mut_view`.
#[verifier::external_type_specification]
#[verifier::external_body]
pub struct ExBytesMut(bytes::BytesMut);

/// The bytes held by a `Bytes`.
pub uninterp spec fn bytes_view(b: bytes::Bytes) -> Seq<u8>;

/// The bytes held by a `BytesMut`.
pub uninterp spec fn bytes_mut_view(b: bytes::BytesMut) -> Seq<u8>;

/// Relies on `<Bytes as Clone>::clone`: a new handle on the same bytes.
#[verifier::external_body]
pub(crate) fn bytes_clone(b: &bytes::Bytes) -> (r: bytes::Bytes)
    ensures
        bytes_view(r) == bytes_view(*b),
{
    b.clone()
}

/// Relies on `<Bytes as Deref>::deref`: the slice holds exactly the bytes of `b`.
#[verifier::external_body]
pub(crate) fn bytes_as_slice(b: &bytes::Bytes) -> (r: &[u8])
    ensures
        r@ == bytes_view(*b),
{
    &b[..]
}

/// Relies on `Bytes::slice`: a shared view of `lo..hi` (it panics when the
/// range is out of bounds, hence the precondition).
#[verifier::external_body]
pub(crate) fn bytes_slice(b: &bytes::Bytes, lo: usize, hi: usize) -> (r: bytes::Bytes)
    requires
        lo <= hi <= bytes_view(*b).len(),
    ensures
        bytes_view(r) == bytes_view(*b).subrange(lo as int, hi as int),
{
    b.slice(lo..hi)
}

/// Relies on `<Bytes as From<Vec<u8>>>::from`: the vector's bytes, without a copy.
#[verifier::external_body]
pub(crate) fn bytes_from_vec(v: Vec<u8>) -> (r: bytes::Bytes)
    ensures
        bytes_view(r) == v@,
{
    bytes::Bytes::from(v)
}

/// Relies on `<BytesMut as Deref>::deref`: the slice holds exactly the bytes of `b`.
#[verifier::external_body]
pub(crate) fn bytes_mut_as_slice(b: &bytes::BytesMut) -> (r: &[u8])
    ensures
        r@ == bytes_mut_view(*b),
{
    &b[..]
}

/// Relies on `<BytesMut as Buf>::advance`: drops the first `n` bytes (it
/// panics when `n` exceeds the length, hence the precondition).
#[verifier::external_body]
pub(crate) fn bytes_mut_advance(b: &mut bytes::BytesMut, n: usize)
    requires
        n <= bytes_mut_view(*old(b)).len(),
    ensures
        bytes_mut_view(*final(b)) == bytes_mut_view(*old(b)).subrange(n as int, bytes_mut_view(*old(b)).len() as int),
{
    bytes::Buf::advance(b, n)
}

/// Relies on `BytesMut::split_to`: the first `n` bytes move to the result,
/// the rest stay (it panics when `n` exceeds the length, hence the precondition).
#[verifier::external_body]
pub(crate) fn bytes_mut_split_to(b: &mut bytes::BytesMut, n: usize) -> (r: bytes::BytesMut)
    requires
        n <= bytes_mut_view(*old(b)).len(),
    ensures
        bytes_mut_view(r) == bytes_mut_view(*old(b)).subrange(0, n as int),
        bytes_mut_view(*final(b)) == bytes_mut_view(*old(b)).subrange(n as int, bytes_mut_view(*old(b)).len() as int),
{
    b.split_to(n)
}

/// Relies on `BytesMut::freeze`: the same bytes, now immutable and shared.
#[verifier::external_body]
pub(crate) fn bytes_mut_freeze(b: bytes::BytesMut) -> (r: bytes::Bytes)
    ensures
        bytes_view(r) == bytes_mut_view(b),
{
    b.freeze()
}

/// Relies on `BytesMut::extend_from_slice`: appends the bytes of `s`.
#[verifier::external_body]
pub(crate) fn bytes_mut_extend(b: &mut bytes::BytesMut, s: &[u8])
    ensures
        bytes_mut_view(*final(b)) == bytes_mut_view(*old(b)) + s@,
{
    b.extend_from_slice(s)
}

} // verus!
