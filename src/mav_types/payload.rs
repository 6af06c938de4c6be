//! Reading and writing little-endian fields of a payload. A v2 payload may
//! arrive with its trailing zero bytes stripped, so a read past its end
//! reads zero, as if the payload were zero-extended to its schema length.
use vstd::prelude::*;

verus! {

/// The byte at `i`, or zero past the end.
pub open spec fn byte_or_zero(s: Seq<u8>, i: int) -> u8 {
    if 0 <= i < s.len() {
        s[i]
    } else {
        0
    }
}

pub open spec fn u16_at(s: Seq<u8>, off: int) -> u16 {
    (byte_or_zero(s, off) + 256 * byte_or_zero(s, off + 1)) as u16
}

pub open spec fn u32_at(s: Seq<u8>, off: int) -> u32 {
    (byte_or_zero(s, off) + 256 * byte_or_zero(s, off + 1) + 65536 * byte_or_zero(s, off + 2)
        + 16777216 * byte_or_zero(s, off + 3)) as u32
}

/// The two little-endian bytes of `x`.
pub open spec fn u16_bytes(x: u16) -> Seq<u8> {
    seq![(x % 256) as u8, (x / 256) as u8]
}

/// The four little-endian bytes of `x`.
pub open spec fn u32_bytes(x: u32) -> Seq<u8> {
    seq![(x % 256) as u8, ((x / 256) % 256) as u8, ((x / 65536) % 256) as u8, (x / 16777216) as u8]
}

pub fn read_u8(s: &[u8], off: usize) -> (r: u8)
    ensures
        r == byte_or_zero(s@, off as int),
{
    if off < s.len() {
        s[off]
    } else {
        0
    }
}

pub fn read_u16(s: &[u8], off: usize) -> (r: u16)
    requires
        off < usize::MAX,
    ensures
        r == u16_at(s@, off as int),
{
    let lo = read_u8(s, off) as u16;
    let hi = read_u8(s, off + 1) as u16;
    lo + 256 * hi
}

pub fn read_u32(s: &[u8], off: usize) -> (r: u32)
    requires
        off < usize::MAX - 3,
    ensures
        r == u32_at(s@, off as int),
{
    let b0 = read_u8(s, off) as u32;
    let b1 = read_u8(s, off + 1) as u32;
    let b2 = read_u8(s, off + 2) as u32;
    let b3 = read_u8(s, off + 3) as u32;
    b0 + 256 * b1 + 65536 * b2 + 16777216 * b3
}

pub fn push_u16(v: &mut Vec<u8>, x: u16)
    ensures
        final(v)@ == old(v)@ + u16_bytes(x),
{
    v.push((x % 256) as u8);
    v.push((x / 256) as u8);
    assert(final(v)@ =~= old(v)@ + u16_bytes(x));
}

pub fn push_u32(v: &mut Vec<u8>, x: u32)
    ensures
        final(v)@ == old(v)@ + u32_bytes(x),
{
    v.push((x % 256) as u8);
    v.push(((x / 256) % 256) as u8);
    v.push(((x / 65536) % 256) as u8);
    v.push((x / 16777216) as u8);
    assert(final(v)@ =~= old(v)@ + u32_bytes(x));
}

/// Reading back what was written gives the value written.
pub proof fn lemma_u16_round_trip(x: u16)
    ensures
        (u16_bytes(x)[0] + 256 * u16_bytes(x)[1]) as u16 == x,
{
}

/// Reading back what was written gives the value written.
pub proof fn lemma_u32_round_trip(x: u32)
    ensures
        (u32_bytes(x)[0] + 256 * u32_bytes(x)[1] + 65536 * u32_bytes(x)[2] + 16777216 * u32_bytes(x)[3]) as u32 == x,
{
    let b0 = x % 256;
    let b1 = (x / 256) % 256;
    let b2 = (x / 65536) % 256;
    let b3 = x / 16777216;
    assert(b0 + 256 * b1 + 65536 * b2 + 16777216 * b3 == x) by (nonlinear_arith)
        requires
            b0 == x % 256,
            b1 == (x / 256) % 256,
            b2 == (x / 65536) % 256,
            b3 == x / 16777216,
    ;
}

} // verus!
