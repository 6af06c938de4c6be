//! Byte layout of a MAVLink v1 frame:
//! `STX | LEN | SEQ | SYSID | COMPID | MSGID | PAYLOAD(LEN) | CRC(2)`.
use vstd::prelude::*;
use vstd::slice::slice_subrange;

use crate::buffers::{bytes_as_slice, bytes_clone, bytes_slice, bytes_view};

verus! {

pub const V1_STX: u8 = 0xFE;

/// Offset of the payload: the STX byte and the five header bytes.
pub const V1_PAYLOAD_OFFSET: usize = 6;

/// Size of a frame whose LEN byte is `len`.
pub open spec fn frame_size(len: u8) -> int {
    8 + len
}

/// Little-endian `u16` of two bytes.
pub open spec fn le_u16(lo: u8, hi: u8) -> u16 {
    (lo + 256 * hi) as u16
}

/// `s` holds exactly one v1 frame: it starts with the v1 STX and its length
/// is the one that its LEN byte implies.
pub open spec fn is_frame(s: Seq<u8>) -> bool {
    &&& s.len() >= 2
    &&& s[0] == V1_STX
    &&& s.len() == frame_size(s[1])
}

/// The checksum field of a buffer that holds at least one full frame.
pub open spec fn spec_checksum(s: Seq<u8>) -> u16 {
    le_u16(s[6 + s[1]], s[7 + s[1]])
}

pub fn header(buf: &[u8]) -> (r: &[u8])
    requires
        buf@.len() >= 6,
    ensures
        r@ == buf@.subrange(1, 6),
{
    slice_subrange(buf, 1, 6)
}

pub fn payload(buf: &[u8]) -> (r: &[u8])
    requires
        buf@.len() >= 2,
        buf@.len() >= 6 + buf@[1],
    ensures
        r@ == buf@.subrange(6, 6 + buf@[1]),
{
    let n = buf[1] as usize;
    slice_subrange(buf, V1_PAYLOAD_OFFSET, V1_PAYLOAD_OFFSET + n)
}

pub fn checksum(buf: &[u8]) -> (r: u16)
    requires
        buf@.len() >= 2,
        buf@.len() >= frame_size(buf@[1]),
    ensures
        r == spec_checksum(buf@),
{
    let end = packet_size(buf);
    let lo = buf[end - 2];
    let hi = buf[end - 1];
    (lo as u16) + 256 * (hi as u16)
}

pub fn checksum_data(buf: &[u8]) -> (r: &[u8])
    requires
        buf@.len() >= 2,
        buf@.len() >= 6 + buf@[1],
    ensures
        r@ == buf@.subrange(1, 6 + buf@[1]),
{
    let n = buf[1] as usize;
    slice_subrange(buf, 1, V1_PAYLOAD_OFFSET + n)
}

pub fn packet_size(buf: &[u8]) -> (r: usize)
    requires
        buf@.len() >= 2,
    ensures
        r == frame_size(buf@[1]),
{
    8 + buf[1] as usize
}

pub fn stx(buf: &[u8]) -> (r: &u8)
    requires
        buf@.len() >= 1,
    ensures
        *r == buf@[0],
{
    &buf[0]
}

pub fn len(buf: &[u8]) -> (r: &u8)
    requires
        buf@.len() >= 2,
    ensures
        *r == buf@[1],
{
    &buf[1]
}

pub fn seq(buf: &[u8]) -> (r: &u8)
    requires
        buf@.len() >= 3,
    ensures
        *r == buf@[2],
{
    &buf[2]
}

pub fn sysid(buf: &[u8]) -> (r: &u8)
    requires
        buf@.len() >= 4,
    ensures
        *r == buf@[3],
{
    &buf[3]
}

pub fn compid(buf: &[u8]) -> (r: &u8)
    requires
        buf@.len() >= 5,
    ensures
        *r == buf@[4],
{
    &buf[4]
}

pub fn msgid(buf: &[u8]) -> (r: &u8)
    requires
        buf@.len() >= 6,
    ensures
        *r == buf@[5],
{
    &buf[5]
}

/// A validated v1 frame over a shared byte buffer. Cloning shares the buffer.
#[derive(PartialEq, Eq, PartialOrd, Ord, Hash, Debug)]
pub struct V1Packet {
    pub(crate) buffer: bytes::Bytes,
}

impl View for V1Packet {
    type V = Seq<u8>;

    closed spec fn view(&self) -> Seq<u8> {
        bytes_view(self.buffer)
    }
}

impl Clone for V1Packet {
    fn clone(&self) -> (r: Self)
        ensures
            r@ == self@,
    {
        proof { use_type_invariant(self); }
        V1Packet { buffer: bytes_clone(&self.buffer) }
    }
}

impl V1Packet {
    pub const STX_SIZE: usize = 1;
    pub const HEADER_SIZE: usize = 5;
    pub const MAX_PAYLOAD_SIZE: usize = 255;
    pub const CHECKSUM_SIZE: usize = 2;
    pub const MAX_PACKET_SIZE: usize = 263;

    #[verifier::type_invariant]
    spec fn inv(&self) -> bool {
        is_frame(bytes_view(self.buffer))
    }

    /// Wraps a buffer that holds exactly one v1 frame.
    pub fn new(bytes: bytes::Bytes) -> (r: Self)
        requires
            is_frame(bytes_view(bytes)),
        ensures
            r@ == bytes_view(bytes),
    {
        V1Packet { buffer: bytes }
    }

    /// Wraps `bytes` when they hold exactly one v1 frame.
    pub fn try_new(bytes: bytes::Bytes) -> (r: Option<Self>)
        ensures
            r.is_some() <==> is_frame(bytes_view(bytes)),
            r.is_some() ==> r.unwrap()@ == bytes_view(bytes),
    {
        let s = bytes_as_slice(&bytes);
        if s.len() >= 2 && s[0] == V1_STX && s.len() == packet_size(s) {
            Some(V1Packet { buffer: bytes })
        } else {
            None
        }
    }

    /// Brings the invariant into view: the bytes are one v1 frame.
    pub(crate) fn frame_facts(&self)
        ensures
            is_frame(self@),
    {
        proof { use_type_invariant(self); }
    }

    pub fn bytes(&self) -> (r: &bytes::Bytes)
        ensures
            bytes_view(*r) == self@,
    {
        &self.buffer
    }

    pub fn as_slice(&self) -> (r: &[u8])
        ensures
            r@ == self@,
    {
        bytes_as_slice(&self.buffer)
    }

    pub fn header(&self) -> (r: &[u8])
        ensures
            r@ == self@.subrange(1, 6),
    {
        proof { use_type_invariant(self); }
        header(self.as_slice())
    }

    pub fn payload(&self) -> (r: &[u8])
        ensures
            r@ == self@.subrange(6, 6 + self@[1]),
    {
        proof { use_type_invariant(self); }
        payload(self.as_slice())
    }

    pub fn checksum(&self) -> (r: u16)
        ensures
            r == spec_checksum(self@),
    {
        proof { use_type_invariant(self); }
        checksum(self.as_slice())
    }

    pub fn checksum_data(&self) -> (r: &[u8])
        ensures
            r@ == self@.subrange(1, 6 + self@[1]),
    {
        proof { use_type_invariant(self); }
        checksum_data(self.as_slice())
    }

    pub fn packet_size(&self) -> (r: usize)
        ensures
            r == self@.len(),
            r == frame_size(self@[1]),
    {
        proof { use_type_invariant(self); }
        packet_size(self.as_slice())
    }

    pub fn stx(&self) -> (r: &u8)
        ensures
            *r == self@[0],
            *r == V1_STX,
    {
        proof { use_type_invariant(self); }
        stx(self.as_slice())
    }

    pub fn payload_length(&self) -> (r: &u8)
        ensures
            *r == self@[1],
    {
        proof { use_type_invariant(self); }
        len(self.as_slice())
    }

    pub fn sequence(&self) -> (r: &u8)
        ensures
            *r == self@[2],
    {
        proof { use_type_invariant(self); }
        seq(self.as_slice())
    }

    pub fn system_id(&self) -> (r: &u8)
        ensures
            *r == self@[3],
    {
        proof { use_type_invariant(self); }
        sysid(self.as_slice())
    }

    pub fn component_id(&self) -> (r: &u8)
        ensures
            *r == self@[4],
    {
        proof { use_type_invariant(self); }
        compid(self.as_slice())
    }

    pub fn message_id(&self) -> (r: &u8)
        ensures
            *r == self@[5],
    {
        proof { use_type_invariant(self); }
        msgid(self.as_slice())
    }

    /// The header fields a structured record keeps: sequence, system id,
    /// component id and message id.
    pub(crate) fn frame_header_bytes(&self) -> (r: bytes::Bytes)
        ensures
            bytes_view(r) == self@.subrange(2, 6),
    {
        proof { use_type_invariant(self); }
        bytes_slice(&self.buffer, 2, 6)
    }

    pub(crate) fn payload_bytes(&self) -> (r: bytes::Bytes)
        ensures
            bytes_view(r) == self@.subrange(6, 6 + self@[1]),
    {
        proof { use_type_invariant(self); }
        let n = *len(self.as_slice()) as usize;
        bytes_slice(&self.buffer, V1_PAYLOAD_OFFSET, V1_PAYLOAD_OFFSET + n)
    }
}

} // verus!
