//! Byte layout of a MAVLink v2 frame:
//! `STX | LEN | INCOMPAT | COMPAT | SEQ | SYSID | COMPID | MSGID(3) |
//! PAYLOAD(LEN) | CRC(2) | SIGNATURE(13), present when signed`.
use vstd::prelude::*;
use vstd::slice::slice_subrange;

use crate::buffers::{bytes_as_slice, bytes_clone, bytes_slice, bytes_view};
use crate::v1::le_u16;

verus! {

pub const V2_STX: u8 = 0xFD;

pub const MAVLINK_IFLAG_SIGNED: u8 = 0x01;

pub const MAVLINK_SUPPORTED_IFLAGS: u8 = 0x01;

/// Offset of the payload: the STX byte and the nine header bytes.
pub const V2_PAYLOAD_OFFSET: usize = 10;

pub const V2_SIGNATURE_SIZE: usize = 13;

/// The incompatibility flags announce a signature trailer.
pub open spec fn flags_signed(flags: u8) -> bool {
    flags & MAVLINK_IFLAG_SIGNED != 0
}

/// Size of a frame whose LEN byte is `len` and whose incompatibility flags are `flags`.
pub open spec fn frame_size(len: u8, flags: u8) -> int {
    12 + len + if flags_signed(flags) { 13int } else { 0int }
}

/// `s` holds exactly one v2 frame: it starts with the v2 STX and its length
/// is the one that its LEN byte and its signed flag imply.
pub open spec fn is_frame(s: Seq<u8>) -> bool {
    &&& s.len() >= 3
    &&& s[0] == V2_STX
    &&& s.len() == frame_size(s[1], s[2])
}

/// The 24-bit message id of a buffer that holds a full header.
pub open spec fn spec_msgid(s: Seq<u8>) -> u32 {
    (s[7] + 256 * s[8] + 65536 * s[9]) as u32
}

/// The checksum field of a buffer that holds at least one full frame.
pub open spec fn spec_checksum(s: Seq<u8>) -> u16 {
    le_u16(s[10 + s[1]], s[11 + s[1]])
}

pub fn header(buf: &[u8]) -> (r: &[u8])
    requires
        buf@.len() >= 10,
    ensures
        r@ == buf@.subrange(1, 10),
{
    slice_subrange(buf, 1, 10)
}

pub fn payload(buf: &[u8]) -> (r: &[u8])
    requires
        buf@.len() >= 2,
        buf@.len() >= 10 + buf@[1],
    ensures
        r@ == buf@.subrange(10, 10 + buf@[1]),
{
    let n = buf[1] as usize;
    slice_subrange(buf, V2_PAYLOAD_OFFSET, V2_PAYLOAD_OFFSET + n)
}

pub fn checksum(buf: &[u8]) -> (r: u16)
    requires
        buf@.len() >= 3,
        buf@.len() >= frame_size(buf@[1], buf@[2]),
    ensures
        r == spec_checksum(buf@),
{
    let end = V2_PAYLOAD_OFFSET + buf[1] as usize + 2;
    let lo = buf[end - 2];
    let hi = buf[end - 1];
    (lo as u16) + 256 * (hi as u16)
}

pub fn checksum_data(buf: &[u8]) -> (r: &[u8])
    requires
        buf@.len() >= 2,
        buf@.len() >= 10 + buf@[1],
    ensures
        r@ == buf@.subrange(1, 10 + buf@[1]),
{
    let n = buf[1] as usize;
    slice_subrange(buf, 1, V2_PAYLOAD_OFFSET + n)
}

pub fn signature(buf: &[u8]) -> (r: Option<&[u8]>)
    requires
        buf@.len() >= 3,
        buf@.len() >= frame_size(buf@[1], buf@[2]),
    ensures
        r.is_some() <==> flags_signed(buf@[2]),
        r.is_some() ==> r.unwrap()@ == buf@.subrange(12 + buf@[1], 25 + buf@[1]),
{
    if !has_signature(buf) {
        return None;
    }
    let start = V2_PAYLOAD_OFFSET + buf[1] as usize + 2;
    Some(slice_subrange(buf, start, start + V2_SIGNATURE_SIZE))
}

pub fn packet_size(buf: &[u8]) -> (r: usize)
    requires
        buf@.len() >= 3,
    ensures
        r == frame_size(buf@[1], buf@[2]),
{
    let signature = if has_signature(buf) { V2_SIGNATURE_SIZE } else { 0 };
    12 + buf[1] as usize + signature
}

pub fn has_signature(buf: &[u8]) -> (r: bool)
    requires
        buf@.len() >= 3,
    ensures
        r == flags_signed(buf@[2]),
{
    *incompat_flags(buf) & MAVLINK_IFLAG_SIGNED != 0
}

pub fn stx(buf: &[u8]) -> (r: &u8)
    requires
        buf@.len() >= 1,
    ensures
        *r == buf@[0],
{
    &buf[0]
}

pub fn len(buf: &[u8]) -> (r: &u8)
    requires
        buf@.len() >= 2,
    ensures
        *r == buf@[1],
{
    &buf[1]
}

pub fn incompat_flags(buf: &[u8]) -> (r: &u8)
    requires
        buf@.len() >= 3,
    ensures
        *r == buf@[2],
{
    &buf[2]
}

pub fn compat_flags(buf: &[u8]) -> (r: &u8)
    requires
        buf@.len() >= 4,
    ensures
        *r == buf@[3],
{
    &buf[3]
}

pub fn seq(buf: &[u8]) -> (r: &u8)
    requires
        buf@.len() >= 5,
    ensures
        *r == buf@[4],
{
    &buf[4]
}

pub fn sysid(buf: &[u8]) -> (r: &u8)
    requires
        buf@.len() >= 6,
    ensures
        *r == buf@[5],
{
    &buf[5]
}

pub fn compid(buf: &[u8]) -> (r: &u8)
    requires
        buf@.len() >= 7,
    ensures
        *r == buf@[6],
{
    &buf[6]
}

pub fn msgid(buf: &[u8]) -> (r: u32)
    requires
        buf@.len() >= 10,
    ensures
        r == spec_msgid(buf@),
{
    (buf[7] as u32) + 256 * (buf[8] as u32) + 65536 * (buf[9] as u32)
}

/// A validated v2 frame over a shared byte buffer. Cloning shares the buffer.
#[derive(PartialEq, Eq, PartialOrd, Ord, Hash, Debug)]
pub struct V2Packet {
    pub(crate) buffer: bytes::Bytes,
}

impl View for V2Packet {
    type V = Seq<u8>;

    closed spec fn view(&self) -> Seq<u8> {
        bytes_view(self.buffer)
    }
}

impl Clone for V2Packet {
    fn clone(&self) -> (r: Self)
        ensures
            r@ == self@,
    {
        proof { use_type_invariant(self); }
        V2Packet { buffer: bytes_clone(&self.buffer) }
    }
}

impl V2Packet {
    pub const STX_SIZE: usize = 1;
    pub const HEADER_SIZE: usize = 9;
    pub const MAX_PAYLOAD_SIZE: usize = 255;
    pub const CHECKSUM_SIZE: usize = 2;
    pub const SIGNATURE_SIZE: usize = 13;
    pub const MAX_PACKET_SIZE: usize = 280;

    #[verifier::type_invariant]
    spec fn inv(&self) -> bool {
        is_frame(bytes_view(self.buffer))
    }

    /// Wraps a buffer that holds exactly one v2 frame.
    pub fn new(bytes: bytes::Bytes) -> (r: Self)
        requires
            is_frame(bytes_view(bytes)),
        ensures
            r@ == bytes_view(bytes),
    {
        V2Packet { buffer: bytes }
    }

    /// Wraps `bytes` when they hold exactly one v2 frame.
    pub fn try_new(bytes: bytes::Bytes) -> (r: Option<Self>)
        ensures
            r.is_some() <==> is_frame(bytes_view(bytes)),
            r.is_some() ==> r.unwrap()@ == bytes_view(bytes),
    {
        let s = bytes_as_slice(&bytes);
        if s.len() >= 3 && s[0] == V2_STX && s.len() == packet_size(s) {
            Some(V2Packet { buffer: bytes })
        } else {
            None
        }
    }

    /// Brings the invariant into view: the bytes are one v2 frame.
    pub(crate) fn frame_facts(&self)
        ensures
            is_frame(self@),
    {
        proof { use_type_invariant(self); }
    }

    pub fn bytes(&self) -> (r: &bytes::Bytes)
        ensures
            bytes_view(*r) == self@,
    {
        &self.buffer
    }

    pub fn as_slice(&self) -> (r: &[u8])
        ensures
            r@ == self@,
    {
        bytes_as_slice(&self.buffer)
    }

    pub fn header(&self) -> (r: &[u8])
        ensures
            r@ == self@.subrange(1, 10),
    {
        proof { use_type_invariant(self); }
        header(self.as_slice())
    }

    pub fn payload(&self) -> (r: &[u8])
        ensures
            r@ == self@.subrange(10, 10 + self@[1]),
    {
        proof { use_type_invariant(self); }
        payload(self.as_slice())
    }

    pub fn checksum(&self) -> (r: u16)
        ensures
            r == spec_checksum(self@),
    {
        proof { use_type_invariant(self); }
        checksum(self.as_slice())
    }

    pub fn signature(&self) -> (r: Option<&[u8]>)
        ensures
            r.is_some() <==> flags_signed(self@[2]),
            r.is_some() ==> r.unwrap()@ == self@.subrange(12 + self@[1], 25 + self@[1]),
    {
        proof { use_type_invariant(self); }
        signature(self.as_slice())
    }

    pub fn checksum_data(&self) -> (r: &[u8])
        ensures
            r@ == self@.subrange(1, 10 + self@[1]),
    {
        proof { use_type_invariant(self); }
        checksum_data(self.as_slice())
    }

    pub fn packet_size(&self) -> (r: usize)
        ensures
            r == self@.len(),
            r == frame_size(self@[1], self@[2]),
    {
        proof { use_type_invariant(self); }
        packet_size(self.as_slice())
    }

    pub fn has_signature(&self) -> (r: bool)
        ensures
            r == flags_signed(self@[2]),
    {
        proof { use_type_invariant(self); }
        has_signature(self.as_slice())
    }

    pub fn stx(&self) -> (r: &u8)
        ensures
            *r == self@[0],
            *r == V2_STX,
    {
        proof { use_type_invariant(self); }
        stx(self.as_slice())
    }

    pub fn payload_length(&self) -> (r: &u8)
        ensures
            *r == self@[1],
    {
        proof { use_type_invariant(self); }
        len(self.as_slice())
    }

    pub fn incompatibility_flags(&self) -> (r: &u8)
        ensures
            *r == self@[2],
    {
        proof { use_type_invariant(self); }
        incompat_flags(self.as_slice())
    }

    pub fn compatibility_flags(&self) -> (r: &u8)
        ensures
            *r == self@[3],
    {
        proof { use_type_invariant(self); }
        compat_flags(self.as_slice())
    }

    pub fn sequence(&self) -> (r: &u8)
        ensures
            *r == self@[4],
    {
        proof { use_type_invariant(self); }
        seq(self.as_slice())
    }

    pub fn system_id(&self) -> (r: &u8)
        ensures
            *r == self@[5],
    {
        proof { use_type_invariant(self); }
        sysid(self.as_slice())
    }

    pub fn component_id(&self) -> (r: &u8)
        ensures
            *r == self@[6],
    {
        proof { use_type_invariant(self); }
        compid(self.as_slice())
    }

    pub fn message_id(&self) -> (r: u32)
        ensures
            r == spec_msgid(self@),
    {
        proof { use_type_invariant(self); }
        msgid(self.as_slice())
    }

    /// The header fields a structured record keeps: sequence, system id,
    /// component id and the three message id bytes.
    pub(crate) fn frame_header_bytes(&self) -> (r: bytes::Bytes)
        ensures
            bytes_view(r) == self@.subrange(4, 10),
    {
        proof { use_type_invariant(self); }
        bytes_slice(&self.buffer, 4, 10)
    }

    pub(crate) fn payload_bytes(&self) -> (r: bytes::Bytes)
        ensures
            bytes_view(r) == self@.subrange(10, 10 + self@[1]),
    {
        proof { use_type_invariant(self); }
        let n = *len(self.as_slice()) as usize;
        bytes_slice(&self.buffer, V2_PAYLOAD_OFFSET, V2_PAYLOAD_OFFSET + n)
    }
}

} // verus!
