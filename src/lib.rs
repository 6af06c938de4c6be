//! A streaming codec for the MAVLink wire protocol: an incremental frame
//! decoder over a growable byte buffer, validated zero-copy packet views for
//! the v1 and v2 frame formats, and a small message layer on top of them.
pub mod buffers;
pub mod codec;
pub mod error;
pub mod mav_types;
pub mod parser;
pub mod stream;
pub mod v1;
pub mod v2;

use vstd::prelude::*;

use crate::buffers::bytes_view;
use crate::v1::{V1Packet, V1_STX};
use crate::v2::{V2Packet, V2_STX};

verus! {

/// A validated frame of either version.
#[derive(PartialEq, Eq, PartialOrd, Ord, Hash, Debug)]
pub enum Packet {
    V1(V1Packet),
    V2(V2Packet),
}

#[derive(Debug, Clone, Copy, PartialEq, Eq, Structural, PartialOrd, Ord, Hash)]
pub enum PacketVersion {
    V1,
    V2,
}

/// The STX byte that opens a frame of version `v`.
pub open spec fn version_stx(v: PacketVersion) -> u8 {
    match v {
        PacketVersion::V1 => V1_STX,
        PacketVersion::V2 => V2_STX,
    }
}

/// `s` holds exactly one frame of either version.
pub open spec fn is_any_frame(s: Seq<u8>) -> bool {
    v1::is_frame(s) || v2::is_frame(s)
}

/// The message id of a frame: one byte in v1, three little-endian bytes in v2.
pub open spec fn frame_message_id(s: Seq<u8>) -> u32 {
    if s[0] == V1_STX {
        s[5] as u32
    } else {
        v2::spec_msgid(s)
    }
}

/// Offset of the payload within a frame.
pub open spec fn frame_payload_offset(s: Seq<u8>) -> int {
    if s[0] == V1_STX { 6 } else { 10 }
}

/// The payload of a frame.
pub open spec fn frame_payload(s: Seq<u8>) -> Seq<u8> {
    s.subrange(frame_payload_offset(s), frame_payload_offset(s) + s[1])
}

/// The header bytes of a frame, without STX.
pub open spec fn frame_header(s: Seq<u8>) -> Seq<u8> {
    s.subrange(1, frame_payload_offset(s))
}

/// The checksum field of a frame.
pub open spec fn frame_checksum(s: Seq<u8>) -> u16 {
    if s[0] == V1_STX {
        v1::spec_checksum(s)
    } else {
        v2::spec_checksum(s)
    }
}

/// The bytes the checksum covers: everything after STX up to the end of the payload.
pub open spec fn frame_checksum_input(s: Seq<u8>) -> Seq<u8> {
    s.subrange(1, frame_payload_offset(s) + s[1])
}

/// Offsets of sequence, system id and component id within a frame.
pub open spec fn frame_field_offset(s: Seq<u8>) -> int {
    if s[0] == V1_STX { 2 } else { 4 }
}

impl View for Packet {
    type V = Seq<u8>;

    open spec fn view(&self) -> Seq<u8> {
        match self {
            Packet::V1(p) => p@,
            Packet::V2(p) => p@,
        }
    }
}

impl Clone for Packet {
    fn clone(&self) -> (r: Self)
        ensures
            r@ == self@,
            r.spec_version() == self.spec_version(),
    {
        match self {
            Packet::V1(p) => Packet::V1(p.clone()),
            Packet::V2(p) => Packet::V2(p.clone()),
        }
    }
}

impl Packet {
    pub open spec fn spec_version(&self) -> PacketVersion {
        match self {
            Packet::V1(_) => PacketVersion::V1,
            Packet::V2(_) => PacketVersion::V2,
        }
    }

    /// The packet's bytes form one frame of its own version.
    /// Brings the invariant of the inner packet into view.
    pub(crate) fn frame_facts(&self)
        ensures
            self@.len() >= 8,
            self@[0] == version_stx(self.spec_version()),
            self.spec_version() == PacketVersion::V1 ==> v1::is_frame(self@),
            self.spec_version() == PacketVersion::V2 ==> v2::is_frame(self@),
    {
        match self {
            Packet::V1(p) => p.frame_facts(),
            Packet::V2(p) => p.frame_facts(),
        }
    }

    pub fn version(&self) -> (r: PacketVersion)
        ensures
            r == self.spec_version(),
    {
        match self {
            Packet::V1(_) => PacketVersion::V1,
            Packet::V2(_) => PacketVersion::V2,
        }
    }

    pub fn bytes(&self) -> (r: &bytes::Bytes)
        ensures
            bytes_view(*r) == self@,
    {
        match self {
            Packet::V1(p) => p.bytes(),
            Packet::V2(p) => p.bytes(),
        }
    }

    pub fn as_slice(&self) -> (r: &[u8])
        ensures
            r@ == self@,
    {
        match self {
            Packet::V1(p) => p.as_slice(),
            Packet::V2(p) => p.as_slice(),
        }
    }

    pub fn header(&self) -> (r: &[u8])
        ensures
            r@ == frame_header(self@),
    {
        self.frame_facts();
        match self {
            Packet::V1(p) => p.header(),
            Packet::V2(p) => p.header(),
        }
    }

    pub fn payload(&self) -> (r: &[u8])
        ensures
            r@ == frame_payload(self@),
    {
        self.frame_facts();
        match self {
            Packet::V1(p) => p.payload(),
            Packet::V2(p) => p.payload(),
        }
    }

    pub fn checksum(&self) -> (r: u16)
        ensures
            r == frame_checksum(self@),
    {
        self.frame_facts();
        match self {
            Packet::V1(p) => p.checksum(),
            Packet::V2(p) => p.checksum(),
        }
    }

    pub fn checksum_data(&self) -> (r: &[u8])
        ensures
            r@ == frame_checksum_input(self@),
    {
        self.frame_facts();
        match self {
            Packet::V1(p) => p.checksum_data(),
            Packet::V2(p) => p.checksum_data(),
        }
    }

    pub fn packet_size(&self) -> (r: usize)
        ensures
            r == self@.len(),
    {
        match self {
            Packet::V1(p) => p.packet_size(),
            Packet::V2(p) => p.packet_size(),
        }
    }

    pub fn stx(&self) -> (r: u8)
        ensures
            r == self@[0],
            r == version_stx(self.spec_version()),
    {
        match self {
            Packet::V1(p) => *p.stx(),
            Packet::V2(p) => *p.stx(),
        }
    }

    pub fn payload_length(&self) -> (r: u8)
        ensures
            r == self@[1],
    {
        match self {
            Packet::V1(p) => *p.payload_length(),
            Packet::V2(p) => *p.payload_length(),
        }
    }

    pub fn sequence(&self) -> (r: u8)
        ensures
            r == self@[frame_field_offset(self@)],
    {
        self.frame_facts();
        match self {
            Packet::V1(p) => *p.sequence(),
            Packet::V2(p) => *p.sequence(),
        }
    }

    pub fn system_id(&self) -> (r: u8)
        ensures
            r == self@[frame_field_offset(self@) + 1],
    {
        self.frame_facts();
        match self {
            Packet::V1(p) => *p.system_id(),
            Packet::V2(p) => *p.system_id(),
        }
    }

    pub fn component_id(&self) -> (r: u8)
        ensures
            r == self@[frame_field_offset(self@) + 2],
    {
        self.frame_facts();
        match self {
            Packet::V1(p) => *p.component_id(),
            Packet::V2(p) => *p.component_id(),
        }
    }

    pub fn message_id(&self) -> (r: u32)
        ensures
            r == frame_message_id(self@),
    {
        self.frame_facts();
        match self {
            Packet::V1(p) => *p.message_id() as u32,
            Packet::V2(p) => p.message_id(),
        }
    }

    /// Sequence, system id, component id and message id bytes.
    pub(crate) fn header_bytes(&self) -> (r: bytes::Bytes)
        ensures
            bytes_view(r) == self@.subrange(frame_field_offset(self@), frame_payload_offset(self@)),
    {
        self.frame_facts();
        match self {
            Packet::V1(p) => p.frame_header_bytes(),
            Packet::V2(p) => p.frame_header_bytes(),
        }
    }

    pub(crate) fn payload_bytes(&self) -> (r: bytes::Bytes)
        ensures
            bytes_view(r) == frame_payload(self@),
    {
        self.frame_facts();
        match self {
            Packet::V1(p) => p.payload_bytes(),
            Packet::V2(p) => p.payload_bytes(),
        }
    }
}

} // verus!
