//! The header fields of a frame that a structured record keeps.
use vstd::prelude::*;

use crate::buffers::{bytes_as_slice, bytes_view};

verus! {

/// Sequence, system id, component id and message id of a frame, over a
/// shared buffer: four bytes for v1 (one-byte message id), six for v2
/// (three-byte message id).
#[derive(Debug, PartialEq, Eq)]
pub struct MavHeader {
    pub(crate) buffer: bytes::Bytes,
}

#[derive(Debug, Clone, Copy, PartialEq, Eq, Structural)]
pub struct MavHeaderSemanticModel {
    pub sequence: u8,
    pub system_id: u8,
    pub component_id: u8,
    pub message_id: Option<u32>,
}

/// The message id held by header bytes `h`.
pub open spec fn spec_header_message_id(h: Seq<u8>) -> u32 {
    if h.len() == 4 {
        h[3] as u32
    } else {
        (h[3] + 256 * h[4] + 65536 * h[5]) as u32
    }
}

/// The record of header bytes `h`.
pub open spec fn spec_header_model(h: Seq<u8>) -> MavHeaderSemanticModel {
    MavHeaderSemanticModel {
        sequence: h[0],
        system_id: h[1],
        component_id: h[2],
        message_id: Some(spec_header_message_id(h)),
    }
}

impl View for MavHeader {
    type V = Seq<u8>;

    closed spec fn view(&self) -> Seq<u8> {
        bytes_view(self.buffer)
    }
}

impl MavHeader {
    #[verifier::type_invariant]
    spec fn inv(&self) -> bool {
        bytes_view(self.buffer).len() == 4 || bytes_view(self.buffer).len() == 6
    }

    /// Wraps the header bytes of a frame; only frames make headers.
    pub(crate) fn new(bytes: bytes::Bytes) -> (r: Self)
        requires
            bytes_view(bytes).len() == 4 || bytes_view(bytes).len() == 6,
        ensures
            r@ == bytes_view(bytes),
    {
        MavHeader { buffer: bytes }
    }

    pub fn sequence(&self) -> (r: u8)
        ensures
            r == spec_header_model(self@).sequence,
    {
        proof { use_type_invariant(self); }
        bytes_as_slice(&self.buffer)[0]
    }

    pub fn system_id(&self) -> (r: u8)
        ensures
            r == spec_header_model(self@).system_id,
    {
        proof { use_type_invariant(self); }
        bytes_as_slice(&self.buffer)[1]
    }

    pub fn component_id(&self) -> (r: u8)
        ensures
            r == spec_header_model(self@).component_id,
    {
        proof { use_type_invariant(self); }
        bytes_as_slice(&self.buffer)[2]
    }

    pub fn message_id(&self) -> (r: Option<u32>)
        ensures
            r == spec_header_model(self@).message_id,
    {
        proof { use_type_invariant(self); }
        let b = bytes_as_slice(&self.buffer);
        if b.len() == 4 {
            Some(b[3] as u32)
        } else {
            Some((b[3] as u32) + 256 * (b[4] as u32) + 65536 * (b[5] as u32))
        }
    }
}

impl MavHeaderSemanticModel {
    pub fn from_header(header: &MavHeader) -> (r: Self)
        ensures
            r == spec_header_model(header@),
    {
        MavHeaderSemanticModel {
            sequence: header.sequence(),
            system_id: header.system_id(),
            component_id: header.component_id(),
            message_id: header.message_id(),
        }
    }
}

} // verus!
