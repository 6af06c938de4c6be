//! HEARTBEAT (id 0): the presence message of every system.
//! Payload: `custom_mode: u32 | type: u8 | autopilot: u8 | base_mode: u8 |
//! system_status: u8 | mavlink_version: u8`.
use vstd::prelude::*;

use crate::buffers::{bytes_as_slice, bytes_clone, bytes_from_vec, bytes_view};
use crate::mav_types::field_types::{MavAutopilot, MavState, MavType};
use crate::mav_types::payload::{byte_or_zero, push_u32, read_u32, read_u8, u32_at, u32_bytes};
use crate::mav_types::serde_utils::BitsField;

verus! {

/// A HEARTBEAT body over a shared payload buffer; fields are read on demand.
#[derive(PartialEq, Eq, PartialOrd, Ord, Hash, Debug)]
pub struct HeartbeatMessage {
    pub(crate) buffer: bytes::Bytes,
}

#[derive(Debug, Clone, Copy, PartialEq, Eq, Structural)]
pub struct HeartbeatMessageSemanticModel {
    pub autopilot: MavAutopilot,
    pub base_mode: BitsField<u8>,
    pub custom_mode: u32,
    pub mavlink_version: u8,
    pub mavtype: MavType,
    pub system_status: MavState,
}

/// The fields of a HEARTBEAT payload.
pub open spec fn spec_heartbeat_fields(p: Seq<u8>) -> HeartbeatMessageSemanticModel {
    HeartbeatMessageSemanticModel {
        autopilot: MavAutopilot::spec_from_code(byte_or_zero(p, 5)),
        base_mode: BitsField { bits: byte_or_zero(p, 6) },
        custom_mode: u32_at(p, 0),
        mavlink_version: byte_or_zero(p, 8),
        mavtype: MavType::spec_from_code(byte_or_zero(p, 4)),
        system_status: MavState::spec_from_code(byte_or_zero(p, 7)),
    }
}

/// The HEARTBEAT payload that holds the fields of `m`.
pub open spec fn spec_heartbeat_payload(m: HeartbeatMessageSemanticModel) -> Seq<u8> {
    u32_bytes(m.custom_mode) + seq![
        m.mavtype.spec_code(),
        m.autopilot.spec_code(),
        m.base_mode.bits,
        m.system_status.spec_code(),
        m.mavlink_version,
    ]
}

impl View for HeartbeatMessage {
    type V = Seq<u8>;

    closed spec fn view(&self) -> Seq<u8> {
        bytes_view(self.buffer)
    }
}

impl Clone for HeartbeatMessage {
    fn clone(&self) -> (r: Self)
        ensures
            r@ == self@,
    {
        HeartbeatMessage { buffer: bytes_clone(&self.buffer) }
    }
}

impl HeartbeatMessage {
    pub const ID: u32 = 0;
    pub const LEN: u16 = 9;
    pub const CRC: u8 = 50;

    pub fn new(bytes: bytes::Bytes) -> (r: Self)
        ensures
            r@ == bytes_view(bytes),
    {
        HeartbeatMessage { buffer: bytes }
    }

    pub fn bytes(&self) -> (r: &bytes::Bytes)
        ensures
            bytes_view(*r) == self@,
    {
        &self.buffer
    }

    pub fn as_slice(&self) -> (r: &[u8])
        ensures
            r@ == self@,
    {
        bytes_as_slice(&self.buffer)
    }

    pub fn custom_mode(&self) -> (r: u32)
        ensures
            r == spec_heartbeat_fields(self@).custom_mode,
    {
        read_u32(self.as_slice(), 0)
    }

    pub fn mav_type(&self) -> (r: MavType)
        ensures
            r == spec_heartbeat_fields(self@).mavtype,
    {
        MavType::from_code(read_u8(self.as_slice(), 4))
    }

    pub fn autopilot(&self) -> (r: MavAutopilot)
        ensures
            r == spec_heartbeat_fields(self@).autopilot,
    {
        MavAutopilot::from_code(read_u8(self.as_slice(), 5))
    }

    pub fn base_mode(&self) -> (r: u8)
        ensures
            r == spec_heartbeat_fields(self@).base_mode.bits,
    {
        read_u8(self.as_slice(), 6)
    }

    pub fn system_status(&self) -> (r: MavState)
        ensures
            r == spec_heartbeat_fields(self@).system_status,
    {
        MavState::from_code(read_u8(self.as_slice(), 7))
    }

    pub fn mavlink_version(&self) -> (r: u8)
        ensures
            r == spec_heartbeat_fields(self@).mavlink_version,
    {
        read_u8(self.as_slice(), 8)
    }

    /// The payload that holds the fields of `model`, in schema order.
    pub fn from_model(model: &HeartbeatMessageSemanticModel) -> (r: Self)
        ensures
            r@ == spec_heartbeat_payload(*model),
    {
        let mut v: Vec<u8> = Vec::new();
        push_u32(&mut v, model.custom_mode);
        v.push(model.mavtype.code());
        v.push(model.autopilot.code());
        v.push(model.base_mode.bits);
        v.push(model.system_status.code());
        v.push(model.mavlink_version);
        assert(v@ =~= spec_heartbeat_payload(*model));
        HeartbeatMessage { buffer: bytes_from_vec(v) }
    }
}

impl HeartbeatMessageSemanticModel {
    pub fn from_message(message: &HeartbeatMessage) -> (r: Self)
        ensures
            r == spec_heartbeat_fields(message@),
    {
        HeartbeatMessageSemanticModel {
            autopilot: message.autopilot(),
            base_mode: BitsField { bits: message.base_mode() },
            custom_mode: message.custom_mode(),
            mavlink_version: message.mavlink_version(),
            mavtype: message.mav_type(),
            system_status: message.system_status(),
        }
    }
}

/// Writing a record's fields to a payload and reading them back gives the record.
pub proof fn lemma_heartbeat_round_trip(m: HeartbeatMessageSemanticModel)
    ensures
        spec_heartbeat_fields(spec_heartbeat_payload(m)) == m,
        spec_heartbeat_payload(m).len() == HeartbeatMessage::LEN,
{
    crate::mav_types::payload::lemma_u32_round_trip(m.custom_mode);
    let p = spec_heartbeat_payload(m);
    assert(p[4] == m.mavtype.spec_code());
    assert(p[5] == m.autopilot.spec_code());
    assert(p[7] == m.system_status.spec_code());
    assert(MavType::spec_from_code(m.mavtype.spec_code()) == m.mavtype);
    assert(MavAutopilot::spec_from_code(m.autopilot.spec_code()) == m.autopilot);
    assert(MavState::spec_from_code(m.system_status.spec_code()) == m.system_status);
}

} // verus!
