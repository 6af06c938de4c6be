//! Message bodies: a tagged union over the known messages, each a view over
//! its payload bytes, and their structured records.
pub mod heartbeat;
pub mod rc_channels;

use vstd::prelude::*;

use crate::buffers::bytes_view;
use heartbeat::{
    lemma_heartbeat_round_trip, spec_heartbeat_fields, spec_heartbeat_payload, HeartbeatMessage,
    HeartbeatMessageSemanticModel,
};
use rc_channels::{
    lemma_rc_channels_round_trip, spec_rc_channels_fields, spec_rc_channels_payload,
    RcChannelsMessage, RcChannelsMessageSemanticModel,
};

verus! {

#[derive(Debug, PartialEq, Eq)]
pub enum MavMessage {
    Heartbeat(HeartbeatMessage),
    RcChannels(RcChannelsMessage),
}

#[derive(Debug, Clone, Copy, PartialEq, Eq, Structural)]
pub enum MavMessageSemanticModel {
    Heartbeat(HeartbeatMessageSemanticModel),
    RcChannels(RcChannelsMessageSemanticModel),
}

/// The catalog entry of a known message id: encoded payload length and
/// extra-CRC seed.
pub open spec fn spec_known_message(id: u32) -> Option<(u16, u8)> {
    if id == HeartbeatMessage::ID {
        Some((HeartbeatMessage::LEN, HeartbeatMessage::CRC))
    } else if id == RcChannelsMessage::ID {
        Some((RcChannelsMessage::LEN, RcChannelsMessage::CRC))
    } else {
        None
    }
}

impl MavMessage {
    pub open spec fn spec_id(&self) -> u32 {
        match self {
            MavMessage::Heartbeat(_) => HeartbeatMessage::ID,
            MavMessage::RcChannels(_) => RcChannelsMessage::ID,
        }
    }

    pub open spec fn spec_bytes(&self) -> Seq<u8> {
        match self {
            MavMessage::Heartbeat(m) => m@,
            MavMessage::RcChannels(m) => m@,
        }
    }

    pub fn bytes(&self) -> (r: &bytes::Bytes)
        ensures
            bytes_view(*r) == self.spec_bytes(),
    {
        match self {
            MavMessage::Heartbeat(m) => m.bytes(),
            MavMessage::RcChannels(m) => m.bytes(),
        }
    }

    pub fn id(&self) -> (r: u32)
        ensures
            r == self.spec_id(),
    {
        match self {
            MavMessage::Heartbeat(_) => HeartbeatMessage::ID,
            MavMessage::RcChannels(_) => RcChannelsMessage::ID,
        }
    }

    /// The body whose payload holds the fields of `model`.
    pub fn from_model(model: &MavMessageSemanticModel) -> (r: Self)
        ensures
            r.spec_id() == model.spec_id(),
            r.spec_bytes() == model.spec_payload(),
    {
        match model {
            MavMessageSemanticModel::Heartbeat(m) => MavMessage::Heartbeat(HeartbeatMessage::from_model(m)),
            MavMessageSemanticModel::RcChannels(m) => MavMessage::RcChannels(RcChannelsMessage::from_model(m)),
        }
    }
}

/// The record of the message with id `id` whose payload is `p`.
pub open spec fn spec_message_model(id: u32, p: Seq<u8>) -> MavMessageSemanticModel {
    if id == HeartbeatMessage::ID {
        MavMessageSemanticModel::Heartbeat(spec_heartbeat_fields(p))
    } else {
        MavMessageSemanticModel::RcChannels(spec_rc_channels_fields(p))
    }
}

impl MavMessageSemanticModel {
    pub open spec fn spec_id(&self) -> u32 {
        match self {
            MavMessageSemanticModel::Heartbeat(_) => HeartbeatMessage::ID,
            MavMessageSemanticModel::RcChannels(_) => RcChannelsMessage::ID,
        }
    }

    /// The payload that holds the record's fields.
    pub open spec fn spec_payload(&self) -> Seq<u8> {
        match self {
            MavMessageSemanticModel::Heartbeat(m) => spec_heartbeat_payload(*m),
            MavMessageSemanticModel::RcChannels(m) => spec_rc_channels_payload(*m),
        }
    }

    pub fn from_message(message: &MavMessage) -> (r: Self)
        ensures
            r == spec_message_model(message.spec_id(), message.spec_bytes()),
    {
        match message {
            MavMessage::Heartbeat(m) => MavMessageSemanticModel::Heartbeat(
                HeartbeatMessageSemanticModel::from_message(m),
            ),
            MavMessage::RcChannels(m) => MavMessageSemanticModel::RcChannels(
                RcChannelsMessageSemanticModel::from_message(m),
            ),
        }
    }
}

/// A record written to a payload reads back as the same record, and the
/// payload has its schema's length.
pub proof fn lemma_message_round_trip(m: MavMessageSemanticModel)
    ensures
        spec_message_model(m.spec_id(), m.spec_payload()) == m,
        m.spec_payload().len() == spec_known_message(m.spec_id()).unwrap().0,
{
    match m {
        MavMessageSemanticModel::Heartbeat(h) => lemma_heartbeat_round_trip(h),
        MavMessageSemanticModel::RcChannels(c) => lemma_rc_channels_round_trip(c),
    }
}

} // verus!
