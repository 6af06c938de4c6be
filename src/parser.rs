//! From a packet to the message body its payload holds.
use vstd::prelude::*;

use crate::error::DecoderError;
use crate::mav_types::mav_message::heartbeat::HeartbeatMessage;
use crate::mav_types::mav_message::rc_channels::RcChannelsMessage;
use crate::mav_types::mav_message::{spec_known_message, MavMessage};
use crate::{frame_message_id, frame_payload, Packet};

verus! {

/// The message body of `packet`, sharing its payload bytes; an unknown
/// message id is an error.
pub fn parse(packet: &Packet) -> (r: Result<MavMessage, DecoderError>)
    ensures
        r.is_ok() <==> spec_known_message(frame_message_id(packet@)).is_some(),
        r matches Ok(m) ==> m.spec_id() == frame_message_id(packet@) && m.spec_bytes() == frame_payload(packet@),
        r matches Err(e) ==> e == (DecoderError::UnknownMessageID { msgid: frame_message_id(packet@) }),
{
    let message_id = packet.message_id();
    if message_id == HeartbeatMessage::ID {
        Ok(MavMessage::Heartbeat(HeartbeatMessage::new(packet.payload_bytes())))
    } else if message_id == RcChannelsMessage::ID {
        Ok(MavMessage::RcChannels(RcChannelsMessage::new(packet.payload_bytes())))
    } else {
        Err(DecoderError::UnknownMessageID { msgid: message_id })
    }
}

} // verus!
