//! A packet seen as `{ header, message }`, and the encoder that builds a
//! packet from such a record.
use vstd::prelude::*;
use vstd::slice::slice_subrange;

use crate::buffers::bytes_from_vec;
use crate::codec::{calculate_crc, crc_of, decode_outcome, extra_crc_entry, get_extra_crc, CodecConfig};
use crate::error::DecoderError;
use crate::mav_types::mav_header::{spec_header_model, MavHeader, MavHeaderSemanticModel};
use crate::mav_types::mav_message::{MavMessage, MavMessageSemanticModel, spec_known_message};
use crate::mav_types::payload::{push_u16, u16_bytes};
use crate::parser::parse;
use crate::stream::{frame_passes, lemma_frame_accepted};
use crate::v1::{V1Packet, V1_STX};
use crate::v2::{V2Packet, V2_STX};
use crate::{frame_field_offset, frame_payload_offset, version_stx, Packet, PacketVersion};

verus! {

#[derive(Debug, Clone, Copy, PartialEq, Eq, Structural)]
pub struct MavFrameSemanticModel {
    pub header: MavHeaderSemanticModel,
    pub message: MavMessageSemanticModel,
}

/// The header bytes after STX of a frame with these fields.
pub open spec fn spec_header_bytes(
    version: PacketVersion,
    len: u8,
    sequence: u8,
    system_id: u8,
    component_id: u8,
    message_id: u32,
) -> Seq<u8> {
    match version {
        PacketVersion::V1 => seq![len, sequence, system_id, component_id, message_id as u8],
        PacketVersion::V2 => seq![
            len,
            0u8,
            0u8,
            sequence,
            system_id,
            component_id,
            (message_id % 256) as u8,
            ((message_id / 256) % 256) as u8,
            (message_id / 65536) as u8,
        ],
    }
}

/// The frame with these fields and payload: STX, header, payload, and the
/// checksum over header and payload seeded with `extra_crc`. No signature,
/// no incompatibility or compatibility flags.
pub open spec fn spec_encode_frame(
    version: PacketVersion,
    sequence: u8,
    system_id: u8,
    component_id: u8,
    message_id: u32,
    payload: Seq<u8>,
    extra_crc: u8,
) -> Seq<u8> {
    let body = spec_header_bytes(version, payload.len() as u8, sequence, system_id, component_id, message_id)
        + payload;
    seq![version_stx(version)] + body + u16_bytes(crc_of(body, extra_crc))
}

/// The message ids a frame of `version` can carry.
pub open spec fn id_fits(version: PacketVersion, message_id: u32) -> bool {
    match version {
        PacketVersion::V1 => message_id < 256,
        PacketVersion::V2 => message_id < 16777216,
    }
}

/// The message id a record's frame carries: its header's, when the header
/// holds one, else its message's own.
pub open spec fn spec_model_message_id(model: MavFrameSemanticModel) -> u32 {
    match model.header.message_id {
        Some(id) => id,
        None => model.message.spec_id(),
    }
}

/// `MavFrame::new` can build the frame of `model`: its message id fits the
/// version's MSGID field and the catalog gives that id a seed.
pub open spec fn model_encodable(model: MavFrameSemanticModel, version: PacketVersion) -> bool {
    &&& id_fits(version, spec_model_message_id(model))
    &&& extra_crc_entry(spec_model_message_id(model)).is_some()
}

/// The frame that `MavFrame::new` builds for `model`: the sequence, ids and
/// message id of the record, the payload of its message, and the checksum
/// seeded with the catalog's seed for that message id.
pub open spec fn spec_model_frame(model: MavFrameSemanticModel, version: PacketVersion) -> Seq<u8> {
    spec_encode_frame(
        version,
        model.header.sequence,
        model.header.system_id,
        model.header.component_id,
        spec_model_message_id(model),
        model.message.spec_payload(),
        extra_crc_entry(spec_model_message_id(model)).unwrap(),
    )
}

/// Builds the packet of a frame with these fields and payload.
pub fn encode_frame(
    version: PacketVersion,
    sequence: u8,
    system_id: u8,
    component_id: u8,
    message_id: u32,
    payload: &[u8],
    extra_crc: u8,
) -> (r: Packet)
    requires
        payload@.len() <= 255,
        id_fits(version, message_id),
    ensures
        r@ == spec_encode_frame(version, sequence, system_id, component_id, message_id, payload@, extra_crc),
        r.spec_version() == version,
{
    let len = payload.len() as u8;
    let mut v: Vec<u8> = Vec::new();
    match version {
        PacketVersion::V1 => {
            v.push(V1_STX);
            v.push(len);
            v.push(sequence);
            v.push(system_id);
            v.push(component_id);
            v.push(message_id as u8);
        },
        PacketVersion::V2 => {
            v.push(V2_STX);
            v.push(len);
            v.push(0);
            v.push(0);
            v.push(sequence);
            v.push(system_id);
            v.push(component_id);
            v.push((message_id % 256) as u8);
            v.push(((message_id / 256) % 256) as u8);
            v.push((message_id / 65536) as u8);
        },
    }
    let mut i: usize = 0;
    while i < payload.len()
        invariant
            i <= payload@.len(),
            v@.len() >= 1,
            v@ == seq![version_stx(version)] + spec_header_bytes(version, len, sequence, system_id, component_id, message_id)
                + payload@.take(i as int),
        decreases payload@.len() - i,
    {
        v.push(payload[i]);
        i = i + 1;
        assert(payload@.take(i as int) =~= payload@.take(i - 1 as int).push(payload@[i - 1 as int]));
    }
    let ghost body = spec_header_bytes(version, len, sequence, system_id, component_id, message_id) + payload@;
    assert(payload@.take(i as int) =~= payload@);
    assert(v@.subrange(1, v@.len() as int) =~= body);
    let crc = calculate_crc(slice_subrange(v.as_slice(), 1, v.len()), extra_crc);
    push_u16(&mut v, crc);
    let frame = bytes_from_vec(v);
    match version {
        PacketVersion::V1 => Packet::V1(V1Packet::new(frame)),
        PacketVersion::V2 => {
            assert(0u8 & 1u8 == 0u8) by (bit_vector);
            Packet::V2(V2Packet::new(frame))
        },
    }
}

/// A packet, read as header and message.
#[derive(Debug, PartialEq, Eq)]
pub struct MavFrame {
    packet: Packet,
}

impl View for MavFrame {
    type V = Seq<u8>;

    closed spec fn view(&self) -> Seq<u8> {
        self.packet@
    }
}

impl MavFrame {
    pub closed spec fn spec_version(&self) -> PacketVersion {
        self.packet.spec_version()
    }

    /// Builds the frame of `model`: LEN from the payload, the header's
    /// sequence and ids, the header's message id when present (else the
    /// message's own), and the checksum seeded with the catalog's seed for
    /// that id. An id that the version cannot carry, or that the catalog
    /// does not know, is an error.
    pub fn new(model: &MavFrameSemanticModel, version: PacketVersion) -> (r: Result<Self, DecoderError>)
        ensures
            r.is_ok() <==> model_encodable(*model, version),
            r matches Ok(f) ==> f@ == spec_model_frame(*model, version) && f.spec_version() == version,
            r matches Err(e) ==> e == (DecoderError::UnknownMessageID { msgid: spec_model_message_id(*model) }),
    {
        let message = MavMessage::from_model(&model.message);
        proof {
            crate::mav_types::mav_message::lemma_message_round_trip(model.message);
        }
        let message_id = match model.header.message_id {
            Some(id) => id,
            None => message.id(),
        };
        let fits = match version {
            PacketVersion::V1 => message_id < 256,
            PacketVersion::V2 => message_id < 16777216,
        };
        if !fits {
            return Err(DecoderError::UnknownMessageID { msgid: message_id });
        }
        let extra_crc = match get_extra_crc(message_id) {
            Some(seed) => seed,
            None => {
                return Err(DecoderError::UnknownMessageID { msgid: message_id });
            },
        };
        let payload = crate::buffers::bytes_as_slice(message.bytes());
        let packet = encode_frame(
            version,
            model.header.sequence,
            model.header.system_id,
            model.header.component_id,
            message_id,
            payload,
            extra_crc,
        );
        Ok(MavFrame { packet })
    }

    pub fn from_packet(packet: Packet) -> (r: Self)
        ensures
            r@ == packet@,
            r.spec_version() == packet.spec_version(),
    {
        MavFrame { packet }
    }

    pub fn packet(&self) -> (r: &Packet)
        ensures
            r@ == self@,
            r.spec_version() == self.spec_version(),
    {
        &self.packet
    }

    pub fn into_packet(self) -> (r: Packet)
        ensures
            r@ == self@,
            r.spec_version() == self.spec_version(),
    {
        self.packet
    }

    /// Sequence, system id, component id and message id of the frame.
    pub fn header(&self) -> (r: MavHeader)
        ensures
            r@ == self@.subrange(frame_field_offset(self@), frame_payload_offset(self@)),
    {
        self.packet.frame_facts();
        let b = self.packet.header_bytes();
        MavHeader::new(b)
    }

    /// The message body of the frame; an unknown message id is an error.
    pub fn message(&self) -> (r: Result<MavMessage, DecoderError>)
        ensures
            r.is_ok() <==> spec_known_message(crate::frame_message_id(self@)).is_some(),
            r matches Ok(m) ==> m.spec_id() == crate::frame_message_id(self@) && m.spec_bytes()
                == crate::frame_payload(self@),
            r matches Err(e) ==> e == (DecoderError::UnknownMessageID { msgid: crate::frame_message_id(self@) }),
    {
        parse(&self.packet)
    }

    /// The structured record of the frame.
    pub fn to_model(&self) -> (r: Result<MavFrameSemanticModel, DecoderError>)
        ensures
            r.is_ok() <==> spec_known_message(crate::frame_message_id(self@)).is_some(),
            r matches Ok(m) ==> m.message == crate::mav_types::mav_message::spec_message_model(
                crate::frame_message_id(self@),
                crate::frame_payload(self@),
            ) && m.header == spec_header_model(
                self@.subrange(frame_field_offset(self@), frame_payload_offset(self@)),
            ),
            r matches Err(e) ==> e == (DecoderError::UnknownMessageID { msgid: crate::frame_message_id(self@) }),
    {
        let message = match self.message() {
            Ok(m) => m,
            Err(e) => {
                return Err(e);
            },
        };
        let header = MavHeaderSemanticModel::from_header(&self.header());
        Ok(MavFrameSemanticModel { header, message: MavMessageSemanticModel::from_message(&message) })
    }
}

/// Round trip: the frame built for a record, whatever bytes follow it, is
/// decoded into exactly that frame, consuming exactly its bytes, by a codec
/// that accepts its version and whose id policies its header meets. When
/// the record carries no other message id than its message's own, the
/// decoded frame reads back as the same message record.
#[verifier::rlimit(40)]
pub proof fn lemma_round_trip(
    cfg: CodecConfig,
    model: MavFrameSemanticModel,
    version: PacketVersion,
    rest: Seq<u8>,
)
    requires
        model_encodable(model, version),
        version == PacketVersion::V1 ==> cfg.accept_v1,
        version == PacketVersion::V2 ==> cfg.accept_v2,
        cfg.drop_invalid_sysid ==> model.header.system_id != 0,
        cfg.drop_invalid_compid ==> model.header.component_id != 0,
    ensures
        ({
            let f = spec_model_frame(model, version);
            &&& decode_outcome(cfg, f + rest) == (f.len(), Some(Ok::<Seq<u8>, DecoderError>(f)))
            &&& crate::frame_message_id(f) == spec_model_message_id(model)
            &&& crate::frame_payload(f) == model.message.spec_payload()
            &&& spec_model_message_id(model) == model.message.spec_id() ==> crate::mav_types::mav_message::spec_message_model(
                crate::frame_message_id(f),
                crate::frame_payload(f),
            ) == model.message
        }),
{
    crate::mav_types::mav_message::lemma_message_round_trip(model.message);
    let f = spec_model_frame(model, version);
    let id = spec_model_message_id(model);
    let payload = model.message.spec_payload();
    let seed = extra_crc_entry(id).unwrap();
    let l = payload.len() as u8;
    let body = spec_header_bytes(version, l, model.header.sequence, model.header.system_id, model.header.component_id, id) + payload;
    let crc = crc_of(body, seed);
    assert(l as int == payload.len());
    assert(crate::v1::le_u16(u16_bytes(crc)[0], u16_bytes(crc)[1]) == crc);
    assert(!(0u8 & !1u8 != 0u8)) by (bit_vector);
    assert(!(0u8 & 1u8 != 0u8)) by (bit_vector);
    if version == PacketVersion::V2 {
        lemma_msgid_bytes(id);
    }
    assert(crate::frame_checksum_input(f) =~= body);
    assert(crate::frame_payload(f) =~= payload);
    assert(frame_passes(cfg, f));
    lemma_frame_accepted(cfg, f, rest);
}

/// The three little-endian bytes of a 24-bit id read back as the id.
proof fn lemma_msgid_bytes(id: u32)
    requires
        id < 16777216,
    ensures
        (((id % 256) as u8) + 256 * (((id / 256) % 256) as u8) + 65536 * ((id / 65536) as u8)) as u32 == id,
{
    assert(((id % 256) as u8) as u32 + 256 * (((id / 256) % 256) as u8) as u32 + 65536 * ((id / 65536) as u8) as u32 == id)
        by (bit_vector)
        requires
            id < 16777216,
    ;
}

} // verus!
