use bytes::{BufMut, Bytes, BytesMut};
use mavlink::{ardupilotmega::MavMessage, MAVLinkV1MessageRaw, MAVLinkV2MessageRaw, MavHeader, Message};
use rand::{prelude::StdRng, Rng, SeedableRng};

use mavlink_codec::codec::{get_extra_crc, MavlinkCodec};
use mavlink_codec::error::DecoderError;
use mavlink_codec::v1::V1Packet;
use mavlink_codec::v2::V2Packet;
use mavlink_codec::Packet;

const HEARTBEAT_V1: &[u8] = &[254, 9, 239, 1, 2, 0, 5, 0, 0, 0, 2, 3, 89, 3, 3, 31, 80];

const COMMAND_LONG_V2: &[u8] = &[
    253, 30, 0, 0, 0, 0, 50, 76, 0, 0, 0, 0, 230, 66, 0, 64, 156, 69, 0, 0, 0, 0, 0, 0, 0, 0, 0,
    0, 0, 0, 0, 0, 0, 0, 0, 0, 0, 0, 255, 1, 188, 195,
];

type Strict = MavlinkCodec<true, true, false, false, false, false>;
type Lax = MavlinkCodec<true, true, false, false, true, false>;
type Picky = MavlinkCodec<true, true, true, true, false, true>;

fn raw_v1(seed_id: u32) -> MAVLinkV1MessageRaw {
    let header = MavHeader { system_id: 1, component_id: 1, sequence: 0 };
    let message_data = MavMessage::default_message_from_id(seed_id).unwrap();
    let mut raw = MAVLinkV1MessageRaw::new();
    raw.serialize_message(header, &message_data);
    raw
}

fn raw_v2(seed_id: u32) -> MAVLinkV2MessageRaw {
    let header = MavHeader { system_id: 1, component_id: 1, sequence: 0 };
    let message_data = MavMessage::default_message_from_id(seed_id).unwrap();
    let mut raw = MAVLinkV2MessageRaw::new();
    raw.serialize_message(header, &message_data);
    raw
}

#[test]
fn test_decode_v1() {
    let mut codec = MavlinkCodec::<true, false, false, false, false, false>::default();
    let mut buf = BytesMut::with_capacity(V1Packet::MAX_PACKET_SIZE);
    let raw = raw_v1(0);
    buf.put(raw.raw_bytes());
    let expected_packet = Packet::V1(V1Packet::new(Bytes::copy_from_slice(raw.raw_bytes())));
    assert!(!buf.is_empty());

    let packet = codec.decode(&mut buf).unwrap().unwrap();

    assert_eq!(packet, expected_packet);
}

#[test]
fn test_decode_v2() {
    let mut codec = MavlinkCodec::<false, true, false, false, false, false>::default();
    let mut buf = BytesMut::with_capacity(V2Packet::MAX_PACKET_SIZE);
    let raw = raw_v2(0);
    buf.put(raw.raw_bytes());
    let expected_packet = Packet::V2(V2Packet::new(Bytes::copy_from_slice(raw.raw_bytes())));
    assert!(!buf.is_empty());

    let packet = codec.decode(&mut buf).unwrap().unwrap();

    assert_eq!(packet, expected_packet);
}

#[test]
fn test_encode_v1() {
    let mut codec = Strict::default();
    let v1_packet = V1Packet::new(Bytes::copy_from_slice(raw_v1(0).raw_bytes()));
    let mut buf = BytesMut::with_capacity(V1Packet::MAX_PACKET_SIZE);

    codec.encode(Packet::V1(v1_packet.clone()), &mut buf).unwrap();

    assert_eq!(&buf[..v1_packet.packet_size()], v1_packet.as_slice())
}

#[test]
fn test_encode_v2() {
    let mut codec = Strict::default();
    let v2_packet = V2Packet::new(Bytes::copy_from_slice(raw_v2(0).raw_bytes()));
    let mut buf = BytesMut::with_capacity(V2Packet::MAX_PACKET_SIZE);

    codec.encode(Packet::V2(v2_packet.clone()), &mut buf).unwrap();

    assert_eq!(&buf[..v2_packet.packet_size()], v2_packet.as_slice())
}

#[test]
fn encode_rejects_unaccepted_version() {
    let mut codec = MavlinkCodec::<false, true, false, false, false, false>::default();
    let packet = Packet::V1(V1Packet::new(Bytes::from_static(HEARTBEAT_V1)));
    let mut buf = BytesMut::new();
    let err = codec.encode(packet, &mut buf).unwrap_err();
    assert_eq!(err.kind(), std::io::ErrorKind::InvalidData);
    assert!(buf.is_empty());
}

#[test]
fn test_v1packet_from_raw_v1_message() {
    let mut raw_v1_message = raw_v1(0);
    let v1_packet = V1Packet::new(Bytes::copy_from_slice(raw_v1_message.raw_bytes()));

    assert_eq!(v1_packet.header(), raw_v1_message.header());
    assert_eq!(*v1_packet.stx(), raw_v1_message.raw_bytes()[0]);
    assert_eq!(*v1_packet.payload_length(), raw_v1_message.payload_length());
    assert_eq!(*v1_packet.sequence(), raw_v1_message.sequence());
    assert_eq!(*v1_packet.system_id(), raw_v1_message.system_id());
    assert_eq!(*v1_packet.component_id(), raw_v1_message.component_id());
    assert_eq!(*v1_packet.message_id(), raw_v1_message.message_id());
    assert_eq!(v1_packet.payload(), raw_v1_message.payload());
    assert_eq!(v1_packet.checksum(), raw_v1_message.checksum());
}

#[test]
fn test_v2packet_from_raw_v2_message() {
    let mut raw_v2_message = raw_v2(0);
    let v2_packet = V2Packet::new(Bytes::copy_from_slice(raw_v2_message.raw_bytes()));

    assert_eq!(v2_packet.header(), raw_v2_message.header());
    assert_eq!(*v2_packet.stx(), raw_v2_message.raw_bytes()[0]);
    assert_eq!(*v2_packet.payload_length(), raw_v2_message.payload_length());
    assert_eq!(*v2_packet.incompatibility_flags(), raw_v2_message.incompatibility_flags());
    assert_eq!(*v2_packet.compatibility_flags(), raw_v2_message.compatibility_flags());
    assert_eq!(*v2_packet.sequence(), raw_v2_message.sequence());
    assert_eq!(*v2_packet.system_id(), raw_v2_message.system_id());
    assert_eq!(*v2_packet.component_id(), raw_v2_message.component_id());
    assert_eq!(v2_packet.message_id(), raw_v2_message.message_id());
    assert_eq!(v2_packet.payload(), raw_v2_message.payload());
    assert_eq!(v2_packet.checksum(), raw_v2_message.checksum());
}

#[test]
fn v1_heartbeat_vector_decodes() {
    let mut codec = Strict::default();
    let mut buf = BytesMut::from(HEARTBEAT_V1);
    let packet = codec.decode(&mut buf).unwrap().unwrap();
    assert_eq!(packet.version(), mavlink_codec::PacketVersion::V1);
    assert_eq!(packet.sequence(), 239);
    assert_eq!(packet.system_id(), 1);
    assert_eq!(packet.component_id(), 2);
    assert_eq!(packet.message_id(), 0);
    assert_eq!(packet.payload(), &[5, 0, 0, 0, 2, 3, 89, 3, 3]);
    assert_eq!(packet.checksum(), 0x501F);
    assert!(buf.is_empty());
    assert!(codec.decode(&mut buf).is_none());
}

#[test]
fn v2_command_long_vector_decodes() {
    let mut codec = Strict::default();
    let mut buf = BytesMut::from(COMMAND_LONG_V2);
    let packet = codec.decode(&mut buf).unwrap().unwrap();
    assert_eq!(packet.message_id(), 76);
    match &packet {
        Packet::V2(p) => assert!(!p.has_signature()),
        Packet::V1(_) => panic!("expected a v2 packet"),
    }
    assert_eq!(packet.as_slice(), COMMAND_LONG_V2);
    assert!(buf.is_empty());
}

#[test]
fn garbage_prefix_is_dropped_silently() {
    let mut rng: StdRng = SeedableRng::seed_from_u64(7);
    let mut stream = Vec::new();
    while stream.len() < 100 {
        let b: u8 = rng.gen();
        if b != 0xFD && b != 0xFE {
            stream.push(b);
        }
    }
    stream.extend_from_slice(COMMAND_LONG_V2);
    let mut codec = Strict::default();
    let mut buf = BytesMut::from(&stream[..]);
    let packet = codec.decode(&mut buf).unwrap().unwrap();
    assert_eq!(packet.as_slice(), COMMAND_LONG_V2);
    assert!(buf.is_empty());
    assert!(codec.decode(&mut buf).is_none());
}

#[test]
fn corrupted_crc_yields_one_error() {
    let mut frame = COMMAND_LONG_V2.to_vec();
    let last = frame.len() - 1;
    frame[last] ^= 0xFF;
    let mut codec = Strict::default();
    let mut buf = BytesMut::from(&frame[..]);
    match codec.decode(&mut buf) {
        Some(Err(DecoderError::InvalidCRC { expected_crc, calculated_crc })) => {
            assert_eq!(expected_crc, u16::from_le_bytes([188, 195 ^ 0xFF]));
            assert_eq!(calculated_crc, u16::from_le_bytes([188, 195]));
        }
        other => panic!("unexpected {other:?}"),
    }
    assert_eq!(buf.len(), frame.len() - 1);
    assert!(codec.decode(&mut buf).is_none());
    assert!(buf.is_empty());
}

#[test]
fn unknown_message_id_is_rejected_unless_crc_is_skipped() {
    let mut frame = COMMAND_LONG_V2.to_vec();
    frame[7] = 0xFF;
    frame[8] = 0xFF;
    frame[9] = 0xFF;
    let mut codec = Strict::default();
    let mut buf = BytesMut::from(&frame[..]);
    match codec.decode(&mut buf) {
        Some(Err(DecoderError::UnknownMessageID { msgid })) => assert_eq!(msgid, 16777215),
        other => panic!("unexpected {other:?}"),
    }
    let mut lax = Lax::default();
    let mut buf = BytesMut::from(&frame[..]);
    let packet = lax.decode(&mut buf).unwrap().unwrap();
    assert_eq!(packet.message_id(), 0xFFFFFF);
    assert!(buf.is_empty());
}

#[test]
fn skipping_crc_accepts_corrupted_frame_and_consumes_it() {
    let mut frame = COMMAND_LONG_V2.to_vec();
    let last = frame.len() - 1;
    frame[last] ^= 0xFF;
    frame.extend_from_slice(HEARTBEAT_V1);
    let mut lax = Lax::default();
    let mut buf = BytesMut::from(&frame[..]);
    let first = lax.decode(&mut buf).unwrap().unwrap();
    assert_eq!(first.packet_size(), COMMAND_LONG_V2.len());
    let second = lax.decode(&mut buf).unwrap().unwrap();
    assert_eq!(second.as_slice(), HEARTBEAT_V1);
    assert!(lax.decode(&mut buf).is_none());
}

#[test]
fn policy_errors_consume_one_byte() {
    let mut codec = Picky::default();
    // COMMAND_LONG has system id 0
    let mut buf = BytesMut::from(COMMAND_LONG_V2);
    match codec.decode(&mut buf) {
        Some(Err(DecoderError::InvalidSystemID { sysid })) => assert_eq!(sysid, 0),
        other => panic!("unexpected {other:?}"),
    }
    assert_eq!(buf.len(), COMMAND_LONG_V2.len() - 1);

    let mut frame = HEARTBEAT_V1.to_vec();
    frame[4] = 0;
    let mut buf = BytesMut::from(&frame[..]);
    match codec.decode(&mut buf) {
        Some(Err(DecoderError::InvalidComponentID { compid })) => assert_eq!(compid, 0),
        other => panic!("unexpected {other:?}"),
    }

    let mut frame = COMMAND_LONG_V2.to_vec();
    frame[2] = 0x02;
    let mut buf = BytesMut::from(&frame[..]);
    match codec.decode(&mut buf) {
        Some(Err(DecoderError::Incompatible { incompat_flags })) => assert_eq!(incompat_flags, 2),
        other => panic!("unexpected {other:?}"),
    }
    assert_eq!(buf.len(), frame.len() - 1);
}

#[test]
fn partial_frame_waits_for_more() {
    let mut codec = Strict::default();
    let mut buf = BytesMut::new();
    for (i, b) in COMMAND_LONG_V2.iter().enumerate() {
        buf.put_u8(*b);
        let r = codec.decode(&mut buf);
        if i + 1 < COMMAND_LONG_V2.len() {
            assert!(r.is_none());
            assert_eq!(buf.len(), i + 1);
        } else {
            assert_eq!(r.unwrap().unwrap().as_slice(), COMMAND_LONG_V2);
        }
    }
}

#[test]
fn extra_crc_catalog() {
    assert_eq!(get_extra_crc(0), Some(50));
    assert_eq!(get_extra_crc(65), Some(118));
    assert_eq!(get_extra_crc(76), Some(152));
    assert_eq!(get_extra_crc(0xFFFFFF), None);
}

fn decode_all<const A: bool, const B: bool, const C: bool, const D: bool, const E: bool, const F: bool>(
    codec: &mut MavlinkCodec<A, B, C, D, E, F>,
    buf: &mut BytesMut,
    out: &mut Vec<Vec<u8>>,
) {
    while let Some(item) = codec.decode(buf) {
        if let Ok(p) = item {
            out.push(p.as_slice().to_vec());
        }
    }
}

#[test]
fn chunked_ingest_matches_whole_stream() {
    let mut rng: StdRng = SeedableRng::seed_from_u64(42);
    let mut frames = Vec::new();
    for _ in 0..1000 {
        let header = MavHeader {
            system_id: rng.gen_range(1..255),
            component_id: rng.gen_range(1..255),
            sequence: rng.gen_range(0..255),
        };
        let id = if rng.gen_bool(0.5) { 0 } else { 65 };
        let data = MavMessage::default_message_from_id(id).unwrap();
        let mut raw = MAVLinkV1MessageRaw::new();
        raw.serialize_message(header, &data);
        frames.push(raw.raw_bytes().to_vec());
    }
    let stream = frames.concat();

    let mut whole = Vec::new();
    let mut codec = MavlinkCodec::<true, false, false, false, false, false>::default();
    let mut buf = BytesMut::from(&stream[..]);
    decode_all(&mut codec, &mut buf, &mut whole);

    let mut chunked = Vec::new();
    let mut codec = MavlinkCodec::<true, false, false, false, false, false>::default();
    let mut buf = BytesMut::new();
    let mut start = 0;
    while start < stream.len() {
        let end = (start + rng.gen_range(1..=128)).min(stream.len());
        buf.extend_from_slice(&stream[start..end]);
        decode_all(&mut codec, &mut buf, &mut chunked);
        start = end;
    }

    assert_eq!(whole.len(), 1000);
    assert_eq!(whole, frames);
    assert_eq!(chunked, frames);
}

#[test]
fn accessors_are_stable() {
    let packet = Packet::V1(V1Packet::new(Bytes::from_static(HEARTBEAT_V1)));
    assert_eq!(packet.message_id(), packet.message_id());
    assert_eq!(packet.payload(), packet.payload());
    assert_eq!(packet.checksum(), packet.checksum());
    assert_eq!(packet.clone(), packet);
}

#[test]
fn rejected_frame_in_garbage_yields_one_error_then_the_frame() {
    // a v2 frame with an empty payload and a wrong checksum, then the frame
    let mut stream = vec![0xFD, 0, 0, 0, 1, 1, 1, 0, 0, 0, 0xAA, 0xBB];
    stream.extend_from_slice(COMMAND_LONG_V2);
    let mut codec = Strict::default();
    let mut buf = BytesMut::from(&stream[..]);
    match codec.decode(&mut buf) {
        Some(Err(DecoderError::InvalidCRC { expected_crc, .. })) => assert_eq!(expected_crc, 0xBBAA),
        other => panic!("unexpected {other:?}"),
    }
    let packet = codec.decode(&mut buf).unwrap().unwrap();
    assert_eq!(packet.as_slice(), COMMAND_LONG_V2);
    assert!(codec.decode(&mut buf).is_none());
}
