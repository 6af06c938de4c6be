use bytes::{Bytes, BytesMut};
use mavlink::Message as _;

use mavlink_codec::codec::MavlinkCodec;
use mavlink_codec::error::DecoderError;
use mavlink_codec::mav_types::field_types::{MavAutopilot, MavState, MavType};
use mavlink_codec::mav_types::mav_frame::{encode_frame, MavFrame, MavFrameSemanticModel};
use mavlink_codec::mav_types::mav_header::MavHeaderSemanticModel;
use mavlink_codec::mav_types::mav_message::heartbeat::{
    HeartbeatMessage, HeartbeatMessageSemanticModel,
};
use mavlink_codec::mav_types::mav_message::rc_channels::{
    RcChannelsMessage, RcChannelsMessageSemanticModel,
};
use mavlink_codec::mav_types::mav_message::{MavMessage, MavMessageSemanticModel};
use mavlink_codec::mav_types::serde_utils::BitsField;
use mavlink_codec::parser::parse;
use mavlink_codec::v2::V2Packet;
use mavlink_codec::{Packet, PacketVersion};

const HEARTBEAT_BYTES: &[u8] = &[19, 0, 0, 0, 1, 3, 81, 5, 3];

const RC_CHANNELS_BYTES: &[u8] = &[
    0xe8, 0x03, 0x00, 0x00, 0xdc, 0x05, 0xdc, 0x05, 0xdc, 0x05, 0xdc, 0x05, 0xdc, 0x05, 0xdc,
    0x05, 0xdc, 0x05, 0xdc, 0x05, 0xe8, 0x03, 0xe8, 0x03, 0xe8, 0x03, 0xe8, 0x03, 0xe8, 0x03,
    0xe8, 0x03, 0xe8, 0x03, 0xe8, 0x03, 0xe8, 0x03, 0xe8, 0x03, 18, 210,
];

fn rc_model() -> RcChannelsMessageSemanticModel {
    RcChannelsMessageSemanticModel {
        time_boot_ms: 1000,
        chan1_raw: 1500,
        chan2_raw: 1500,
        chan3_raw: 1500,
        chan4_raw: 1500,
        chan5_raw: 1500,
        chan6_raw: 1500,
        chan7_raw: 1500,
        chan8_raw: 1500,
        chan9_raw: 1000,
        chan10_raw: 1000,
        chan11_raw: 1000,
        chan12_raw: 1000,
        chan13_raw: 1000,
        chan14_raw: 1000,
        chan15_raw: 1000,
        chan16_raw: 1000,
        chan17_raw: 1000,
        chan18_raw: 1000,
        chancount: 18,
        rssi: 210,
    }
}

fn heartbeat_model() -> HeartbeatMessageSemanticModel {
    HeartbeatMessageSemanticModel {
        autopilot: MavAutopilot::MavAutopilotArdupilotmega,
        base_mode: BitsField { bits: 81 },
        custom_mode: 19,
        mavlink_version: 3,
        mavtype: MavType::MavTypeFixedWing,
        system_status: MavState::MavStateCritical,
    }
}

#[test]
fn test() {
    let original_heartbeat_message_data = mavlink::ardupilotmega::HEARTBEAT_DATA {
        custom_mode: std::u32::MAX,
        mavtype: mavlink::ardupilotmega::MavType::MAV_TYPE_FIXED_WING,
        autopilot: mavlink::ardupilotmega::MavAutopilot::MAV_AUTOPILOT_ARDUPILOTMEGA,
        base_mode: mavlink::ardupilotmega::MavModeFlag::all(),
        system_status: mavlink::ardupilotmega::MavState::MAV_STATE_STANDBY,
        mavlink_version: 0x03,
    };

    let mut slice = [0u8; mavlink::ardupilotmega::HEARTBEAT_DATA::ENCODED_LEN];
    mavlink::ardupilotmega::MavMessage::ser(
        &mavlink::ardupilotmega::MavMessage::HEARTBEAT(original_heartbeat_message_data.clone()),
        mavlink::MavlinkVersion::V2,
        &mut slice,
    );

    let parsed_heartbeat_message_data = HeartbeatMessage::new(Bytes::copy_from_slice(&slice));

    assert_eq!(
        parsed_heartbeat_message_data.custom_mode(),
        original_heartbeat_message_data.custom_mode
    );
    assert_eq!(
        parsed_heartbeat_message_data.mav_type() as u32,
        original_heartbeat_message_data.mavtype as u32
    );
    assert_eq!(
        parsed_heartbeat_message_data.autopilot() as u8,
        original_heartbeat_message_data.autopilot as u8
    );
    assert_eq!(
        parsed_heartbeat_message_data.base_mode(),
        original_heartbeat_message_data.base_mode.bits()
    );
    assert_eq!(
        parsed_heartbeat_message_data.system_status() as u32,
        original_heartbeat_message_data.system_status as u32
    );
    assert_eq!(
        parsed_heartbeat_message_data.mavlink_version(),
        original_heartbeat_message_data.mavlink_version
    );
}

#[test]
fn test_rc_channels_parsing() {
    let original_rc_data = mavlink::ardupilotmega::RC_CHANNELS_DATA {
        time_boot_ms: 123456789,
        chan1_raw: 1100,
        chan2_raw: 1200,
        chan3_raw: 1300,
        chan4_raw: 1400,
        chan5_raw: 1500,
        chan6_raw: 1600,
        chan7_raw: 1700,
        chan8_raw: 1800,
        chan9_raw: 1900,
        chan10_raw: 1110,
        chan11_raw: 1120,
        chan12_raw: 1130,
        chan13_raw: 1140,
        chan14_raw: 1150,
        chan15_raw: 1160,
        chan16_raw: 1170,
        chan17_raw: 1180,
        chan18_raw: 1190,
        chancount: 18,
        rssi: 200,
    };

    let mut slice = [0u8; mavlink::ardupilotmega::RC_CHANNELS_DATA::ENCODED_LEN];
    mavlink::ardupilotmega::MavMessage::ser(
        &mavlink::ardupilotmega::MavMessage::RC_CHANNELS(original_rc_data.clone()),
        mavlink::MavlinkVersion::V2,
        &mut slice,
    );

    let parsed_rc_message = RcChannelsMessage::new(Bytes::copy_from_slice(&slice));

    assert_eq!(parsed_rc_message.time_boot_ms(), original_rc_data.time_boot_ms);
    assert_eq!(parsed_rc_message.chan1_raw(), original_rc_data.chan1_raw);
    assert_eq!(parsed_rc_message.chan2_raw(), original_rc_data.chan2_raw);
    assert_eq!(parsed_rc_message.chan3_raw(), original_rc_data.chan3_raw);
    assert_eq!(parsed_rc_message.chan4_raw(), original_rc_data.chan4_raw);
    assert_eq!(parsed_rc_message.chan5_raw(), original_rc_data.chan5_raw);
    assert_eq!(parsed_rc_message.chan6_raw(), original_rc_data.chan6_raw);
    assert_eq!(parsed_rc_message.chan7_raw(), original_rc_data.chan7_raw);
    assert_eq!(parsed_rc_message.chan8_raw(), original_rc_data.chan8_raw);
    assert_eq!(parsed_rc_message.chan9_raw(), original_rc_data.chan9_raw);
    assert_eq!(parsed_rc_message.chan10_raw(), original_rc_data.chan10_raw);
    assert_eq!(parsed_rc_message.chan11_raw(), original_rc_data.chan11_raw);
    assert_eq!(parsed_rc_message.chan12_raw(), original_rc_data.chan12_raw);
    assert_eq!(parsed_rc_message.chan13_raw(), original_rc_data.chan13_raw);
    assert_eq!(parsed_rc_message.chan14_raw(), original_rc_data.chan14_raw);
    assert_eq!(parsed_rc_message.chan15_raw(), original_rc_data.chan15_raw);
    assert_eq!(parsed_rc_message.chan16_raw(), original_rc_data.chan16_raw);
    assert_eq!(parsed_rc_message.chan17_raw(), original_rc_data.chan17_raw);
    assert_eq!(parsed_rc_message.chan18_raw(), original_rc_data.chan18_raw);
    assert_eq!(parsed_rc_message.chancount(), original_rc_data.chancount);
    assert_eq!(parsed_rc_message.rssi(), original_rc_data.rssi);
}

#[test]
fn test_parse() {
    let original_message = mavlink::ardupilotmega::MavMessage::default_message_from_id(0).unwrap();

    let mut raw_v2_message = mavlink::MAVLinkV2MessageRaw::new();
    raw_v2_message.serialize_message(mavlink::MavHeader::default(), &original_message);
    let mavlink::ardupilotmega::MavMessage::HEARTBEAT(original_heartbeat_message_data) =
        original_message
    else {
        unreachable!("Wrong message parsed!");
    };

    let packet = Packet::V2(V2Packet::new(Bytes::copy_from_slice(raw_v2_message.raw_bytes())));

    let parsed_message = parse(&packet).unwrap();

    drop(packet);

    let MavMessage::Heartbeat(parsed_heartbeat_message_data) = parsed_message else {
        panic!("Wrong message parsed!");
    };

    assert_eq!(
        parsed_heartbeat_message_data.custom_mode(),
        original_heartbeat_message_data.custom_mode
    );
    assert_eq!(
        parsed_heartbeat_message_data.mav_type() as u32,
        original_heartbeat_message_data.mavtype as u32
    );
    assert_eq!(
        parsed_heartbeat_message_data.autopilot() as u8,
        original_heartbeat_message_data.autopilot as u8
    );
    assert_eq!(
        parsed_heartbeat_message_data.base_mode(),
        original_heartbeat_message_data.base_mode.bits()
    );
    assert_eq!(
        parsed_heartbeat_message_data.system_status() as u32,
        original_heartbeat_message_data.system_status as u32
    );
    assert_eq!(
        parsed_heartbeat_message_data.mavlink_version(),
        original_heartbeat_message_data.mavlink_version
    );
}

#[test]
fn heartbeat_fields_from_bytes() {
    let message = HeartbeatMessage::new(Bytes::from_static(HEARTBEAT_BYTES));
    assert_eq!(HeartbeatMessageSemanticModel::from_message(&message), heartbeat_model());
}

#[test]
fn heartbeat_bytes_from_fields() {
    let message = HeartbeatMessage::from_model(&heartbeat_model());
    assert_eq!(message.as_slice(), HEARTBEAT_BYTES);
}

#[test]
fn rc_channels_fields_from_bytes() {
    let message = RcChannelsMessage::new(Bytes::from_static(RC_CHANNELS_BYTES));
    assert_eq!(RcChannelsMessageSemanticModel::from_message(&message), rc_model());
}

#[test]
fn rc_channels_bytes_from_fields() {
    let message = RcChannelsMessage::from_model(&rc_model());
    assert_eq!(message.as_slice(), RC_CHANNELS_BYTES);
}

#[test]
fn truncated_payload_reads_as_zero_extended() {
    // custom_mode = 0x0113, every later byte elided
    let message = HeartbeatMessage::new(Bytes::from_static(&[0x13, 0x01]));
    assert_eq!(message.custom_mode(), 0x0113);
    assert_eq!(message.mav_type(), MavType::MavTypeGeneric);
    assert_eq!(message.mavlink_version(), 0);
    let rc = RcChannelsMessage::new(Bytes::from_static(&[0, 0, 0, 0, 0xdc]));
    assert_eq!(rc.chan1_raw(), 0xdc);
    assert_eq!(rc.rssi(), 0);
}

#[test]
fn unknown_enum_code_reads_as_default() {
    let message = HeartbeatMessage::new(Bytes::from_static(&[0, 0, 0, 0, 200, 200, 0, 200, 0]));
    assert_eq!(message.mav_type(), MavType::MavTypeGeneric);
    assert_eq!(message.autopilot(), MavAutopilot::MavAutopilotGeneric);
    assert_eq!(message.system_status(), MavState::MavStateUninit);
    assert_eq!(MavType::from_code(42), MavType::MavTypeWinch);
    assert_eq!(MavType::MavTypeWinch.code(), 42);
}

#[test]
fn parse_rejects_unknown_id() {
    let frame: &[u8] = &[
        253, 30, 0, 0, 0, 0, 50, 76, 0, 0, 0, 0, 230, 66, 0, 64, 156, 69, 0, 0, 0, 0, 0, 0, 0, 0,
        0, 0, 0, 0, 0, 0, 0, 0, 0, 0, 0, 0, 255, 1, 188, 195,
    ];
    let packet = Packet::V2(V2Packet::new(Bytes::from_static(frame)));
    match parse(&packet) {
        Err(DecoderError::UnknownMessageID { msgid }) => assert_eq!(msgid, 76),
        other => panic!("unexpected {other:?}"),
    }
}

fn frame_model(message: MavMessageSemanticModel) -> MavFrameSemanticModel {
    MavFrameSemanticModel {
        header: MavHeaderSemanticModel {
            sequence: 7,
            system_id: 1,
            component_id: 2,
            message_id: None,
        },
        message,
    }
}

#[test]
fn encoded_frames_match_mavlink_and_decode_back() {
    for version in [PacketVersion::V1, PacketVersion::V2] {
        for message in [
            MavMessageSemanticModel::Heartbeat(heartbeat_model()),
            MavMessageSemanticModel::RcChannels(rc_model()),
        ] {
            let model = frame_model(message);
            let frame = MavFrame::new(&model, version).unwrap();
            let packet = frame.packet().clone();
            assert_eq!(packet.version(), version);
            assert_eq!(packet.sequence(), 7);
            assert_eq!(packet.system_id(), 1);
            assert_eq!(packet.component_id(), 2);

            // the checksum is the one mavlink computes for these bytes
            let seed = match message {
                MavMessageSemanticModel::Heartbeat(_) => 50,
                MavMessageSemanticModel::RcChannels(_) => 118,
            };
            assert_eq!(packet.checksum(), mavlink::calculate_crc(packet.checksum_data(), seed));

            let mut codec = MavlinkCodec::<true, true, true, true, false, true>::default();
            let mut out = BytesMut::new();
            codec.encode(packet.clone(), &mut out).unwrap();
            out.extend_from_slice(&[1, 2, 3]);
            let decoded = codec.decode(&mut out).unwrap().unwrap();
            assert_eq!(decoded, packet);
            assert_eq!(&out[..], &[1, 2, 3]);

            let back = MavFrame::from_packet(decoded).to_model().unwrap();
            assert_eq!(back.message, message);
            assert_eq!(back.header.sequence, 7);
            assert_eq!(back.header.system_id, 1);
            assert_eq!(back.header.component_id, 2);
            let id = match message {
                MavMessageSemanticModel::Heartbeat(_) => 0,
                MavMessageSemanticModel::RcChannels(_) => 65,
            };
            assert_eq!(back.header.message_id, Some(id));
        }
    }
}

#[test]
fn encode_frame_layout() {
    let packet = encode_frame(PacketVersion::V2, 3, 4, 5, 0x010203, &[9, 8], 0);
    let bytes = packet.as_slice();
    assert_eq!(&bytes[..12], &[253, 2, 0, 0, 3, 4, 5, 3, 2, 1, 9, 8]);
    assert_eq!(bytes.len(), 14);
    assert_eq!(packet.message_id(), 0x010203);
    let packet = encode_frame(PacketVersion::V1, 3, 4, 5, 65, &[], 118);
    assert_eq!(&packet.as_slice()[..6], &[254, 0, 3, 4, 5, 65]);
    assert_eq!(packet.packet_size(), 8);
}

#[test]
fn header_message_id_takes_precedence() {
    let mut model = frame_model(MavMessageSemanticModel::Heartbeat(heartbeat_model()));
    model.header.message_id = Some(65);
    for version in [PacketVersion::V1, PacketVersion::V2] {
        let packet = MavFrame::new(&model, version).unwrap().into_packet();
        assert_eq!(packet.message_id(), 65);
        assert_eq!(packet.payload(), HEARTBEAT_BYTES);
        assert_eq!(packet.checksum(), mavlink::calculate_crc(packet.checksum_data(), 118));
    }
}

#[test]
fn unencodable_message_id_is_an_error() {
    let mut model = frame_model(MavMessageSemanticModel::Heartbeat(heartbeat_model()));
    model.header.message_id = Some(0xFFFFFF);
    match MavFrame::new(&model, PacketVersion::V2) {
        Err(DecoderError::UnknownMessageID { msgid }) => assert_eq!(msgid, 0xFFFFFF),
        other => panic!("unexpected {other:?}"),
    }
    model.header.message_id = Some(300);
    match MavFrame::new(&model, PacketVersion::V1) {
        Err(DecoderError::UnknownMessageID { msgid }) => assert_eq!(msgid, 300),
        other => panic!("unexpected {other:?}"),
    }
}

#[test]
fn test_raw_v2_message_from_v2packet() {
    let raw_v2_message_original = {
        let header = mavlink::MavHeader { system_id: 1, component_id: 1, sequence: 0 };
        let message_data = mavlink::ardupilotmega::MavMessage::default_message_from_id(0).unwrap();
        let mut raw_v2_message = mavlink::MAVLinkV2MessageRaw::new();
        raw_v2_message.serialize_message(header, &message_data);
        raw_v2_message
    };

    let v2_packet = V2Packet::new(Bytes::copy_from_slice(raw_v2_message_original.raw_bytes()));

    assert_eq!(v2_packet.as_slice(), raw_v2_message_original.raw_bytes());

    let raw_v2_message = mavlink::read_v2_raw_message::<mavlink::ardupilotmega::MavMessage, _>(
        &mut mavlink::peek_reader::PeekReader::new(v2_packet.as_slice()),
    )
    .unwrap();

    assert_eq!(raw_v2_message_original, raw_v2_message);
}
