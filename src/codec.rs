//! The frame decoder and encoder.
//!
//! The decoder is a resumable state machine over a growable buffer. Its
//! state only caches what the front of the buffer already says, so what a
//! call yields is a function of the configuration and the buffered bytes:
//! `frame_step` says what the front of a buffer calls for, and
//! `decode_outcome` what one call of `decode` consumes and yields.
use vstd::prelude::*;
use vstd::slice::slice_subrange;

use crate::buffers::{
    bytes_mut_advance, bytes_mut_as_slice, bytes_mut_extend, bytes_mut_freeze, bytes_mut_split_to,
    bytes_mut_view,
};
use crate::error::{unsupported_version_error, DecoderError};
use crate::v1::{self, V1Packet, V1_STX};
use crate::v2::{self, V2Packet, MAVLINK_SUPPORTED_IFLAGS, V2_STX};
use crate::{
    frame_checksum, frame_checksum_input, frame_field_offset, frame_message_id, Packet,
    PacketVersion,
};

verus! {

/// CRC-16/MCRF4XX of `data` followed by the byte `extra_crc`.
pub uninterp spec fn crc_of(data: Seq<u8>, extra_crc: u8) -> u16;

/// The message catalog of the dialect has an entry for `id`.
pub uninterp spec fn catalog_has(id: u32) -> bool;

/// The extra-CRC seed the catalog of the dialect gives for `id`.
pub uninterp spec fn catalog_seed(id: u32) -> u8;

/// Relies on `mavlink::calculate_crc`: the CRC-16/MCRF4XX checksum of `data`
/// followed by `extra_crc`.
#[verifier::external_body]
pub(crate) fn calculate_crc(data: &[u8], extra_crc: u8) -> (r: u16)
    ensures
        r == crc_of(data@, extra_crc),
{
    mavlink::calculate_crc(data, extra_crc)
}

/// Relies on `Message::default_message_from_id` of mavlink's ardupilotmega
/// dialect: it succeeds exactly for the ids the dialect defines.
#[verifier::external_body]
fn catalog_contains(id: u32) -> (r: bool)
    ensures
        r == catalog_has(id),
{
    <mavlink::ardupilotmega::MavMessage as mavlink::Message>::default_message_from_id(id).is_ok()
}

/// Relies on `Message::extra_crc` of mavlink's ardupilotmega dialect: the
/// extra-CRC seed of a message id.
#[verifier::external_body]
fn catalog_extra_crc(id: u32) -> (r: u8)
    ensures
        r == catalog_seed(id),
{
    <mavlink::ardupilotmega::MavMessage as mavlink::Message>::extra_crc(id)
}

/// The catalog's extra-CRC seed for `id`, or `None` for an unknown id.
pub open spec fn extra_crc_entry(id: u32) -> Option<u8> {
    if catalog_has(id) {
        Some(catalog_seed(id))
    } else {
        None
    }
}

pub fn get_extra_crc(msgid: u32) -> (r: Option<u8>)
    ensures
        r == extra_crc_entry(msgid),
{
    if catalog_contains(msgid) {
        Some(catalog_extra_crc(msgid))
    } else {
        None
    }
}

/// The six policies of a codec.
pub struct CodecConfig {
    pub accept_v1: bool,
    pub accept_v2: bool,
    pub drop_invalid_sysid: bool,
    pub drop_invalid_compid: bool,
    pub skip_crc_validation: bool,
    pub drop_incompatible: bool,
}

/// What the front of a buffer calls for.
pub enum FrameStep {
    /// The buffer ends before a decision can be made.
    NeedsMore,
    /// The first byte starts no accepted frame; it is dropped silently.
    Skip,
    /// A fully buffered frame failed a check; its STX byte is dropped.
    Reject(DecoderError),
    /// A fully buffered frame of this many bytes passed every check.
    Accept(nat),
}

/// The checksum stage: the outcome for a frame with message id `msgid`,
/// given the catalog entry for it, the checksum it carries and the one
/// computed over its bytes.
pub open spec fn spec_checksum_verdict(
    msgid: u32,
    extra_crc: Option<u8>,
    expected_crc: u16,
    calculated_crc: u16,
) -> Option<DecoderError> {
    match extra_crc {
        None => Some(DecoderError::UnknownMessageID { msgid }),
        Some(_) => if expected_crc == calculated_crc {
            None
        } else {
            Some(DecoderError::InvalidCRC { expected_crc, calculated_crc })
        },
    }
}

/// The first check that the full frame `s` fails, in the order incompatibility
/// flags, system id, component id, checksum; `None` when it passes them all.
pub open spec fn frame_error(cfg: CodecConfig, s: Seq<u8>) -> Option<DecoderError> {
    let off = frame_field_offset(s);
    if s[0] == V2_STX && cfg.drop_incompatible && s[2] & !MAVLINK_SUPPORTED_IFLAGS != 0 {
        Some(DecoderError::Incompatible { incompat_flags: s[2] })
    } else if cfg.drop_invalid_sysid && s[off + 1] == 0 {
        Some(DecoderError::InvalidSystemID { sysid: s[off + 1] })
    } else if cfg.drop_invalid_compid && s[off + 2] == 0 {
        Some(DecoderError::InvalidComponentID { compid: s[off + 2] })
    } else if cfg.skip_crc_validation {
        None
    } else {
        let msgid = frame_message_id(s);
        let entry = extra_crc_entry(msgid);
        spec_checksum_verdict(
            msgid,
            entry,
            frame_checksum(s),
            crc_of(frame_checksum_input(s), entry.unwrap()),
        )
    }
}

/// Whether `b` opens a frame of a version that `cfg` accepts.
pub open spec fn accepted_stx(cfg: CodecConfig, b: u8) -> bool {
    (b == V1_STX && cfg.accept_v1) || (b == V2_STX && cfg.accept_v2)
}

/// The size of the frame that starts `s`, once its header is buffered.
pub open spec fn claimed_size(s: Seq<u8>) -> int {
    if s[0] == V1_STX {
        v1::frame_size(s[1])
    } else {
        v2::frame_size(s[1], s[2])
    }
}

/// How many bytes must be buffered before the size of the frame that starts
/// `s` is known.
pub open spec fn header_need(s: Seq<u8>) -> int {
    if s[0] == V1_STX { 6 } else { 10 }
}

pub open spec fn frame_step(cfg: CodecConfig, s: Seq<u8>) -> FrameStep {
    if s.len() == 0 {
        FrameStep::NeedsMore
    } else if !accepted_stx(cfg, s[0]) {
        FrameStep::Skip
    } else if s.len() < header_need(s) || s.len() < claimed_size(s) {
        FrameStep::NeedsMore
    } else {
        match frame_error(cfg, s.take(claimed_size(s))) {
            Some(e) => FrameStep::Reject(e),
            None => FrameStep::Accept(claimed_size(s) as nat),
        }
    }
}

/// What one call of `decode` on a buffer holding `s` consumes from its front,
/// and what it yields: it drops bytes that start no accepted frame, then
/// yields nothing (more bytes are needed), an error (one byte consumed) or a
/// frame (its bytes consumed).
pub open spec fn decode_outcome(cfg: CodecConfig, s: Seq<u8>) -> (nat, Option<Result<Seq<u8>, DecoderError>>)
    decreases s.len(),
{
    match frame_step(cfg, s) {
        FrameStep::NeedsMore => (0, None),
        FrameStep::Skip => if s.len() > 0 {
            let r = decode_outcome(cfg, s.drop_first());
            (r.0 + 1, r.1)
        } else {
            (0, None)
        },
        FrameStep::Reject(e) => (1, Some(Err(e))),
        FrameStep::Accept(n) => (n, Some(Ok(s.take(n as int)))),
    }
}

/// `r` is what `decode` returns for the outcome `out`.
pub open spec fn yields(r: Option<Result<Packet, DecoderError>>, out: Option<Result<Seq<u8>, DecoderError>>) -> bool {
    match out {
        None => r.is_none(),
        Some(Err(e)) => r == Some(Err::<Packet, DecoderError>(e)),
        Some(Ok(f)) => match r {
            Some(Ok(p)) => p@ == f && p.spec_version() == (if f[0] == V1_STX {
                PacketVersion::V1
            } else {
                PacketVersion::V2
            }),
            _ => false,
        },
    }
}

#[derive(Debug)]
pub enum CodecState {
    WaitingForStx,
    WaitingV1PacketHeader,
    WaitingV2PacketHeader,
    ValidatingV1Packet { packet_size: usize },
    ValidatingV2Packet { packet_size: usize },
    CopyV1Packet { packet_size: usize },
    CopyV2Packet { packet_size: usize },
}

impl Default for CodecState {
    fn default() -> (r: Self)
        ensures
            r == CodecState::WaitingForStx,
    {
        CodecState::WaitingForStx
    }
}

/// What a state says of the buffer it was left with: a state past
/// `WaitingForStx` means the buffer opens with an accepted STX, and records
/// what has been established about the frame it opens.
pub open spec fn state_matches(cfg: CodecConfig, st: CodecState, s: Seq<u8>) -> bool {
    match st {
        CodecState::WaitingForStx => true,
        CodecState::WaitingV1PacketHeader => cfg.accept_v1 && s.len() >= 1 && s[0] == V1_STX,
        CodecState::WaitingV2PacketHeader => cfg.accept_v2 && s.len() >= 1 && s[0] == V2_STX,
        CodecState::ValidatingV1Packet { packet_size } => {
            &&& cfg.accept_v1
            &&& s.len() >= 6
            &&& s[0] == V1_STX
            &&& packet_size == v1::frame_size(s[1])
        },
        CodecState::ValidatingV2Packet { packet_size } => {
            &&& cfg.accept_v2
            &&& s.len() >= 10
            &&& s[0] == V2_STX
            &&& packet_size == v2::frame_size(s[1], s[2])
        },
        CodecState::CopyV1Packet { packet_size } => {
            &&& cfg.accept_v1
            &&& s.len() >= 6
            &&& s[0] == V1_STX
            &&& packet_size == v1::frame_size(s[1])
            &&& s.len() >= packet_size
            &&& frame_error(cfg, s.take(packet_size as int)).is_none()
        },
        CodecState::CopyV2Packet { packet_size } => {
            &&& cfg.accept_v2
            &&& s.len() >= 10
            &&& s[0] == V2_STX
            &&& packet_size == v2::frame_size(s[1], s[2])
            &&& s.len() >= packet_size
            &&& frame_error(cfg, s.take(packet_size as int)).is_none()
        },
    }
}

pub open spec fn state_rank(st: CodecState) -> nat {
    match st {
        CodecState::WaitingForStx => 3,
        CodecState::WaitingV1PacketHeader => 2,
        CodecState::WaitingV2PacketHeader => 2,
        CodecState::ValidatingV1Packet { .. } => 1,
        CodecState::ValidatingV2Packet { .. } => 1,
        _ => 0,
    }
}

/// Bytes appended to a buffer leave its state's claims true: they speak only
/// of the front of the buffer.
pub proof fn lemma_state_extend(cfg: CodecConfig, st: CodecState, s: Seq<u8>, t: Seq<u8>)
    requires
        state_matches(cfg, st, s),
    ensures
        state_matches(cfg, st, s + t),
{
    let u = s + t;
    if s.len() >= 1 {
        assert(u[0] == s[0]);
    }
    if s.len() >= 3 {
        assert(u[1] == s[1]);
        assert(u[2] == s[2]);
    } else if s.len() >= 2 {
        assert(u[1] == s[1]);
    }
    match st {
        CodecState::CopyV1Packet { packet_size } => {
            assert(u.take(packet_size as int) =~= s.take(packet_size as int));
        },
        CodecState::CopyV2Packet { packet_size } => {
            assert(u.take(packet_size as int) =~= s.take(packet_size as int));
        },
        _ => {},
    }
}

/// The checksum stage of validation, given the catalog entry for the frame's
/// message id and the checksum computed over its bytes.
pub fn checksum_verdict(msgid: u32, extra_crc: Option<u8>, expected_crc: u16, calculated_crc: u16) -> (r: Option<DecoderError>)
    ensures
        r == spec_checksum_verdict(msgid, extra_crc, expected_crc, calculated_crc),
{
    match extra_crc {
        None => Some(DecoderError::UnknownMessageID { msgid }),
        Some(_) => if expected_crc == calculated_crc {
            None
        } else {
            Some(DecoderError::InvalidCRC { expected_crc, calculated_crc })
        },
    }
}

/// A codec whose six policies are fixed by its type.
#[derive(Debug)]
pub struct MavlinkCodec<
    const ACCEPT_V1: bool,
    const ACCEPT_V2: bool,
    const DROP_INVALID_SYSID: bool,
    const DROP_INVALID_COMPID: bool,
    const SKIP_CRC_VALIDATION: bool,
    const DROP_INCOMPATIBLE: bool,
> {
    pub state: CodecState,
}

impl<
    const ACCEPT_V1: bool,
    const ACCEPT_V2: bool,
    const DROP_INVALID_SYSID: bool,
    const DROP_INVALID_COMPID: bool,
    const SKIP_CRC_VALIDATION: bool,
    const DROP_INCOMPATIBLE: bool,
> Default for MavlinkCodec<
    ACCEPT_V1,
    ACCEPT_V2,
    DROP_INVALID_SYSID,
    DROP_INVALID_COMPID,
    SKIP_CRC_VALIDATION,
    DROP_INCOMPATIBLE,
> {
    fn default() -> (r: Self)
        ensures
            r.state == CodecState::WaitingForStx,
    {
        MavlinkCodec { state: CodecState::WaitingForStx }
    }
}

impl<
    const ACCEPT_V1: bool,
    const ACCEPT_V2: bool,
    const DROP_INVALID_SYSID: bool,
    const DROP_INVALID_COMPID: bool,
    const SKIP_CRC_VALIDATION: bool,
    const DROP_INCOMPATIBLE: bool,
> MavlinkCodec<
    ACCEPT_V1,
    ACCEPT_V2,
    DROP_INVALID_SYSID,
    DROP_INVALID_COMPID,
    SKIP_CRC_VALIDATION,
    DROP_INCOMPATIBLE,
> {
    pub open spec fn config() -> CodecConfig {
        CodecConfig {
            accept_v1: ACCEPT_V1,
            accept_v2: ACCEPT_V2,
            drop_invalid_sysid: DROP_INVALID_SYSID,
            drop_invalid_compid: DROP_INVALID_COMPID,
            skip_crc_validation: SKIP_CRC_VALIDATION,
            drop_incompatible: DROP_INCOMPATIBLE,
        }
    }

    /// The codec's state agrees with a buffer holding `s`.
    pub open spec fn matches_buffer(&self, s: Seq<u8>) -> bool {
        state_matches(Self::config(), self.state, s)
    }

    pub open spec fn accepts_version(v: PacketVersion) -> bool {
        match v {
            PacketVersion::V1 => ACCEPT_V1,
            PacketVersion::V2 => ACCEPT_V2,
        }
    }

    /// Whether the codec's state agrees with `buf`, which `decode` requires.
    /// A codec in `WaitingForStx` agrees with every buffer.
    pub fn agrees_with(&self, buf: &bytes::BytesMut) -> (r: bool)
        ensures
            r == self.matches_buffer(bytes_mut_view(*buf)),
    {
        let s = bytes_mut_as_slice(buf);
        match self.state {
            CodecState::WaitingForStx => true,
            CodecState::WaitingV1PacketHeader => ACCEPT_V1 && s.len() >= 1 && s[0] == V1_STX,
            CodecState::WaitingV2PacketHeader => ACCEPT_V2 && s.len() >= 1 && s[0] == V2_STX,
            CodecState::ValidatingV1Packet { packet_size } => {
                ACCEPT_V1 && s.len() >= 6 && s[0] == V1_STX && packet_size == v1::packet_size(s)
            },
            CodecState::ValidatingV2Packet { packet_size } => {
                ACCEPT_V2 && s.len() >= 10 && s[0] == V2_STX && packet_size == v2::packet_size(s)
            },
            CodecState::CopyV1Packet { packet_size } => {
                if ACCEPT_V1 && s.len() >= 6 && s[0] == V1_STX && packet_size == v1::packet_size(s)
                    && s.len() >= packet_size {
                    let frame = slice_subrange(s, 0, packet_size);
                    proof { assert(frame@ =~= s@.take(packet_size as int)); }
                    Self::validate(frame).is_none()
                } else {
                    false
                }
            },
            CodecState::CopyV2Packet { packet_size } => {
                if ACCEPT_V2 && s.len() >= 10 && s[0] == V2_STX && packet_size == v2::packet_size(s)
                    && s.len() >= packet_size {
                    let frame = slice_subrange(s, 0, packet_size);
                    proof { assert(frame@ =~= s@.take(packet_size as int)); }
                    Self::validate(frame).is_none()
                } else {
                    false
                }
            },
        }
    }

    /// Runs the checks of a fully buffered frame, in order.
    pub fn validate(frame: &[u8]) -> (r: Option<DecoderError>)
        requires
            v1::is_frame(frame@) || v2::is_frame(frame@),
        ensures
            r == frame_error(Self::config(), frame@),
    {
        let v2_frame = frame[0] == V2_STX;
        let off: usize = if v2_frame { 4 } else { 2 };
        if v2_frame && DROP_INCOMPATIBLE {
            let incompat_flags = frame[2];
            if incompat_flags & !MAVLINK_SUPPORTED_IFLAGS != 0 {
                return Some(DecoderError::Incompatible { incompat_flags });
            }
        }
        if DROP_INVALID_SYSID {
            let sysid = frame[off + 1];
            if sysid == 0 {
                return Some(DecoderError::InvalidSystemID { sysid });
            }
        }
        if DROP_INVALID_COMPID {
            let compid = frame[off + 2];
            if compid == 0 {
                return Some(DecoderError::InvalidComponentID { compid });
            }
        }
        if SKIP_CRC_VALIDATION {
            return None;
        }
        let (msgid, expected_crc, data) = if v2_frame {
            (v2::msgid(frame), v2::checksum(frame), v2::checksum_data(frame))
        } else {
            (*v1::msgid(frame) as u32, v1::checksum(frame), v1::checksum_data(frame))
        };
        let extra_crc = get_extra_crc(msgid);
        match extra_crc {
            None => checksum_verdict(msgid, extra_crc, expected_crc, 0),
            Some(seed) => {
                let calculated_crc = calculate_crc(data, seed);
                checksum_verdict(msgid, extra_crc, expected_crc, calculated_crc)
            },
        }
    }

    /// Decodes from the front of `buf`: drops bytes that start no accepted
    /// frame, then yields `None` when more bytes are needed, an error when a
    /// fully buffered frame fails a check (only its STX byte is consumed), or
    /// the packet of a frame that passes them all (its bytes are consumed).
    pub fn decode(&mut self, buf: &mut bytes::BytesMut) -> (r: Option<Result<Packet, DecoderError>>)
        requires
            old(self).matches_buffer(bytes_mut_view(*old(buf))),
        ensures
            final(self).matches_buffer(bytes_mut_view(*final(buf))),
            ({
                let (k, out) = decode_outcome(Self::config(), bytes_mut_view(*old(buf)));
                &&& k <= bytes_mut_view(*old(buf)).len()
                &&& bytes_mut_view(*final(buf)) == bytes_mut_view(*old(buf)).subrange(
                    k as int,
                    bytes_mut_view(*old(buf)).len() as int,
                )
                &&& yields(r, out)
            }),
    {
        let ghost cfg = Self::config();
        let ghost s0 = bytes_mut_view(*buf);
        let ghost mut dropped: nat = 0;
        loop
            invariant
                cfg == Self::config(),
                s0 == bytes_mut_view(*old(buf)),
                dropped <= s0.len(),
                bytes_mut_view(*buf) == s0.subrange(dropped as int, s0.len() as int),
                state_matches(cfg, self.state, bytes_mut_view(*buf)),
                decode_outcome(cfg, s0) == (
                    dropped + decode_outcome(cfg, bytes_mut_view(*buf)).0,
                    decode_outcome(cfg, bytes_mut_view(*buf)).1,
                ),
            decreases bytes_mut_view(*buf).len(), state_rank(self.state),
        {
            let ghost cur = bytes_mut_view(*buf);
            match self.state {
                CodecState::WaitingForStx => {
                    let s = bytes_mut_as_slice(buf);
                    if s.len() == 0 {
                        proof { assert(frame_step(cfg, cur) == FrameStep::NeedsMore); }
                        return None;
                    }
                    let b = s[0];
                    if b == V1_STX && ACCEPT_V1 {
                        self.state = CodecState::WaitingV1PacketHeader;
                    } else if b == V2_STX && ACCEPT_V2 {
                        self.state = CodecState::WaitingV2PacketHeader;
                    } else {
                        bytes_mut_advance(buf, 1);
                        proof {
                            assert(bytes_mut_view(*buf) =~= cur.drop_first());
                            assert(bytes_mut_view(*buf) =~= s0.subrange(dropped + 1 as int, s0.len() as int));
                            dropped = dropped + 1;
                        }
                    }
                },
                CodecState::WaitingV1PacketHeader => {
                    let s = bytes_mut_as_slice(buf);
                    if s.len() < 6 {
                        proof {
                            assert(header_need(cur) == 6);
                            assert(frame_step(cfg, cur) == FrameStep::NeedsMore);
                        }
                        return None;
                    }
                    let packet_size = v1::packet_size(s);
                    self.state = CodecState::ValidatingV1Packet { packet_size };
                },
                CodecState::WaitingV2PacketHeader => {
                    let s = bytes_mut_as_slice(buf);
                    if s.len() < 10 {
                        proof {
                            assert(header_need(cur) == 10);
                            assert(frame_step(cfg, cur) == FrameStep::NeedsMore);
                        }
                        return None;
                    }
                    let packet_size = v2::packet_size(s);
                    self.state = CodecState::ValidatingV2Packet { packet_size };
                },
                CodecState::ValidatingV1Packet { packet_size } => {
                    let s = bytes_mut_as_slice(buf);
                    if s.len() < packet_size {
                        proof { assert(frame_step(cfg, cur) == FrameStep::NeedsMore); }
                        return None;
                    }
                    let frame = slice_subrange(s, 0, packet_size);
                    match Self::validate(frame) {
                        Some(e) => {
                            bytes_mut_advance(buf, 1);
                            self.state = CodecState::WaitingForStx;
                            return Some(Err(e));
                        },
                        None => {
                            self.state = CodecState::CopyV1Packet { packet_size };
                        },
                    }
                },
                CodecState::ValidatingV2Packet { packet_size } => {
                    let s = bytes_mut_as_slice(buf);
                    if s.len() < packet_size {
                        proof { assert(frame_step(cfg, cur) == FrameStep::NeedsMore); }
                        return None;
                    }
                    let frame = slice_subrange(s, 0, packet_size);
                    match Self::validate(frame) {
                        Some(e) => {
                            bytes_mut_advance(buf, 1);
                            self.state = CodecState::WaitingForStx;
                            return Some(Err(e));
                        },
                        None => {
                            self.state = CodecState::CopyV2Packet { packet_size };
                        },
                    }
                },
                CodecState::CopyV1Packet { packet_size } => {
                    let frame = bytes_mut_freeze(bytes_mut_split_to(buf, packet_size));
                    proof {
                        assert(cur.take(packet_size as int) =~= cur.subrange(0, packet_size as int));
                        assert(frame_step(cfg, cur) == FrameStep::Accept(packet_size as nat));
                        assert(bytes_mut_view(*buf) =~= s0.subrange(dropped + packet_size, s0.len() as int));
                    }
                    self.state = CodecState::WaitingForStx;
                    return Some(Ok(Packet::V1(V1Packet::new(frame))));
                },
                CodecState::CopyV2Packet { packet_size } => {
                    let frame = bytes_mut_freeze(bytes_mut_split_to(buf, packet_size));
                    proof {
                        assert(cur.take(packet_size as int) =~= cur.subrange(0, packet_size as int));
                        assert(frame_step(cfg, cur) == FrameStep::Accept(packet_size as nat));
                        assert(bytes_mut_view(*buf) =~= s0.subrange(dropped + packet_size, s0.len() as int));
                    }
                    self.state = CodecState::WaitingForStx;
                    return Some(Ok(Packet::V2(V2Packet::new(frame))));
                },
            }
        }
    }

    /// Appends the bytes of `packet` to `buf` when the codec accepts its
    /// version; otherwise fails and leaves `buf` as it was.
    pub fn encode(&mut self, packet: Packet, buf: &mut bytes::BytesMut) -> (r: Result<(), std::io::Error>)
        ensures
            final(self).state == old(self).state,
            r.is_ok() <==> Self::accepts_version(packet.spec_version()),
            r.is_ok() ==> bytes_mut_view(*final(buf)) == bytes_mut_view(*old(buf)) + packet@,
            r.is_err() ==> bytes_mut_view(*final(buf)) == bytes_mut_view(*old(buf)),
    {
        let accepted = match packet {
            Packet::V1(_) => ACCEPT_V1,
            Packet::V2(_) => ACCEPT_V2,
        };
        if !accepted {
            return Err(unsupported_version_error());
        }
        bytes_mut_extend(buf, packet.as_slice());
        Ok(())
    }
}

} // verus!
