//! RC_CHANNELS (id 65): raw values of up to 18 radio-control channels.
//! Payload: `time_boot_ms: u32 | chan1_raw..chan18_raw: u16 | chancount: u8 | rssi: u8`.
use vstd::prelude::*;

use crate::buffers::{bytes_as_slice, bytes_clone, bytes_from_vec, bytes_view};
use crate::mav_types::payload::{
    byte_or_zero, push_u16, push_u32, read_u16, read_u32, read_u8, u16_at, u16_bytes, u32_at,
    u32_bytes,
};

verus! {

/// An RC_CHANNELS body over a shared payload buffer; fields are read on demand.
#[derive(PartialEq, Eq, PartialOrd, Ord, Hash, Debug)]
pub struct RcChannelsMessage {
    pub(crate) buffer: bytes::Bytes,
}

#[derive(Debug, Clone, Copy, PartialEq, Eq, Structural)]
pub struct RcChannelsMessageSemanticModel {
    pub time_boot_ms: u32,
    pub chan1_raw: u16,
    pub chan2_raw: u16,
    pub chan3_raw: u16,
    pub chan4_raw: u16,
    pub chan5_raw: u16,
    pub chan6_raw: u16,
    pub chan7_raw: u16,
    pub chan8_raw: u16,
    pub chan9_raw: u16,
    pub chan10_raw: u16,
    pub chan11_raw: u16,
    pub chan12_raw: u16,
    pub chan13_raw: u16,
    pub chan14_raw: u16,
    pub chan15_raw: u16,
    pub chan16_raw: u16,
    pub chan17_raw: u16,
    pub chan18_raw: u16,
    pub chancount: u8,
    pub rssi: u8,
}

/// The fields of an RC_CHANNELS payload.
pub open spec fn spec_rc_channels_fields(p: Seq<u8>) -> RcChannelsMessageSemanticModel {
    RcChannelsMessageSemanticModel {
        time_boot_ms: u32_at(p, 0),
        chan1_raw: u16_at(p, 4),
        chan2_raw: u16_at(p, 6),
        chan3_raw: u16_at(p, 8),
        chan4_raw: u16_at(p, 10),
        chan5_raw: u16_at(p, 12),
        chan6_raw: u16_at(p, 14),
        chan7_raw: u16_at(p, 16),
        chan8_raw: u16_at(p, 18),
        chan9_raw: u16_at(p, 20),
        chan10_raw: u16_at(p, 22),
        chan11_raw: u16_at(p, 24),
        chan12_raw: u16_at(p, 26),
        chan13_raw: u16_at(p, 28),
        chan14_raw: u16_at(p, 30),
        chan15_raw: u16_at(p, 32),
        chan16_raw: u16_at(p, 34),
        chan17_raw: u16_at(p, 36),
        chan18_raw: u16_at(p, 38),
        chancount: byte_or_zero(p, 40),
        rssi: byte_or_zero(p, 41),
    }
}

/// The RC_CHANNELS payload that holds the fields of `m`.
pub open spec fn spec_rc_channels_payload(m: RcChannelsMessageSemanticModel) -> Seq<u8> {
    u32_bytes(m.time_boot_ms)
        + u16_bytes(m.chan1_raw)
        + u16_bytes(m.chan2_raw)
        + u16_bytes(m.chan3_raw)
        + u16_bytes(m.chan4_raw)
        + u16_bytes(m.chan5_raw)
        + u16_bytes(m.chan6_raw)
        + u16_bytes(m.chan7_raw)
        + u16_bytes(m.chan8_raw)
        + u16_bytes(m.chan9_raw)
        + u16_bytes(m.chan10_raw)
        + u16_bytes(m.chan11_raw)
        + u16_bytes(m.chan12_raw)
        + u16_bytes(m.chan13_raw)
        + u16_bytes(m.chan14_raw)
        + u16_bytes(m.chan15_raw)
        + u16_bytes(m.chan16_raw)
        + u16_bytes(m.chan17_raw)
        + u16_bytes(m.chan18_raw)
        + seq![m.chancount, m.rssi]
}

impl View for RcChannelsMessage {
    type V = Seq<u8>;

    closed spec fn view(&self) -> Seq<u8> {
        bytes_view(self.buffer)
    }
}

impl Clone for RcChannelsMessage {
    fn clone(&self) -> (r: Self)
        ensures
            r@ == self@,
    {
        RcChannelsMessage { buffer: bytes_clone(&self.buffer) }
    }
}

impl RcChannelsMessage {
    pub const ID: u32 = 65;
    pub const LEN: u16 = 42;
    pub const CRC: u8 = 118;

    pub fn new(bytes: bytes::Bytes) -> (r: Self)
        ensures
            r@ == bytes_view(bytes),
    {
        RcChannelsMessage { buffer: bytes }
    }

    pub fn bytes(&self) -> (r: &bytes::Bytes)
        ensures
            bytes_view(*r) == self@,
    {
        &self.buffer
    }

    pub fn as_slice(&self) -> (r: &[u8])
        ensures
            r@ == self@,
    {
        bytes_as_slice(&self.buffer)
    }

    pub fn time_boot_ms(&self) -> (r: u32)
        ensures
            r == spec_rc_channels_fields(self@).time_boot_ms,
    {
        read_u32(self.as_slice(), 0)
    }

    pub fn chan1_raw(&self) -> (r: u16)
        ensures
            r == spec_rc_channels_fields(self@).chan1_raw,
    {
        read_u16(self.as_slice(), 4)
    }

    pub fn chan2_raw(&self) -> (r: u16)
        ensures
            r == spec_rc_channels_fields(self@).chan2_raw,
    {
        read_u16(self.as_slice(), 6)
    }

    pub fn chan3_raw(&self) -> (r: u16)
        ensures
            r == spec_rc_channels_fields(self@).chan3_raw,
    {
        read_u16(self.as_slice(), 8)
    }

    pub fn chan4_raw(&self) -> (r: u16)
        ensures
            r == spec_rc_channels_fields(self@).chan4_raw,
    {
        read_u16(self.as_slice(), 10)
    }

    pub fn chan5_raw(&self) -> (r: u16)
        ensures
            r == spec_rc_channels_fields(self@).chan5_raw,
    {
        read_u16(self.as_slice(), 12)
    }

    pub fn chan6_raw(&self) -> (r: u16)
        ensures
            r == spec_rc_channels_fields(self@).chan6_raw,
    {
        read_u16(self.as_slice(), 14)
    }

    pub fn chan7_raw(&self) -> (r: u16)
        ensures
            r == spec_rc_channels_fields(self@).chan7_raw,
    {
        read_u16(self.as_slice(), 16)
    }

    pub fn chan8_raw(&self) -> (r: u16)
        ensures
            r == spec_rc_channels_fields(self@).chan8_raw,
    {
        read_u16(self.as_slice(), 18)
    }

    pub fn chan9_raw(&self) -> (r: u16)
        ensures
            r == spec_rc_channels_fields(self@).chan9_raw,
    {
        read_u16(self.as_slice(), 20)
    }

    pub fn chan10_raw(&self) -> (r: u16)
        ensures
            r == spec_rc_channels_fields(self@).chan10_raw,
    {
        read_u16(self.as_slice(), 22)
    }

    pub fn chan11_raw(&self) -> (r: u16)
        ensures
            r == spec_rc_channels_fields(self@).chan11_raw,
    {
        read_u16(self.as_slice(), 24)
    }

    pub fn chan12_raw(&self) -> (r: u16)
        ensures
            r == spec_rc_channels_fields(self@).chan12_raw,
    {
        read_u16(self.as_slice(), 26)
    }

    pub fn chan13_raw(&self) -> (r: u16)
        ensures
            r == spec_rc_channels_fields(self@).chan13_raw,
    {
        read_u16(self.as_slice(), 28)
    }

    pub fn chan14_raw(&self) -> (r: u16)
        ensures
            r == spec_rc_channels_fields(self@).chan14_raw,
    {
        read_u16(self.as_slice(), 30)
    }

    pub fn chan15_raw(&self) -> (r: u16)
        ensures
            r == spec_rc_channels_fields(self@).chan15_raw,
    {
        read_u16(self.as_slice(), 32)
    }

    pub fn chan16_raw(&self) -> (r: u16)
        ensures
            r == spec_rc_channels_fields(self@).chan16_raw,
    {
        read_u16(self.as_slice(), 34)
    }

    pub fn chan17_raw(&self) -> (r: u16)
        ensures
            r == spec_rc_channels_fields(self@).chan17_raw,
    {
        read_u16(self.as_slice(), 36)
    }

    pub fn chan18_raw(&self) -> (r: u16)
        ensures
            r == spec_rc_channels_fields(self@).chan18_raw,
    {
        read_u16(self.as_slice(), 38)
    }

    pub fn chancount(&self) -> (r: u8)
        ensures
            r == spec_rc_channels_fields(self@).chancount,
    {
        read_u8(self.as_slice(), 40)
    }

    pub fn rssi(&self) -> (r: u8)
        ensures
            r == spec_rc_channels_fields(self@).rssi,
    {
        read_u8(self.as_slice(), 41)
    }

    /// The payload that holds the fields of `model`, in schema order.
    pub fn from_model(model: &RcChannelsMessageSemanticModel) -> (r: Self)
        ensures
            r@ == spec_rc_channels_payload(*model),
    {
        let mut v: Vec<u8> = Vec::new();
        push_u32(&mut v, model.time_boot_ms);
        push_u16(&mut v, model.chan1_raw);
        push_u16(&mut v, model.chan2_raw);
        push_u16(&mut v, model.chan3_raw);
        push_u16(&mut v, model.chan4_raw);
        push_u16(&mut v, model.chan5_raw);
        push_u16(&mut v, model.chan6_raw);
        push_u16(&mut v, model.chan7_raw);
        push_u16(&mut v, model.chan8_raw);
        push_u16(&mut v, model.chan9_raw);
        push_u16(&mut v, model.chan10_raw);
        push_u16(&mut v, model.chan11_raw);
        push_u16(&mut v, model.chan12_raw);
        push_u16(&mut v, model.chan13_raw);
        push_u16(&mut v, model.chan14_raw);
        push_u16(&mut v, model.chan15_raw);
        push_u16(&mut v, model.chan16_raw);
        push_u16(&mut v, model.chan17_raw);
        push_u16(&mut v, model.chan18_raw);
        v.push(model.chancount);
        v.push(model.rssi);
        assert(v@ =~= spec_rc_channels_payload(*model));
        RcChannelsMessage { buffer: bytes_from_vec(v) }
    }
}

impl RcChannelsMessageSemanticModel {
    pub fn from_message(message: &RcChannelsMessage) -> (r: Self)
        ensures
            r == spec_rc_channels_fields(message@),
    {
        RcChannelsMessageSemanticModel {
            time_boot_ms: message.time_boot_ms(),
            chan1_raw: message.chan1_raw(),
            chan2_raw: message.chan2_raw(),
            chan3_raw: message.chan3_raw(),
            chan4_raw: message.chan4_raw(),
            chan5_raw: message.chan5_raw(),
            chan6_raw: message.chan6_raw(),
            chan7_raw: message.chan7_raw(),
            chan8_raw: message.chan8_raw(),
            chan9_raw: message.chan9_raw(),
            chan10_raw: message.chan10_raw(),
            chan11_raw: message.chan11_raw(),
            chan12_raw: message.chan12_raw(),
            chan13_raw: message.chan13_raw(),
            chan14_raw: message.chan14_raw(),
            chan15_raw: message.chan15_raw(),
            chan16_raw: message.chan16_raw(),
            chan17_raw: message.chan17_raw(),
            chan18_raw: message.chan18_raw(),
            chancount: message.chancount(),
            rssi: message.rssi(),
        }
    }
}

/// Writing a record's fields to a payload and reading them back gives the record.
pub proof fn lemma_rc_channels_round_trip(m: RcChannelsMessageSemanticModel)
    ensures
        spec_rc_channels_fields(spec_rc_channels_payload(m)) == m,
        spec_rc_channels_payload(m).len() == RcChannelsMessage::LEN,
{
    crate::mav_types::payload::lemma_u32_round_trip(m.time_boot_ms);
    let p = spec_rc_channels_payload(m);
    assert(p.len() == 42);
    assert(u32_at(p, 0) == m.time_boot_ms);
    assert(p[4] == u16_bytes(m.chan1_raw)[0] && p[5] == u16_bytes(m.chan1_raw)[1]);
    assert(u16_at(p, 4) == m.chan1_raw);
    assert(p[6] == u16_bytes(m.chan2_raw)[0] && p[7] == u16_bytes(m.chan2_raw)[1]);
    assert(u16_at(p, 6) == m.chan2_raw);
    assert(p[8] == u16_bytes(m.chan3_raw)[0] && p[9] == u16_bytes(m.chan3_raw)[1]);
    assert(u16_at(p, 8) == m.chan3_raw);
    assert(p[10] == u16_bytes(m.chan4_raw)[0] && p[11] == u16_bytes(m.chan4_raw)[1]);
    assert(u16_at(p, 10) == m.chan4_raw);
    assert(p[12] == u16_bytes(m.chan5_raw)[0] && p[13] == u16_bytes(m.chan5_raw)[1]);
    assert(u16_at(p, 12) == m.chan5_raw);
    assert(p[14] == u16_bytes(m.chan6_raw)[0] && p[15] == u16_bytes(m.chan6_raw)[1]);
    assert(u16_at(p, 14) == m.chan6_raw);
    assert(p[16] == u16_bytes(m.chan7_raw)[0] && p[17] == u16_bytes(m.chan7_raw)[1]);
    assert(u16_at(p, 16) == m.chan7_raw);
    assert(p[18] == u16_bytes(m.chan8_raw)[0] && p[19] == u16_bytes(m.chan8_raw)[1]);
    assert(u16_at(p, 18) == m.chan8_raw);
    assert(p[20] == u16_bytes(m.chan9_raw)[0] && p[21] == u16_bytes(m.chan9_raw)[1]);
    assert(u16_at(p, 20) == m.chan9_raw);
    assert(p[22] == u16_bytes(m.chan10_raw)[0] && p[23] == u16_bytes(m.chan10_raw)[1]);
    assert(u16_at(p, 22) == m.chan10_raw);
    assert(p[24] == u16_bytes(m.chan11_raw)[0] && p[25] == u16_bytes(m.chan11_raw)[1]);
    assert(u16_at(p, 24) == m.chan11_raw);
    assert(p[26] == u16_bytes(m.chan12_raw)[0] && p[27] == u16_bytes(m.chan12_raw)[1]);
    assert(u16_at(p, 26) == m.chan12_raw);
    assert(p[28] == u16_bytes(m.chan13_raw)[0] && p[29] == u16_bytes(m.chan13_raw)[1]);
    assert(u16_at(p, 28) == m.chan13_raw);
    assert(p[30] == u16_bytes(m.chan14_raw)[0] && p[31] == u16_bytes(m.chan14_raw)[1]);
    assert(u16_at(p, 30) == m.chan14_raw);
    assert(p[32] == u16_bytes(m.chan15_raw)[0] && p[33] == u16_bytes(m.chan15_raw)[1]);
    assert(u16_at(p, 32) == m.chan15_raw);
    assert(p[34] == u16_bytes(m.chan16_raw)[0] && p[35] == u16_bytes(m.chan16_raw)[1]);
    assert(u16_at(p, 34) == m.chan16_raw);
    assert(p[36] == u16_bytes(m.chan17_raw)[0] && p[37] == u16_bytes(m.chan17_raw)[1]);
    assert(u16_at(p, 36) == m.chan17_raw);
    assert(p[38] == u16_bytes(m.chan18_raw)[0] && p[39] == u16_bytes(m.chan18_raw)[1]);
    assert(u16_at(p, 38) == m.chan18_raw);
    assert(p[40] == m.chancount);
    assert(p[41] == m.rssi);
}

} // verus!
