//! Hardware-in-the-loop, vision and optical-flow messages (messages 90 to 115).

use crate::mavlink::Parsable;
use crate::wire::{
    Ieee32, array_of, get_i16, get_i32, get_i64, get_u16, get_u32, get_u32s, get_u64, get_u8,
    get_u8s, le16, le32, le32s, le64, le8, lemma_read_i16, lemma_read_i32, lemma_read_i64,
    lemma_read_u16, lemma_read_u32, lemma_read_u32s, lemma_read_u64, lemma_read_u8,
    lemma_read_u8s, lemma_whole, put_i16, put_i32, put_i64, put_u16, put_u32, put_u32s, put_u64,
    put_u8, put_u8s, u16_at, u32_at, u32s_at, u64_at, u8s_at,
};
use vstd::prelude::*;

verus! {

/// `HIL_STATE`, message 90: 56 payload bytes.
#[allow(non_camel_case_types)]
#[derive(Clone, Copy, Debug, PartialEq, Eq)]
pub struct HIL_STATE_DATA {
    pub time_usec: u64,
    pub roll: Ieee32,
    pub pitch: Ieee32,
    pub yaw: Ieee32,
    pub rollspeed: Ieee32,
    pub pitchspeed: Ieee32,
    pub yawspeed: Ieee32,
    pub lat: i32,
    pub lon: i32,
    pub alt: i32,
    pub vx: i16,
    pub vy: i16,
    pub vz: i16,
    pub xacc: i16,
    pub yacc: i16,
    pub zacc: i16,
}

impl Parsable for HIL_STATE_DATA {
    open spec fn wire_len() -> nat {
        56
    }

    open spec fn spec_parse(p: Seq<u8>) -> HIL_STATE_DATA {
        HIL_STATE_DATA {
            time_usec: u64_at(p, 0),
            roll: u32_at(p, 8),
            pitch: u32_at(p, 12),
            yaw: u32_at(p, 16),
            rollspeed: u32_at(p, 20),
            pitchspeed: u32_at(p, 24),
            yawspeed: u32_at(p, 28),
            lat: u32_at(p, 32) as i32,
            lon: u32_at(p, 36) as i32,
            alt: u32_at(p, 40) as i32,
            vx: u16_at(p, 44) as i16,
            vy: u16_at(p, 46) as i16,
            vz: u16_at(p, 48) as i16,
            xacc: u16_at(p, 50) as i16,
            yacc: u16_at(p, 52) as i16,
            zacc: u16_at(p, 54) as i16,
        }
    }

    open spec fn spec_serialize(&self) -> Seq<u8> {
        le64(self.time_usec) + le32(self.roll) + le32(self.pitch) + le32(self.yaw)
            + le32(self.rollspeed) + le32(self.pitchspeed) + le32(self.yawspeed)
            + le32(self.lat as u32) + le32(self.lon as u32) + le32(self.alt as u32)
            + le16(self.vx as u16) + le16(self.vy as u16) + le16(self.vz as u16)
            + le16(self.xacc as u16) + le16(self.yacc as u16) + le16(self.zacc as u16)
    }

    fn parse(payload: &[u8]) -> HIL_STATE_DATA {
        HIL_STATE_DATA {
            time_usec: get_u64(payload, 0),
            roll: get_u32(payload, 8),
            pitch: get_u32(payload, 12),
            yaw: get_u32(payload, 16),
            rollspeed: get_u32(payload, 20),
            pitchspeed: get_u32(payload, 24),
            yawspeed: get_u32(payload, 28),
            lat: get_i32(payload, 32),
            lon: get_i32(payload, 36),
            alt: get_i32(payload, 40),
            vx: get_i16(payload, 44),
            vy: get_i16(payload, 46),
            vz: get_i16(payload, 48),
            xacc: get_i16(payload, 50),
            yacc: get_i16(payload, 52),
            zacc: get_i16(payload, 54),
        }
    }

    fn serialize(&self) -> Vec<u8> {
        let mut wtr = Vec::new();
        put_u64(&mut wtr, self.time_usec);
        assert(wtr@ =~= le64(self.time_usec));
        put_u32(&mut wtr, self.roll);
        put_u32(&mut wtr, self.pitch);
        put_u32(&mut wtr, self.yaw);
        put_u32(&mut wtr, self.rollspeed);
        put_u32(&mut wtr, self.pitchspeed);
        put_u32(&mut wtr, self.yawspeed);
        put_i32(&mut wtr, self.lat);
        put_i32(&mut wtr, self.lon);
        put_i32(&mut wtr, self.alt);
        put_i16(&mut wtr, self.vx);
        put_i16(&mut wtr, self.vy);
        put_i16(&mut wtr, self.vz);
        put_i16(&mut wtr, self.xacc);
        put_i16(&mut wtr, self.yacc);
        put_i16(&mut wtr, self.zacc);
        wtr
    }

    proof fn lemma_roundtrip(&self) {
        let w = self.spec_serialize();
        let w0 = le64(self.time_usec);
        let w1 = w0 + le32(self.roll);
        let w2 = w1 + le32(self.pitch);
        let w3 = w2 + le32(self.yaw);
        let w4 = w3 + le32(self.rollspeed);
        let w5 = w4 + le32(self.pitchspeed);
        let w6 = w5 + le32(self.yawspeed);
        let w7 = w6 + le32(self.lat as u32);
        let w8 = w7 + le32(self.lon as u32);
        let w9 = w8 + le32(self.alt as u32);
        let w10 = w9 + le16(self.vx as u16);
        let w11 = w10 + le16(self.vy as u16);
        let w12 = w11 + le16(self.vz as u16);
        let w13 = w12 + le16(self.xacc as u16);
        let w14 = w13 + le16(self.yacc as u16);
        lemma_whole(w, le64(self.time_usec));
        lemma_read_i16(w, w14, self.zacc);
        lemma_read_i16(w, w13, self.yacc);
        lemma_read_i16(w, w12, self.xacc);
        lemma_read_i16(w, w11, self.vz);
        lemma_read_i16(w, w10, self.vy);
        lemma_read_i16(w, w9, self.vx);
        lemma_read_i32(w, w8, self.alt);
        lemma_read_i32(w, w7, self.lon);
        lemma_read_i32(w, w6, self.lat);
        lemma_read_u32(w, w5, self.yawspeed);
        lemma_read_u32(w, w4, self.pitchspeed);
        lemma_read_u32(w, w3, self.rollspeed);
        lemma_read_u32(w, w2, self.yaw);
        lemma_read_u32(w, w1, self.pitch);
        lemma_read_u32(w, w0, self.roll);
        lemma_read_u64(w, Seq::empty(), self.time_usec);
    }
}

/// `HIL_CONTROLS`, message 91: 42 payload bytes.
#[allow(non_camel_case_types)]
#[derive(Clone, Copy, Debug, PartialEq, Eq)]
pub struct HIL_CONTROLS_DATA {
    pub time_usec: u64,
    pub roll_ailerons: Ieee32,
    pub pitch_elevator: Ieee32,
    pub yaw_rudder: Ieee32,
    pub throttle: Ieee32,
    pub aux1: Ieee32,
    pub aux2: Ieee32,
    pub aux3: Ieee32,
    pub aux4: Ieee32,
    pub mode: u8,
    pub nav_mode: u8,
}

impl Parsable for HIL_CONTROLS_DATA {
    open spec fn wire_len() -> nat {
        42
    }

    open spec fn spec_parse(p: Seq<u8>) -> HIL_CONTROLS_DATA {
        HIL_CONTROLS_DATA {
            time_usec: u64_at(p, 0),
            roll_ailerons: u32_at(p, 8),
            pitch_elevator: u32_at(p, 12),
            yaw_rudder: u32_at(p, 16),
            throttle: u32_at(p, 20),
            aux1: u32_at(p, 24),
            aux2: u32_at(p, 28),
            aux3: u32_at(p, 32),
            aux4: u32_at(p, 36),
            mode: p[40],
            nav_mode: p[41],
        }
    }

    open spec fn spec_serialize(&self) -> Seq<u8> {
        le64(self.time_usec) + le32(self.roll_ailerons) + le32(self.pitch_elevator)
            + le32(self.yaw_rudder) + le32(self.throttle) + le32(self.aux1) + le32(self.aux2)
            + le32(self.aux3) + le32(self.aux4) + le8(self.mode) + le8(self.nav_mode)
    }

    fn parse(payload: &[u8]) -> HIL_CONTROLS_DATA {
        HIL_CONTROLS_DATA {
            time_usec: get_u64(payload, 0),
            roll_ailerons: get_u32(payload, 8),
            pitch_elevator: get_u32(payload, 12),
            yaw_rudder: get_u32(payload, 16),
            throttle: get_u32(payload, 20),
            aux1: get_u32(payload, 24),
            aux2: get_u32(payload, 28),
            aux3: get_u32(payload, 32),
            aux4: get_u32(payload, 36),
            mode: get_u8(payload, 40),
            nav_mode: get_u8(payload, 41),
        }
    }

    fn serialize(&self) -> Vec<u8> {
        let mut wtr = Vec::new();
        put_u64(&mut wtr, self.time_usec);
        assert(wtr@ =~= le64(self.time_usec));
        put_u32(&mut wtr, self.roll_ailerons);
        put_u32(&mut wtr, self.pitch_elevator);
        put_u32(&mut wtr, self.yaw_rudder);
        put_u32(&mut wtr, self.throttle);
        put_u32(&mut wtr, self.aux1);
        put_u32(&mut wtr, self.aux2);
        put_u32(&mut wtr, self.aux3);
        put_u32(&mut wtr, self.aux4);
        put_u8(&mut wtr, self.mode);
        put_u8(&mut wtr, self.nav_mode);
        wtr
    }

    proof fn lemma_roundtrip(&self) {
        let w = self.spec_serialize();
        let w0 = le64(self.time_usec);
        let w1 = w0 + le32(self.roll_ailerons);
        let w2 = w1 + le32(self.pitch_elevator);
        let w3 = w2 + le32(self.yaw_rudder);
        let w4 = w3 + le32(self.throttle);
        let w5 = w4 + le32(self.aux1);
        let w6 = w5 + le32(self.aux2);
        let w7 = w6 + le32(self.aux3);
        let w8 = w7 + le32(self.aux4);
        let w9 = w8 + le8(self.mode);
        lemma_whole(w, le64(self.time_usec));
        lemma_read_u8(w, w9, self.nav_mode);
        lemma_read_u8(w, w8, self.mode);
        lemma_read_u32(w, w7, self.aux4);
        lemma_read_u32(w, w6, self.aux3);
        lemma_read_u32(w, w5, self.aux2);
        lemma_read_u32(w, w4, self.aux1);
        lemma_read_u32(w, w3, self.throttle);
        lemma_read_u32(w, w2, self.yaw_rudder);
        lemma_read_u32(w, w1, self.pitch_elevator);
        lemma_read_u32(w, w0, self.roll_ailerons);
        lemma_read_u64(w, Seq::empty(), self.time_usec);
    }
}

/// `HIL_RC_INPUTS_RAW`, message 92: 33 payload bytes.
#[allow(non_camel_case_types)]
#[derive(Clone, Copy, Debug, PartialEq, Eq)]
pub struct HIL_RC_INPUTS_RAW_DATA {
    pub time_usec: u64,
    pub chan1_raw: u16,
    pub chan2_raw: u16,
    pub chan3_raw: u16,
    pub chan4_raw: u16,
    pub chan5_raw: u16,
    pub chan6_raw: u16,
    pub chan7_raw: u16,
    pub chan8_raw: u16,
    pub chan9_raw: u16,
    pub chan10_raw: u16,
    pub chan11_raw: u16,
    pub chan12_raw: u16,
    pub rssi: u8,
}

impl Parsable for HIL_RC_INPUTS_RAW_DATA {
    open spec fn wire_len() -> nat {
        33
    }

    open spec fn spec_parse(p: Seq<u8>) -> HIL_RC_INPUTS_RAW_DATA {
        HIL_RC_INPUTS_RAW_DATA {
            time_usec: u64_at(p, 0),
            chan1_raw: u16_at(p, 8),
            chan2_raw: u16_at(p, 10),
            chan3_raw: u16_at(p, 12),
            chan4_raw: u16_at(p, 14),
            chan5_raw: u16_at(p, 16),
            chan6_raw: u16_at(p, 18),
            chan7_raw: u16_at(p, 20),
            chan8_raw: u16_at(p, 22),
            chan9_raw: u16_at(p, 24),
            chan10_raw: u16_at(p, 26),
            chan11_raw: u16_at(p, 28),
            chan12_raw: u16_at(p, 30),
            rssi: p[32],
        }
    }

    open spec fn spec_serialize(&self) -> Seq<u8> {
        le64(self.time_usec) + le16(self.chan1_raw) + le16(self.chan2_raw)
            + le16(self.chan3_raw) + le16(self.chan4_raw) + le16(self.chan5_raw)
            + le16(self.chan6_raw) + le16(self.chan7_raw) + le16(self.chan8_raw)
            + le16(self.chan9_raw) + le16(self.chan10_raw) + le16(self.chan11_raw)
            + le16(self.chan12_raw) + le8(self.rssi)
    }

    fn parse(payload: &[u8]) -> HIL_RC_INPUTS_RAW_DATA {
        HIL_RC_INPUTS_RAW_DATA {
            time_usec: get_u64(payload, 0),
            chan1_raw: get_u16(payload, 8),
            chan2_raw: get_u16(payload, 10),
            chan3_raw: get_u16(payload, 12),
            chan4_raw: get_u16(payload, 14),
            chan5_raw: get_u16(payload, 16),
            chan6_raw: get_u16(payload, 18),
            chan7_raw: get_u16(payload, 20),
            chan8_raw: get_u16(payload, 22),
            chan9_raw: get_u16(payload, 24),
            chan10_raw: get_u16(payload, 26),
            chan11_raw: get_u16(payload, 28),
            chan12_raw: get_u16(payload, 30),
            rssi: get_u8(payload, 32),
        }
    }

    fn serialize(&self) -> Vec<u8> {
        let mut wtr = Vec::new();
        put_u64(&mut wtr, self.time_usec);
        assert(wtr@ =~= le64(self.time_usec));
        put_u16(&mut wtr, self.chan1_raw);
        put_u16(&mut wtr, self.chan2_raw);
        put_u16(&mut wtr, self.chan3_raw);
        put_u16(&mut wtr, self.chan4_raw);
        put_u16(&mut wtr, self.chan5_raw);
        put_u16(&mut wtr, self.chan6_raw);
        put_u16(&mut wtr, self.chan7_raw);
        put_u16(&mut wtr, self.chan8_raw);
        put_u16(&mut wtr, self.chan9_raw);
        put_u16(&mut wtr, self.chan10_raw);
        put_u16(&mut wtr, self.chan11_raw);
        put_u16(&mut wtr, self.chan12_raw);
        put_u8(&mut wtr, self.rssi);
        wtr
    }

    proof fn lemma_roundtrip(&self) {
        let w = self.spec_serialize();
        let w0 = le64(self.time_usec);
        let w1 = w0 + le16(self.chan1_raw);
        let w2 = w1 + le16(self.chan2_raw);
        let w3 = w2 + le16(self.chan3_raw);
        let w4 = w3 + le16(self.chan4_raw);
        let w5 = w4 + le16(self.chan5_raw);
        let w6 = w5 + le16(self.chan6_raw);
        let w7 = w6 + le16(self.chan7_raw);
        let w8 = w7 + le16(self.chan8_raw);
        let w9 = w8 + le16(self.chan9_raw);
        let w10 = w9 + le16(self.chan10_raw);
        let w11 = w10 + le16(self.chan11_raw);
        let w12 = w11 + le16(self.chan12_raw);
        lemma_whole(w, le64(self.time_usec));
        lemma_read_u8(w, w12, self.rssi);
        lemma_read_u16(w, w11, self.chan12_raw);
        lemma_read_u16(w, w10, self.chan11_raw);
        lemma_read_u16(w, w9, self.chan10_raw);
        lemma_read_u16(w, w8, self.chan9_raw);
        lemma_read_u16(w, w7, self.chan8_raw);
        lemma_read_u16(w, w6, self.chan7_raw);
        lemma_read_u16(w, w5, self.chan6_raw);
        lemma_read_u16(w, w4, self.chan5_raw);
        lemma_read_u16(w, w3, self.chan4_raw);
        lemma_read_u16(w, w2, self.chan3_raw);
        lemma_read_u16(w, w1, self.chan2_raw);
        lemma_read_u16(w, w0, self.chan1_raw);
        lemma_read_u64(w, Seq::empty(), self.time_usec);
    }
}

/// `OPTICAL_FLOW`, message 100: 26 payload bytes.
#[allow(non_camel_case_types)]
#[derive(Clone, Copy, Debug, PartialEq, Eq)]
pub struct OPTICAL_FLOW_DATA {
    pub time_usec: u64,
    pub flow_comp_m_x: Ieee32,
    pub flow_comp_m_y: Ieee32,
    pub ground_distance: Ieee32,
    pub flow_x: i16,
    pub flow_y: i16,
    pub sensor_id: u8,
    pub quality: u8,
}

impl Parsable for OPTICAL_FLOW_DATA {
    open spec fn wire_len() -> nat {
        26
    }

    open spec fn spec_parse(p: Seq<u8>) -> OPTICAL_FLOW_DATA {
        OPTICAL_FLOW_DATA {
            time_usec: u64_at(p, 0),
            flow_comp_m_x: u32_at(p, 8),
            flow_comp_m_y: u32_at(p, 12),
            ground_distance: u32_at(p, 16),
            flow_x: u16_at(p, 20) as i16,
            flow_y: u16_at(p, 22) as i16,
            sensor_id: p[24],
            quality: p[25],
        }
    }

    open spec fn spec_serialize(&self) -> Seq<u8> {
        le64(self.time_usec) + le32(self.flow_comp_m_x) + le32(self.flow_comp_m_y)
            + le32(self.ground_distance) + le16(self.flow_x as u16) + le16(self.flow_y as u16)
            + le8(self.sensor_id) + le8(self.quality)
    }

    fn parse(payload: &[u8]) -> OPTICAL_FLOW_DATA {
        OPTICAL_FLOW_DATA {
            time_usec: get_u64(payload, 0),
            flow_comp_m_x: get_u32(payload, 8),
            flow_comp_m_y: get_u32(payload, 12),
            ground_distance: get_u32(payload, 16),
            flow_x: get_i16(payload, 20),
            flow_y: get_i16(payload, 22),
            sensor_id: get_u8(payload, 24),
            quality: get_u8(payload, 25),
        }
    }

    fn serialize(&self) -> Vec<u8> {
        let mut wtr = Vec::new();
        put_u64(&mut wtr, self.time_usec);
        assert(wtr@ =~= le64(self.time_usec));
        put_u32(&mut wtr, self.flow_comp_m_x);
        put_u32(&mut wtr, self.flow_comp_m_y);
        put_u32(&mut wtr, self.ground_distance);
        put_i16(&mut wtr, self.flow_x);
        put_i16(&mut wtr, self.flow_y);
        put_u8(&mut wtr, self.sensor_id);
        put_u8(&mut wtr, self.quality);
        wtr
    }

    proof fn lemma_roundtrip(&self) {
        let w = self.spec_serialize();
        let w0 = le64(self.time_usec);
        let w1 = w0 + le32(self.flow_comp_m_x);
        let w2 = w1 + le32(self.flow_comp_m_y);
        let w3 = w2 + le32(self.ground_distance);
        let w4 = w3 + le16(self.flow_x as u16);
        let w5 = w4 + le16(self.flow_y as u16);
        let w6 = w5 + le8(self.sensor_id);
        lemma_whole(w, le64(self.time_usec));
        lemma_read_u8(w, w6, self.quality);
        lemma_read_u8(w, w5, self.sensor_id);
        lemma_read_i16(w, w4, self.flow_y);
        lemma_read_i16(w, w3, self.flow_x);
        lemma_read_u32(w, w2, self.ground_distance);
        lemma_read_u32(w, w1, self.flow_comp_m_y);
        lemma_read_u32(w, w0, self.flow_comp_m_x);
        lemma_read_u64(w, Seq::empty(), self.time_usec);
    }
}

/// `GLOBAL_VISION_POSITION_ESTIMATE`, message 101: 32 payload bytes.
#[allow(non_camel_case_types)]
#[derive(Clone, Copy, Debug, PartialEq, Eq)]
pub struct GLOBAL_VISION_POSITION_ESTIMATE_DATA {
    pub usec: u64,
    pub x: Ieee32,
    pub y: Ieee32,
    pub z: Ieee32,
    pub roll: Ieee32,
    pub pitch: Ieee32,
    pub yaw: Ieee32,
}

impl Parsable for GLOBAL_VISION_POSITION_ESTIMATE_DATA {
    open spec fn wire_len() -> nat {
        32
    }

    open spec fn spec_parse(p: Seq<u8>) -> GLOBAL_VISION_POSITION_ESTIMATE_DATA {
        GLOBAL_VISION_POSITION_ESTIMATE_DATA {
            usec: u64_at(p, 0),
            x: u32_at(p, 8),
            y: u32_at(p, 12),
            z: u32_at(p, 16),
            roll: u32_at(p, 20),
            pitch: u32_at(p, 24),
            yaw: u32_at(p, 28),
        }
    }

    open spec fn spec_serialize(&self) -> Seq<u8> {
        le64(self.usec) + le32(self.x) + le32(self.y) + le32(self.z) + le32(self.roll)
            + le32(self.pitch) + le32(self.yaw)
    }

    fn parse(payload: &[u8]) -> GLOBAL_VISION_POSITION_ESTIMATE_DATA {
        GLOBAL_VISION_POSITION_ESTIMATE_DATA {
            usec: get_u64(payload, 0),
            x: get_u32(payload, 8),
            y: get_u32(payload, 12),
            z: get_u32(payload, 16),
            roll: get_u32(payload, 20),
            pitch: get_u32(payload, 24),
            yaw: get_u32(payload, 28),
        }
    }

    fn serialize(&self) -> Vec<u8> {
        let mut wtr = Vec::new();
        put_u64(&mut wtr, self.usec);
        assert(wtr@ =~= le64(self.usec));
        put_u32(&mut wtr, self.x);
        put_u32(&mut wtr, self.y);
        put_u32(&mut wtr, self.z);
        put_u32(&mut wtr, self.roll);
        put_u32(&mut wtr, self.pitch);
        put_u32(&mut wtr, self.yaw);
        wtr
    }

    proof fn lemma_roundtrip(&self) {
        let w = self.spec_serialize();
        let w0 = le64(self.usec);
        let w1 = w0 + le32(self.x);
        let w2 = w1 + le32(self.y);
        let w3 = w2 + le32(self.z);
        let w4 = w3 + le32(self.roll);
        let w5 = w4 + le32(self.pitch);
        lemma_whole(w, le64(self.usec));
        lemma_read_u32(w, w5, self.yaw);
        lemma_read_u32(w, w4, self.pitch);
        lemma_read_u32(w, w3, self.roll);
        lemma_read_u32(w, w2, self.z);
        lemma_read_u32(w, w1, self.y);
        lemma_read_u32(w, w0, self.x);
        lemma_read_u64(w, Seq::empty(), self.usec);
    }
}

/// `VISION_POSITION_ESTIMATE`, message 102: 32 payload bytes.
#[allow(non_camel_case_types)]
#[derive(Clone, Copy, Debug, PartialEq, Eq)]
pub struct VISION_POSITION_ESTIMATE_DATA {
    pub usec: u64,
    pub x: Ieee32,
    pub y: Ieee32,
    pub z: Ieee32,
    pub roll: Ieee32,
    pub pitch: Ieee32,
    pub yaw: Ieee32,
}

impl Parsable for VISION_POSITION_ESTIMATE_DATA {
    open spec fn wire_len() -> nat {
        32
    }

    open spec fn spec_parse(p: Seq<u8>) -> VISION_POSITION_ESTIMATE_DATA {
        VISION_POSITION_ESTIMATE_DATA {
            usec: u64_at(p, 0),
            x: u32_at(p, 8),
            y: u32_at(p, 12),
            z: u32_at(p, 16),
            roll: u32_at(p, 20),
            pitch: u32_at(p, 24),
            yaw: u32_at(p, 28),
        }
    }

    open spec fn spec_serialize(&self) -> Seq<u8> {
        le64(self.usec) + le32(self.x) + le32(self.y) + le32(self.z) + le32(self.roll)
            + le32(self.pitch) + le32(self.yaw)
    }

    fn parse(payload: &[u8]) -> VISION_POSITION_ESTIMATE_DATA {
        VISION_POSITION_ESTIMATE_DATA {
            usec: get_u64(payload, 0),
            x: get_u32(payload, 8),
            y: get_u32(payload, 12),
            z: get_u32(payload, 16),
            roll: get_u32(payload, 20),
            pitch: get_u32(payload, 24),
            yaw: get_u32(payload, 28),
        }
    }

    fn serialize(&self) -> Vec<u8> {
        let mut wtr = Vec::new();
        put_u64(&mut wtr, self.usec);
        assert(wtr@ =~= le64(self.usec));
        put_u32(&mut wtr, self.x);
        put_u32(&mut wtr, self.y);
        put_u32(&mut wtr, self.z);
        put_u32(&mut wtr, self.roll);
        put_u32(&mut wtr, self.pitch);
        put_u32(&mut wtr, self.yaw);
        wtr
    }

    proof fn lemma_roundtrip(&self) {
        let w = self.spec_serialize();
        let w0 = le64(self.usec);
        let w1 = w0 + le32(self.x);
        let w2 = w1 + le32(self.y);
        let w3 = w2 + le32(self.z);
        let w4 = w3 + le32(self.roll);
        let w5 = w4 + le32(self.pitch);
        lemma_whole(w, le64(self.usec));
        lemma_read_u32(w, w5, self.yaw);
        lemma_read_u32(w, w4, self.pitch);
        lemma_read_u32(w, w3, self.roll);
        lemma_read_u32(w, w2, self.z);
        lemma_read_u32(w, w1, self.y);
        lemma_read_u32(w, w0, self.x);
        lemma_read_u64(w, Seq::empty(), self.usec);
    }
}

/// `VISION_SPEED_ESTIMATE`, message 103: 20 payload bytes.
#[allow(non_camel_case_types)]
#[derive(Clone, Copy, Debug, PartialEq, Eq)]
pub struct VISION_SPEED_ESTIMATE_DATA {
    pub usec: u64,
    pub x: Ieee32,
    pub y: Ieee32,
    pub z: Ieee32,
}

impl Parsable for VISION_SPEED_ESTIMATE_DATA {
    open spec fn wire_len() -> nat {
        20
    }

    open spec fn spec_parse(p: Seq<u8>) -> VISION_SPEED_ESTIMATE_DATA {
        VISION_SPEED_ESTIMATE_DATA {
            usec: u64_at(p, 0),
            x: u32_at(p, 8),
            y: u32_at(p, 12),
            z: u32_at(p, 16),
        }
    }

    open spec fn spec_serialize(&self) -> Seq<u8> {
        le64(self.usec) + le32(self.x) + le32(self.y) + le32(self.z)
    }

    fn parse(payload: &[u8]) -> VISION_SPEED_ESTIMATE_DATA {
        VISION_SPEED_ESTIMATE_DATA {
            usec: get_u64(payload, 0),
            x: get_u32(payload, 8),
            y: get_u32(payload, 12),
            z: get_u32(payload, 16),
        }
    }

    fn serialize(&self) -> Vec<u8> {
        let mut wtr = Vec::new();
        put_u64(&mut wtr, self.usec);
        assert(wtr@ =~= le64(self.usec));
        put_u32(&mut wtr, self.x);
        put_u32(&mut wtr, self.y);
        put_u32(&mut wtr, self.z);
        wtr
    }

    proof fn lemma_roundtrip(&self) {
        let w = self.spec_serialize();
        let w0 = le64(self.usec);
        let w1 = w0 + le32(self.x);
        let w2 = w1 + le32(self.y);
        lemma_whole(w, le64(self.usec));
        lemma_read_u32(w, w2, self.z);
        lemma_read_u32(w, w1, self.y);
        lemma_read_u32(w, w0, self.x);
        lemma_read_u64(w, Seq::empty(), self.usec);
    }
}

/// `VICON_POSITION_ESTIMATE`, message 104: 32 payload bytes.
#[allow(non_camel_case_types)]
#[derive(Clone, Copy, Debug, PartialEq, Eq)]
pub struct VICON_POSITION_ESTIMATE_DATA {
    pub usec: u64,
    pub x: Ieee32,
    pub y: Ieee32,
    pub z: Ieee32,
    pub roll: Ieee32,
    pub pitch: Ieee32,
    pub yaw: Ieee32,
}

impl Parsable for VICON_POSITION_ESTIMATE_DATA {
    open spec fn wire_len() -> nat {
        32
    }

    open spec fn spec_parse(p: Seq<u8>) -> VICON_POSITION_ESTIMATE_DATA {
        VICON_POSITION_ESTIMATE_DATA {
            usec: u64_at(p, 0),
            x: u32_at(p, 8),
            y: u32_at(p, 12),
            z: u32_at(p, 16),
            roll: u32_at(p, 20),
            pitch: u32_at(p, 24),
            yaw: u32_at(p, 28),
        }
    }

    open spec fn spec_serialize(&self) -> Seq<u8> {
        le64(self.usec) + le32(self.x) + le32(self.y) + le32(self.z) + le32(self.roll)
            + le32(self.pitch) + le32(self.yaw)
    }

    fn parse(payload: &[u8]) -> VICON_POSITION_ESTIMATE_DATA {
        VICON_POSITION_ESTIMATE_DATA {
            usec: get_u64(payload, 0),
            x: get_u32(payload, 8),
            y: get_u32(payload, 12),
            z: get_u32(payload, 16),
            roll: get_u32(payload, 20),
            pitch: get_u32(payload, 24),
            yaw: get_u32(payload, 28),
        }
    }

    fn serialize(&self) -> Vec<u8> {
        let mut wtr = Vec::new();
        put_u64(&mut wtr, self.usec);
        assert(wtr@ =~= le64(self.usec));
        put_u32(&mut wtr, self.x);
        put_u32(&mut wtr, self.y);
        put_u32(&mut wtr, self.z);
        put_u32(&mut wtr, self.roll);
        put_u32(&mut wtr, self.pitch);
        put_u32(&mut wtr, self.yaw);
        wtr
    }

    proof fn lemma_roundtrip(&self) {
        let w = self.spec_serialize();
        let w0 = le64(self.usec);
        let w1 = w0 + le32(self.x);
        let w2 = w1 + le32(self.y);
        let w3 = w2 + le32(self.z);
        let w4 = w3 + le32(self.roll);
        let w5 = w4 + le32(self.pitch);
        lemma_whole(w, le64(self.usec));
        lemma_read_u32(w, w5, self.yaw);
        lemma_read_u32(w, w4, self.pitch);
        lemma_read_u32(w, w3, self.roll);
        lemma_read_u32(w, w2, self.z);
        lemma_read_u32(w, w1, self.y);
        lemma_read_u32(w, w0, self.x);
        lemma_read_u64(w, Seq::empty(), self.usec);
    }
}

/// `HIGHRES_IMU`, message 105: 62 payload bytes.
#[allow(non_camel_case_types)]
#[derive(Clone, Copy, Debug, PartialEq, Eq)]
pub struct HIGHRES_IMU_DATA {
    pub time_usec: u64,
    pub xacc: Ieee32,
    pub yacc: Ieee32,
    pub zacc: Ieee32,
    pub xgyro: Ieee32,
    pub ygyro: Ieee32,
    pub zgyro: Ieee32,
    pub xmag: Ieee32,
    pub ymag: Ieee32,
    pub zmag: Ieee32,
    pub abs_pressure: Ieee32,
    pub diff_pressure: Ieee32,
    pub pressure_alt: Ieee32,
    pub temperature: Ieee32,
    pub fields_updated: u16,
}

impl Parsable for HIGHRES_IMU_DATA {
    open spec fn wire_len() -> nat {
        62
    }

    open spec fn spec_parse(p: Seq<u8>) -> HIGHRES_IMU_DATA {
        HIGHRES_IMU_DATA {
            time_usec: u64_at(p, 0),
            xacc: u32_at(p, 8),
            yacc: u32_at(p, 12),
            zacc: u32_at(p, 16),
            xgyro: u32_at(p, 20),
            ygyro: u32_at(p, 24),
            zgyro: u32_at(p, 28),
            xmag: u32_at(p, 32),
            ymag: u32_at(p, 36),
            zmag: u32_at(p, 40),
            abs_pressure: u32_at(p, 44),
            diff_pressure: u32_at(p, 48),
            pressure_alt: u32_at(p, 52),
            temperature: u32_at(p, 56),
            fields_updated: u16_at(p, 60),
        }
    }

    open spec fn spec_serialize(&self) -> Seq<u8> {
        le64(self.time_usec) + le32(self.xacc) + le32(self.yacc) + le32(self.zacc)
            + le32(self.xgyro) + le32(self.ygyro) + le32(self.zgyro) + le32(self.xmag)
            + le32(self.ymag) + le32(self.zmag) + le32(self.abs_pressure) + le32(self.diff_pressure)
            + le32(self.pressure_alt) + le32(self.temperature) + le16(self.fields_updated)
    }

    fn parse(payload: &[u8]) -> HIGHRES_IMU_DATA {
        HIGHRES_IMU_DATA {
            time_usec: get_u64(payload, 0),
            xacc: get_u32(payload, 8),
            yacc: get_u32(payload, 12),
            zacc: get_u32(payload, 16),
            xgyro: get_u32(payload, 20),
            ygyro: get_u32(payload, 24),
            zgyro: get_u32(payload, 28),
            xmag: get_u32(payload, 32),
            ymag: get_u32(payload, 36),
            zmag: get_u32(payload, 40),
            abs_pressure: get_u32(payload, 44),
            diff_pressure: get_u32(payload, 48),
            pressure_alt: get_u32(payload, 52),
            temperature: get_u32(payload, 56),
            fields_updated: get_u16(payload, 60),
        }
    }

    fn serialize(&self) -> Vec<u8> {
        let mut wtr = Vec::new();
        put_u64(&mut wtr, self.time_usec);
        assert(wtr@ =~= le64(self.time_usec));
        put_u32(&mut wtr, self.xacc);
        put_u32(&mut wtr, self.yacc);
        put_u32(&mut wtr, self.zacc);
        put_u32(&mut wtr, self.xgyro);
        put_u32(&mut wtr, self.ygyro);
        put_u32(&mut wtr, self.zgyro);
        put_u32(&mut wtr, self.xmag);
        put_u32(&mut wtr, self.ymag);
        put_u32(&mut wtr, self.zmag);
        put_u32(&mut wtr, self.abs_pressure);
        put_u32(&mut wtr, self.diff_pressure);
        put_u32(&mut wtr, self.pressure_alt);
        put_u32(&mut wtr, self.temperature);
        put_u16(&mut wtr, self.fields_updated);
        wtr
    }

    proof fn lemma_roundtrip(&self) {
        let w = self.spec_serialize();
        let w0 = le64(self.time_usec);
        let w1 = w0 + le32(self.xacc);
        let w2 = w1 + le32(self.yacc);
        let w3 = w2 + le32(self.zacc);
        let w4 = w3 + le32(self.xgyro);
        let w5 = w4 + le32(self.ygyro);
        let w6 = w5 + le32(self.zgyro);
        let w7 = w6 + le32(self.xmag);
        let w8 = w7 + le32(self.ymag);
        let w9 = w8 + le32(self.zmag);
        let w10 = w9 + le32(self.abs_pressure);
        let w11 = w10 + le32(self.diff_pressure);
        let w12 = w11 + le32(self.pressure_alt);
        let w13 = w12 + le32(self.temperature);
        lemma_whole(w, le64(self.time_usec));
        lemma_read_u16(w, w13, self.fields_updated);
        lemma_read_u32(w, w12, self.temperature);
        lemma_read_u32(w, w11, self.pressure_alt);
        lemma_read_u32(w, w10, self.diff_pressure);
        lemma_read_u32(w, w9, self.abs_pressure);
        lemma_read_u32(w, w8, self.zmag);
        lemma_read_u32(w, w7, self.ymag);
        lemma_read_u32(w, w6, self.xmag);
        lemma_read_u32(w, w5, self.zgyro);
        lemma_read_u32(w, w4, self.ygyro);
        lemma_read_u32(w, w3, self.xgyro);
        lemma_read_u32(w, w2, self.zacc);
        lemma_read_u32(w, w1, self.yacc);
        lemma_read_u32(w, w0, self.xacc);
        lemma_read_u64(w, Seq::empty(), self.time_usec);
    }
}

/// `OPTICAL_FLOW_RAD`, message 106: 44 payload bytes.
#[allow(non_camel_case_types)]
#[derive(Clone, Copy, Debug, PartialEq, Eq)]
pub struct OPTICAL_FLOW_RAD_DATA {
    pub time_usec: u64,
    pub integration_time_us: u32,
    pub integrated_x: Ieee32,
    pub integrated_y: Ieee32,
    pub integrated_xgyro: Ieee32,
    pub integrated_ygyro: Ieee32,
    pub integrated_zgyro: Ieee32,
    pub time_delta_distance_us: u32,
    pub distance: Ieee32,
    pub temperature: i16,
    pub sensor_id: u8,
    pub quality: u8,
}

impl Parsable for OPTICAL_FLOW_RAD_DATA {
    open spec fn wire_len() -> nat {
        44
    }

    open spec fn spec_parse(p: Seq<u8>) -> OPTICAL_FLOW_RAD_DATA {
        OPTICAL_FLOW_RAD_DATA {
            time_usec: u64_at(p, 0),
            integration_time_us: u32_at(p, 8),
            integrated_x: u32_at(p, 12),
            integrated_y: u32_at(p, 16),
            integrated_xgyro: u32_at(p, 20),
            integrated_ygyro: u32_at(p, 24),
            integrated_zgyro: u32_at(p, 28),
            time_delta_distance_us: u32_at(p, 32),
            distance: u32_at(p, 36),
            temperature: u16_at(p, 40) as i16,
            sensor_id: p[42],
            quality: p[43],
        }
    }

    open spec fn spec_serialize(&self) -> Seq<u8> {
        le64(self.time_usec) + le32(self.integration_time_us) + le32(self.integrated_x)
            + le32(self.integrated_y) + le32(self.integrated_xgyro) + le32(self.integrated_ygyro)
            + le32(self.integrated_zgyro) + le32(self.time_delta_distance_us) + le32(self.distance)
            + le16(self.temperature as u16) + le8(self.sensor_id) + le8(self.quality)
    }

    fn parse(payload: &[u8]) -> OPTICAL_FLOW_RAD_DATA {
        OPTICAL_FLOW_RAD_DATA {
            time_usec: get_u64(payload, 0),
            integration_time_us: get_u32(payload, 8),
            integrated_x: get_u32(payload, 12),
            integrated_y: get_u32(payload, 16),
            integrated_xgyro: get_u32(payload, 20),
            integrated_ygyro: get_u32(payload, 24),
            integrated_zgyro: get_u32(payload, 28),
            time_delta_distance_us: get_u32(payload, 32),
            distance: get_u32(payload, 36),
            temperature: get_i16(payload, 40),
            sensor_id: get_u8(payload, 42),
            quality: get_u8(payload, 43),
        }
    }

    fn serialize(&self) -> Vec<u8> {
        let mut wtr = Vec::new();
        put_u64(&mut wtr, self.time_usec);
        assert(wtr@ =~= le64(self.time_usec));
        put_u32(&mut wtr, self.integration_time_us);
        put_u32(&mut wtr, self.integrated_x);
        put_u32(&mut wtr, self.integrated_y);
        put_u32(&mut wtr, self.integrated_xgyro);
        put_u32(&mut wtr, self.integrated_ygyro);
        put_u32(&mut wtr, self.integrated_zgyro);
        put_u32(&mut wtr, self.time_delta_distance_us);
        put_u32(&mut wtr, self.distance);
        put_i16(&mut wtr, self.temperature);
        put_u8(&mut wtr, self.sensor_id);
        put_u8(&mut wtr, self.quality);
        wtr
    }

    proof fn lemma_roundtrip(&self) {
        let w = self.spec_serialize();
        let w0 = le64(self.time_usec);
        let w1 = w0 + le32(self.integration_time_us);
        let w2 = w1 + le32(self.integrated_x);
        let w3 = w2 + le32(self.integrated_y);
        let w4 = w3 + le32(self.integrated_xgyro);
        let w5 = w4 + le32(self.integrated_ygyro);
        let w6 = w5 + le32(self.integrated_zgyro);
        let w7 = w6 + le32(self.time_delta_distance_us);
        let w8 = w7 + le32(self.distance);
        let w9 = w8 + le16(self.temperature as u16);
        let w10 = w9 + le8(self.sensor_id);
        lemma_whole(w, le64(self.time_usec));
        lemma_read_u8(w, w10, self.quality);
        lemma_read_u8(w, w9, self.sensor_id);
        lemma_read_i16(w, w8, self.temperature);
        lemma_read_u32(w, w7, self.distance);
        lemma_read_u32(w, w6, self.time_delta_distance_us);
        lemma_read_u32(w, w5, self.integrated_zgyro);
        lemma_read_u32(w, w4, self.integrated_ygyro);
        lemma_read_u32(w, w3, self.integrated_xgyro);
        lemma_read_u32(w, w2, self.integrated_y);
        lemma_read_u32(w, w1, self.integrated_x);
        lemma_read_u32(w, w0, self.integration_time_us);
        lemma_read_u64(w, Seq::empty(), self.time_usec);
    }
}

/// `HIL_SENSOR`, message 107: 64 payload bytes.
#[allow(non_camel_case_types)]
#[derive(Clone, Copy, Debug, PartialEq, Eq)]
pub struct HIL_SENSOR_DATA {
    pub time_usec: u64,
    pub xacc: Ieee32,
    pub yacc: Ieee32,
    pub zacc: Ieee32,
    pub xgyro: Ieee32,
    pub ygyro: Ieee32,
    pub zgyro: Ieee32,
    pub xmag: Ieee32,
    pub ymag: Ieee32,
    pub zmag: Ieee32,
    pub abs_pressure: Ieee32,
    pub diff_pressure: Ieee32,
    pub pressure_alt: Ieee32,
    pub temperature: Ieee32,
    pub fields_updated: u32,
}

impl Parsable for HIL_SENSOR_DATA {
    open spec fn wire_len() -> nat {
        64
    }

    open spec fn spec_parse(p: Seq<u8>) -> HIL_SENSOR_DATA {
        HIL_SENSOR_DATA {
            time_usec: u64_at(p, 0),
            xacc: u32_at(p, 8),
            yacc: u32_at(p, 12),
            zacc: u32_at(p, 16),
            xgyro: u32_at(p, 20),
            ygyro: u32_at(p, 24),
            zgyro: u32_at(p, 28),
            xmag: u32_at(p, 32),
            ymag: u32_at(p, 36),
            zmag: u32_at(p, 40),
            abs_pressure: u32_at(p, 44),
            diff_pressure: u32_at(p, 48),
            pressure_alt: u32_at(p, 52),
            temperature: u32_at(p, 56),
            fields_updated: u32_at(p, 60),
        }
    }

    open spec fn spec_serialize(&self) -> Seq<u8> {
        le64(self.time_usec) + le32(self.xacc) + le32(self.yacc) + le32(self.zacc)
            + le32(self.xgyro) + le32(self.ygyro) + le32(self.zgyro) + le32(self.xmag)
            + le32(self.ymag) + le32(self.zmag) + le32(self.abs_pressure) + le32(self.diff_pressure)
            + le32(self.pressure_alt) + le32(self.temperature) + le32(self.fields_updated)
    }

    fn parse(payload: &[u8]) -> HIL_SENSOR_DATA {
        HIL_SENSOR_DATA {
            time_usec: get_u64(payload, 0),
            xacc: get_u32(payload, 8),
            yacc: get_u32(payload, 12),
            zacc: get_u32(payload, 16),
            xgyro: get_u32(payload, 20),
            ygyro: get_u32(payload, 24),
            zgyro: get_u32(payload, 28),
            xmag: get_u32(payload, 32),
            ymag: get_u32(payload, 36),
            zmag: get_u32(payload, 40),
            abs_pressure: get_u32(payload, 44),
            diff_pressure: get_u32(payload, 48),
            pressure_alt: get_u32(payload, 52),
            temperature: get_u32(payload, 56),
            fields_updated: get_u32(payload, 60),
        }
    }

    fn serialize(&self) -> Vec<u8> {
        let mut wtr = Vec::new();
        put_u64(&mut wtr, self.time_usec);
        assert(wtr@ =~= le64(self.time_usec));
        put_u32(&mut wtr, self.xacc);
        put_u32(&mut wtr, self.yacc);
        put_u32(&mut wtr, self.zacc);
        put_u32(&mut wtr, self.xgyro);
        put_u32(&mut wtr, self.ygyro);
        put_u32(&mut wtr, self.zgyro);
        put_u32(&mut wtr, self.xmag);
        put_u32(&mut wtr, self.ymag);
        put_u32(&mut wtr, self.zmag);
        put_u32(&mut wtr, self.abs_pressure);
        put_u32(&mut wtr, self.diff_pressure);
        put_u32(&mut wtr, self.pressure_alt);
        put_u32(&mut wtr, self.temperature);
        put_u32(&mut wtr, self.fields_updated);
        wtr
    }

    proof fn lemma_roundtrip(&self) {
        let w = self.spec_serialize();
        let w0 = le64(self.time_usec);
        let w1 = w0 + le32(self.xacc);
        let w2 = w1 + le32(self.yacc);
        let w3 = w2 + le32(self.zacc);
        let w4 = w3 + le32(self.xgyro);
        let w5 = w4 + le32(self.ygyro);
        let w6 = w5 + le32(self.zgyro);
        let w7 = w6 + le32(self.xmag);
        let w8 = w7 + le32(self.ymag);
        let w9 = w8 + le32(self.zmag);
        let w10 = w9 + le32(self.abs_pressure);
        let w11 = w10 + le32(self.diff_pressure);
        let w12 = w11 + le32(self.pressure_alt);
        let w13 = w12 + le32(self.temperature);
        lemma_whole(w, le64(self.time_usec));
        lemma_read_u32(w, w13, self.fields_updated);
        lemma_read_u32(w, w12, self.temperature);
        lemma_read_u32(w, w11, self.pressure_alt);
        lemma_read_u32(w, w10, self.diff_pressure);
        lemma_read_u32(w, w9, self.abs_pressure);
        lemma_read_u32(w, w8, self.zmag);
        lemma_read_u32(w, w7, self.ymag);
        lemma_read_u32(w, w6, self.xmag);
        lemma_read_u32(w, w5, self.zgyro);
        lemma_read_u32(w, w4, self.ygyro);
        lemma_read_u32(w, w3, self.xgyro);
        lemma_read_u32(w, w2, self.zacc);
        lemma_read_u32(w, w1, self.yacc);
        lemma_read_u32(w, w0, self.xacc);
        lemma_read_u64(w, Seq::empty(), self.time_usec);
    }
}

/// `SIM_STATE`, message 108: 84 payload bytes.
#[allow(non_camel_case_types)]
#[derive(Clone, Copy, Debug, PartialEq, Eq)]
pub struct SIM_STATE_DATA {
    pub q1: Ieee32,
    pub q2: Ieee32,
    pub q3: Ieee32,
    pub q4: Ieee32,
    pub roll: Ieee32,
    pub pitch: Ieee32,
    pub yaw: Ieee32,
    pub xacc: Ieee32,
    pub yacc: Ieee32,
    pub zacc: Ieee32,
    pub xgyro: Ieee32,
    pub ygyro: Ieee32,
    pub zgyro: Ieee32,
    pub lat: Ieee32,
    pub lon: Ieee32,
    pub alt: Ieee32,
    pub std_dev_horz: Ieee32,
    pub std_dev_vert: Ieee32,
    pub vn: Ieee32,
    pub ve: Ieee32,
    pub vd: Ieee32,
}

impl Parsable for SIM_STATE_DATA {
    open spec fn wire_len() -> nat {
        84
    }

    open spec fn spec_parse(p: Seq<u8>) -> SIM_STATE_DATA {
        SIM_STATE_DATA {
            q1: u32_at(p, 0),
            q2: u32_at(p, 4),
            q3: u32_at(p, 8),
            q4: u32_at(p, 12),
            roll: u32_at(p, 16),
            pitch: u32_at(p, 20),
            yaw: u32_at(p, 24),
            xacc: u32_at(p, 28),
            yacc: u32_at(p, 32),
            zacc: u32_at(p, 36),
            xgyro: u32_at(p, 40),
            ygyro: u32_at(p, 44),
            zgyro: u32_at(p, 48),
            lat: u32_at(p, 52),
            lon: u32_at(p, 56),
            alt: u32_at(p, 60),
            std_dev_horz: u32_at(p, 64),
            std_dev_vert: u32_at(p, 68),
            vn: u32_at(p, 72),
            ve: u32_at(p, 76),
            vd: u32_at(p, 80),
        }
    }

    open spec fn spec_serialize(&self) -> Seq<u8> {
        le32(self.q1) + le32(self.q2) + le32(self.q3) + le32(self.q4) + le32(self.roll)
            + le32(self.pitch) + le32(self.yaw) + le32(self.xacc) + le32(self.yacc)
            + le32(self.zacc) + le32(self.xgyro) + le32(self.ygyro) + le32(self.zgyro)
            + le32(self.lat) + le32(self.lon) + le32(self.alt) + le32(self.std_dev_horz)
            + le32(self.std_dev_vert) + le32(self.vn) + le32(self.ve) + le32(self.vd)
    }

    fn parse(payload: &[u8]) -> SIM_STATE_DATA {
        SIM_STATE_DATA {
            q1: get_u32(payload, 0),
            q2: get_u32(payload, 4),
            q3: get_u32(payload, 8),
            q4: get_u32(payload, 12),
            roll: get_u32(payload, 16),
            pitch: get_u32(payload, 20),
            yaw: get_u32(payload, 24),
            xacc: get_u32(payload, 28),
            yacc: get_u32(payload, 32),
            zacc: get_u32(payload, 36),
            xgyro: get_u32(payload, 40),
            ygyro: get_u32(payload, 44),
            zgyro: get_u32(payload, 48),
            lat: get_u32(payload, 52),
            lon: get_u32(payload, 56),
            alt: get_u32(payload, 60),
            std_dev_horz: get_u32(payload, 64),
            std_dev_vert: get_u32(payload, 68),
            vn: get_u32(payload, 72),
            ve: get_u32(payload, 76),
            vd: get_u32(payload, 80),
        }
    }

    fn serialize(&self) -> Vec<u8> {
        let mut wtr = Vec::new();
        put_u32(&mut wtr, self.q1);
        assert(wtr@ =~= le32(self.q1));
        put_u32(&mut wtr, self.q2);
        put_u32(&mut wtr, self.q3);
        put_u32(&mut wtr, self.q4);
        put_u32(&mut wtr, self.roll);
        put_u32(&mut wtr, self.pitch);
        put_u32(&mut wtr, self.yaw);
        put_u32(&mut wtr, self.xacc);
        put_u32(&mut wtr, self.yacc);
        put_u32(&mut wtr, self.zacc);
        put_u32(&mut wtr, self.xgyro);
        put_u32(&mut wtr, self.ygyro);
        put_u32(&mut wtr, self.zgyro);
        put_u32(&mut wtr, self.lat);
        put_u32(&mut wtr, self.lon);
        put_u32(&mut wtr, self.alt);
        put_u32(&mut wtr, self.std_dev_horz);
        put_u32(&mut wtr, self.std_dev_vert);
        put_u32(&mut wtr, self.vn);
        put_u32(&mut wtr, self.ve);
        put_u32(&mut wtr, self.vd);
        wtr
    }

    proof fn lemma_roundtrip(&self) {
        let w = self.spec_serialize();
        let w0 = le32(self.q1);
        let w1 = w0 + le32(self.q2);
        let w2 = w1 + le32(self.q3);
        let w3 = w2 + le32(self.q4);
        let w4 = w3 + le32(self.roll);
        let w5 = w4 + le32(self.pitch);
        let w6 = w5 + le32(self.yaw);
        let w7 = w6 + le32(self.xacc);
        let w8 = w7 + le32(self.yacc);
        let w9 = w8 + le32(self.zacc);
        let w10 = w9 + le32(self.xgyro);
        let w11 = w10 + le32(self.ygyro);
        let w12 = w11 + le32(self.zgyro);
        let w13 = w12 + le32(self.lat);
        let w14 = w13 + le32(self.lon);
        let w15 = w14 + le32(self.alt);
        let w16 = w15 + le32(self.std_dev_horz);
        let w17 = w16 + le32(self.std_dev_vert);
        let w18 = w17 + le32(self.vn);
        let w19 = w18 + le32(self.ve);
        lemma_whole(w, le32(self.q1));
        lemma_read_u32(w, w19, self.vd);
        lemma_read_u32(w, w18, self.ve);
        lemma_read_u32(w, w17, self.vn);
        lemma_read_u32(w, w16, self.std_dev_vert);
        lemma_read_u32(w, w15, self.std_dev_horz);
        lemma_read_u32(w, w14, self.alt);
        lemma_read_u32(w, w13, self.lon);
        lemma_read_u32(w, w12, self.lat);
        lemma_read_u32(w, w11, self.zgyro);
        lemma_read_u32(w, w10, self.ygyro);
        lemma_read_u32(w, w9, self.xgyro);
        lemma_read_u32(w, w8, self.zacc);
        lemma_read_u32(w, w7, self.yacc);
        lemma_read_u32(w, w6, self.xacc);
        lemma_read_u32(w, w5, self.yaw);
        lemma_read_u32(w, w4, self.pitch);
        lemma_read_u32(w, w3, self.roll);
        lemma_read_u32(w, w2, self.q4);
        lemma_read_u32(w, w1, self.q3);
        lemma_read_u32(w, w0, self.q2);
        lemma_read_u32(w, Seq::empty(), self.q1);
    }
}

/// `RADIO_STATUS`, message 109: 9 payload bytes.
#[allow(non_camel_case_types)]
#[derive(Clone, Copy, Debug, PartialEq, Eq)]
pub struct RADIO_STATUS_DATA {
    pub rxerrors: u16,
    pub fixed: u16,
    pub rssi: u8,
    pub remrssi: u8,
    pub txbuf: u8,
    pub noise: u8,
    pub remnoise: u8,
}

impl Parsable for RADIO_STATUS_DATA {
    open spec fn wire_len() -> nat {
        9
    }

    open spec fn spec_parse(p: Seq<u8>) -> RADIO_STATUS_DATA {
        RADIO_STATUS_DATA {
            rxerrors: u16_at(p, 0),
            fixed: u16_at(p, 2),
            rssi: p[4],
            remrssi: p[5],
            txbuf: p[6],
            noise: p[7],
            remnoise: p[8],
        }
    }

    open spec fn spec_serialize(&self) -> Seq<u8> {
        le16(self.rxerrors) + le16(self.fixed) + le8(self.rssi) + le8(self.remrssi)
            + le8(self.txbuf) + le8(self.noise) + le8(self.remnoise)
    }

    fn parse(payload: &[u8]) -> RADIO_STATUS_DATA {
        RADIO_STATUS_DATA {
            rxerrors: get_u16(payload, 0),
            fixed: get_u16(payload, 2),
            rssi: get_u8(payload, 4),
            remrssi: get_u8(payload, 5),
            txbuf: get_u8(payload, 6),
            noise: get_u8(payload, 7),
            remnoise: get_u8(payload, 8),
        }
    }

    fn serialize(&self) -> Vec<u8> {
        let mut wtr = Vec::new();
        put_u16(&mut wtr, self.rxerrors);
        assert(wtr@ =~= le16(self.rxerrors));
        put_u16(&mut wtr, self.fixed);
        put_u8(&mut wtr, self.rssi);
        put_u8(&mut wtr, self.remrssi);
        put_u8(&mut wtr, self.txbuf);
        put_u8(&mut wtr, self.noise);
        put_u8(&mut wtr, self.remnoise);
        wtr
    }

    proof fn lemma_roundtrip(&self) {
        let w = self.spec_serialize();
        let w0 = le16(self.rxerrors);
        let w1 = w0 + le16(self.fixed);
        let w2 = w1 + le8(self.rssi);
        let w3 = w2 + le8(self.remrssi);
        let w4 = w3 + le8(self.txbuf);
        let w5 = w4 + le8(self.noise);
        lemma_whole(w, le16(self.rxerrors));
        lemma_read_u8(w, w5, self.remnoise);
        lemma_read_u8(w, w4, self.noise);
        lemma_read_u8(w, w3, self.txbuf);
        lemma_read_u8(w, w2, self.remrssi);
        lemma_read_u8(w, w1, self.rssi);
        lemma_read_u16(w, w0, self.fixed);
        lemma_read_u16(w, Seq::empty(), self.rxerrors);
    }
}

/// `FILE_TRANSFER_PROTOCOL`, message 110: 254 payload bytes.
#[allow(non_camel_case_types)]
#[derive(Clone, Copy, Debug, PartialEq, Eq)]
pub struct FILE_TRANSFER_PROTOCOL_DATA {
    pub target_network: u8,
    pub target_system: u8,
    pub target_component: u8,
    pub payload: [u8; 251],
}

impl Parsable for FILE_TRANSFER_PROTOCOL_DATA {
    open spec fn wire_len() -> nat {
        254
    }

    open spec fn spec_parse(p: Seq<u8>) -> FILE_TRANSFER_PROTOCOL_DATA {
        FILE_TRANSFER_PROTOCOL_DATA {
            target_network: p[0],
            target_system: p[1],
            target_component: p[2],
            payload: array_of(u8s_at(p, 3, 251)),
        }
    }

    open spec fn spec_serialize(&self) -> Seq<u8> {
        le8(self.target_network) + le8(self.target_system) + le8(self.target_component)
            + self.payload@
    }

    fn parse(payload: &[u8]) -> FILE_TRANSFER_PROTOCOL_DATA {
        FILE_TRANSFER_PROTOCOL_DATA {
            target_network: get_u8(payload, 0),
            target_system: get_u8(payload, 1),
            target_component: get_u8(payload, 2),
            payload: get_u8s(payload, 3),
        }
    }

    fn serialize(&self) -> Vec<u8> {
        let mut wtr = Vec::new();
        put_u8(&mut wtr, self.target_network);
        assert(wtr@ =~= le8(self.target_network));
        put_u8(&mut wtr, self.target_system);
        put_u8(&mut wtr, self.target_component);
        put_u8s(&mut wtr, &self.payload);
        wtr
    }

    proof fn lemma_roundtrip(&self) {
        let w = self.spec_serialize();
        let w0 = le8(self.target_network);
        let w1 = w0 + le8(self.target_system);
        let w2 = w1 + le8(self.target_component);
        lemma_whole(w, le8(self.target_network));
        lemma_read_u8s(w, w2, self.payload);
        lemma_read_u8(w, w1, self.target_component);
        lemma_read_u8(w, w0, self.target_system);
        lemma_read_u8(w, Seq::empty(), self.target_network);
    }
}

/// `TIMESYNC`, message 111: 16 payload bytes.
#[allow(non_camel_case_types)]
#[derive(Clone, Copy, Debug, PartialEq, Eq)]
pub struct TIMESYNC_DATA {
    pub tc1: i64,
    pub ts1: i64,
}

impl Parsable for TIMESYNC_DATA {
    open spec fn wire_len() -> nat {
        16
    }

    open spec fn spec_parse(p: Seq<u8>) -> TIMESYNC_DATA {
        TIMESYNC_DATA {
            tc1: u64_at(p, 0) as i64,
            ts1: u64_at(p, 8) as i64,
        }
    }

    open spec fn spec_serialize(&self) -> Seq<u8> {
        le64(self.tc1 as u64) + le64(self.ts1 as u64)
    }

    fn parse(payload: &[u8]) -> TIMESYNC_DATA {
        TIMESYNC_DATA {
            tc1: get_i64(payload, 0),
            ts1: get_i64(payload, 8),
        }
    }

    fn serialize(&self) -> Vec<u8> {
        let mut wtr = Vec::new();
        put_i64(&mut wtr, self.tc1);
        assert(wtr@ =~= le64(self.tc1 as u64));
        put_i64(&mut wtr, self.ts1);
        wtr
    }

    proof fn lemma_roundtrip(&self) {
        let w = self.spec_serialize();
        let w0 = le64(self.tc1 as u64);
        lemma_whole(w, le64(self.tc1 as u64));
        lemma_read_i64(w, w0, self.ts1);
        lemma_read_i64(w, Seq::empty(), self.tc1);
    }
}

/// `CAMERA_TRIGGER`, message 112: 12 payload bytes.
#[allow(non_camel_case_types)]
#[derive(Clone, Copy, Debug, PartialEq, Eq)]
pub struct CAMERA_TRIGGER_DATA {
    pub time_usec: u64,
    pub seq: u32,
}

impl Parsable for CAMERA_TRIGGER_DATA {
    open spec fn wire_len() -> nat {
        12
    }

    open spec fn spec_parse(p: Seq<u8>) -> CAMERA_TRIGGER_DATA {
        CAMERA_TRIGGER_DATA {
            time_usec: u64_at(p, 0),
            seq: u32_at(p, 8),
        }
    }

    open spec fn spec_serialize(&self) -> Seq<u8> {
        le64(self.time_usec) + le32(self.seq)
    }

    fn parse(payload: &[u8]) -> CAMERA_TRIGGER_DATA {
        CAMERA_TRIGGER_DATA {
            time_usec: get_u64(payload, 0),
            seq: get_u32(payload, 8),
        }
    }

    fn serialize(&self) -> Vec<u8> {
        let mut wtr = Vec::new();
        put_u64(&mut wtr, self.time_usec);
        assert(wtr@ =~= le64(self.time_usec));
        put_u32(&mut wtr, self.seq);
        wtr
    }

    proof fn lemma_roundtrip(&self) {
        let w = self.spec_serialize();
        let w0 = le64(self.time_usec);
        lemma_whole(w, le64(self.time_usec));
        lemma_read_u32(w, w0, self.seq);
        lemma_read_u64(w, Seq::empty(), self.time_usec);
    }
}

/// `HIL_GPS`, message 113: 36 payload bytes.
#[allow(non_camel_case_types)]
#[derive(Clone, Copy, Debug, PartialEq, Eq)]
pub struct HIL_GPS_DATA {
    pub time_usec: u64,
    pub lat: i32,
    pub lon: i32,
    pub alt: i32,
    pub eph: u16,
    pub epv: u16,
    pub vel: u16,
    pub vn: i16,
    pub ve: i16,
    pub vd: i16,
    pub cog: u16,
    pub fix_type: u8,
    pub satellites_visible: u8,
}

impl Parsable for HIL_GPS_DATA {
    open spec fn wire_len() -> nat {
        36
    }

    open spec fn spec_parse(p: Seq<u8>) -> HIL_GPS_DATA {
        HIL_GPS_DATA {
            time_usec: u64_at(p, 0),
            lat: u32_at(p, 8) as i32,
            lon: u32_at(p, 12) as i32,
            alt: u32_at(p, 16) as i32,
            eph: u16_at(p, 20),
            epv: u16_at(p, 22),
            vel: u16_at(p, 24),
            vn: u16_at(p, 26) as i16,
            ve: u16_at(p, 28) as i16,
            vd: u16_at(p, 30) as i16,
            cog: u16_at(p, 32),
            fix_type: p[34],
            satellites_visible: p[35],
        }
    }

    open spec fn spec_serialize(&self) -> Seq<u8> {
        le64(self.time_usec) + le32(self.lat as u32) + le32(self.lon as u32)
            + le32(self.alt as u32) + le16(self.eph) + le16(self.epv) + le16(self.vel)
            + le16(self.vn as u16) + le16(self.ve as u16) + le16(self.vd as u16) + le16(self.cog)
            + le8(self.fix_type) + le8(self.satellites_visible)
    }

    fn parse(payload: &[u8]) -> HIL_GPS_DATA {
        HIL_GPS_DATA {
            time_usec: get_u64(payload, 0),
            lat: get_i32(payload, 8),
            lon: get_i32(payload, 12),
            alt: get_i32(payload, 16),
            eph: get_u16(payload, 20),
            epv: get_u16(payload, 22),
            vel: get_u16(payload, 24),
            vn: get_i16(payload, 26),
            ve: get_i16(payload, 28),
            vd: get_i16(payload, 30),
            cog: get_u16(payload, 32),
            fix_type: get_u8(payload, 34),
            satellites_visible: get_u8(payload, 35),
        }
    }

    fn serialize(&self) -> Vec<u8> {
        let mut wtr = Vec::new();
        put_u64(&mut wtr, self.time_usec);
        assert(wtr@ =~= le64(self.time_usec));
        put_i32(&mut wtr, self.lat);
        put_i32(&mut wtr, self.lon);
        put_i32(&mut wtr, self.alt);
        put_u16(&mut wtr, self.eph);
        put_u16(&mut wtr, self.epv);
        put_u16(&mut wtr, self.vel);
        put_i16(&mut wtr, self.vn);
        put_i16(&mut wtr, self.ve);
        put_i16(&mut wtr, self.vd);
        put_u16(&mut wtr, self.cog);
        put_u8(&mut wtr, self.fix_type);
        put_u8(&mut wtr, self.satellites_visible);
        wtr
    }

    proof fn lemma_roundtrip(&self) {
        let w = self.spec_serialize();
        let w0 = le64(self.time_usec);
        let w1 = w0 + le32(self.lat as u32);
        let w2 = w1 + le32(self.lon as u32);
        let w3 = w2 + le32(self.alt as u32);
        let w4 = w3 + le16(self.eph);
        let w5 = w4 + le16(self.epv);
        let w6 = w5 + le16(self.vel);
        let w7 = w6 + le16(self.vn as u16);
        let w8 = w7 + le16(self.ve as u16);
        let w9 = w8 + le16(self.vd as u16);
        let w10 = w9 + le16(self.cog);
        let w11 = w10 + le8(self.fix_type);
        lemma_whole(w, le64(self.time_usec));
        lemma_read_u8(w, w11, self.satellites_visible);
        lemma_read_u8(w, w10, self.fix_type);
        lemma_read_u16(w, w9, self.cog);
        lemma_read_i16(w, w8, self.vd);
        lemma_read_i16(w, w7, self.ve);
        lemma_read_i16(w, w6, self.vn);
        lemma_read_u16(w, w5, self.vel);
        lemma_read_u16(w, w4, self.epv);
        lemma_read_u16(w, w3, self.eph);
        lemma_read_i32(w, w2, self.alt);
        lemma_read_i32(w, w1, self.lon);
        lemma_read_i32(w, w0, self.lat);
        lemma_read_u64(w, Seq::empty(), self.time_usec);
    }
}

/// `HIL_OPTICAL_FLOW`, message 114: 44 payload bytes.
#[allow(non_camel_case_types)]
#[derive(Clone, Copy, Debug, PartialEq, Eq)]
pub struct HIL_OPTICAL_FLOW_DATA {
    pub time_usec: u64,
    pub integration_time_us: u32,
    pub integrated_x: Ieee32,
    pub integrated_y: Ieee32,
    pub integrated_xgyro: Ieee32,
    pub integrated_ygyro: Ieee32,
    pub integrated_zgyro: Ieee32,
    pub time_delta_distance_us: u32,
    pub distance: Ieee32,
    pub temperature: i16,
    pub sensor_id: u8,
    pub quality: u8,
}

impl Parsable for HIL_OPTICAL_FLOW_DATA {
    open spec fn wire_len() -> nat {
        44
    }

    open spec fn spec_parse(p: Seq<u8>) -> HIL_OPTICAL_FLOW_DATA {
        HIL_OPTICAL_FLOW_DATA {
            time_usec: u64_at(p, 0),
            integration_time_us: u32_at(p, 8),
            integrated_x: u32_at(p, 12),
            integrated_y: u32_at(p, 16),
            integrated_xgyro: u32_at(p, 20),
            integrated_ygyro: u32_at(p, 24),
            integrated_zgyro: u32_at(p, 28),
            time_delta_distance_us: u32_at(p, 32),
            distance: u32_at(p, 36),
            temperature: u16_at(p, 40) as i16,
            sensor_id: p[42],
            quality: p[43],
        }
    }

    open spec fn spec_serialize(&self) -> Seq<u8> {
        le64(self.time_usec) + le32(self.integration_time_us) + le32(self.integrated_x)
            + le32(self.integrated_y) + le32(self.integrated_xgyro) + le32(self.integrated_ygyro)
            + le32(self.integrated_zgyro) + le32(self.time_delta_distance_us) + le32(self.distance)
            + le16(self.temperature as u16) + le8(self.sensor_id) + le8(self.quality)
    }

    fn parse(payload: &[u8]) -> HIL_OPTICAL_FLOW_DATA {
        HIL_OPTICAL_FLOW_DATA {
            time_usec: get_u64(payload, 0),
            integration_time_us: get_u32(payload, 8),
            integrated_x: get_u32(payload, 12),
            integrated_y: get_u32(payload, 16),
            integrated_xgyro: get_u32(payload, 20),
            integrated_ygyro: get_u32(payload, 24),
            integrated_zgyro: get_u32(payload, 28),
            time_delta_distance_us: get_u32(payload, 32),
            distance: get_u32(payload, 36),
            temperature: get_i16(payload, 40),
            sensor_id: get_u8(payload, 42),
            quality: get_u8(payload, 43),
        }
    }

    fn serialize(&self) -> Vec<u8> {
        let mut wtr = Vec::new();
        put_u64(&mut wtr, self.time_usec);
        assert(wtr@ =~= le64(self.time_usec));
        put_u32(&mut wtr, self.integration_time_us);
        put_u32(&mut wtr, self.integrated_x);
        put_u32(&mut wtr, self.integrated_y);
        put_u32(&mut wtr, self.integrated_xgyro);
        put_u32(&mut wtr, self.integrated_ygyro);
        put_u32(&mut wtr, self.integrated_zgyro);
        put_u32(&mut wtr, self.time_delta_distance_us);
        put_u32(&mut wtr, self.distance);
        put_i16(&mut wtr, self.temperature);
        put_u8(&mut wtr, self.sensor_id);
        put_u8(&mut wtr, self.quality);
        wtr
    }

    proof fn lemma_roundtrip(&self) {
        let w = self.spec_serialize();
        let w0 = le64(self.time_usec);
        let w1 = w0 + le32(self.integration_time_us);
        let w2 = w1 + le32(self.integrated_x);
        let w3 = w2 + le32(self.integrated_y);
        let w4 = w3 + le32(self.integrated_xgyro);
        let w5 = w4 + le32(self.integrated_ygyro);
        let w6 = w5 + le32(self.integrated_zgyro);
        let w7 = w6 + le32(self.time_delta_distance_us);
        let w8 = w7 + le32(self.distance);
        let w9 = w8 + le16(self.temperature as u16);
        let w10 = w9 + le8(self.sensor_id);
        lemma_whole(w, le64(self.time_usec));
        lemma_read_u8(w, w10, self.quality);
        lemma_read_u8(w, w9, self.sensor_id);
        lemma_read_i16(w, w8, self.temperature);
        lemma_read_u32(w, w7, self.distance);
        lemma_read_u32(w, w6, self.time_delta_distance_us);
        lemma_read_u32(w, w5, self.integrated_zgyro);
        lemma_read_u32(w, w4, self.integrated_ygyro);
        lemma_read_u32(w, w3, self.integrated_xgyro);
        lemma_read_u32(w, w2, self.integrated_y);
        lemma_read_u32(w, w1, self.integrated_x);
        lemma_read_u32(w, w0, self.integration_time_us);
        lemma_read_u64(w, Seq::empty(), self.time_usec);
    }
}

/// `HIL_STATE_QUATERNION`, message 115: 64 payload bytes.
#[allow(non_camel_case_types)]
#[derive(Clone, Copy, Debug, PartialEq, Eq)]
pub struct HIL_STATE_QUATERNION_DATA {
    pub time_usec: u64,
    pub attitude_quaternion: [Ieee32; 4],
    pub rollspeed: Ieee32,
    pub pitchspeed: Ieee32,
    pub yawspeed: Ieee32,
    pub lat: i32,
    pub lon: i32,
    pub alt: i32,
    pub vx: i16,
    pub vy: i16,
    pub vz: i16,
    pub ind_airspeed: u16,
    pub true_airspeed: u16,
    pub xacc: i16,
    pub yacc: i16,
    pub zacc: i16,
}

impl Parsable for HIL_STATE_QUATERNION_DATA {
    open spec fn wire_len() -> nat {
        64
    }

    open spec fn spec_parse(p: Seq<u8>) -> HIL_STATE_QUATERNION_DATA {
        HIL_STATE_QUATERNION_DATA {
            time_usec: u64_at(p, 0),
            attitude_quaternion: array_of(u32s_at(p, 8, 4)),
            rollspeed: u32_at(p, 24),
            pitchspeed: u32_at(p, 28),
            yawspeed: u32_at(p, 32),
            lat: u32_at(p, 36) as i32,
            lon: u32_at(p, 40) as i32,
            alt: u32_at(p, 44) as i32,
            vx: u16_at(p, 48) as i16,
            vy: u16_at(p, 50) as i16,
            vz: u16_at(p, 52) as i16,
            ind_airspeed: u16_at(p, 54),
            true_airspeed: u16_at(p, 56),
            xacc: u16_at(p, 58) as i16,
            yacc: u16_at(p, 60) as i16,
            zacc: u16_at(p, 62) as i16,
        }
    }

    open spec fn spec_serialize(&self) -> Seq<u8> {
        le64(self.time_usec) + le32s(self.attitude_quaternion@) + le32(self.rollspeed)
            + le32(self.pitchspeed) + le32(self.yawspeed) + le32(self.lat as u32)
            + le32(self.lon as u32) + le32(self.alt as u32) + le16(self.vx as u16)
            + le16(self.vy as u16) + le16(self.vz as u16) + le16(self.ind_airspeed)
            + le16(self.true_airspeed) + le16(self.xacc as u16) + le16(self.yacc as u16)
            + le16(self.zacc as u16)
    }

    fn parse(payload: &[u8]) -> HIL_STATE_QUATERNION_DATA {
        HIL_STATE_QUATERNION_DATA {
            time_usec: get_u64(payload, 0),
            attitude_quaternion: get_u32s(payload, 8),
            rollspeed: get_u32(payload, 24),
            pitchspeed: get_u32(payload, 28),
            yawspeed: get_u32(payload, 32),
            lat: get_i32(payload, 36),
            lon: get_i32(payload, 40),
            alt: get_i32(payload, 44),
            vx: get_i16(payload, 48),
            vy: get_i16(payload, 50),
            vz: get_i16(payload, 52),
            ind_airspeed: get_u16(payload, 54),
            true_airspeed: get_u16(payload, 56),
            xacc: get_i16(payload, 58),
            yacc: get_i16(payload, 60),
            zacc: get_i16(payload, 62),
        }
    }

    fn serialize(&self) -> Vec<u8> {
        let mut wtr = Vec::new();
        put_u64(&mut wtr, self.time_usec);
        assert(wtr@ =~= le64(self.time_usec));
        put_u32s(&mut wtr, &self.attitude_quaternion);
        put_u32(&mut wtr, self.rollspeed);
        put_u32(&mut wtr, self.pitchspeed);
        put_u32(&mut wtr, self.yawspeed);
        put_i32(&mut wtr, self.lat);
        put_i32(&mut wtr, self.lon);
        put_i32(&mut wtr, self.alt);
        put_i16(&mut wtr, self.vx);
        put_i16(&mut wtr, self.vy);
        put_i16(&mut wtr, self.vz);
        put_u16(&mut wtr, self.ind_airspeed);
        put_u16(&mut wtr, self.true_airspeed);
        put_i16(&mut wtr, self.xacc);
        put_i16(&mut wtr, self.yacc);
        put_i16(&mut wtr, self.zacc);
        wtr
    }

    proof fn lemma_roundtrip(&self) {
        let w = self.spec_serialize();
        let w0 = le64(self.time_usec);
        let w1 = w0 + le32s(self.attitude_quaternion@);
        let w2 = w1 + le32(self.rollspeed);
        let w3 = w2 + le32(self.pitchspeed);
        let w4 = w3 + le32(self.yawspeed);
        let w5 = w4 + le32(self.lat as u32);
        let w6 = w5 + le32(self.lon as u32);
        let w7 = w6 + le32(self.alt as u32);
        let w8 = w7 + le16(self.vx as u16);
        let w9 = w8 + le16(self.vy as u16);
        let w10 = w9 + le16(self.vz as u16);
        let w11 = w10 + le16(self.ind_airspeed);
        let w12 = w11 + le16(self.true_airspeed);
        let w13 = w12 + le16(self.xacc as u16);
        let w14 = w13 + le16(self.yacc as u16);
        lemma_whole(w, le64(self.time_usec));
        lemma_read_i16(w, w14, self.zacc);
        lemma_read_i16(w, w13, self.yacc);
        lemma_read_i16(w, w12, self.xacc);
        lemma_read_u16(w, w11, self.true_airspeed);
        lemma_read_u16(w, w10, self.ind_airspeed);
        lemma_read_i16(w, w9, self.vz);
        lemma_read_i16(w, w8, self.vy);
        lemma_read_i16(w, w7, self.vx);
        lemma_read_i32(w, w6, self.alt);
        lemma_read_i32(w, w5, self.lon);
        lemma_read_i32(w, w4, self.lat);
        lemma_read_u32(w, w3, self.yawspeed);
        lemma_read_u32(w, w2, self.pitchspeed);
        lemma_read_u32(w, w1, self.rollspeed);
        lemma_read_u32s(w, w0, self.attitude_quaternion);
        lemma_read_u64(w, Seq::empty(), self.time_usec);
    }
}

} // verus!
