//! Raw and scaled sensor readings, attitude and position (messages 24 to 36).

use crate::mavlink::Parsable;
use crate::wire::{
    Ieee32, array_of, get_i16, get_i32, get_u16, get_u32, get_u64, get_u8, get_u8s, le16, le32,
    le64, le8, lemma_read_i16, lemma_read_i32, lemma_read_u16, lemma_read_u32, lemma_read_u64,
    lemma_read_u8, lemma_read_u8s, lemma_whole, put_i16, put_i32, put_u16, put_u32, put_u64,
    put_u8, put_u8s, u16_at, u32_at, u64_at, u8s_at,
};
use vstd::prelude::*;

verus! {

/// `GPS_RAW_INT`, message 24: 30 payload bytes.
#[allow(non_camel_case_types)]
#[derive(Clone, Copy, Debug, PartialEq, Eq)]
pub struct GPS_RAW_INT_DATA {
    pub time_usec: u64,
    pub lat: i32,
    pub lon: i32,
    pub alt: i32,
    pub eph: u16,
    pub epv: u16,
    pub vel: u16,
    pub cog: u16,
    pub fix_type: u8,
    pub satellites_visible: u8,
}

impl Parsable for GPS_RAW_INT_DATA {
    open spec fn wire_len() -> nat {
        30
    }

    open spec fn spec_parse(p: Seq<u8>) -> GPS_RAW_INT_DATA {
        GPS_RAW_INT_DATA {
            time_usec: u64_at(p, 0),
            lat: u32_at(p, 8) as i32,
            lon: u32_at(p, 12) as i32,
            alt: u32_at(p, 16) as i32,
            eph: u16_at(p, 20),
            epv: u16_at(p, 22),
            vel: u16_at(p, 24),
            cog: u16_at(p, 26),
            fix_type: p[28],
            satellites_visible: p[29],
        }
    }

    open spec fn spec_serialize(&self) -> Seq<u8> {
        le64(self.time_usec) + le32(self.lat as u32) + le32(self.lon as u32)
            + le32(self.alt as u32) + le16(self.eph) + le16(self.epv) + le16(self.vel)
            + le16(self.cog) + le8(self.fix_type) + le8(self.satellites_visible)
    }

    fn parse(payload: &[u8]) -> GPS_RAW_INT_DATA {
        GPS_RAW_INT_DATA {
            time_usec: get_u64(payload, 0),
            lat: get_i32(payload, 8),
            lon: get_i32(payload, 12),
            alt: get_i32(payload, 16),
            eph: get_u16(payload, 20),
            epv: get_u16(payload, 22),
            vel: get_u16(payload, 24),
            cog: get_u16(payload, 26),
            fix_type: get_u8(payload, 28),
            satellites_visible: get_u8(payload, 29),
        }
    }

    fn serialize(&self) -> Vec<u8> {
        let mut wtr = Vec::new();
        put_u64(&mut wtr, self.time_usec);
        assert(wtr@ =~= le64(self.time_usec));
        put_i32(&mut wtr, self.lat);
        put_i32(&mut wtr, self.lon);
        put_i32(&mut wtr, self.alt);
        put_u16(&mut wtr, self.eph);
        put_u16(&mut wtr, self.epv);
        put_u16(&mut wtr, self.vel);
        put_u16(&mut wtr, self.cog);
        put_u8(&mut wtr, self.fix_type);
        put_u8(&mut wtr, self.satellites_visible);
        wtr
    }

    proof fn lemma_roundtrip(&self) {
        let w = self.spec_serialize();
        let w0 = le64(self.time_usec);
        let w1 = w0 + le32(self.lat as u32);
        let w2 = w1 + le32(self.lon as u32);
        let w3 = w2 + le32(self.alt as u32);
        let w4 = w3 + le16(self.eph);
        let w5 = w4 + le16(self.epv);
        let w6 = w5 + le16(self.vel);
        let w7 = w6 + le16(self.cog);
        let w8 = w7 + le8(self.fix_type);
        lemma_whole(w, le64(self.time_usec));
        lemma_read_u8(w, w8, self.satellites_visible);
        lemma_read_u8(w, w7, self.fix_type);
        lemma_read_u16(w, w6, self.cog);
        lemma_read_u16(w, w5, self.vel);
        lemma_read_u16(w, w4, self.epv);
        lemma_read_u16(w, w3, self.eph);
        lemma_read_i32(w, w2, self.alt);
        lemma_read_i32(w, w1, self.lon);
        lemma_read_i32(w, w0, self.lat);
        lemma_read_u64(w, Seq::empty(), self.time_usec);
    }
}

/// `GPS_STATUS`, message 25: 101 payload bytes.
#[allow(non_camel_case_types)]
#[derive(Clone, Copy, Debug, PartialEq, Eq)]
pub struct GPS_STATUS_DATA {
    pub satellites_visible: u8,
    pub satellite_prn: [u8; 20],
    pub satellite_used: [u8; 20],
    pub satellite_elevation: [u8; 20],
    pub satellite_azimuth: [u8; 20],
    pub satellite_snr: [u8; 20],
}

impl Parsable for GPS_STATUS_DATA {
    open spec fn wire_len() -> nat {
        101
    }

    open spec fn spec_parse(p: Seq<u8>) -> GPS_STATUS_DATA {
        GPS_STATUS_DATA {
            satellites_visible: p[0],
            satellite_prn: array_of(u8s_at(p, 1, 20)),
            satellite_used: array_of(u8s_at(p, 21, 20)),
            satellite_elevation: array_of(u8s_at(p, 41, 20)),
            satellite_azimuth: array_of(u8s_at(p, 61, 20)),
            satellite_snr: array_of(u8s_at(p, 81, 20)),
        }
    }

    open spec fn spec_serialize(&self) -> Seq<u8> {
        le8(self.satellites_visible) + self.satellite_prn@ + self.satellite_used@
            + self.satellite_elevation@ + self.satellite_azimuth@ + self.satellite_snr@
    }

    fn parse(payload: &[u8]) -> GPS_STATUS_DATA {
        GPS_STATUS_DATA {
            satellites_visible: get_u8(payload, 0),
            satellite_prn: get_u8s(payload, 1),
            satellite_used: get_u8s(payload, 21),
            satellite_elevation: get_u8s(payload, 41),
            satellite_azimuth: get_u8s(payload, 61),
            satellite_snr: get_u8s(payload, 81),
        }
    }

    fn serialize(&self) -> Vec<u8> {
        let mut wtr = Vec::new();
        put_u8(&mut wtr, self.satellites_visible);
        assert(wtr@ =~= le8(self.satellites_visible));
        put_u8s(&mut wtr, &self.satellite_prn);
        put_u8s(&mut wtr, &self.satellite_used);
        put_u8s(&mut wtr, &self.satellite_elevation);
        put_u8s(&mut wtr, &self.satellite_azimuth);
        put_u8s(&mut wtr, &self.satellite_snr);
        wtr
    }

    proof fn lemma_roundtrip(&self) {
        let w = self.spec_serialize();
        let w0 = le8(self.satellites_visible);
        let w1 = w0 + self.satellite_prn@;
        let w2 = w1 + self.satellite_used@;
        let w3 = w2 + self.satellite_elevation@;
        let w4 = w3 + self.satellite_azimuth@;
        lemma_whole(w, le8(self.satellites_visible));
        lemma_read_u8s(w, w4, self.satellite_snr);
        lemma_read_u8s(w, w3, self.satellite_azimuth);
        lemma_read_u8s(w, w2, self.satellite_elevation);
        lemma_read_u8s(w, w1, self.satellite_used);
        lemma_read_u8s(w, w0, self.satellite_prn);
        lemma_read_u8(w, Seq::empty(), self.satellites_visible);
    }
}

/// `SCALED_IMU`, message 26: 22 payload bytes.
#[allow(non_camel_case_types)]
#[derive(Clone, Copy, Debug, PartialEq, Eq)]
pub struct SCALED_IMU_DATA {
    pub time_boot_ms: u32,
    pub xacc: i16,
    pub yacc: i16,
    pub zacc: i16,
    pub xgyro: i16,
    pub ygyro: i16,
    pub zgyro: i16,
    pub xmag: i16,
    pub ymag: i16,
    pub zmag: i16,
}

impl Parsable for SCALED_IMU_DATA {
    open spec fn wire_len() -> nat {
        22
    }

    open spec fn spec_parse(p: Seq<u8>) -> SCALED_IMU_DATA {
        SCALED_IMU_DATA {
            time_boot_ms: u32_at(p, 0),
            xacc: u16_at(p, 4) as i16,
            yacc: u16_at(p, 6) as i16,
            zacc: u16_at(p, 8) as i16,
            xgyro: u16_at(p, 10) as i16,
            ygyro: u16_at(p, 12) as i16,
            zgyro: u16_at(p, 14) as i16,
            xmag: u16_at(p, 16) as i16,
            ymag: u16_at(p, 18) as i16,
            zmag: u16_at(p, 20) as i16,
        }
    }

    open spec fn spec_serialize(&self) -> Seq<u8> {
        le32(self.time_boot_ms) + le16(self.xacc as u16) + le16(self.yacc as u16)
            + le16(self.zacc as u16) + le16(self.xgyro as u16) + le16(self.ygyro as u16)
            + le16(self.zgyro as u16) + le16(self.xmag as u16) + le16(self.ymag as u16)
            + le16(self.zmag as u16)
    }

    fn parse(payload: &[u8]) -> SCALED_IMU_DATA {
        SCALED_IMU_DATA {
            time_boot_ms: get_u32(payload, 0),
            xacc: get_i16(payload, 4),
            yacc: get_i16(payload, 6),
            zacc: get_i16(payload, 8),
            xgyro: get_i16(payload, 10),
            ygyro: get_i16(payload, 12),
            zgyro: get_i16(payload, 14),
            xmag: get_i16(payload, 16),
            ymag: get_i16(payload, 18),
            zmag: get_i16(payload, 20),
        }
    }

    fn serialize(&self) -> Vec<u8> {
        let mut wtr = Vec::new();
        put_u32(&mut wtr, self.time_boot_ms);
        assert(wtr@ =~= le32(self.time_boot_ms));
        put_i16(&mut wtr, self.xacc);
        put_i16(&mut wtr, self.yacc);
        put_i16(&mut wtr, self.zacc);
        put_i16(&mut wtr, self.xgyro);
        put_i16(&mut wtr, self.ygyro);
        put_i16(&mut wtr, self.zgyro);
        put_i16(&mut wtr, self.xmag);
        put_i16(&mut wtr, self.ymag);
        put_i16(&mut wtr, self.zmag);
        wtr
    }

    proof fn lemma_roundtrip(&self) {
        let w = self.spec_serialize();
        let w0 = le32(self.time_boot_ms);
        let w1 = w0 + le16(self.xacc as u16);
        let w2 = w1 + le16(self.yacc as u16);
        let w3 = w2 + le16(self.zacc as u16);
        let w4 = w3 + le16(self.xgyro as u16);
        let w5 = w4 + le16(self.ygyro as u16);
        let w6 = w5 + le16(self.zgyro as u16);
        let w7 = w6 + le16(self.xmag as u16);
        let w8 = w7 + le16(self.ymag as u16);
        lemma_whole(w, le32(self.time_boot_ms));
        lemma_read_i16(w, w8, self.zmag);
        lemma_read_i16(w, w7, self.ymag);
        lemma_read_i16(w, w6, self.xmag);
        lemma_read_i16(w, w5, self.zgyro);
        lemma_read_i16(w, w4, self.ygyro);
        lemma_read_i16(w, w3, self.xgyro);
        lemma_read_i16(w, w2, self.zacc);
        lemma_read_i16(w, w1, self.yacc);
        lemma_read_i16(w, w0, self.xacc);
        lemma_read_u32(w, Seq::empty(), self.time_boot_ms);
    }
}

/// `RAW_IMU`, message 27: 26 payload bytes.
#[allow(non_camel_case_types)]
#[derive(Clone, Copy, Debug, PartialEq, Eq)]
pub struct RAW_IMU_DATA {
    pub time_usec: u64,
    pub xacc: i16,
    pub yacc: i16,
    pub zacc: i16,
    pub xgyro: i16,
    pub ygyro: i16,
    pub zgyro: i16,
    pub xmag: i16,
    pub ymag: i16,
    pub zmag: i16,
}

impl Parsable for RAW_IMU_DATA {
    open spec fn wire_len() -> nat {
        26
    }

    open spec fn spec_parse(p: Seq<u8>) -> RAW_IMU_DATA {
        RAW_IMU_DATA {
            time_usec: u64_at(p, 0),
            xacc: u16_at(p, 8) as i16,
            yacc: u16_at(p, 10) as i16,
            zacc: u16_at(p, 12) as i16,
            xgyro: u16_at(p, 14) as i16,
            ygyro: u16_at(p, 16) as i16,
            zgyro: u16_at(p, 18) as i16,
            xmag: u16_at(p, 20) as i16,
            ymag: u16_at(p, 22) as i16,
            zmag: u16_at(p, 24) as i16,
        }
    }

    open spec fn spec_serialize(&self) -> Seq<u8> {
        le64(self.time_usec) + le16(self.xacc as u16) + le16(self.yacc as u16)
            + le16(self.zacc as u16) + le16(self.xgyro as u16) + le16(self.ygyro as u16)
            + le16(self.zgyro as u16) + le16(self.xmag as u16) + le16(self.ymag as u16)
            + le16(self.zmag as u16)
    }

    fn parse(payload: &[u8]) -> RAW_IMU_DATA {
        RAW_IMU_DATA {
            time_usec: get_u64(payload, 0),
            xacc: get_i16(payload, 8),
            yacc: get_i16(payload, 10),
            zacc: get_i16(payload, 12),
            xgyro: get_i16(payload, 14),
            ygyro: get_i16(payload, 16),
            zgyro: get_i16(payload, 18),
            xmag: get_i16(payload, 20),
            ymag: get_i16(payload, 22),
            zmag: get_i16(payload, 24),
        }
    }

    fn serialize(&self) -> Vec<u8> {
        let mut wtr = Vec::new();
        put_u64(&mut wtr, self.time_usec);
        assert(wtr@ =~= le64(self.time_usec));
        put_i16(&mut wtr, self.xacc);
        put_i16(&mut wtr, self.yacc);
        put_i16(&mut wtr, self.zacc);
        put_i16(&mut wtr, self.xgyro);
        put_i16(&mut wtr, self.ygyro);
        put_i16(&mut wtr, self.zgyro);
        put_i16(&mut wtr, self.xmag);
        put_i16(&mut wtr, self.ymag);
        put_i16(&mut wtr, self.zmag);
        wtr
    }

    proof fn lemma_roundtrip(&self) {
        let w = self.spec_serialize();
        let w0 = le64(self.time_usec);
        let w1 = w0 + le16(self.xacc as u16);
        let w2 = w1 + le16(self.yacc as u16);
        let w3 = w2 + le16(self.zacc as u16);
        let w4 = w3 + le16(self.xgyro as u16);
        let w5 = w4 + le16(self.ygyro as u16);
        let w6 = w5 + le16(self.zgyro as u16);
        let w7 = w6 + le16(self.xmag as u16);
        let w8 = w7 + le16(self.ymag as u16);
        lemma_whole(w, le64(self.time_usec));
        lemma_read_i16(w, w8, self.zmag);
        lemma_read_i16(w, w7, self.ymag);
        lemma_read_i16(w, w6, self.xmag);
        lemma_read_i16(w, w5, self.zgyro);
        lemma_read_i16(w, w4, self.ygyro);
        lemma_read_i16(w, w3, self.xgyro);
        lemma_read_i16(w, w2, self.zacc);
        lemma_read_i16(w, w1, self.yacc);
        lemma_read_i16(w, w0, self.xacc);
        lemma_read_u64(w, Seq::empty(), self.time_usec);
    }
}

/// `RAW_PRESSURE`, message 28: 16 payload bytes.
#[allow(non_camel_case_types)]
#[derive(Clone, Copy, Debug, PartialEq, Eq)]
pub struct RAW_PRESSURE_DATA {
    pub time_usec: u64,
    pub press_abs: i16,
    pub press_diff1: i16,
    pub press_diff2: i16,
    pub temperature: i16,
}

impl Parsable for RAW_PRESSURE_DATA {
    open spec fn wire_len() -> nat {
        16
    }

    open spec fn spec_parse(p: Seq<u8>) -> RAW_PRESSURE_DATA {
        RAW_PRESSURE_DATA {
            time_usec: u64_at(p, 0),
            press_abs: u16_at(p, 8) as i16,
            press_diff1: u16_at(p, 10) as i16,
            press_diff2: u16_at(p, 12) as i16,
            temperature: u16_at(p, 14) as i16,
        }
    }

    open spec fn spec_serialize(&self) -> Seq<u8> {
        le64(self.time_usec) + le16(self.press_abs as u16) + le16(self.press_diff1 as u16)
            + le16(self.press_diff2 as u16) + le16(self.temperature as u16)
    }

    fn parse(payload: &[u8]) -> RAW_PRESSURE_DATA {
        RAW_PRESSURE_DATA {
            time_usec: get_u64(payload, 0),
            press_abs: get_i16(payload, 8),
            press_diff1: get_i16(payload, 10),
            press_diff2: get_i16(payload, 12),
            temperature: get_i16(payload, 14),
        }
    }

    fn serialize(&self) -> Vec<u8> {
        let mut wtr = Vec::new();
        put_u64(&mut wtr, self.time_usec);
        assert(wtr@ =~= le64(self.time_usec));
        put_i16(&mut wtr, self.press_abs);
        put_i16(&mut wtr, self.press_diff1);
        put_i16(&mut wtr, self.press_diff2);
        put_i16(&mut wtr, self.temperature);
        wtr
    }

    proof fn lemma_roundtrip(&self) {
        let w = self.spec_serialize();
        let w0 = le64(self.time_usec);
        let w1 = w0 + le16(self.press_abs as u16);
        let w2 = w1 + le16(self.press_diff1 as u16);
        let w3 = w2 + le16(self.press_diff2 as u16);
        lemma_whole(w, le64(self.time_usec));
        lemma_read_i16(w, w3, self.temperature);
        lemma_read_i16(w, w2, self.press_diff2);
        lemma_read_i16(w, w1, self.press_diff1);
        lemma_read_i16(w, w0, self.press_abs);
        lemma_read_u64(w, Seq::empty(), self.time_usec);
    }
}

/// `SCALED_PRESSURE`, message 29: 14 payload bytes.
#[allow(non_camel_case_types)]
#[derive(Clone, Copy, Debug, PartialEq, Eq)]
pub struct SCALED_PRESSURE_DATA {
    pub time_boot_ms: u32,
    pub press_abs: Ieee32,
    pub press_diff: Ieee32,
    pub temperature: i16,
}

impl Parsable for SCALED_PRESSURE_DATA {
    open spec fn wire_len() -> nat {
        14
    }

    open spec fn spec_parse(p: Seq<u8>) -> SCALED_PRESSURE_DATA {
        SCALED_PRESSURE_DATA {
            time_boot_ms: u32_at(p, 0),
            press_abs: u32_at(p, 4),
            press_diff: u32_at(p, 8),
            temperature: u16_at(p, 12) as i16,
        }
    }

    open spec fn spec_serialize(&self) -> Seq<u8> {
        le32(self.time_boot_ms) + le32(self.press_abs) + le32(self.press_diff)
            + le16(self.temperature as u16)
    }

    fn parse(payload: &[u8]) -> SCALED_PRESSURE_DATA {
        SCALED_PRESSURE_DATA {
            time_boot_ms: get_u32(payload, 0),
            press_abs: get_u32(payload, 4),
            press_diff: get_u32(payload, 8),
            temperature: get_i16(payload, 12),
        }
    }

    fn serialize(&self) -> Vec<u8> {
        let mut wtr = Vec::new();
        put_u32(&mut wtr, self.time_boot_ms);
        assert(wtr@ =~= le32(self.time_boot_ms));
        put_u32(&mut wtr, self.press_abs);
        put_u32(&mut wtr, self.press_diff);
        put_i16(&mut wtr, self.temperature);
        wtr
    }

    proof fn lemma_roundtrip(&self) {
        let w = self.spec_serialize();
        let w0 = le32(self.time_boot_ms);
        let w1 = w0 + le32(self.press_abs);
        let w2 = w1 + le32(self.press_diff);
        lemma_whole(w, le32(self.time_boot_ms));
        lemma_read_i16(w, w2, self.temperature);
        lemma_read_u32(w, w1, self.press_diff);
        lemma_read_u32(w, w0, self.press_abs);
        lemma_read_u32(w, Seq::empty(), self.time_boot_ms);
    }
}

/// `ATTITUDE`, message 30: 28 payload bytes.
#[allow(non_camel_case_types)]
#[derive(Clone, Copy, Debug, PartialEq, Eq)]
pub struct ATTITUDE_DATA {
    pub time_boot_ms: u32,
    pub roll: Ieee32,
    pub pitch: Ieee32,
    pub yaw: Ieee32,
    pub rollspeed: Ieee32,
    pub pitchspeed: Ieee32,
    pub yawspeed: Ieee32,
}

impl Parsable for ATTITUDE_DATA {
    open spec fn wire_len() -> nat {
        28
    }

    open spec fn spec_parse(p: Seq<u8>) -> ATTITUDE_DATA {
        ATTITUDE_DATA {
            time_boot_ms: u32_at(p, 0),
            roll: u32_at(p, 4),
            pitch: u32_at(p, 8),
            yaw: u32_at(p, 12),
            rollspeed: u32_at(p, 16),
            pitchspeed: u32_at(p, 20),
            yawspeed: u32_at(p, 24),
        }
    }

    open spec fn spec_serialize(&self) -> Seq<u8> {
        le32(self.time_boot_ms) + le32(self.roll) + le32(self.pitch) + le32(self.yaw)
            + le32(self.rollspeed) + le32(self.pitchspeed) + le32(self.yawspeed)
    }

    fn parse(payload: &[u8]) -> ATTITUDE_DATA {
        ATTITUDE_DATA {
            time_boot_ms: get_u32(payload, 0),
            roll: get_u32(payload, 4),
            pitch: get_u32(payload, 8),
            yaw: get_u32(payload, 12),
            rollspeed: get_u32(payload, 16),
            pitchspeed: get_u32(payload, 20),
            yawspeed: get_u32(payload, 24),
        }
    }

    fn serialize(&self) -> Vec<u8> {
        let mut wtr = Vec::new();
        put_u32(&mut wtr, self.time_boot_ms);
        assert(wtr@ =~= le32(self.time_boot_ms));
        put_u32(&mut wtr, self.roll);
        put_u32(&mut wtr, self.pitch);
        put_u32(&mut wtr, self.yaw);
        put_u32(&mut wtr, self.rollspeed);
        put_u32(&mut wtr, self.pitchspeed);
        put_u32(&mut wtr, self.yawspeed);
        wtr
    }

    proof fn lemma_roundtrip(&self) {
        let w = self.spec_serialize();
        let w0 = le32(self.time_boot_ms);
        let w1 = w0 + le32(self.roll);
        let w2 = w1 + le32(self.pitch);
        let w3 = w2 + le32(self.yaw);
        let w4 = w3 + le32(self.rollspeed);
        let w5 = w4 + le32(self.pitchspeed);
        lemma_whole(w, le32(self.time_boot_ms));
        lemma_read_u32(w, w5, self.yawspeed);
        lemma_read_u32(w, w4, self.pitchspeed);
        lemma_read_u32(w, w3, self.rollspeed);
        lemma_read_u32(w, w2, self.yaw);
        lemma_read_u32(w, w1, self.pitch);
        lemma_read_u32(w, w0, self.roll);
        lemma_read_u32(w, Seq::empty(), self.time_boot_ms);
    }
}

/// `ATTITUDE_QUATERNION`, message 31: 32 payload bytes.
#[allow(non_camel_case_types)]
#[derive(Clone, Copy, Debug, PartialEq, Eq)]
pub struct ATTITUDE_QUATERNION_DATA {
    pub time_boot_ms: u32,
    pub q1: Ieee32,
    pub q2: Ieee32,
    pub q3: Ieee32,
    pub q4: Ieee32,
    pub rollspeed: Ieee32,
    pub pitchspeed: Ieee32,
    pub yawspeed: Ieee32,
}

impl Parsable for ATTITUDE_QUATERNION_DATA {
    open spec fn wire_len() -> nat {
        32
    }

    open spec fn spec_parse(p: Seq<u8>) -> ATTITUDE_QUATERNION_DATA {
        ATTITUDE_QUATERNION_DATA {
            time_boot_ms: u32_at(p, 0),
            q1: u32_at(p, 4),
            q2: u32_at(p, 8),
            q3: u32_at(p, 12),
            q4: u32_at(p, 16),
            rollspeed: u32_at(p, 20),
            pitchspeed: u32_at(p, 24),
            yawspeed: u32_at(p, 28),
        }
    }

    open spec fn spec_serialize(&self) -> Seq<u8> {
        le32(self.time_boot_ms) + le32(self.q1) + le32(self.q2) + le32(self.q3) + le32(self.q4)
            + le32(self.rollspeed) + le32(self.pitchspeed) + le32(self.yawspeed)
    }

    fn parse(payload: &[u8]) -> ATTITUDE_QUATERNION_DATA {
        ATTITUDE_QUATERNION_DATA {
            time_boot_ms: get_u32(payload, 0),
            q1: get_u32(payload, 4),
            q2: get_u32(payload, 8),
            q3: get_u32(payload, 12),
            q4: get_u32(payload, 16),
            rollspeed: get_u32(payload, 20),
            pitchspeed: get_u32(payload, 24),
            yawspeed: get_u32(payload, 28),
        }
    }

    fn serialize(&self) -> Vec<u8> {
        let mut wtr = Vec::new();
        put_u32(&mut wtr, self.time_boot_ms);
        assert(wtr@ =~= le32(self.time_boot_ms));
        put_u32(&mut wtr, self.q1);
        put_u32(&mut wtr, self.q2);
        put_u32(&mut wtr, self.q3);
        put_u32(&mut wtr, self.q4);
        put_u32(&mut wtr, self.rollspeed);
        put_u32(&mut wtr, self.pitchspeed);
        put_u32(&mut wtr, self.yawspeed);
        wtr
    }

    proof fn lemma_roundtrip(&self) {
        let w = self.spec_serialize();
        let w0 = le32(self.time_boot_ms);
        let w1 = w0 + le32(self.q1);
        let w2 = w1 + le32(self.q2);
        let w3 = w2 + le32(self.q3);
        let w4 = w3 + le32(self.q4);
        let w5 = w4 + le32(self.rollspeed);
        let w6 = w5 + le32(self.pitchspeed);
        lemma_whole(w, le32(self.time_boot_ms));
        lemma_read_u32(w, w6, self.yawspeed);
        lemma_read_u32(w, w5, self.pitchspeed);
        lemma_read_u32(w, w4, self.rollspeed);
        lemma_read_u32(w, w3, self.q4);
        lemma_read_u32(w, w2, self.q3);
        lemma_read_u32(w, w1, self.q2);
        lemma_read_u32(w, w0, self.q1);
        lemma_read_u32(w, Seq::empty(), self.time_boot_ms);
    }
}

/// `LOCAL_POSITION_NED`, message 32: 28 payload bytes.
#[allow(non_camel_case_types)]
#[derive(Clone, Copy, Debug, PartialEq, Eq)]
pub struct LOCAL_POSITION_NED_DATA {
    pub time_boot_ms: u32,
    pub x: Ieee32,
    pub y: Ieee32,
    pub z: Ieee32,
    pub vx: Ieee32,
    pub vy: Ieee32,
    pub vz: Ieee32,
}

impl Parsable for LOCAL_POSITION_NED_DATA {
    open spec fn wire_len() -> nat {
        28
    }

    open spec fn spec_parse(p: Seq<u8>) -> LOCAL_POSITION_NED_DATA {
        LOCAL_POSITION_NED_DATA {
            time_boot_ms: u32_at(p, 0),
            x: u32_at(p, 4),
            y: u32_at(p, 8),
            z: u32_at(p, 12),
            vx: u32_at(p, 16),
            vy: u32_at(p, 20),
            vz: u32_at(p, 24),
        }
    }

    open spec fn spec_serialize(&self) -> Seq<u8> {
        le32(self.time_boot_ms) + le32(self.x) + le32(self.y) + le32(self.z) + le32(self.vx)
            + le32(self.vy) + le32(self.vz)
    }

    fn parse(payload: &[u8]) -> LOCAL_POSITION_NED_DATA {
        LOCAL_POSITION_NED_DATA {
            time_boot_ms: get_u32(payload, 0),
            x: get_u32(payload, 4),
            y: get_u32(payload, 8),
            z: get_u32(payload, 12),
            vx: get_u32(payload, 16),
            vy: get_u32(payload, 20),
            vz: get_u32(payload, 24),
        }
    }

    fn serialize(&self) -> Vec<u8> {
        let mut wtr = Vec::new();
        put_u32(&mut wtr, self.time_boot_ms);
        assert(wtr@ =~= le32(self.time_boot_ms));
        put_u32(&mut wtr, self.x);
        put_u32(&mut wtr, self.y);
        put_u32(&mut wtr, self.z);
        put_u32(&mut wtr, self.vx);
        put_u32(&mut wtr, self.vy);
        put_u32(&mut wtr, self.vz);
        wtr
    }

    proof fn lemma_roundtrip(&self) {
        let w = self.spec_serialize();
        let w0 = le32(self.time_boot_ms);
        let w1 = w0 + le32(self.x);
        let w2 = w1 + le32(self.y);
        let w3 = w2 + le32(self.z);
        let w4 = w3 + le32(self.vx);
        let w5 = w4 + le32(self.vy);
        lemma_whole(w, le32(self.time_boot_ms));
        lemma_read_u32(w, w5, self.vz);
        lemma_read_u32(w, w4, self.vy);
        lemma_read_u32(w, w3, self.vx);
        lemma_read_u32(w, w2, self.z);
        lemma_read_u32(w, w1, self.y);
        lemma_read_u32(w, w0, self.x);
        lemma_read_u32(w, Seq::empty(), self.time_boot_ms);
    }
}

/// `GLOBAL_POSITION_INT`, message 33: 28 payload bytes.
#[allow(non_camel_case_types)]
#[derive(Clone, Copy, Debug, PartialEq, Eq)]
pub struct GLOBAL_POSITION_INT_DATA {
    pub time_boot_ms: u32,
    pub lat: i32,
    pub lon: i32,
    pub alt: i32,
    pub relative_alt: i32,
    pub vx: i16,
    pub vy: i16,
    pub vz: i16,
    pub hdg: u16,
}

impl Parsable for GLOBAL_POSITION_INT_DATA {
    open spec fn wire_len() -> nat {
        28
    }

    open spec fn spec_parse(p: Seq<u8>) -> GLOBAL_POSITION_INT_DATA {
        GLOBAL_POSITION_INT_DATA {
            time_boot_ms: u32_at(p, 0),
            lat: u32_at(p, 4) as i32,
            lon: u32_at(p, 8) as i32,
            alt: u32_at(p, 12) as i32,
            relative_alt: u32_at(p, 16) as i32,
            vx: u16_at(p, 20) as i16,
            vy: u16_at(p, 22) as i16,
            vz: u16_at(p, 24) as i16,
            hdg: u16_at(p, 26),
        }
    }

    open spec fn spec_serialize(&self) -> Seq<u8> {
        le32(self.time_boot_ms) + le32(self.lat as u32) + le32(self.lon as u32)
            + le32(self.alt as u32) + le32(self.relative_alt as u32) + le16(self.vx as u16)
            + le16(self.vy as u16) + le16(self.vz as u16) + le16(self.hdg)
    }

    fn parse(payload: &[u8]) -> GLOBAL_POSITION_INT_DATA {
        GLOBAL_POSITION_INT_DATA {
            time_boot_ms: get_u32(payload, 0),
            lat: get_i32(payload, 4),
            lon: get_i32(payload, 8),
            alt: get_i32(payload, 12),
            relative_alt: get_i32(payload, 16),
            vx: get_i16(payload, 20),
            vy: get_i16(payload, 22),
            vz: get_i16(payload, 24),
            hdg: get_u16(payload, 26),
        }
    }

    fn serialize(&self) -> Vec<u8> {
        let mut wtr = Vec::new();
        put_u32(&mut wtr, self.time_boot_ms);
        assert(wtr@ =~= le32(self.time_boot_ms));
        put_i32(&mut wtr, self.lat);
        put_i32(&mut wtr, self.lon);
        put_i32(&mut wtr, self.alt);
        put_i32(&mut wtr, self.relative_alt);
        put_i16(&mut wtr, self.vx);
        put_i16(&mut wtr, self.vy);
        put_i16(&mut wtr, self.vz);
        put_u16(&mut wtr, self.hdg);
        wtr
    }

    proof fn lemma_roundtrip(&self) {
        let w = self.spec_serialize();
        let w0 = le32(self.time_boot_ms);
        let w1 = w0 + le32(self.lat as u32);
        let w2 = w1 + le32(self.lon as u32);
        let w3 = w2 + le32(self.alt as u32);
        let w4 = w3 + le32(self.relative_alt as u32);
        let w5 = w4 + le16(self.vx as u16);
        let w6 = w5 + le16(self.vy as u16);
        let w7 = w6 + le16(self.vz as u16);
        lemma_whole(w, le32(self.time_boot_ms));
        lemma_read_u16(w, w7, self.hdg);
        lemma_read_i16(w, w6, self.vz);
        lemma_read_i16(w, w5, self.vy);
        lemma_read_i16(w, w4, self.vx);
        lemma_read_i32(w, w3, self.relative_alt);
        lemma_read_i32(w, w2, self.alt);
        lemma_read_i32(w, w1, self.lon);
        lemma_read_i32(w, w0, self.lat);
        lemma_read_u32(w, Seq::empty(), self.time_boot_ms);
    }
}

/// `RC_CHANNELS_SCALED`, message 34: 22 payload bytes.
#[allow(non_camel_case_types)]
#[derive(Clone, Copy, Debug, PartialEq, Eq)]
pub struct RC_CHANNELS_SCALED_DATA {
    pub time_boot_ms: u32,
    pub chan1_scaled: i16,
    pub chan2_scaled: i16,
    pub chan3_scaled: i16,
    pub chan4_scaled: i16,
    pub chan5_scaled: i16,
    pub chan6_scaled: i16,
    pub chan7_scaled: i16,
    pub chan8_scaled: i16,
    pub port: u8,
    pub rssi: u8,
}

impl Parsable for RC_CHANNELS_SCALED_DATA {
    open spec fn wire_len() -> nat {
        22
    }

    open spec fn spec_parse(p: Seq<u8>) -> RC_CHANNELS_SCALED_DATA {
        RC_CHANNELS_SCALED_DATA {
            time_boot_ms: u32_at(p, 0),
            chan1_scaled: u16_at(p, 4) as i16,
            chan2_scaled: u16_at(p, 6) as i16,
            chan3_scaled: u16_at(p, 8) as i16,
            chan4_scaled: u16_at(p, 10) as i16,
            chan5_scaled: u16_at(p, 12) as i16,
            chan6_scaled: u16_at(p, 14) as i16,
            chan7_scaled: u16_at(p, 16) as i16,
            chan8_scaled: u16_at(p, 18) as i16,
            port: p[20],
            rssi: p[21],
        }
    }

    open spec fn spec_serialize(&self) -> Seq<u8> {
        le32(self.time_boot_ms) + le16(self.chan1_scaled as u16)
            + le16(self.chan2_scaled as u16) + le16(self.chan3_scaled as u16)
            + le16(self.chan4_scaled as u16) + le16(self.chan5_scaled as u16)
            + le16(self.chan6_scaled as u16) + le16(self.chan7_scaled as u16)
            + le16(self.chan8_scaled as u16) + le8(self.port) + le8(self.rssi)
    }

    fn parse(payload: &[u8]) -> RC_CHANNELS_SCALED_DATA {
        RC_CHANNELS_SCALED_DATA {
            time_boot_ms: get_u32(payload, 0),
            chan1_scaled: get_i16(payload, 4),
            chan2_scaled: get_i16(payload, 6),
            chan3_scaled: get_i16(payload, 8),
            chan4_scaled: get_i16(payload, 10),
            chan5_scaled: get_i16(payload, 12),
            chan6_scaled: get_i16(payload, 14),
            chan7_scaled: get_i16(payload, 16),
            chan8_scaled: get_i16(payload, 18),
            port: get_u8(payload, 20),
            rssi: get_u8(payload, 21),
        }
    }

    fn serialize(&self) -> Vec<u8> {
        let mut wtr = Vec::new();
        put_u32(&mut wtr, self.time_boot_ms);
        assert(wtr@ =~= le32(self.time_boot_ms));
        put_i16(&mut wtr, self.chan1_scaled);
        put_i16(&mut wtr, self.chan2_scaled);
        put_i16(&mut wtr, self.chan3_scaled);
        put_i16(&mut wtr, self.chan4_scaled);
        put_i16(&mut wtr, self.chan5_scaled);
        put_i16(&mut wtr, self.chan6_scaled);
        put_i16(&mut wtr, self.chan7_scaled);
        put_i16(&mut wtr, self.chan8_scaled);
        put_u8(&mut wtr, self.port);
        put_u8(&mut wtr, self.rssi);
        wtr
    }

    proof fn lemma_roundtrip(&self) {
        let w = self.spec_serialize();
        let w0 = le32(self.time_boot_ms);
        let w1 = w0 + le16(self.chan1_scaled as u16);
        let w2 = w1 + le16(self.chan2_scaled as u16);
        let w3 = w2 + le16(self.chan3_scaled as u16);
        let w4 = w3 + le16(self.chan4_scaled as u16);
        let w5 = w4 + le16(self.chan5_scaled as u16);
        let w6 = w5 + le16(self.chan6_scaled as u16);
        let w7 = w6 + le16(self.chan7_scaled as u16);
        let w8 = w7 + le16(self.chan8_scaled as u16);
        let w9 = w8 + le8(self.port);
        lemma_whole(w, le32(self.time_boot_ms));
        lemma_read_u8(w, w9, self.rssi);
        lemma_read_u8(w, w8, self.port);
        lemma_read_i16(w, w7, self.chan8_scaled);
        lemma_read_i16(w, w6, self.chan7_scaled);
        lemma_read_i16(w, w5, self.chan6_scaled);
        lemma_read_i16(w, w4, self.chan5_scaled);
        lemma_read_i16(w, w3, self.chan4_scaled);
        lemma_read_i16(w, w2, self.chan3_scaled);
        lemma_read_i16(w, w1, self.chan2_scaled);
        lemma_read_i16(w, w0, self.chan1_scaled);
        lemma_read_u32(w, Seq::empty(), self.time_boot_ms);
    }
}

/// `RC_CHANNELS_RAW`, message 35: 22 payload bytes.
#[allow(non_camel_case_types)]
#[derive(Clone, Copy, Debug, PartialEq, Eq)]
pub struct RC_CHANNELS_RAW_DATA {
    pub time_boot_ms: u32,
    pub chan1_raw: u16,
    pub chan2_raw: u16,
    pub chan3_raw: u16,
    pub chan4_raw: u16,
    pub chan5_raw: u16,
    pub chan6_raw: u16,
    pub chan7_raw: u16,
    pub chan8_raw: u16,
    pub port: u8,
    pub rssi: u8,
}

impl Parsable for RC_CHANNELS_RAW_DATA {
    open spec fn wire_len() -> nat {
        22
    }

    open spec fn spec_parse(p: Seq<u8>) -> RC_CHANNELS_RAW_DATA {
        RC_CHANNELS_RAW_DATA {
            time_boot_ms: u32_at(p, 0),
            chan1_raw: u16_at(p, 4),
            chan2_raw: u16_at(p, 6),
            chan3_raw: u16_at(p, 8),
            chan4_raw: u16_at(p, 10),
            chan5_raw: u16_at(p, 12),
            chan6_raw: u16_at(p, 14),
            chan7_raw: u16_at(p, 16),
            chan8_raw: u16_at(p, 18),
            port: p[20],
            rssi: p[21],
        }
    }

    open spec fn spec_serialize(&self) -> Seq<u8> {
        le32(self.time_boot_ms) + le16(self.chan1_raw) + le16(self.chan2_raw)
            + le16(self.chan3_raw) + le16(self.chan4_raw) + le16(self.chan5_raw)
            + le16(self.chan6_raw) + le16(self.chan7_raw) + le16(self.chan8_raw) + le8(self.port)
            + le8(self.rssi)
    }

    fn parse(payload: &[u8]) -> RC_CHANNELS_RAW_DATA {
        RC_CHANNELS_RAW_DATA {
            time_boot_ms: get_u32(payload, 0),
            chan1_raw: get_u16(payload, 4),
            chan2_raw: get_u16(payload, 6),
            chan3_raw: get_u16(payload, 8),
            chan4_raw: get_u16(payload, 10),
            chan5_raw: get_u16(payload, 12),
            chan6_raw: get_u16(payload, 14),
            chan7_raw: get_u16(payload, 16),
            chan8_raw: get_u16(payload, 18),
            port: get_u8(payload, 20),
            rssi: get_u8(payload, 21),
        }
    }

    fn serialize(&self) -> Vec<u8> {
        let mut wtr = Vec::new();
        put_u32(&mut wtr, self.time_boot_ms);
        assert(wtr@ =~= le32(self.time_boot_ms));
        put_u16(&mut wtr, self.chan1_raw);
        put_u16(&mut wtr, self.chan2_raw);
        put_u16(&mut wtr, self.chan3_raw);
        put_u16(&mut wtr, self.chan4_raw);
        put_u16(&mut wtr, self.chan5_raw);
        put_u16(&mut wtr, self.chan6_raw);
        put_u16(&mut wtr, self.chan7_raw);
        put_u16(&mut wtr, self.chan8_raw);
        put_u8(&mut wtr, self.port);
        put_u8(&mut wtr, self.rssi);
        wtr
    }

    proof fn lemma_roundtrip(&self) {
        let w = self.spec_serialize();
        let w0 = le32(self.time_boot_ms);
        let w1 = w0 + le16(self.chan1_raw);
        let w2 = w1 + le16(self.chan2_raw);
        let w3 = w2 + le16(self.chan3_raw);
        let w4 = w3 + le16(self.chan4_raw);
        let w5 = w4 + le16(self.chan5_raw);
        let w6 = w5 + le16(self.chan6_raw);
        let w7 = w6 + le16(self.chan7_raw);
        let w8 = w7 + le16(self.chan8_raw);
        let w9 = w8 + le8(self.port);
        lemma_whole(w, le32(self.time_boot_ms));
        lemma_read_u8(w, w9, self.rssi);
        lemma_read_u8(w, w8, self.port);
        lemma_read_u16(w, w7, self.chan8_raw);
        lemma_read_u16(w, w6, self.chan7_raw);
        lemma_read_u16(w, w5, self.chan6_raw);
        lemma_read_u16(w, w4, self.chan5_raw);
        lemma_read_u16(w, w3, self.chan4_raw);
        lemma_read_u16(w, w2, self.chan3_raw);
        lemma_read_u16(w, w1, self.chan2_raw);
        lemma_read_u16(w, w0, self.chan1_raw);
        lemma_read_u32(w, Seq::empty(), self.time_boot_ms);
    }
}

/// `SERVO_OUTPUT_RAW`, message 36: 21 payload bytes.
#[allow(non_camel_case_types)]
#[derive(Clone, Copy, Debug, PartialEq, Eq)]
pub struct SERVO_OUTPUT_RAW_DATA {
    pub time_usec: u32,
    pub servo1_raw: u16,
    pub servo2_raw: u16,
    pub servo3_raw: u16,
    pub servo4_raw: u16,
    pub servo5_raw: u16,
    pub servo6_raw: u16,
    pub servo7_raw: u16,
    pub servo8_raw: u16,
    pub port: u8,
}

impl Parsable for SERVO_OUTPUT_RAW_DATA {
    open spec fn wire_len() -> nat {
        21
    }

    open spec fn spec_parse(p: Seq<u8>) -> SERVO_OUTPUT_RAW_DATA {
        SERVO_OUTPUT_RAW_DATA {
            time_usec: u32_at(p, 0),
            servo1_raw: u16_at(p, 4),
            servo2_raw: u16_at(p, 6),
            servo3_raw: u16_at(p, 8),
            servo4_raw: u16_at(p, 10),
            servo5_raw: u16_at(p, 12),
            servo6_raw: u16_at(p, 14),
            servo7_raw: u16_at(p, 16),
            servo8_raw: u16_at(p, 18),
            port: p[20],
        }
    }

    open spec fn spec_serialize(&self) -> Seq<u8> {
        le32(self.time_usec) + le16(self.servo1_raw) + le16(self.servo2_raw)
            + le16(self.servo3_raw) + le16(self.servo4_raw) + le16(self.servo5_raw)
            + le16(self.servo6_raw) + le16(self.servo7_raw) + le16(self.servo8_raw) + le8(self.port)
    }

    fn parse(payload: &[u8]) -> SERVO_OUTPUT_RAW_DATA {
        SERVO_OUTPUT_RAW_DATA {
            time_usec: get_u32(payload, 0),
            servo1_raw: get_u16(payload, 4),
            servo2_raw: get_u16(payload, 6),
            servo3_raw: get_u16(payload, 8),
            servo4_raw: get_u16(payload, 10),
            servo5_raw: get_u16(payload, 12),
            servo6_raw: get_u16(payload, 14),
            servo7_raw: get_u16(payload, 16),
            servo8_raw: get_u16(payload, 18),
            port: get_u8(payload, 20),
        }
    }

    fn serialize(&self) -> Vec<u8> {
        let mut wtr = Vec::new();
        put_u32(&mut wtr, self.time_usec);
        assert(wtr@ =~= le32(self.time_usec));
        put_u16(&mut wtr, self.servo1_raw);
        put_u16(&mut wtr, self.servo2_raw);
        put_u16(&mut wtr, self.servo3_raw);
        put_u16(&mut wtr, self.servo4_raw);
        put_u16(&mut wtr, self.servo5_raw);
        put_u16(&mut wtr, self.servo6_raw);
        put_u16(&mut wtr, self.servo7_raw);
        put_u16(&mut wtr, self.servo8_raw);
        put_u8(&mut wtr, self.port);
        wtr
    }

    proof fn lemma_roundtrip(&self) {
        let w = self.spec_serialize();
        let w0 = le32(self.time_usec);
        let w1 = w0 + le16(self.servo1_raw);
        let w2 = w1 + le16(self.servo2_raw);
        let w3 = w2 + le16(self.servo3_raw);
        let w4 = w3 + le16(self.servo4_raw);
        let w5 = w4 + le16(self.servo5_raw);
        let w6 = w5 + le16(self.servo6_raw);
        let w7 = w6 + le16(self.servo7_raw);
        let w8 = w7 + le16(self.servo8_raw);
        lemma_whole(w, le32(self.time_usec));
        lemma_read_u8(w, w8, self.port);
        lemma_read_u16(w, w7, self.servo8_raw);
        lemma_read_u16(w, w6, self.servo7_raw);
        lemma_read_u16(w, w5, self.servo6_raw);
        lemma_read_u16(w, w4, self.servo5_raw);
        lemma_read_u16(w, w3, self.servo4_raw);
        lemma_read_u16(w, w2, self.servo3_raw);
        lemma_read_u16(w, w1, self.servo2_raw);
        lemma_read_u16(w, w0, self.servo1_raw);
        lemma_read_u32(w, Seq::empty(), self.time_usec);
    }
}

} // verus!
