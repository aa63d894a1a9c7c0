//! Logs, secondary sensors, data transfer and terrain (messages 116 to 135).

use crate::mavlink::Parsable;
use crate::wire::{
    array_of, get_i16, get_i16s, get_i32, get_u16, get_u32, get_u64, get_u8, get_u8s, i16s_at,
    le16, le16s_signed, le32, le64, le8, lemma_read_i16, lemma_read_i16s, lemma_read_i32,
    lemma_read_u16, lemma_read_u32, lemma_read_u64, lemma_read_u8, lemma_read_u8s, lemma_whole,
    put_i16, put_i16s, put_i32, put_u16, put_u32, put_u64, put_u8, put_u8s, u16_at, u32_at,
    u64_at, u8s_at,
};
use vstd::prelude::*;

verus! {

/// `SCALED_IMU2`, message 116: 22 payload bytes.
#[allow(non_camel_case_types)]
#[derive(Clone, Copy, Debug, PartialEq, Eq)]
pub struct SCALED_IMU2_DATA {
    pub time_boot_ms: u32,
    pub xacc: i16,
    pub yacc: i16,
    pub zacc: i16,
    pub xgyro: i16,
    pub ygyro: i16,
    pub zgyro: i16,
    pub xmag: i16,
    pub ymag: i16,
    pub zmag: i16,
}

impl Parsable for SCALED_IMU2_DATA {
    open spec fn wire_len() -> nat {
        22
    }

    open spec fn spec_parse(p: Seq<u8>) -> SCALED_IMU2_DATA {
        SCALED_IMU2_DATA {
            time_boot_ms: u32_at(p, 0),
            xacc: u16_at(p, 4) as i16,
            yacc: u16_at(p, 6) as i16,
            zacc: u16_at(p, 8) as i16,
            xgyro: u16_at(p, 10) as i16,
            ygyro: u16_at(p, 12) as i16,
            zgyro: u16_at(p, 14) as i16,
            xmag: u16_at(p, 16) as i16,
            ymag: u16_at(p, 18) as i16,
            zmag: u16_at(p, 20) as i16,
        }
    }

    open spec fn spec_serialize(&self) -> Seq<u8> {
        le32(self.time_boot_ms) + le16(self.xacc as u16) + le16(self.yacc as u16)
            + le16(self.zacc as u16) + le16(self.xgyro as u16) + le16(self.ygyro as u16)
            + le16(self.zgyro as u16) + le16(self.xmag as u16) + le16(self.ymag as u16)
            + le16(self.zmag as u16)
    }

    fn parse(payload: &[u8]) -> SCALED_IMU2_DATA {
        SCALED_IMU2_DATA {
            time_boot_ms: get_u32(payload, 0),
            xacc: get_i16(payload, 4),
            yacc: get_i16(payload, 6),
            zacc: get_i16(payload, 8),
            xgyro: get_i16(payload, 10),
            ygyro: get_i16(payload, 12),
            zgyro: get_i16(payload, 14),
            xmag: get_i16(payload, 16),
            ymag: get_i16(payload, 18),
            zmag: get_i16(payload, 20),
        }
    }

    fn serialize(&self) -> Vec<u8> {
        let mut wtr = Vec::new();
        put_u32(&mut wtr, self.time_boot_ms);
        assert(wtr@ =~= le32(self.time_boot_ms));
        put_i16(&mut wtr, self.xacc);
        put_i16(&mut wtr, self.yacc);
        put_i16(&mut wtr, self.zacc);
        put_i16(&mut wtr, self.xgyro);
        put_i16(&mut wtr, self.ygyro);
        put_i16(&mut wtr, self.zgyro);
        put_i16(&mut wtr, self.xmag);
        put_i16(&mut wtr, self.ymag);
        put_i16(&mut wtr, self.zmag);
        wtr
    }

    proof fn lemma_roundtrip(&self) {
        let w = self.spec_serialize();
        let w0 = le32(self.time_boot_ms);
        let w1 = w0 + le16(self.xacc as u16);
        let w2 = w1 + le16(self.yacc as u16);
        let w3 = w2 + le16(self.zacc as u16);
        let w4 = w3 + le16(self.xgyro as u16);
        let w5 = w4 + le16(self.ygyro as u16);
        let w6 = w5 + le16(self.zgyro as u16);
        let w7 = w6 + le16(self.xmag as u16);
        let w8 = w7 + le16(self.ymag as u16);
        lemma_whole(w, le32(self.time_boot_ms));
        lemma_read_i16(w, w8, self.zmag);
        lemma_read_i16(w, w7, self.ymag);
        lemma_read_i16(w, w6, self.xmag);
        lemma_read_i16(w, w5, self.zgyro);
        lemma_read_i16(w, w4, self.ygyro);
        lemma_read_i16(w, w3, self.xgyro);
        lemma_read_i16(w, w2, self.zacc);
        lemma_read_i16(w, w1, self.yacc);
        lemma_read_i16(w, w0, self.xacc);
        lemma_read_u32(w, Seq::empty(), self.time_boot_ms);
    }
}

/// `LOG_REQUEST_LIST`, message 117: 6 payload bytes.
#[allow(non_camel_case_types)]
#[derive(Clone, Copy, Debug, PartialEq, Eq)]
pub struct LOG_REQUEST_LIST_DATA {
    pub start: u16,
    pub end: u16,
    pub target_system: u8,
    pub target_component: u8,
}

impl Parsable for LOG_REQUEST_LIST_DATA {
    open spec fn wire_len() -> nat {
        6
    }

    open spec fn spec_parse(p: Seq<u8>) -> LOG_REQUEST_LIST_DATA {
        LOG_REQUEST_LIST_DATA {
            start: u16_at(p, 0),
            end: u16_at(p, 2),
            target_system: p[4],
            target_component: p[5],
        }
    }

    open spec fn spec_serialize(&self) -> Seq<u8> {
        le16(self.start) + le16(self.end) + le8(self.target_system) + le8(self.target_component)
    }

    fn parse(payload: &[u8]) -> LOG_REQUEST_LIST_DATA {
        LOG_REQUEST_LIST_DATA {
            start: get_u16(payload, 0),
            end: get_u16(payload, 2),
            target_system: get_u8(payload, 4),
            target_component: get_u8(payload, 5),
        }
    }

    fn serialize(&self) -> Vec<u8> {
        let mut wtr = Vec::new();
        put_u16(&mut wtr, self.start);
        assert(wtr@ =~= le16(self.start));
        put_u16(&mut wtr, self.end);
        put_u8(&mut wtr, self.target_system);
        put_u8(&mut wtr, self.target_component);
        wtr
    }

    proof fn lemma_roundtrip(&self) {
        let w = self.spec_serialize();
        let w0 = le16(self.start);
        let w1 = w0 + le16(self.end);
        let w2 = w1 + le8(self.target_system);
        lemma_whole(w, le16(self.start));
        lemma_read_u8(w, w2, self.target_component);
        lemma_read_u8(w, w1, self.target_system);
        lemma_read_u16(w, w0, self.end);
        lemma_read_u16(w, Seq::empty(), self.start);
    }
}

/// `LOG_ENTRY`, message 118: 14 payload bytes.
#[allow(non_camel_case_types)]
#[derive(Clone, Copy, Debug, PartialEq, Eq)]
pub struct LOG_ENTRY_DATA {
    pub time_utc: u32,
    pub size: u32,
    pub id: u16,
    pub num_logs: u16,
    pub last_log_num: u16,
}

impl Parsable for LOG_ENTRY_DATA {
    open spec fn wire_len() -> nat {
        14
    }

    open spec fn spec_parse(p: Seq<u8>) -> LOG_ENTRY_DATA {
        LOG_ENTRY_DATA {
            time_utc: u32_at(p, 0),
            size: u32_at(p, 4),
            id: u16_at(p, 8),
            num_logs: u16_at(p, 10),
            last_log_num: u16_at(p, 12),
        }
    }

    open spec fn spec_serialize(&self) -> Seq<u8> {
        le32(self.time_utc) + le32(self.size) + le16(self.id) + le16(self.num_logs)
            + le16(self.last_log_num)
    }

    fn parse(payload: &[u8]) -> LOG_ENTRY_DATA {
        LOG_ENTRY_DATA {
            time_utc: get_u32(payload, 0),
            size: get_u32(payload, 4),
            id: get_u16(payload, 8),
            num_logs: get_u16(payload, 10),
            last_log_num: get_u16(payload, 12),
        }
    }

    fn serialize(&self) -> Vec<u8> {
        let mut wtr = Vec::new();
        put_u32(&mut wtr, self.time_utc);
        assert(wtr@ =~= le32(self.time_utc));
        put_u32(&mut wtr, self.size);
        put_u16(&mut wtr, self.id);
        put_u16(&mut wtr, self.num_logs);
        put_u16(&mut wtr, self.last_log_num);
        wtr
    }

    proof fn lemma_roundtrip(&self) {
        let w = self.spec_serialize();
        let w0 = le32(self.time_utc);
        let w1 = w0 + le32(self.size);
        let w2 = w1 + le16(self.id);
        let w3 = w2 + le16(self.num_logs);
        lemma_whole(w, le32(self.time_utc));
        lemma_read_u16(w, w3, self.last_log_num);
        lemma_read_u16(w, w2, self.num_logs);
        lemma_read_u16(w, w1, self.id);
        lemma_read_u32(w, w0, self.size);
        lemma_read_u32(w, Seq::empty(), self.time_utc);
    }
}

/// `LOG_REQUEST_DATA`, message 119: 12 payload bytes.
#[allow(non_camel_case_types)]
#[derive(Clone, Copy, Debug, PartialEq, Eq)]
pub struct LOG_REQUEST_DATA_DATA {
    pub ofs: u32,
    pub count: u32,
    pub id: u16,
    pub target_system: u8,
    pub target_component: u8,
}

impl Parsable for LOG_REQUEST_DATA_DATA {
    open spec fn wire_len() -> nat {
        12
    }

    open spec fn spec_parse(p: Seq<u8>) -> LOG_REQUEST_DATA_DATA {
        LOG_REQUEST_DATA_DATA {
            ofs: u32_at(p, 0),
            count: u32_at(p, 4),
            id: u16_at(p, 8),
            target_system: p[10],
            target_component: p[11],
        }
    }

    open spec fn spec_serialize(&self) -> Seq<u8> {
        le32(self.ofs) + le32(self.count) + le16(self.id) + le8(self.target_system)
            + le8(self.target_component)
    }

    fn parse(payload: &[u8]) -> LOG_REQUEST_DATA_DATA {
        LOG_REQUEST_DATA_DATA {
            ofs: get_u32(payload, 0),
            count: get_u32(payload, 4),
            id: get_u16(payload, 8),
            target_system: get_u8(payload, 10),
            target_component: get_u8(payload, 11),
        }
    }

    fn serialize(&self) -> Vec<u8> {
        let mut wtr = Vec::new();
        put_u32(&mut wtr, self.ofs);
        assert(wtr@ =~= le32(self.ofs));
        put_u32(&mut wtr, self.count);
        put_u16(&mut wtr, self.id);
        put_u8(&mut wtr, self.target_system);
        put_u8(&mut wtr, self.target_component);
        wtr
    }

    proof fn lemma_roundtrip(&self) {
        let w = self.spec_serialize();
        let w0 = le32(self.ofs);
        let w1 = w0 + le32(self.count);
        let w2 = w1 + le16(self.id);
        let w3 = w2 + le8(self.target_system);
        lemma_whole(w, le32(self.ofs));
        lemma_read_u8(w, w3, self.target_component);
        lemma_read_u8(w, w2, self.target_system);
        lemma_read_u16(w, w1, self.id);
        lemma_read_u32(w, w0, self.count);
        lemma_read_u32(w, Seq::empty(), self.ofs);
    }
}

/// `LOG_DATA`, message 120: 97 payload bytes.
#[allow(non_camel_case_types)]
#[derive(Clone, Copy, Debug, PartialEq, Eq)]
pub struct LOG_DATA_DATA {
    pub ofs: u32,
    pub id: u16,
    pub count: u8,
    pub data: [u8; 90],
}

impl Parsable for LOG_DATA_DATA {
    open spec fn wire_len() -> nat {
        97
    }

    open spec fn spec_parse(p: Seq<u8>) -> LOG_DATA_DATA {
        LOG_DATA_DATA {
            ofs: u32_at(p, 0),
            id: u16_at(p, 4),
            count: p[6],
            data: array_of(u8s_at(p, 7, 90)),
        }
    }

    open spec fn spec_serialize(&self) -> Seq<u8> {
        le32(self.ofs) + le16(self.id) + le8(self.count) + self.data@
    }

    fn parse(payload: &[u8]) -> LOG_DATA_DATA {
        LOG_DATA_DATA {
            ofs: get_u32(payload, 0),
            id: get_u16(payload, 4),
            count: get_u8(payload, 6),
            data: get_u8s(payload, 7),
        }
    }

    fn serialize(&self) -> Vec<u8> {
        let mut wtr = Vec::new();
        put_u32(&mut wtr, self.ofs);
        assert(wtr@ =~= le32(self.ofs));
        put_u16(&mut wtr, self.id);
        put_u8(&mut wtr, self.count);
        put_u8s(&mut wtr, &self.data);
        wtr
    }

    proof fn lemma_roundtrip(&self) {
        let w = self.spec_serialize();
        let w0 = le32(self.ofs);
        let w1 = w0 + le16(self.id);
        let w2 = w1 + le8(self.count);
        lemma_whole(w, le32(self.ofs));
        lemma_read_u8s(w, w2, self.data);
        lemma_read_u8(w, w1, self.count);
        lemma_read_u16(w, w0, self.id);
        lemma_read_u32(w, Seq::empty(), self.ofs);
    }
}

/// `LOG_ERASE`, message 121: 2 payload bytes.
#[allow(non_camel_case_types)]
#[derive(Clone, Copy, Debug, PartialEq, Eq)]
pub struct LOG_ERASE_DATA {
    pub target_system: u8,
    pub target_component: u8,
}

impl Parsable for LOG_ERASE_DATA {
    open spec fn wire_len() -> nat {
        2
    }

    open spec fn spec_parse(p: Seq<u8>) -> LOG_ERASE_DATA {
        LOG_ERASE_DATA {
            target_system: p[0],
            target_component: p[1],
        }
    }

    open spec fn spec_serialize(&self) -> Seq<u8> {
        le8(self.target_system) + le8(self.target_component)
    }

    fn parse(payload: &[u8]) -> LOG_ERASE_DATA {
        LOG_ERASE_DATA {
            target_system: get_u8(payload, 0),
            target_component: get_u8(payload, 1),
        }
    }

    fn serialize(&self) -> Vec<u8> {
        let mut wtr = Vec::new();
        put_u8(&mut wtr, self.target_system);
        assert(wtr@ =~= le8(self.target_system));
        put_u8(&mut wtr, self.target_component);
        wtr
    }

    proof fn lemma_roundtrip(&self) {
        let w = self.spec_serialize();
        let w0 = le8(self.target_system);
        lemma_whole(w, le8(self.target_system));
        lemma_read_u8(w, w0, self.target_component);
        lemma_read_u8(w, Seq::empty(), self.target_system);
    }
}

/// `LOG_REQUEST_END`, message 122: 2 payload bytes.
#[allow(non_camel_case_types)]
#[derive(Clone, Copy, Debug, PartialEq, Eq)]
pub struct LOG_REQUEST_END_DATA {
    pub target_system: u8,
    pub target_component: u8,
}

impl Parsable for LOG_REQUEST_END_DATA {
    open spec fn wire_len() -> nat {
        2
    }

    open spec fn spec_parse(p: Seq<u8>) -> LOG_REQUEST_END_DATA {
        LOG_REQUEST_END_DATA {
            target_system: p[0],
            target_component: p[1],
        }
    }

    open spec fn spec_serialize(&self) -> Seq<u8> {
        le8(self.target_system) + le8(self.target_component)
    }

    fn parse(payload: &[u8]) -> LOG_REQUEST_END_DATA {
        LOG_REQUEST_END_DATA {
            target_system: get_u8(payload, 0),
            target_component: get_u8(payload, 1),
        }
    }

    fn serialize(&self) -> Vec<u8> {
        let mut wtr = Vec::new();
        put_u8(&mut wtr, self.target_system);
        assert(wtr@ =~= le8(self.target_system));
        put_u8(&mut wtr, self.target_component);
        wtr
    }

    proof fn lemma_roundtrip(&self) {
        let w = self.spec_serialize();
        let w0 = le8(self.target_system);
        lemma_whole(w, le8(self.target_system));
        lemma_read_u8(w, w0, self.target_component);
        lemma_read_u8(w, Seq::empty(), self.target_system);
    }
}

/// `GPS_INJECT_DATA`, message 123: 113 payload bytes.
#[allow(non_camel_case_types)]
#[derive(Clone, Copy, Debug, PartialEq, Eq)]
pub struct GPS_INJECT_DATA_DATA {
    pub target_system: u8,
    pub target_component: u8,
    pub len: u8,
    pub data: [u8; 110],
}

impl Parsable for GPS_INJECT_DATA_DATA {
    open spec fn wire_len() -> nat {
        113
    }

    open spec fn spec_parse(p: Seq<u8>) -> GPS_INJECT_DATA_DATA {
        GPS_INJECT_DATA_DATA {
            target_system: p[0],
            target_component: p[1],
            len: p[2],
            data: array_of(u8s_at(p, 3, 110)),
        }
    }

    open spec fn spec_serialize(&self) -> Seq<u8> {
        le8(self.target_system) + le8(self.target_component) + le8(self.len) + self.data@
    }

    fn parse(payload: &[u8]) -> GPS_INJECT_DATA_DATA {
        GPS_INJECT_DATA_DATA {
            target_system: get_u8(payload, 0),
            target_component: get_u8(payload, 1),
            len: get_u8(payload, 2),
            data: get_u8s(payload, 3),
        }
    }

    fn serialize(&self) -> Vec<u8> {
        let mut wtr = Vec::new();
        put_u8(&mut wtr, self.target_system);
        assert(wtr@ =~= le8(self.target_system));
        put_u8(&mut wtr, self.target_component);
        put_u8(&mut wtr, self.len);
        put_u8s(&mut wtr, &self.data);
        wtr
    }

    proof fn lemma_roundtrip(&self) {
        let w = self.spec_serialize();
        let w0 = le8(self.target_system);
        let w1 = w0 + le8(self.target_component);
        let w2 = w1 + le8(self.len);
        lemma_whole(w, le8(self.target_system));
        lemma_read_u8s(w, w2, self.data);
        lemma_read_u8(w, w1, self.len);
        lemma_read_u8(w, w0, self.target_component);
        lemma_read_u8(w, Seq::empty(), self.target_system);
    }
}

/// `GPS2_RAW`, message 124: 35 payload bytes.
#[allow(non_camel_case_types)]
#[derive(Clone, Copy, Debug, PartialEq, Eq)]
pub struct GPS2_RAW_DATA {
    pub time_usec: u64,
    pub lat: i32,
    pub lon: i32,
    pub alt: i32,
    pub dgps_age: u32,
    pub eph: u16,
    pub epv: u16,
    pub vel: u16,
    pub cog: u16,
    pub fix_type: u8,
    pub satellites_visible: u8,
    pub dgps_numch: u8,
}

impl Parsable for GPS2_RAW_DATA {
    open spec fn wire_len() -> nat {
        35
    }

    open spec fn spec_parse(p: Seq<u8>) -> GPS2_RAW_DATA {
        GPS2_RAW_DATA {
            time_usec: u64_at(p, 0),
            lat: u32_at(p, 8) as i32,
            lon: u32_at(p, 12) as i32,
            alt: u32_at(p, 16) as i32,
            dgps_age: u32_at(p, 20),
            eph: u16_at(p, 24),
            epv: u16_at(p, 26),
            vel: u16_at(p, 28),
            cog: u16_at(p, 30),
            fix_type: p[32],
            satellites_visible: p[33],
            dgps_numch: p[34],
        }
    }

    open spec fn spec_serialize(&self) -> Seq<u8> {
        le64(self.time_usec) + le32(self.lat as u32) + le32(self.lon as u32)
            + le32(self.alt as u32) + le32(self.dgps_age) + le16(self.eph) + le16(self.epv)
            + le16(self.vel) + le16(self.cog) + le8(self.fix_type) + le8(self.satellites_visible)
            + le8(self.dgps_numch)
    }

    fn parse(payload: &[u8]) -> GPS2_RAW_DATA {
        GPS2_RAW_DATA {
            time_usec: get_u64(payload, 0),
            lat: get_i32(payload, 8),
            lon: get_i32(payload, 12),
            alt: get_i32(payload, 16),
            dgps_age: get_u32(payload, 20),
            eph: get_u16(payload, 24),
            epv: get_u16(payload, 26),
            vel: get_u16(payload, 28),
            cog: get_u16(payload, 30),
            fix_type: get_u8(payload, 32),
            satellites_visible: get_u8(payload, 33),
            dgps_numch: get_u8(payload, 34),
        }
    }

    fn serialize(&self) -> Vec<u8> {
        let mut wtr = Vec::new();
        put_u64(&mut wtr, self.time_usec);
        assert(wtr@ =~= le64(self.time_usec));
        put_i32(&mut wtr, self.lat);
        put_i32(&mut wtr, self.lon);
        put_i32(&mut wtr, self.alt);
        put_u32(&mut wtr, self.dgps_age);
        put_u16(&mut wtr, self.eph);
        put_u16(&mut wtr, self.epv);
        put_u16(&mut wtr, self.vel);
        put_u16(&mut wtr, self.cog);
        put_u8(&mut wtr, self.fix_type);
        put_u8(&mut wtr, self.satellites_visible);
        put_u8(&mut wtr, self.dgps_numch);
        wtr
    }

    proof fn lemma_roundtrip(&self) {
        let w = self.spec_serialize();
        let w0 = le64(self.time_usec);
        let w1 = w0 + le32(self.lat as u32);
        let w2 = w1 + le32(self.lon as u32);
        let w3 = w2 + le32(self.alt as u32);
        let w4 = w3 + le32(self.dgps_age);
        let w5 = w4 + le16(self.eph);
        let w6 = w5 + le16(self.epv);
        let w7 = w6 + le16(self.vel);
        let w8 = w7 + le16(self.cog);
        let w9 = w8 + le8(self.fix_type);
        let w10 = w9 + le8(self.satellites_visible);
        lemma_whole(w, le64(self.time_usec));
        lemma_read_u8(w, w10, self.dgps_numch);
        lemma_read_u8(w, w9, self.satellites_visible);
        lemma_read_u8(w, w8, self.fix_type);
        lemma_read_u16(w, w7, self.cog);
        lemma_read_u16(w, w6, self.vel);
        lemma_read_u16(w, w5, self.epv);
        lemma_read_u16(w, w4, self.eph);
        lemma_read_u32(w, w3, self.dgps_age);
        lemma_read_i32(w, w2, self.alt);
        lemma_read_i32(w, w1, self.lon);
        lemma_read_i32(w, w0, self.lat);
        lemma_read_u64(w, Seq::empty(), self.time_usec);
    }
}

/// `POWER_STATUS`, message 125: 6 payload bytes.
#[allow(non_camel_case_types)]
#[derive(Clone, Copy, Debug, PartialEq, Eq)]
pub struct POWER_STATUS_DATA {
    pub Vcc: u16,
    pub Vservo: u16,
    pub flags: u16,
}

impl Parsable for POWER_STATUS_DATA {
    open spec fn wire_len() -> nat {
        6
    }

    open spec fn spec_parse(p: Seq<u8>) -> POWER_STATUS_DATA {
        POWER_STATUS_DATA {
            Vcc: u16_at(p, 0),
            Vservo: u16_at(p, 2),
            flags: u16_at(p, 4),
        }
    }

    open spec fn spec_serialize(&self) -> Seq<u8> {
        le16(self.Vcc) + le16(self.Vservo) + le16(self.flags)
    }

    fn parse(payload: &[u8]) -> POWER_STATUS_DATA {
        POWER_STATUS_DATA {
            Vcc: get_u16(payload, 0),
            Vservo: get_u16(payload, 2),
            flags: get_u16(payload, 4),
        }
    }

    fn serialize(&self) -> Vec<u8> {
        let mut wtr = Vec::new();
        put_u16(&mut wtr, self.Vcc);
        assert(wtr@ =~= le16(self.Vcc));
        put_u16(&mut wtr, self.Vservo);
        put_u16(&mut wtr, self.flags);
        wtr
    }

    proof fn lemma_roundtrip(&self) {
        let w = self.spec_serialize();
        let w0 = le16(self.Vcc);
        let w1 = w0 + le16(self.Vservo);
        lemma_whole(w, le16(self.Vcc));
        lemma_read_u16(w, w1, self.flags);
        lemma_read_u16(w, w0, self.Vservo);
        lemma_read_u16(w, Seq::empty(), self.Vcc);
    }
}

/// `SERIAL_CONTROL`, message 126: 79 payload bytes.
#[allow(non_camel_case_types)]
#[derive(Clone, Copy, Debug, PartialEq, Eq)]
pub struct SERIAL_CONTROL_DATA {
    pub baudrate: u32,
    pub timeout: u16,
    pub device: u8,
    pub flags: u8,
    pub count: u8,
    pub data: [u8; 70],
}

impl Parsable for SERIAL_CONTROL_DATA {
    open spec fn wire_len() -> nat {
        79
    }

    open spec fn spec_parse(p: Seq<u8>) -> SERIAL_CONTROL_DATA {
        SERIAL_CONTROL_DATA {
            baudrate: u32_at(p, 0),
            timeout: u16_at(p, 4),
            device: p[6],
            flags: p[7],
            count: p[8],
            data: array_of(u8s_at(p, 9, 70)),
        }
    }

    open spec fn spec_serialize(&self) -> Seq<u8> {
        le32(self.baudrate) + le16(self.timeout) + le8(self.device) + le8(self.flags)
            + le8(self.count) + self.data@
    }

    fn parse(payload: &[u8]) -> SERIAL_CONTROL_DATA {
        SERIAL_CONTROL_DATA {
            baudrate: get_u32(payload, 0),
            timeout: get_u16(payload, 4),
            device: get_u8(payload, 6),
            flags: get_u8(payload, 7),
            count: get_u8(payload, 8),
            data: get_u8s(payload, 9),
        }
    }

    fn serialize(&self) -> Vec<u8> {
        let mut wtr = Vec::new();
        put_u32(&mut wtr, self.baudrate);
        assert(wtr@ =~= le32(self.baudrate));
        put_u16(&mut wtr, self.timeout);
        put_u8(&mut wtr, self.device);
        put_u8(&mut wtr, self.flags);
        put_u8(&mut wtr, self.count);
        put_u8s(&mut wtr, &self.data);
        wtr
    }

    proof fn lemma_roundtrip(&self) {
        let w = self.spec_serialize();
        let w0 = le32(self.baudrate);
        let w1 = w0 + le16(self.timeout);
        let w2 = w1 + le8(self.device);
        let w3 = w2 + le8(self.flags);
        let w4 = w3 + le8(self.count);
        lemma_whole(w, le32(self.baudrate));
        lemma_read_u8s(w, w4, self.data);
        lemma_read_u8(w, w3, self.count);
        lemma_read_u8(w, w2, self.flags);
        lemma_read_u8(w, w1, self.device);
        lemma_read_u16(w, w0, self.timeout);
        lemma_read_u32(w, Seq::empty(), self.baudrate);
    }
}

/// `GPS_RTK`, message 127: 35 payload bytes.
#[allow(non_camel_case_types)]
#[derive(Clone, Copy, Debug, PartialEq, Eq)]
pub struct GPS_RTK_DATA {
    pub time_last_baseline_ms: u32,
    pub tow: u32,
    pub baseline_a_mm: i32,
    pub baseline_b_mm: i32,
    pub baseline_c_mm: i32,
    pub accuracy: u32,
    pub iar_num_hypotheses: i32,
    pub wn: u16,
    pub rtk_receiver_id: u8,
    pub rtk_health: u8,
    pub rtk_rate: u8,
    pub nsats: u8,
    pub baseline_coords_type: u8,
}

impl Parsable for GPS_RTK_DATA {
    open spec fn wire_len() -> nat {
        35
    }

    open spec fn spec_parse(p: Seq<u8>) -> GPS_RTK_DATA {
        GPS_RTK_DATA {
            time_last_baseline_ms: u32_at(p, 0),
            tow: u32_at(p, 4),
            baseline_a_mm: u32_at(p, 8) as i32,
            baseline_b_mm: u32_at(p, 12) as i32,
            baseline_c_mm: u32_at(p, 16) as i32,
            accuracy: u32_at(p, 20),
            iar_num_hypotheses: u32_at(p, 24) as i32,
            wn: u16_at(p, 28),
            rtk_receiver_id: p[30],
            rtk_health: p[31],
            rtk_rate: p[32],
            nsats: p[33],
            baseline_coords_type: p[34],
        }
    }

    open spec fn spec_serialize(&self) -> Seq<u8> {
        le32(self.time_last_baseline_ms) + le32(self.tow) + le32(self.baseline_a_mm as u32)
            + le32(self.baseline_b_mm as u32) + le32(self.baseline_c_mm as u32)
            + le32(self.accuracy) + le32(self.iar_num_hypotheses as u32) + le16(self.wn)
            + le8(self.rtk_receiver_id) + le8(self.rtk_health) + le8(self.rtk_rate)
            + le8(self.nsats) + le8(self.baseline_coords_type)
    }

    fn parse(payload: &[u8]) -> GPS_RTK_DATA {
        GPS_RTK_DATA {
            time_last_baseline_ms: get_u32(payload, 0),
            tow: get_u32(payload, 4),
            baseline_a_mm: get_i32(payload, 8),
            baseline_b_mm: get_i32(payload, 12),
            baseline_c_mm: get_i32(payload, 16),
            accuracy: get_u32(payload, 20),
            iar_num_hypotheses: get_i32(payload, 24),
            wn: get_u16(payload, 28),
            rtk_receiver_id: get_u8(payload, 30),
            rtk_health: get_u8(payload, 31),
            rtk_rate: get_u8(payload, 32),
            nsats: get_u8(payload, 33),
            baseline_coords_type: get_u8(payload, 34),
        }
    }

    fn serialize(&self) -> Vec<u8> {
        let mut wtr = Vec::new();
        put_u32(&mut wtr, self.time_last_baseline_ms);
        assert(wtr@ =~= le32(self.time_last_baseline_ms));
        put_u32(&mut wtr, self.tow);
        put_i32(&mut wtr, self.baseline_a_mm);
        put_i32(&mut wtr, self.baseline_b_mm);
        put_i32(&mut wtr, self.baseline_c_mm);
        put_u32(&mut wtr, self.accuracy);
        put_i32(&mut wtr, self.iar_num_hypotheses);
        put_u16(&mut wtr, self.wn);
        put_u8(&mut wtr, self.rtk_receiver_id);
        put_u8(&mut wtr, self.rtk_health);
        put_u8(&mut wtr, self.rtk_rate);
        put_u8(&mut wtr, self.nsats);
        put_u8(&mut wtr, self.baseline_coords_type);
        wtr
    }

    proof fn lemma_roundtrip(&self) {
        let w = self.spec_serialize();
        let w0 = le32(self.time_last_baseline_ms);
        let w1 = w0 + le32(self.tow);
        let w2 = w1 + le32(self.baseline_a_mm as u32);
        let w3 = w2 + le32(self.baseline_b_mm as u32);
        let w4 = w3 + le32(self.baseline_c_mm as u32);
        let w5 = w4 + le32(self.accuracy);
        let w6 = w5 + le32(self.iar_num_hypotheses as u32);
        let w7 = w6 + le16(self.wn);
        let w8 = w7 + le8(self.rtk_receiver_id);
        let w9 = w8 + le8(self.rtk_health);
        let w10 = w9 + le8(self.rtk_rate);
        let w11 = w10 + le8(self.nsats);
        lemma_whole(w, le32(self.time_last_baseline_ms));
        lemma_read_u8(w, w11, self.baseline_coords_type);
        lemma_read_u8(w, w10, self.nsats);
        lemma_read_u8(w, w9, self.rtk_rate);
        lemma_read_u8(w, w8, self.rtk_health);
        lemma_read_u8(w, w7, self.rtk_receiver_id);
        lemma_read_u16(w, w6, self.wn);
        lemma_read_i32(w, w5, self.iar_num_hypotheses);
        lemma_read_u32(w, w4, self.accuracy);
        lemma_read_i32(w, w3, self.baseline_c_mm);
        lemma_read_i32(w, w2, self.baseline_b_mm);
        lemma_read_i32(w, w1, self.baseline_a_mm);
        lemma_read_u32(w, w0, self.tow);
        lemma_read_u32(w, Seq::empty(), self.time_last_baseline_ms);
    }
}

/// `GPS2_RTK`, message 128: 35 payload bytes.
#[allow(non_camel_case_types)]
#[derive(Clone, Copy, Debug, PartialEq, Eq)]
pub struct GPS2_RTK_DATA {
    pub time_last_baseline_ms: u32,
    pub tow: u32,
    pub baseline_a_mm: i32,
    pub baseline_b_mm: i32,
    pub baseline_c_mm: i32,
    pub accuracy: u32,
    pub iar_num_hypotheses: i32,
    pub wn: u16,
    pub rtk_receiver_id: u8,
    pub rtk_health: u8,
    pub rtk_rate: u8,
    pub nsats: u8,
    pub baseline_coords_type: u8,
}

impl Parsable for GPS2_RTK_DATA {
    open spec fn wire_len() -> nat {
        35
    }

    open spec fn spec_parse(p: Seq<u8>) -> GPS2_RTK_DATA {
        GPS2_RTK_DATA {
            time_last_baseline_ms: u32_at(p, 0),
            tow: u32_at(p, 4),
            baseline_a_mm: u32_at(p, 8) as i32,
            baseline_b_mm: u32_at(p, 12) as i32,
            baseline_c_mm: u32_at(p, 16) as i32,
            accuracy: u32_at(p, 20),
            iar_num_hypotheses: u32_at(p, 24) as i32,
            wn: u16_at(p, 28),
            rtk_receiver_id: p[30],
            rtk_health: p[31],
            rtk_rate: p[32],
            nsats: p[33],
            baseline_coords_type: p[34],
        }
    }

    open spec fn spec_serialize(&self) -> Seq<u8> {
        le32(self.time_last_baseline_ms) + le32(self.tow) + le32(self.baseline_a_mm as u32)
            + le32(self.baseline_b_mm as u32) + le32(self.baseline_c_mm as u32)
            + le32(self.accuracy) + le32(self.iar_num_hypotheses as u32) + le16(self.wn)
            + le8(self.rtk_receiver_id) + le8(self.rtk_health) + le8(self.rtk_rate)
            + le8(self.nsats) + le8(self.baseline_coords_type)
    }

    fn parse(payload: &[u8]) -> GPS2_RTK_DATA {
        GPS2_RTK_DATA {
            time_last_baseline_ms: get_u32(payload, 0),
            tow: get_u32(payload, 4),
            baseline_a_mm: get_i32(payload, 8),
            baseline_b_mm: get_i32(payload, 12),
            baseline_c_mm: get_i32(payload, 16),
            accuracy: get_u32(payload, 20),
            iar_num_hypotheses: get_i32(payload, 24),
            wn: get_u16(payload, 28),
            rtk_receiver_id: get_u8(payload, 30),
            rtk_health: get_u8(payload, 31),
            rtk_rate: get_u8(payload, 32),
            nsats: get_u8(payload, 33),
            baseline_coords_type: get_u8(payload, 34),
        }
    }

    fn serialize(&self) -> Vec<u8> {
        let mut wtr = Vec::new();
        put_u32(&mut wtr, self.time_last_baseline_ms);
        assert(wtr@ =~= le32(self.time_last_baseline_ms));
        put_u32(&mut wtr, self.tow);
        put_i32(&mut wtr, self.baseline_a_mm);
        put_i32(&mut wtr, self.baseline_b_mm);
        put_i32(&mut wtr, self.baseline_c_mm);
        put_u32(&mut wtr, self.accuracy);
        put_i32(&mut wtr, self.iar_num_hypotheses);
        put_u16(&mut wtr, self.wn);
        put_u8(&mut wtr, self.rtk_receiver_id);
        put_u8(&mut wtr, self.rtk_health);
        put_u8(&mut wtr, self.rtk_rate);
        put_u8(&mut wtr, self.nsats);
        put_u8(&mut wtr, self.baseline_coords_type);
        wtr
    }

    proof fn lemma_roundtrip(&self) {
        let w = self.spec_serialize();
        let w0 = le32(self.time_last_baseline_ms);
        let w1 = w0 + le32(self.tow);
        let w2 = w1 + le32(self.baseline_a_mm as u32);
        let w3 = w2 + le32(self.baseline_b_mm as u32);
        let w4 = w3 + le32(self.baseline_c_mm as u32);
        let w5 = w4 + le32(self.accuracy);
        let w6 = w5 + le32(self.iar_num_hypotheses as u32);
        let w7 = w6 + le16(self.wn);
        let w8 = w7 + le8(self.rtk_receiver_id);
        let w9 = w8 + le8(self.rtk_health);
        let w10 = w9 + le8(self.rtk_rate);
        let w11 = w10 + le8(self.nsats);
        lemma_whole(w, le32(self.time_last_baseline_ms));
        lemma_read_u8(w, w11, self.baseline_coords_type);
        lemma_read_u8(w, w10, self.nsats);
        lemma_read_u8(w, w9, self.rtk_rate);
        lemma_read_u8(w, w8, self.rtk_health);
        lemma_read_u8(w, w7, self.rtk_receiver_id);
        lemma_read_u16(w, w6, self.wn);
        lemma_read_i32(w, w5, self.iar_num_hypotheses);
        lemma_read_u32(w, w4, self.accuracy);
        lemma_read_i32(w, w3, self.baseline_c_mm);
        lemma_read_i32(w, w2, self.baseline_b_mm);
        lemma_read_i32(w, w1, self.baseline_a_mm);
        lemma_read_u32(w, w0, self.tow);
        lemma_read_u32(w, Seq::empty(), self.time_last_baseline_ms);
    }
}

/// `SCALED_IMU3`, message 129: 22 payload bytes.
#[allow(non_camel_case_types)]
#[derive(Clone, Copy, Debug, PartialEq, Eq)]
pub struct SCALED_IMU3_DATA {
    pub time_boot_ms: u32,
    pub xacc: i16,
    pub yacc: i16,
    pub zacc: i16,
    pub xgyro: i16,
    pub ygyro: i16,
    pub zgyro: i16,
    pub xmag: i16,
    pub ymag: i16,
    pub zmag: i16,
}

impl Parsable for SCALED_IMU3_DATA {
    open spec fn wire_len() -> nat {
        22
    }

    open spec fn spec_parse(p: Seq<u8>) -> SCALED_IMU3_DATA {
        SCALED_IMU3_DATA {
            time_boot_ms: u32_at(p, 0),
            xacc: u16_at(p, 4) as i16,
            yacc: u16_at(p, 6) as i16,
            zacc: u16_at(p, 8) as i16,
            xgyro: u16_at(p, 10) as i16,
            ygyro: u16_at(p, 12) as i16,
            zgyro: u16_at(p, 14) as i16,
            xmag: u16_at(p, 16) as i16,
            ymag: u16_at(p, 18) as i16,
            zmag: u16_at(p, 20) as i16,
        }
    }

    open spec fn spec_serialize(&self) -> Seq<u8> {
        le32(self.time_boot_ms) + le16(self.xacc as u16) + le16(self.yacc as u16)
            + le16(self.zacc as u16) + le16(self.xgyro as u16) + le16(self.ygyro as u16)
            + le16(self.zgyro as u16) + le16(self.xmag as u16) + le16(self.ymag as u16)
            + le16(self.zmag as u16)
    }

    fn parse(payload: &[u8]) -> SCALED_IMU3_DATA {
        SCALED_IMU3_DATA {
            time_boot_ms: get_u32(payload, 0),
            xacc: get_i16(payload, 4),
            yacc: get_i16(payload, 6),
            zacc: get_i16(payload, 8),
            xgyro: get_i16(payload, 10),
            ygyro: get_i16(payload, 12),
            zgyro: get_i16(payload, 14),
            xmag: get_i16(payload, 16),
            ymag: get_i16(payload, 18),
            zmag: get_i16(payload, 20),
        }
    }

    fn serialize(&self) -> Vec<u8> {
        let mut wtr = Vec::new();
        put_u32(&mut wtr, self.time_boot_ms);
        assert(wtr@ =~= le32(self.time_boot_ms));
        put_i16(&mut wtr, self.xacc);
        put_i16(&mut wtr, self.yacc);
        put_i16(&mut wtr, self.zacc);
        put_i16(&mut wtr, self.xgyro);
        put_i16(&mut wtr, self.ygyro);
        put_i16(&mut wtr, self.zgyro);
        put_i16(&mut wtr, self.xmag);
        put_i16(&mut wtr, self.ymag);
        put_i16(&mut wtr, self.zmag);
        wtr
    }

    proof fn lemma_roundtrip(&self) {
        let w = self.spec_serialize();
        let w0 = le32(self.time_boot_ms);
        let w1 = w0 + le16(self.xacc as u16);
        let w2 = w1 + le16(self.yacc as u16);
        let w3 = w2 + le16(self.zacc as u16);
        let w4 = w3 + le16(self.xgyro as u16);
        let w5 = w4 + le16(self.ygyro as u16);
        let w6 = w5 + le16(self.zgyro as u16);
        let w7 = w6 + le16(self.xmag as u16);
        let w8 = w7 + le16(self.ymag as u16);
        lemma_whole(w, le32(self.time_boot_ms));
        lemma_read_i16(w, w8, self.zmag);
        lemma_read_i16(w, w7, self.ymag);
        lemma_read_i16(w, w6, self.xmag);
        lemma_read_i16(w, w5, self.zgyro);
        lemma_read_i16(w, w4, self.ygyro);
        lemma_read_i16(w, w3, self.xgyro);
        lemma_read_i16(w, w2, self.zacc);
        lemma_read_i16(w, w1, self.yacc);
        lemma_read_i16(w, w0, self.xacc);
        lemma_read_u32(w, Seq::empty(), self.time_boot_ms);
    }
}

/// `DATA_TRANSMISSION_HANDSHAKE`, message 130: 13 payload bytes.
#[allow(non_camel_case_types)]
#[derive(Clone, Copy, Debug, PartialEq, Eq)]
pub struct DATA_TRANSMISSION_HANDSHAKE_DATA {
    pub size: u32,
    pub width: u16,
    pub height: u16,
    pub packets: u16,
    pub mavtype: u8,
    pub payload: u8,
    pub jpg_quality: u8,
}

impl Parsable for DATA_TRANSMISSION_HANDSHAKE_DATA {
    open spec fn wire_len() -> nat {
        13
    }

    open spec fn spec_parse(p: Seq<u8>) -> DATA_TRANSMISSION_HANDSHAKE_DATA {
        DATA_TRANSMISSION_HANDSHAKE_DATA {
            size: u32_at(p, 0),
            width: u16_at(p, 4),
            height: u16_at(p, 6),
            packets: u16_at(p, 8),
            mavtype: p[10],
            payload: p[11],
            jpg_quality: p[12],
        }
    }

    open spec fn spec_serialize(&self) -> Seq<u8> {
        le32(self.size) + le16(self.width) + le16(self.height) + le16(self.packets)
            + le8(self.mavtype) + le8(self.payload) + le8(self.jpg_quality)
    }

    fn parse(payload: &[u8]) -> DATA_TRANSMISSION_HANDSHAKE_DATA {
        DATA_TRANSMISSION_HANDSHAKE_DATA {
            size: get_u32(payload, 0),
            width: get_u16(payload, 4),
            height: get_u16(payload, 6),
            packets: get_u16(payload, 8),
            mavtype: get_u8(payload, 10),
            payload: get_u8(payload, 11),
            jpg_quality: get_u8(payload, 12),
        }
    }

    fn serialize(&self) -> Vec<u8> {
        let mut wtr = Vec::new();
        put_u32(&mut wtr, self.size);
        assert(wtr@ =~= le32(self.size));
        put_u16(&mut wtr, self.width);
        put_u16(&mut wtr, self.height);
        put_u16(&mut wtr, self.packets);
        put_u8(&mut wtr, self.mavtype);
        put_u8(&mut wtr, self.payload);
        put_u8(&mut wtr, self.jpg_quality);
        wtr
    }

    proof fn lemma_roundtrip(&self) {
        let w = self.spec_serialize();
        let w0 = le32(self.size);
        let w1 = w0 + le16(self.width);
        let w2 = w1 + le16(self.height);
        let w3 = w2 + le16(self.packets);
        let w4 = w3 + le8(self.mavtype);
        let w5 = w4 + le8(self.payload);
        lemma_whole(w, le32(self.size));
        lemma_read_u8(w, w5, self.jpg_quality);
        lemma_read_u8(w, w4, self.payload);
        lemma_read_u8(w, w3, self.mavtype);
        lemma_read_u16(w, w2, self.packets);
        lemma_read_u16(w, w1, self.height);
        lemma_read_u16(w, w0, self.width);
        lemma_read_u32(w, Seq::empty(), self.size);
    }
}

/// `ENCAPSULATED_DATA`, message 131: 255 payload bytes.
#[allow(non_camel_case_types)]
#[derive(Clone, Copy, Debug, PartialEq, Eq)]
pub struct ENCAPSULATED_DATA_DATA {
    pub seqnr: u16,
    pub data: [u8; 253],
}

impl Parsable for ENCAPSULATED_DATA_DATA {
    open spec fn wire_len() -> nat {
        255
    }

    open spec fn spec_parse(p: Seq<u8>) -> ENCAPSULATED_DATA_DATA {
        ENCAPSULATED_DATA_DATA {
            seqnr: u16_at(p, 0),
            data: array_of(u8s_at(p, 2, 253)),
        }
    }

    open spec fn spec_serialize(&self) -> Seq<u8> {
        le16(self.seqnr) + self.data@
    }

    fn parse(payload: &[u8]) -> ENCAPSULATED_DATA_DATA {
        ENCAPSULATED_DATA_DATA {
            seqnr: get_u16(payload, 0),
            data: get_u8s(payload, 2),
        }
    }

    fn serialize(&self) -> Vec<u8> {
        let mut wtr = Vec::new();
        put_u16(&mut wtr, self.seqnr);
        assert(wtr@ =~= le16(self.seqnr));
        put_u8s(&mut wtr, &self.data);
        wtr
    }

    proof fn lemma_roundtrip(&self) {
        let w = self.spec_serialize();
        let w0 = le16(self.seqnr);
        lemma_whole(w, le16(self.seqnr));
        lemma_read_u8s(w, w0, self.data);
        lemma_read_u16(w, Seq::empty(), self.seqnr);
    }
}

/// `DISTANCE_SENSOR`, message 132: 14 payload bytes.
#[allow(non_camel_case_types)]
#[derive(Clone, Copy, Debug, PartialEq, Eq)]
pub struct DISTANCE_SENSOR_DATA {
    pub time_boot_ms: u32,
    pub min_distance: u16,
    pub max_distance: u16,
    pub current_distance: u16,
    pub mavtype: u8,
    pub id: u8,
    pub orientation: u8,
    pub covariance: u8,
}

impl Parsable for DISTANCE_SENSOR_DATA {
    open spec fn wire_len() -> nat {
        14
    }

    open spec fn spec_parse(p: Seq<u8>) -> DISTANCE_SENSOR_DATA {
        DISTANCE_SENSOR_DATA {
            time_boot_ms: u32_at(p, 0),
            min_distance: u16_at(p, 4),
            max_distance: u16_at(p, 6),
            current_distance: u16_at(p, 8),
            mavtype: p[10],
            id: p[11],
            orientation: p[12],
            covariance: p[13],
        }
    }

    open spec fn spec_serialize(&self) -> Seq<u8> {
        le32(self.time_boot_ms) + le16(self.min_distance) + le16(self.max_distance)
            + le16(self.current_distance) + le8(self.mavtype) + le8(self.id) + le8(self.orientation)
            + le8(self.covariance)
    }

    fn parse(payload: &[u8]) -> DISTANCE_SENSOR_DATA {
        DISTANCE_SENSOR_DATA {
            time_boot_ms: get_u32(payload, 0),
            min_distance: get_u16(payload, 4),
            max_distance: get_u16(payload, 6),
            current_distance: get_u16(payload, 8),
            mavtype: get_u8(payload, 10),
            id: get_u8(payload, 11),
            orientation: get_u8(payload, 12),
            covariance: get_u8(payload, 13),
        }
    }

    fn serialize(&self) -> Vec<u8> {
        let mut wtr = Vec::new();
        put_u32(&mut wtr, self.time_boot_ms);
        assert(wtr@ =~= le32(self.time_boot_ms));
        put_u16(&mut wtr, self.min_distance);
        put_u16(&mut wtr, self.max_distance);
        put_u16(&mut wtr, self.current_distance);
        put_u8(&mut wtr, self.mavtype);
        put_u8(&mut wtr, self.id);
        put_u8(&mut wtr, self.orientation);
        put_u8(&mut wtr, self.covariance);
        wtr
    }

    proof fn lemma_roundtrip(&self) {
        let w = self.spec_serialize();
        let w0 = le32(self.time_boot_ms);
        let w1 = w0 + le16(self.min_distance);
        let w2 = w1 + le16(self.max_distance);
        let w3 = w2 + le16(self.current_distance);
        let w4 = w3 + le8(self.mavtype);
        let w5 = w4 + le8(self.id);
        let w6 = w5 + le8(self.orientation);
        lemma_whole(w, le32(self.time_boot_ms));
        lemma_read_u8(w, w6, self.covariance);
        lemma_read_u8(w, w5, self.orientation);
        lemma_read_u8(w, w4, self.id);
        lemma_read_u8(w, w3, self.mavtype);
        lemma_read_u16(w, w2, self.current_distance);
        lemma_read_u16(w, w1, self.max_distance);
        lemma_read_u16(w, w0, self.min_distance);
        lemma_read_u32(w, Seq::empty(), self.time_boot_ms);
    }
}

/// `TERRAIN_REQUEST`, message 133: 18 payload bytes.
#[allow(non_camel_case_types)]
#[derive(Clone, Copy, Debug, PartialEq, Eq)]
pub struct TERRAIN_REQUEST_DATA {
    pub mask: u64,
    pub lat: i32,
    pub lon: i32,
    pub grid_spacing: u16,
}

impl Parsable for TERRAIN_REQUEST_DATA {
    open spec fn wire_len() -> nat {
        18
    }

    open spec fn spec_parse(p: Seq<u8>) -> TERRAIN_REQUEST_DATA {
        TERRAIN_REQUEST_DATA {
            mask: u64_at(p, 0),
            lat: u32_at(p, 8) as i32,
            lon: u32_at(p, 12) as i32,
            grid_spacing: u16_at(p, 16),
        }
    }

    open spec fn spec_serialize(&self) -> Seq<u8> {
        le64(self.mask) + le32(self.lat as u32) + le32(self.lon as u32)
            + le16(self.grid_spacing)
    }

    fn parse(payload: &[u8]) -> TERRAIN_REQUEST_DATA {
        TERRAIN_REQUEST_DATA {
            mask: get_u64(payload, 0),
            lat: get_i32(payload, 8),
            lon: get_i32(payload, 12),
            grid_spacing: get_u16(payload, 16),
        }
    }

    fn serialize(&self) -> Vec<u8> {
        let mut wtr = Vec::new();
        put_u64(&mut wtr, self.mask);
        assert(wtr@ =~= le64(self.mask));
        put_i32(&mut wtr, self.lat);
        put_i32(&mut wtr, self.lon);
        put_u16(&mut wtr, self.grid_spacing);
        wtr
    }

    proof fn lemma_roundtrip(&self) {
        let w = self.spec_serialize();
        let w0 = le64(self.mask);
        let w1 = w0 + le32(self.lat as u32);
        let w2 = w1 + le32(self.lon as u32);
        lemma_whole(w, le64(self.mask));
        lemma_read_u16(w, w2, self.grid_spacing);
        lemma_read_i32(w, w1, self.lon);
        lemma_read_i32(w, w0, self.lat);
        lemma_read_u64(w, Seq::empty(), self.mask);
    }
}

/// `TERRAIN_DATA`, message 134: 43 payload bytes.
#[allow(non_camel_case_types)]
#[derive(Clone, Copy, Debug, PartialEq, Eq)]
pub struct TERRAIN_DATA_DATA {
    pub lat: i32,
    pub lon: i32,
    pub grid_spacing: u16,
    pub data: [i16; 16],
    pub gridbit: u8,
}

impl Parsable for TERRAIN_DATA_DATA {
    open spec fn wire_len() -> nat {
        43
    }

    open spec fn spec_parse(p: Seq<u8>) -> TERRAIN_DATA_DATA {
        TERRAIN_DATA_DATA {
            lat: u32_at(p, 0) as i32,
            lon: u32_at(p, 4) as i32,
            grid_spacing: u16_at(p, 8),
            data: array_of(i16s_at(p, 10, 16)),
            gridbit: p[42],
        }
    }

    open spec fn spec_serialize(&self) -> Seq<u8> {
        le32(self.lat as u32) + le32(self.lon as u32) + le16(self.grid_spacing)
            + le16s_signed(self.data@) + le8(self.gridbit)
    }

    fn parse(payload: &[u8]) -> TERRAIN_DATA_DATA {
        TERRAIN_DATA_DATA {
            lat: get_i32(payload, 0),
            lon: get_i32(payload, 4),
            grid_spacing: get_u16(payload, 8),
            data: get_i16s(payload, 10),
            gridbit: get_u8(payload, 42),
        }
    }

    fn serialize(&self) -> Vec<u8> {
        let mut wtr = Vec::new();
        put_i32(&mut wtr, self.lat);
        assert(wtr@ =~= le32(self.lat as u32));
        put_i32(&mut wtr, self.lon);
        put_u16(&mut wtr, self.grid_spacing);
        put_i16s(&mut wtr, &self.data);
        put_u8(&mut wtr, self.gridbit);
        wtr
    }

    proof fn lemma_roundtrip(&self) {
        let w = self.spec_serialize();
        let w0 = le32(self.lat as u32);
        let w1 = w0 + le32(self.lon as u32);
        let w2 = w1 + le16(self.grid_spacing);
        let w3 = w2 + le16s_signed(self.data@);
        lemma_whole(w, le32(self.lat as u32));
        lemma_read_u8(w, w3, self.gridbit);
        lemma_read_i16s(w, w2, self.data);
        lemma_read_u16(w, w1, self.grid_spacing);
        lemma_read_i32(w, w0, self.lon);
        lemma_read_i32(w, Seq::empty(), self.lat);
    }
}

/// `TERRAIN_CHECK`, message 135: 8 payload bytes.
#[allow(non_camel_case_types)]
#[derive(Clone, Copy, Debug, PartialEq, Eq)]
pub struct TERRAIN_CHECK_DATA {
    pub lat: i32,
    pub lon: i32,
}

impl Parsable for TERRAIN_CHECK_DATA {
    open spec fn wire_len() -> nat {
        8
    }

    open spec fn spec_parse(p: Seq<u8>) -> TERRAIN_CHECK_DATA {
        TERRAIN_CHECK_DATA {
            lat: u32_at(p, 0) as i32,
            lon: u32_at(p, 4) as i32,
        }
    }

    open spec fn spec_serialize(&self) -> Seq<u8> {
        le32(self.lat as u32) + le32(self.lon as u32)
    }

    fn parse(payload: &[u8]) -> TERRAIN_CHECK_DATA {
        TERRAIN_CHECK_DATA {
            lat: get_i32(payload, 0),
            lon: get_i32(payload, 4),
        }
    }

    fn serialize(&self) -> Vec<u8> {
        let mut wtr = Vec::new();
        put_i32(&mut wtr, self.lat);
        assert(wtr@ =~= le32(self.lat as u32));
        put_i32(&mut wtr, self.lon);
        wtr
    }

    proof fn lemma_roundtrip(&self) {
        let w = self.spec_serialize();
        let w0 = le32(self.lat as u32);
        lemma_whole(w, le32(self.lat as u32));
        lemma_read_i32(w, w0, self.lon);
        lemma_read_i32(w, Seq::empty(), self.lat);
    }
}

} // verus!
