//! The mission protocol and the global origin (messages 37 to 49).

use crate::mavlink::Parsable;
use crate::wire::{
    Ieee32, get_i16, get_i32, get_u16, get_u32, get_u8, le16, le32, le8, lemma_read_i16,
    lemma_read_i32, lemma_read_u16, lemma_read_u32, lemma_read_u8, lemma_whole, put_i16,
    put_i32, put_u16, put_u32, put_u8, u16_at, u32_at,
};
use vstd::prelude::*;

verus! {

/// `MISSION_REQUEST_PARTIAL_LIST`, message 37: 6 payload bytes.
#[allow(non_camel_case_types)]
#[derive(Clone, Copy, Debug, PartialEq, Eq)]
pub struct MISSION_REQUEST_PARTIAL_LIST_DATA {
    pub start_index: i16,
    pub end_index: i16,
    pub target_system: u8,
    pub target_component: u8,
}

impl Parsable for MISSION_REQUEST_PARTIAL_LIST_DATA {
    open spec fn wire_len() -> nat {
        6
    }

    open spec fn spec_parse(p: Seq<u8>) -> MISSION_REQUEST_PARTIAL_LIST_DATA {
        MISSION_REQUEST_PARTIAL_LIST_DATA {
            start_index: u16_at(p, 0) as i16,
            end_index: u16_at(p, 2) as i16,
            target_system: p[4],
            target_component: p[5],
        }
    }

    open spec fn spec_serialize(&self) -> Seq<u8> {
        le16(self.start_index as u16) + le16(self.end_index as u16) + le8(self.target_system)
            + le8(self.target_component)
    }

    fn parse(payload: &[u8]) -> MISSION_REQUEST_PARTIAL_LIST_DATA {
        MISSION_REQUEST_PARTIAL_LIST_DATA {
            start_index: get_i16(payload, 0),
            end_index: get_i16(payload, 2),
            target_system: get_u8(payload, 4),
            target_component: get_u8(payload, 5),
        }
    }

    fn serialize(&self) -> Vec<u8> {
        let mut wtr = Vec::new();
        put_i16(&mut wtr, self.start_index);
        assert(wtr@ =~= le16(self.start_index as u16));
        put_i16(&mut wtr, self.end_index);
        put_u8(&mut wtr, self.target_system);
        put_u8(&mut wtr, self.target_component);
        wtr
    }

    proof fn lemma_roundtrip(&self) {
        let w = self.spec_serialize();
        let w0 = le16(self.start_index as u16);
        let w1 = w0 + le16(self.end_index as u16);
        let w2 = w1 + le8(self.target_system);
        lemma_whole(w, le16(self.start_index as u16));
        lemma_read_u8(w, w2, self.target_component);
        lemma_read_u8(w, w1, self.target_system);
        lemma_read_i16(w, w0, self.end_index);
        lemma_read_i16(w, Seq::empty(), self.start_index);
    }
}

/// `MISSION_WRITE_PARTIAL_LIST`, message 38: 6 payload bytes.
#[allow(non_camel_case_types)]
#[derive(Clone, Copy, Debug, PartialEq, Eq)]
pub struct MISSION_WRITE_PARTIAL_LIST_DATA {
    pub start_index: i16,
    pub end_index: i16,
    pub target_system: u8,
    pub target_component: u8,
}

impl Parsable for MISSION_WRITE_PARTIAL_LIST_DATA {
    open spec fn wire_len() -> nat {
        6
    }

    open spec fn spec_parse(p: Seq<u8>) -> MISSION_WRITE_PARTIAL_LIST_DATA {
        MISSION_WRITE_PARTIAL_LIST_DATA {
            start_index: u16_at(p, 0) as i16,
            end_index: u16_at(p, 2) as i16,
            target_system: p[4],
            target_component: p[5],
        }
    }

    open spec fn spec_serialize(&self) -> Seq<u8> {
        le16(self.start_index as u16) + le16(self.end_index as u16) + le8(self.target_system)
            + le8(self.target_component)
    }

    fn parse(payload: &[u8]) -> MISSION_WRITE_PARTIAL_LIST_DATA {
        MISSION_WRITE_PARTIAL_LIST_DATA {
            start_index: get_i16(payload, 0),
            end_index: get_i16(payload, 2),
            target_system: get_u8(payload, 4),
            target_component: get_u8(payload, 5),
        }
    }

    fn serialize(&self) -> Vec<u8> {
        let mut wtr = Vec::new();
        put_i16(&mut wtr, self.start_index);
        assert(wtr@ =~= le16(self.start_index as u16));
        put_i16(&mut wtr, self.end_index);
        put_u8(&mut wtr, self.target_system);
        put_u8(&mut wtr, self.target_component);
        wtr
    }

    proof fn lemma_roundtrip(&self) {
        let w = self.spec_serialize();
        let w0 = le16(self.start_index as u16);
        let w1 = w0 + le16(self.end_index as u16);
        let w2 = w1 + le8(self.target_system);
        lemma_whole(w, le16(self.start_index as u16));
        lemma_read_u8(w, w2, self.target_component);
        lemma_read_u8(w, w1, self.target_system);
        lemma_read_i16(w, w0, self.end_index);
        lemma_read_i16(w, Seq::empty(), self.start_index);
    }
}

/// `MISSION_ITEM`, message 39: 37 payload bytes.
#[allow(non_camel_case_types)]
#[derive(Clone, Copy, Debug, PartialEq, Eq)]
pub struct MISSION_ITEM_DATA {
    pub param1: Ieee32,
    pub param2: Ieee32,
    pub param3: Ieee32,
    pub param4: Ieee32,
    pub x: Ieee32,
    pub y: Ieee32,
    pub z: Ieee32,
    pub seq: u16,
    pub command: u16,
    pub target_system: u8,
    pub target_component: u8,
    pub frame: u8,
    pub current: u8,
    pub autocontinue: u8,
}

impl Parsable for MISSION_ITEM_DATA {
    open spec fn wire_len() -> nat {
        37
    }

    open spec fn spec_parse(p: Seq<u8>) -> MISSION_ITEM_DATA {
        MISSION_ITEM_DATA {
            param1: u32_at(p, 0),
            param2: u32_at(p, 4),
            param3: u32_at(p, 8),
            param4: u32_at(p, 12),
            x: u32_at(p, 16),
            y: u32_at(p, 20),
            z: u32_at(p, 24),
            seq: u16_at(p, 28),
            command: u16_at(p, 30),
            target_system: p[32],
            target_component: p[33],
            frame: p[34],
            current: p[35],
            autocontinue: p[36],
        }
    }

    open spec fn spec_serialize(&self) -> Seq<u8> {
        le32(self.param1) + le32(self.param2) + le32(self.param3) + le32(self.param4)
            + le32(self.x) + le32(self.y) + le32(self.z) + le16(self.seq) + le16(self.command)
            + le8(self.target_system) + le8(self.target_component) + le8(self.frame)
            + le8(self.current) + le8(self.autocontinue)
    }

    fn parse(payload: &[u8]) -> MISSION_ITEM_DATA {
        MISSION_ITEM_DATA {
            param1: get_u32(payload, 0),
            param2: get_u32(payload, 4),
            param3: get_u32(payload, 8),
            param4: get_u32(payload, 12),
            x: get_u32(payload, 16),
            y: get_u32(payload, 20),
            z: get_u32(payload, 24),
            seq: get_u16(payload, 28),
            command: get_u16(payload, 30),
            target_system: get_u8(payload, 32),
            target_component: get_u8(payload, 33),
            frame: get_u8(payload, 34),
            current: get_u8(payload, 35),
            autocontinue: get_u8(payload, 36),
        }
    }

    fn serialize(&self) -> Vec<u8> {
        let mut wtr = Vec::new();
        put_u32(&mut wtr, self.param1);
        assert(wtr@ =~= le32(self.param1));
        put_u32(&mut wtr, self.param2);
        put_u32(&mut wtr, self.param3);
        put_u32(&mut wtr, self.param4);
        put_u32(&mut wtr, self.x);
        put_u32(&mut wtr, self.y);
        put_u32(&mut wtr, self.z);
        put_u16(&mut wtr, self.seq);
        put_u16(&mut wtr, self.command);
        put_u8(&mut wtr, self.target_system);
        put_u8(&mut wtr, self.target_component);
        put_u8(&mut wtr, self.frame);
        put_u8(&mut wtr, self.current);
        put_u8(&mut wtr, self.autocontinue);
        wtr
    }

    proof fn lemma_roundtrip(&self) {
        let w = self.spec_serialize();
        let w0 = le32(self.param1);
        let w1 = w0 + le32(self.param2);
        let w2 = w1 + le32(self.param3);
        let w3 = w2 + le32(self.param4);
        let w4 = w3 + le32(self.x);
        let w5 = w4 + le32(self.y);
        let w6 = w5 + le32(self.z);
        let w7 = w6 + le16(self.seq);
        let w8 = w7 + le16(self.command);
        let w9 = w8 + le8(self.target_system);
        let w10 = w9 + le8(self.target_component);
        let w11 = w10 + le8(self.frame);
        let w12 = w11 + le8(self.current);
        lemma_whole(w, le32(self.param1));
        lemma_read_u8(w, w12, self.autocontinue);
        lemma_read_u8(w, w11, self.current);
        lemma_read_u8(w, w10, self.frame);
        lemma_read_u8(w, w9, self.target_component);
        lemma_read_u8(w, w8, self.target_system);
        lemma_read_u16(w, w7, self.command);
        lemma_read_u16(w, w6, self.seq);
        lemma_read_u32(w, w5, self.z);
        lemma_read_u32(w, w4, self.y);
        lemma_read_u32(w, w3, self.x);
        lemma_read_u32(w, w2, self.param4);
        lemma_read_u32(w, w1, self.param3);
        lemma_read_u32(w, w0, self.param2);
        lemma_read_u32(w, Seq::empty(), self.param1);
    }
}

/// `MISSION_REQUEST`, message 40: 4 payload bytes.
#[allow(non_camel_case_types)]
#[derive(Clone, Copy, Debug, PartialEq, Eq)]
pub struct MISSION_REQUEST_DATA {
    pub seq: u16,
    pub target_system: u8,
    pub target_component: u8,
}

impl Parsable for MISSION_REQUEST_DATA {
    open spec fn wire_len() -> nat {
        4
    }

    open spec fn spec_parse(p: Seq<u8>) -> MISSION_REQUEST_DATA {
        MISSION_REQUEST_DATA {
            seq: u16_at(p, 0),
            target_system: p[2],
            target_component: p[3],
        }
    }

    open spec fn spec_serialize(&self) -> Seq<u8> {
        le16(self.seq) + le8(self.target_system) + le8(self.target_component)
    }

    fn parse(payload: &[u8]) -> MISSION_REQUEST_DATA {
        MISSION_REQUEST_DATA {
            seq: get_u16(payload, 0),
            target_system: get_u8(payload, 2),
            target_component: get_u8(payload, 3),
        }
    }

    fn serialize(&self) -> Vec<u8> {
        let mut wtr = Vec::new();
        put_u16(&mut wtr, self.seq);
        assert(wtr@ =~= le16(self.seq));
        put_u8(&mut wtr, self.target_system);
        put_u8(&mut wtr, self.target_component);
        wtr
    }

    proof fn lemma_roundtrip(&self) {
        let w = self.spec_serialize();
        let w0 = le16(self.seq);
        let w1 = w0 + le8(self.target_system);
        lemma_whole(w, le16(self.seq));
        lemma_read_u8(w, w1, self.target_component);
        lemma_read_u8(w, w0, self.target_system);
        lemma_read_u16(w, Seq::empty(), self.seq);
    }
}

/// `MISSION_SET_CURRENT`, message 41: 4 payload bytes.
#[allow(non_camel_case_types)]
#[derive(Clone, Copy, Debug, PartialEq, Eq)]
pub struct MISSION_SET_CURRENT_DATA {
    pub seq: u16,
    pub target_system: u8,
    pub target_component: u8,
}

impl Parsable for MISSION_SET_CURRENT_DATA {
    open spec fn wire_len() -> nat {
        4
    }

    open spec fn spec_parse(p: Seq<u8>) -> MISSION_SET_CURRENT_DATA {
        MISSION_SET_CURRENT_DATA {
            seq: u16_at(p, 0),
            target_system: p[2],
            target_component: p[3],
        }
    }

    open spec fn spec_serialize(&self) -> Seq<u8> {
        le16(self.seq) + le8(self.target_system) + le8(self.target_component)
    }

    fn parse(payload: &[u8]) -> MISSION_SET_CURRENT_DATA {
        MISSION_SET_CURRENT_DATA {
            seq: get_u16(payload, 0),
            target_system: get_u8(payload, 2),
            target_component: get_u8(payload, 3),
        }
    }

    fn serialize(&self) -> Vec<u8> {
        let mut wtr = Vec::new();
        put_u16(&mut wtr, self.seq);
        assert(wtr@ =~= le16(self.seq));
        put_u8(&mut wtr, self.target_system);
        put_u8(&mut wtr, self.target_component);
        wtr
    }

    proof fn lemma_roundtrip(&self) {
        let w = self.spec_serialize();
        let w0 = le16(self.seq);
        let w1 = w0 + le8(self.target_system);
        lemma_whole(w, le16(self.seq));
        lemma_read_u8(w, w1, self.target_component);
        lemma_read_u8(w, w0, self.target_system);
        lemma_read_u16(w, Seq::empty(), self.seq);
    }
}

/// `MISSION_CURRENT`, message 42: 2 payload bytes.
#[allow(non_camel_case_types)]
#[derive(Clone, Copy, Debug, PartialEq, Eq)]
pub struct MISSION_CURRENT_DATA {
    pub seq: u16,
}

impl Parsable for MISSION_CURRENT_DATA {
    open spec fn wire_len() -> nat {
        2
    }

    open spec fn spec_parse(p: Seq<u8>) -> MISSION_CURRENT_DATA {
        MISSION_CURRENT_DATA {
            seq: u16_at(p, 0),
        }
    }

    open spec fn spec_serialize(&self) -> Seq<u8> {
        le16(self.seq)
    }

    fn parse(payload: &[u8]) -> MISSION_CURRENT_DATA {
        MISSION_CURRENT_DATA {
            seq: get_u16(payload, 0),
        }
    }

    fn serialize(&self) -> Vec<u8> {
        let mut wtr = Vec::new();
        put_u16(&mut wtr, self.seq);
        assert(wtr@ =~= le16(self.seq));
        wtr
    }

    proof fn lemma_roundtrip(&self) {
        let w = self.spec_serialize();
        lemma_whole(w, le16(self.seq));
        lemma_read_u16(w, Seq::empty(), self.seq);
    }
}

/// `MISSION_REQUEST_LIST`, message 43: 2 payload bytes.
#[allow(non_camel_case_types)]
#[derive(Clone, Copy, Debug, PartialEq, Eq)]
pub struct MISSION_REQUEST_LIST_DATA {
    pub target_system: u8,
    pub target_component: u8,
}

impl Parsable for MISSION_REQUEST_LIST_DATA {
    open spec fn wire_len() -> nat {
        2
    }

    open spec fn spec_parse(p: Seq<u8>) -> MISSION_REQUEST_LIST_DATA {
        MISSION_REQUEST_LIST_DATA {
            target_system: p[0],
            target_component: p[1],
        }
    }

    open spec fn spec_serialize(&self) -> Seq<u8> {
        le8(self.target_system) + le8(self.target_component)
    }

    fn parse(payload: &[u8]) -> MISSION_REQUEST_LIST_DATA {
        MISSION_REQUEST_LIST_DATA {
            target_system: get_u8(payload, 0),
            target_component: get_u8(payload, 1),
        }
    }

    fn serialize(&self) -> Vec<u8> {
        let mut wtr = Vec::new();
        put_u8(&mut wtr, self.target_system);
        assert(wtr@ =~= le8(self.target_system));
        put_u8(&mut wtr, self.target_component);
        wtr
    }

    proof fn lemma_roundtrip(&self) {
        let w = self.spec_serialize();
        let w0 = le8(self.target_system);
        lemma_whole(w, le8(self.target_system));
        lemma_read_u8(w, w0, self.target_component);
        lemma_read_u8(w, Seq::empty(), self.target_system);
    }
}

/// `MISSION_COUNT`, message 44: 4 payload bytes.
#[allow(non_camel_case_types)]
#[derive(Clone, Copy, Debug, PartialEq, Eq)]
pub struct MISSION_COUNT_DATA {
    pub count: u16,
    pub target_system: u8,
    pub target_component: u8,
}

impl Parsable for MISSION_COUNT_DATA {
    open spec fn wire_len() -> nat {
        4
    }

    open spec fn spec_parse(p: Seq<u8>) -> MISSION_COUNT_DATA {
        MISSION_COUNT_DATA {
            count: u16_at(p, 0),
            target_system: p[2],
            target_component: p[3],
        }
    }

    open spec fn spec_serialize(&self) -> Seq<u8> {
        le16(self.count) + le8(self.target_system) + le8(self.target_component)
    }

    fn parse(payload: &[u8]) -> MISSION_COUNT_DATA {
        MISSION_COUNT_DATA {
            count: get_u16(payload, 0),
            target_system: get_u8(payload, 2),
            target_component: get_u8(payload, 3),
        }
    }

    fn serialize(&self) -> Vec<u8> {
        let mut wtr = Vec::new();
        put_u16(&mut wtr, self.count);
        assert(wtr@ =~= le16(self.count));
        put_u8(&mut wtr, self.target_system);
        put_u8(&mut wtr, self.target_component);
        wtr
    }

    proof fn lemma_roundtrip(&self) {
        let w = self.spec_serialize();
        let w0 = le16(self.count);
        let w1 = w0 + le8(self.target_system);
        lemma_whole(w, le16(self.count));
        lemma_read_u8(w, w1, self.target_component);
        lemma_read_u8(w, w0, self.target_system);
        lemma_read_u16(w, Seq::empty(), self.count);
    }
}

/// `MISSION_CLEAR_ALL`, message 45: 2 payload bytes.
#[allow(non_camel_case_types)]
#[derive(Clone, Copy, Debug, PartialEq, Eq)]
pub struct MISSION_CLEAR_ALL_DATA {
    pub target_system: u8,
    pub target_component: u8,
}

impl Parsable for MISSION_CLEAR_ALL_DATA {
    open spec fn wire_len() -> nat {
        2
    }

    open spec fn spec_parse(p: Seq<u8>) -> MISSION_CLEAR_ALL_DATA {
        MISSION_CLEAR_ALL_DATA {
            target_system: p[0],
            target_component: p[1],
        }
    }

    open spec fn spec_serialize(&self) -> Seq<u8> {
        le8(self.target_system) + le8(self.target_component)
    }

    fn parse(payload: &[u8]) -> MISSION_CLEAR_ALL_DATA {
        MISSION_CLEAR_ALL_DATA {
            target_system: get_u8(payload, 0),
            target_component: get_u8(payload, 1),
        }
    }

    fn serialize(&self) -> Vec<u8> {
        let mut wtr = Vec::new();
        put_u8(&mut wtr, self.target_system);
        assert(wtr@ =~= le8(self.target_system));
        put_u8(&mut wtr, self.target_component);
        wtr
    }

    proof fn lemma_roundtrip(&self) {
        let w = self.spec_serialize();
        let w0 = le8(self.target_system);
        lemma_whole(w, le8(self.target_system));
        lemma_read_u8(w, w0, self.target_component);
        lemma_read_u8(w, Seq::empty(), self.target_system);
    }
}

/// `MISSION_ITEM_REACHED`, message 46: 2 payload bytes.
#[allow(non_camel_case_types)]
#[derive(Clone, Copy, Debug, PartialEq, Eq)]
pub struct MISSION_ITEM_REACHED_DATA {
    pub seq: u16,
}

impl Parsable for MISSION_ITEM_REACHED_DATA {
    open spec fn wire_len() -> nat {
        2
    }

    open spec fn spec_parse(p: Seq<u8>) -> MISSION_ITEM_REACHED_DATA {
        MISSION_ITEM_REACHED_DATA {
            seq: u16_at(p, 0),
        }
    }

    open spec fn spec_serialize(&self) -> Seq<u8> {
        le16(self.seq)
    }

    fn parse(payload: &[u8]) -> MISSION_ITEM_REACHED_DATA {
        MISSION_ITEM_REACHED_DATA {
            seq: get_u16(payload, 0),
        }
    }

    fn serialize(&self) -> Vec<u8> {
        let mut wtr = Vec::new();
        put_u16(&mut wtr, self.seq);
        assert(wtr@ =~= le16(self.seq));
        wtr
    }

    proof fn lemma_roundtrip(&self) {
        let w = self.spec_serialize();
        lemma_whole(w, le16(self.seq));
        lemma_read_u16(w, Seq::empty(), self.seq);
    }
}

/// `MISSION_ACK`, message 47: 3 payload bytes.
#[allow(non_camel_case_types)]
#[derive(Clone, Copy, Debug, PartialEq, Eq)]
pub struct MISSION_ACK_DATA {
    pub target_system: u8,
    pub target_component: u8,
    pub mavtype: u8,
}

impl Parsable for MISSION_ACK_DATA {
    open spec fn wire_len() -> nat {
        3
    }

    open spec fn spec_parse(p: Seq<u8>) -> MISSION_ACK_DATA {
        MISSION_ACK_DATA {
            target_system: p[0],
            target_component: p[1],
            mavtype: p[2],
        }
    }

    open spec fn spec_serialize(&self) -> Seq<u8> {
        le8(self.target_system) + le8(self.target_component) + le8(self.mavtype)
    }

    fn parse(payload: &[u8]) -> MISSION_ACK_DATA {
        MISSION_ACK_DATA {
            target_system: get_u8(payload, 0),
            target_component: get_u8(payload, 1),
            mavtype: get_u8(payload, 2),
        }
    }

    fn serialize(&self) -> Vec<u8> {
        let mut wtr = Vec::new();
        put_u8(&mut wtr, self.target_system);
        assert(wtr@ =~= le8(self.target_system));
        put_u8(&mut wtr, self.target_component);
        put_u8(&mut wtr, self.mavtype);
        wtr
    }

    proof fn lemma_roundtrip(&self) {
        let w = self.spec_serialize();
        let w0 = le8(self.target_system);
        let w1 = w0 + le8(self.target_component);
        lemma_whole(w, le8(self.target_system));
        lemma_read_u8(w, w1, self.mavtype);
        lemma_read_u8(w, w0, self.target_component);
        lemma_read_u8(w, Seq::empty(), self.target_system);
    }
}

/// `SET_GPS_GLOBAL_ORIGIN`, message 48: 13 payload bytes.
#[allow(non_camel_case_types)]
#[derive(Clone, Copy, Debug, PartialEq, Eq)]
pub struct SET_GPS_GLOBAL_ORIGIN_DATA {
    pub latitude: i32,
    pub longitude: i32,
    pub altitude: i32,
    pub target_system: u8,
}

impl Parsable for SET_GPS_GLOBAL_ORIGIN_DATA {
    open spec fn wire_len() -> nat {
        13
    }

    open spec fn spec_parse(p: Seq<u8>) -> SET_GPS_GLOBAL_ORIGIN_DATA {
        SET_GPS_GLOBAL_ORIGIN_DATA {
            latitude: u32_at(p, 0) as i32,
            longitude: u32_at(p, 4) as i32,
            altitude: u32_at(p, 8) as i32,
            target_system: p[12],
        }
    }

    open spec fn spec_serialize(&self) -> Seq<u8> {
        le32(self.latitude as u32) + le32(self.longitude as u32) + le32(self.altitude as u32)
            + le8(self.target_system)
    }

    fn parse(payload: &[u8]) -> SET_GPS_GLOBAL_ORIGIN_DATA {
        SET_GPS_GLOBAL_ORIGIN_DATA {
            latitude: get_i32(payload, 0),
            longitude: get_i32(payload, 4),
            altitude: get_i32(payload, 8),
            target_system: get_u8(payload, 12),
        }
    }

    fn serialize(&self) -> Vec<u8> {
        let mut wtr = Vec::new();
        put_i32(&mut wtr, self.latitude);
        assert(wtr@ =~= le32(self.latitude as u32));
        put_i32(&mut wtr, self.longitude);
        put_i32(&mut wtr, self.altitude);
        put_u8(&mut wtr, self.target_system);
        wtr
    }

    proof fn lemma_roundtrip(&self) {
        let w = self.spec_serialize();
        let w0 = le32(self.latitude as u32);
        let w1 = w0 + le32(self.longitude as u32);
        let w2 = w1 + le32(self.altitude as u32);
        lemma_whole(w, le32(self.latitude as u32));
        lemma_read_u8(w, w2, self.target_system);
        lemma_read_i32(w, w1, self.altitude);
        lemma_read_i32(w, w0, self.longitude);
        lemma_read_i32(w, Seq::empty(), self.latitude);
    }
}

/// `GPS_GLOBAL_ORIGIN`, message 49: 12 payload bytes.
#[allow(non_camel_case_types)]
#[derive(Clone, Copy, Debug, PartialEq, Eq)]
pub struct GPS_GLOBAL_ORIGIN_DATA {
    pub latitude: i32,
    pub longitude: i32,
    pub altitude: i32,
}

impl Parsable for GPS_GLOBAL_ORIGIN_DATA {
    open spec fn wire_len() -> nat {
        12
    }

    open spec fn spec_parse(p: Seq<u8>) -> GPS_GLOBAL_ORIGIN_DATA {
        GPS_GLOBAL_ORIGIN_DATA {
            latitude: u32_at(p, 0) as i32,
            longitude: u32_at(p, 4) as i32,
            altitude: u32_at(p, 8) as i32,
        }
    }

    open spec fn spec_serialize(&self) -> Seq<u8> {
        le32(self.latitude as u32) + le32(self.longitude as u32) + le32(self.altitude as u32)
    }

    fn parse(payload: &[u8]) -> GPS_GLOBAL_ORIGIN_DATA {
        GPS_GLOBAL_ORIGIN_DATA {
            latitude: get_i32(payload, 0),
            longitude: get_i32(payload, 4),
            altitude: get_i32(payload, 8),
        }
    }

    fn serialize(&self) -> Vec<u8> {
        let mut wtr = Vec::new();
        put_i32(&mut wtr, self.latitude);
        assert(wtr@ =~= le32(self.latitude as u32));
        put_i32(&mut wtr, self.longitude);
        put_i32(&mut wtr, self.altitude);
        wtr
    }

    proof fn lemma_roundtrip(&self) {
        let w = self.spec_serialize();
        let w0 = le32(self.latitude as u32);
        let w1 = w0 + le32(self.longitude as u32);
        lemma_whole(w, le32(self.latitude as u32));
        lemma_read_i32(w, w1, self.altitude);
        lemma_read_i32(w, w0, self.longitude);
        lemma_read_i32(w, Seq::empty(), self.latitude);
    }
}

} // verus!
