//! The parameter protocol (messages 20 to 23).

use crate::mavlink::Parsable;
use crate::wire::{
    Ieee32, array_of, get_i16, get_u16, get_u32, get_u8, get_u8s, le16, le32, le8,
    lemma_read_i16, lemma_read_u16, lemma_read_u32, lemma_read_u8, lemma_read_u8s, lemma_whole,
    put_i16, put_u16, put_u32, put_u8, put_u8s, u16_at, u32_at, u8s_at,
};
use vstd::prelude::*;

verus! {

/// `PARAM_REQUEST_READ`, message 20: 20 payload bytes.
#[allow(non_camel_case_types)]
#[derive(Clone, Copy, Debug, PartialEq, Eq)]
pub struct PARAM_REQUEST_READ_DATA {
    pub param_index: i16,
    pub target_system: u8,
    pub target_component: u8,
    pub param_id: [u8; 16],
}

impl Parsable for PARAM_REQUEST_READ_DATA {
    open spec fn wire_len() -> nat {
        20
    }

    open spec fn spec_parse(p: Seq<u8>) -> PARAM_REQUEST_READ_DATA {
        PARAM_REQUEST_READ_DATA {
            param_index: u16_at(p, 0) as i16,
            target_system: p[2],
            target_component: p[3],
            param_id: array_of(u8s_at(p, 4, 16)),
        }
    }

    open spec fn spec_serialize(&self) -> Seq<u8> {
        le16(self.param_index as u16) + le8(self.target_system) + le8(self.target_component)
            + self.param_id@
    }

    fn parse(payload: &[u8]) -> PARAM_REQUEST_READ_DATA {
        PARAM_REQUEST_READ_DATA {
            param_index: get_i16(payload, 0),
            target_system: get_u8(payload, 2),
            target_component: get_u8(payload, 3),
            param_id: get_u8s(payload, 4),
        }
    }

    fn serialize(&self) -> Vec<u8> {
        let mut wtr = Vec::new();
        put_i16(&mut wtr, self.param_index);
        assert(wtr@ =~= le16(self.param_index as u16));
        put_u8(&mut wtr, self.target_system);
        put_u8(&mut wtr, self.target_component);
        put_u8s(&mut wtr, &self.param_id);
        wtr
    }

    proof fn lemma_roundtrip(&self) {
        let w = self.spec_serialize();
        let w0 = le16(self.param_index as u16);
        let w1 = w0 + le8(self.target_system);
        let w2 = w1 + le8(self.target_component);
        lemma_whole(w, le16(self.param_index as u16));
        lemma_read_u8s(w, w2, self.param_id);
        lemma_read_u8(w, w1, self.target_component);
        lemma_read_u8(w, w0, self.target_system);
        lemma_read_i16(w, Seq::empty(), self.param_index);
    }
}

/// `PARAM_REQUEST_LIST`, message 21: 2 payload bytes.
#[allow(non_camel_case_types)]
#[derive(Clone, Copy, Debug, PartialEq, Eq)]
pub struct PARAM_REQUEST_LIST_DATA {
    pub target_system: u8,
    pub target_component: u8,
}

impl Parsable for PARAM_REQUEST_LIST_DATA {
    open spec fn wire_len() -> nat {
        2
    }

    open spec fn spec_parse(p: Seq<u8>) -> PARAM_REQUEST_LIST_DATA {
        PARAM_REQUEST_LIST_DATA {
            target_system: p[0],
            target_component: p[1],
        }
    }

    open spec fn spec_serialize(&self) -> Seq<u8> {
        le8(self.target_system) + le8(self.target_component)
    }

    fn parse(payload: &[u8]) -> PARAM_REQUEST_LIST_DATA {
        PARAM_REQUEST_LIST_DATA {
            target_system: get_u8(payload, 0),
            target_component: get_u8(payload, 1),
        }
    }

    fn serialize(&self) -> Vec<u8> {
        let mut wtr = Vec::new();
        put_u8(&mut wtr, self.target_system);
        assert(wtr@ =~= le8(self.target_system));
        put_u8(&mut wtr, self.target_component);
        wtr
    }

    proof fn lemma_roundtrip(&self) {
        let w = self.spec_serialize();
        let w0 = le8(self.target_system);
        lemma_whole(w, le8(self.target_system));
        lemma_read_u8(w, w0, self.target_component);
        lemma_read_u8(w, Seq::empty(), self.target_system);
    }
}

/// `PARAM_VALUE`, message 22: 25 payload bytes.
#[allow(non_camel_case_types)]
#[derive(Clone, Copy, Debug, PartialEq, Eq)]
pub struct PARAM_VALUE_DATA {
    pub param_value: Ieee32,
    pub param_count: u16,
    pub param_index: u16,
    pub param_id: [u8; 16],
    pub param_type: u8,
}

impl Parsable for PARAM_VALUE_DATA {
    open spec fn wire_len() -> nat {
        25
    }

    open spec fn spec_parse(p: Seq<u8>) -> PARAM_VALUE_DATA {
        PARAM_VALUE_DATA {
            param_value: u32_at(p, 0),
            param_count: u16_at(p, 4),
            param_index: u16_at(p, 6),
            param_id: array_of(u8s_at(p, 8, 16)),
            param_type: p[24],
        }
    }

    open spec fn spec_serialize(&self) -> Seq<u8> {
        le32(self.param_value) + le16(self.param_count) + le16(self.param_index)
            + self.param_id@ + le8(self.param_type)
    }

    fn parse(payload: &[u8]) -> PARAM_VALUE_DATA {
        PARAM_VALUE_DATA {
            param_value: get_u32(payload, 0),
            param_count: get_u16(payload, 4),
            param_index: get_u16(payload, 6),
            param_id: get_u8s(payload, 8),
            param_type: get_u8(payload, 24),
        }
    }

    fn serialize(&self) -> Vec<u8> {
        let mut wtr = Vec::new();
        put_u32(&mut wtr, self.param_value);
        assert(wtr@ =~= le32(self.param_value));
        put_u16(&mut wtr, self.param_count);
        put_u16(&mut wtr, self.param_index);
        put_u8s(&mut wtr, &self.param_id);
        put_u8(&mut wtr, self.param_type);
        wtr
    }

    proof fn lemma_roundtrip(&self) {
        let w = self.spec_serialize();
        let w0 = le32(self.param_value);
        let w1 = w0 + le16(self.param_count);
        let w2 = w1 + le16(self.param_index);
        let w3 = w2 + self.param_id@;
        lemma_whole(w, le32(self.param_value));
        lemma_read_u8(w, w3, self.param_type);
        lemma_read_u8s(w, w2, self.param_id);
        lemma_read_u16(w, w1, self.param_index);
        lemma_read_u16(w, w0, self.param_count);
        lemma_read_u32(w, Seq::empty(), self.param_value);
    }
}

/// `PARAM_SET`, message 23: 23 payload bytes.
#[allow(non_camel_case_types)]
#[derive(Clone, Copy, Debug, PartialEq, Eq)]
pub struct PARAM_SET_DATA {
    pub param_value: Ieee32,
    pub target_system: u8,
    pub target_component: u8,
    pub param_id: [u8; 16],
    pub param_type: u8,
}

impl Parsable for PARAM_SET_DATA {
    open spec fn wire_len() -> nat {
        23
    }

    open spec fn spec_parse(p: Seq<u8>) -> PARAM_SET_DATA {
        PARAM_SET_DATA {
            param_value: u32_at(p, 0),
            target_system: p[4],
            target_component: p[5],
            param_id: array_of(u8s_at(p, 6, 16)),
            param_type: p[22],
        }
    }

    open spec fn spec_serialize(&self) -> Seq<u8> {
        le32(self.param_value) + le8(self.target_system) + le8(self.target_component)
            + self.param_id@ + le8(self.param_type)
    }

    fn parse(payload: &[u8]) -> PARAM_SET_DATA {
        PARAM_SET_DATA {
            param_value: get_u32(payload, 0),
            target_system: get_u8(payload, 4),
            target_component: get_u8(payload, 5),
            param_id: get_u8s(payload, 6),
            param_type: get_u8(payload, 22),
        }
    }

    fn serialize(&self) -> Vec<u8> {
        let mut wtr = Vec::new();
        put_u32(&mut wtr, self.param_value);
        assert(wtr@ =~= le32(self.param_value));
        put_u8(&mut wtr, self.target_system);
        put_u8(&mut wtr, self.target_component);
        put_u8s(&mut wtr, &self.param_id);
        put_u8(&mut wtr, self.param_type);
        wtr
    }

    proof fn lemma_roundtrip(&self) {
        let w = self.spec_serialize();
        let w0 = le32(self.param_value);
        let w1 = w0 + le8(self.target_system);
        let w2 = w1 + le8(self.target_component);
        let w3 = w2 + self.param_id@;
        lemma_whole(w, le32(self.param_value));
        lemma_read_u8(w, w3, self.param_type);
        lemma_read_u8s(w, w2, self.param_id);
        lemma_read_u8(w, w1, self.target_component);
        lemma_read_u8(w, w0, self.target_system);
        lemma_read_u32(w, Seq::empty(), self.param_value);
    }
}

} // verus!
