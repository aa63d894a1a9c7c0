//! Safety areas, controller outputs, commands and set-points (messages 50 to 89).

use crate::mavlink::Parsable;
use crate::wire::{
    Ieee32, array_of, get_i16, get_i32, get_u16, get_u32, get_u32s, get_u64, get_u8, get_u8s,
    le16, le32, le32s, le64, le8, lemma_read_i16, lemma_read_i32, lemma_read_u16,
    lemma_read_u32, lemma_read_u32s, lemma_read_u64, lemma_read_u8, lemma_read_u8s, lemma_whole,
    put_i16, put_i32, put_u16, put_u32, put_u32s, put_u64, put_u8, put_u8s, u16_at, u32_at,
    u32s_at, u64_at, u8s_at,
};
use vstd::prelude::*;

verus! {

/// `PARAM_MAP_RC`, message 50: 37 payload bytes.
#[allow(non_camel_case_types)]
#[derive(Clone, Copy, Debug, PartialEq, Eq)]
pub struct PARAM_MAP_RC_DATA {
    pub param_value0: Ieee32,
    pub scale: Ieee32,
    pub param_value_min: Ieee32,
    pub param_value_max: Ieee32,
    pub param_index: i16,
    pub target_system: u8,
    pub target_component: u8,
    pub param_id: [u8; 16],
    pub parameter_rc_channel_index: u8,
}

impl Parsable for PARAM_MAP_RC_DATA {
    open spec fn wire_len() -> nat {
        37
    }

    open spec fn spec_parse(p: Seq<u8>) -> PARAM_MAP_RC_DATA {
        PARAM_MAP_RC_DATA {
            param_value0: u32_at(p, 0),
            scale: u32_at(p, 4),
            param_value_min: u32_at(p, 8),
            param_value_max: u32_at(p, 12),
            param_index: u16_at(p, 16) as i16,
            target_system: p[18],
            target_component: p[19],
            param_id: array_of(u8s_at(p, 20, 16)),
            parameter_rc_channel_index: p[36],
        }
    }

    open spec fn spec_serialize(&self) -> Seq<u8> {
        le32(self.param_value0) + le32(self.scale) + le32(self.param_value_min)
            + le32(self.param_value_max) + le16(self.param_index as u16) + le8(self.target_system)
            + le8(self.target_component) + self.param_id@ + le8(self.parameter_rc_channel_index)
    }

    fn parse(payload: &[u8]) -> PARAM_MAP_RC_DATA {
        PARAM_MAP_RC_DATA {
            param_value0: get_u32(payload, 0),
            scale: get_u32(payload, 4),
            param_value_min: get_u32(payload, 8),
            param_value_max: get_u32(payload, 12),
            param_index: get_i16(payload, 16),
            target_system: get_u8(payload, 18),
            target_component: get_u8(payload, 19),
            param_id: get_u8s(payload, 20),
            parameter_rc_channel_index: get_u8(payload, 36),
        }
    }

    fn serialize(&self) -> Vec<u8> {
        let mut wtr = Vec::new();
        put_u32(&mut wtr, self.param_value0);
        assert(wtr@ =~= le32(self.param_value0));
        put_u32(&mut wtr, self.scale);
        put_u32(&mut wtr, self.param_value_min);
        put_u32(&mut wtr, self.param_value_max);
        put_i16(&mut wtr, self.param_index);
        put_u8(&mut wtr, self.target_system);
        put_u8(&mut wtr, self.target_component);
        put_u8s(&mut wtr, &self.param_id);
        put_u8(&mut wtr, self.parameter_rc_channel_index);
        wtr
    }

    proof fn lemma_roundtrip(&self) {
        let w = self.spec_serialize();
        let w0 = le32(self.param_value0);
        let w1 = w0 + le32(self.scale);
        let w2 = w1 + le32(self.param_value_min);
        let w3 = w2 + le32(self.param_value_max);
        let w4 = w3 + le16(self.param_index as u16);
        let w5 = w4 + le8(self.target_system);
        let w6 = w5 + le8(self.target_component);
        let w7 = w6 + self.param_id@;
        lemma_whole(w, le32(self.param_value0));
        lemma_read_u8(w, w7, self.parameter_rc_channel_index);
        lemma_read_u8s(w, w6, self.param_id);
        lemma_read_u8(w, w5, self.target_component);
        lemma_read_u8(w, w4, self.target_system);
        lemma_read_i16(w, w3, self.param_index);
        lemma_read_u32(w, w2, self.param_value_max);
        lemma_read_u32(w, w1, self.param_value_min);
        lemma_read_u32(w, w0, self.scale);
        lemma_read_u32(w, Seq::empty(), self.param_value0);
    }
}

/// `SAFETY_SET_ALLOWED_AREA`, message 54: 27 payload bytes.
#[allow(non_camel_case_types)]
#[derive(Clone, Copy, Debug, PartialEq, Eq)]
pub struct SAFETY_SET_ALLOWED_AREA_DATA {
    pub p1x: Ieee32,
    pub p1y: Ieee32,
    pub p1z: Ieee32,
    pub p2x: Ieee32,
    pub p2y: Ieee32,
    pub p2z: Ieee32,
    pub target_system: u8,
    pub target_component: u8,
    pub frame: u8,
}

impl Parsable for SAFETY_SET_ALLOWED_AREA_DATA {
    open spec fn wire_len() -> nat {
        27
    }

    open spec fn spec_parse(p: Seq<u8>) -> SAFETY_SET_ALLOWED_AREA_DATA {
        SAFETY_SET_ALLOWED_AREA_DATA {
            p1x: u32_at(p, 0),
            p1y: u32_at(p, 4),
            p1z: u32_at(p, 8),
            p2x: u32_at(p, 12),
            p2y: u32_at(p, 16),
            p2z: u32_at(p, 20),
            target_system: p[24],
            target_component: p[25],
            frame: p[26],
        }
    }

    open spec fn spec_serialize(&self) -> Seq<u8> {
        le32(self.p1x) + le32(self.p1y) + le32(self.p1z) + le32(self.p2x) + le32(self.p2y)
            + le32(self.p2z) + le8(self.target_system) + le8(self.target_component)
            + le8(self.frame)
    }

    fn parse(payload: &[u8]) -> SAFETY_SET_ALLOWED_AREA_DATA {
        SAFETY_SET_ALLOWED_AREA_DATA {
            p1x: get_u32(payload, 0),
            p1y: get_u32(payload, 4),
            p1z: get_u32(payload, 8),
            p2x: get_u32(payload, 12),
            p2y: get_u32(payload, 16),
            p2z: get_u32(payload, 20),
            target_system: get_u8(payload, 24),
            target_component: get_u8(payload, 25),
            frame: get_u8(payload, 26),
        }
    }

    fn serialize(&self) -> Vec<u8> {
        let mut wtr = Vec::new();
        put_u32(&mut wtr, self.p1x);
        assert(wtr@ =~= le32(self.p1x));
        put_u32(&mut wtr, self.p1y);
        put_u32(&mut wtr, self.p1z);
        put_u32(&mut wtr, self.p2x);
        put_u32(&mut wtr, self.p2y);
        put_u32(&mut wtr, self.p2z);
        put_u8(&mut wtr, self.target_system);
        put_u8(&mut wtr, self.target_component);
        put_u8(&mut wtr, self.frame);
        wtr
    }

    proof fn lemma_roundtrip(&self) {
        let w = self.spec_serialize();
        let w0 = le32(self.p1x);
        let w1 = w0 + le32(self.p1y);
        let w2 = w1 + le32(self.p1z);
        let w3 = w2 + le32(self.p2x);
        let w4 = w3 + le32(self.p2y);
        let w5 = w4 + le32(self.p2z);
        let w6 = w5 + le8(self.target_system);
        let w7 = w6 + le8(self.target_component);
        lemma_whole(w, le32(self.p1x));
        lemma_read_u8(w, w7, self.frame);
        lemma_read_u8(w, w6, self.target_component);
        lemma_read_u8(w, w5, self.target_system);
        lemma_read_u32(w, w4, self.p2z);
        lemma_read_u32(w, w3, self.p2y);
        lemma_read_u32(w, w2, self.p2x);
        lemma_read_u32(w, w1, self.p1z);
        lemma_read_u32(w, w0, self.p1y);
        lemma_read_u32(w, Seq::empty(), self.p1x);
    }
}

/// `SAFETY_ALLOWED_AREA`, message 55: 25 payload bytes.
#[allow(non_camel_case_types)]
#[derive(Clone, Copy, Debug, PartialEq, Eq)]
pub struct SAFETY_ALLOWED_AREA_DATA {
    pub p1x: Ieee32,
    pub p1y: Ieee32,
    pub p1z: Ieee32,
    pub p2x: Ieee32,
    pub p2y: Ieee32,
    pub p2z: Ieee32,
    pub frame: u8,
}

impl Parsable for SAFETY_ALLOWED_AREA_DATA {
    open spec fn wire_len() -> nat {
        25
    }

    open spec fn spec_parse(p: Seq<u8>) -> SAFETY_ALLOWED_AREA_DATA {
        SAFETY_ALLOWED_AREA_DATA {
            p1x: u32_at(p, 0),
            p1y: u32_at(p, 4),
            p1z: u32_at(p, 8),
            p2x: u32_at(p, 12),
            p2y: u32_at(p, 16),
            p2z: u32_at(p, 20),
            frame: p[24],
        }
    }

    open spec fn spec_serialize(&self) -> Seq<u8> {
        le32(self.p1x) + le32(self.p1y) + le32(self.p1z) + le32(self.p2x) + le32(self.p2y)
            + le32(self.p2z) + le8(self.frame)
    }

    fn parse(payload: &[u8]) -> SAFETY_ALLOWED_AREA_DATA {
        SAFETY_ALLOWED_AREA_DATA {
            p1x: get_u32(payload, 0),
            p1y: get_u32(payload, 4),
            p1z: get_u32(payload, 8),
            p2x: get_u32(payload, 12),
            p2y: get_u32(payload, 16),
            p2z: get_u32(payload, 20),
            frame: get_u8(payload, 24),
        }
    }

    fn serialize(&self) -> Vec<u8> {
        let mut wtr = Vec::new();
        put_u32(&mut wtr, self.p1x);
        assert(wtr@ =~= le32(self.p1x));
        put_u32(&mut wtr, self.p1y);
        put_u32(&mut wtr, self.p1z);
        put_u32(&mut wtr, self.p2x);
        put_u32(&mut wtr, self.p2y);
        put_u32(&mut wtr, self.p2z);
        put_u8(&mut wtr, self.frame);
        wtr
    }

    proof fn lemma_roundtrip(&self) {
        let w = self.spec_serialize();
        let w0 = le32(self.p1x);
        let w1 = w0 + le32(self.p1y);
        let w2 = w1 + le32(self.p1z);
        let w3 = w2 + le32(self.p2x);
        let w4 = w3 + le32(self.p2y);
        let w5 = w4 + le32(self.p2z);
        lemma_whole(w, le32(self.p1x));
        lemma_read_u8(w, w5, self.frame);
        lemma_read_u32(w, w4, self.p2z);
        lemma_read_u32(w, w3, self.p2y);
        lemma_read_u32(w, w2, self.p2x);
        lemma_read_u32(w, w1, self.p1z);
        lemma_read_u32(w, w0, self.p1y);
        lemma_read_u32(w, Seq::empty(), self.p1x);
    }
}

/// `ATTITUDE_QUATERNION_COV`, message 61: 68 payload bytes.
#[allow(non_camel_case_types)]
#[derive(Clone, Copy, Debug, PartialEq, Eq)]
pub struct ATTITUDE_QUATERNION_COV_DATA {
    pub time_boot_ms: u32,
    pub q: [Ieee32; 4],
    pub rollspeed: Ieee32,
    pub pitchspeed: Ieee32,
    pub yawspeed: Ieee32,
    pub covariance: [Ieee32; 9],
}

impl Parsable for ATTITUDE_QUATERNION_COV_DATA {
    open spec fn wire_len() -> nat {
        68
    }

    open spec fn spec_parse(p: Seq<u8>) -> ATTITUDE_QUATERNION_COV_DATA {
        ATTITUDE_QUATERNION_COV_DATA {
            time_boot_ms: u32_at(p, 0),
            q: array_of(u32s_at(p, 4, 4)),
            rollspeed: u32_at(p, 20),
            pitchspeed: u32_at(p, 24),
            yawspeed: u32_at(p, 28),
            covariance: array_of(u32s_at(p, 32, 9)),
        }
    }

    open spec fn spec_serialize(&self) -> Seq<u8> {
        le32(self.time_boot_ms) + le32s(self.q@) + le32(self.rollspeed) + le32(self.pitchspeed)
            + le32(self.yawspeed) + le32s(self.covariance@)
    }

    fn parse(payload: &[u8]) -> ATTITUDE_QUATERNION_COV_DATA {
        ATTITUDE_QUATERNION_COV_DATA {
            time_boot_ms: get_u32(payload, 0),
            q: get_u32s(payload, 4),
            rollspeed: get_u32(payload, 20),
            pitchspeed: get_u32(payload, 24),
            yawspeed: get_u32(payload, 28),
            covariance: get_u32s(payload, 32),
        }
    }

    fn serialize(&self) -> Vec<u8> {
        let mut wtr = Vec::new();
        put_u32(&mut wtr, self.time_boot_ms);
        assert(wtr@ =~= le32(self.time_boot_ms));
        put_u32s(&mut wtr, &self.q);
        put_u32(&mut wtr, self.rollspeed);
        put_u32(&mut wtr, self.pitchspeed);
        put_u32(&mut wtr, self.yawspeed);
        put_u32s(&mut wtr, &self.covariance);
        wtr
    }

    proof fn lemma_roundtrip(&self) {
        let w = self.spec_serialize();
        let w0 = le32(self.time_boot_ms);
        let w1 = w0 + le32s(self.q@);
        let w2 = w1 + le32(self.rollspeed);
        let w3 = w2 + le32(self.pitchspeed);
        let w4 = w3 + le32(self.yawspeed);
        lemma_whole(w, le32(self.time_boot_ms));
        lemma_read_u32s(w, w4, self.covariance);
        lemma_read_u32(w, w3, self.yawspeed);
        lemma_read_u32(w, w2, self.pitchspeed);
        lemma_read_u32(w, w1, self.rollspeed);
        lemma_read_u32s(w, w0, self.q);
        lemma_read_u32(w, Seq::empty(), self.time_boot_ms);
    }
}

/// `NAV_CONTROLLER_OUTPUT`, message 62: 26 payload bytes.
#[allow(non_camel_case_types)]
#[derive(Clone, Copy, Debug, PartialEq, Eq)]
pub struct NAV_CONTROLLER_OUTPUT_DATA {
    pub nav_roll: Ieee32,
    pub nav_pitch: Ieee32,
    pub alt_error: Ieee32,
    pub aspd_error: Ieee32,
    pub xtrack_error: Ieee32,
    pub nav_bearing: i16,
    pub target_bearing: i16,
    pub wp_dist: u16,
}

impl Parsable for NAV_CONTROLLER_OUTPUT_DATA {
    open spec fn wire_len() -> nat {
        26
    }

    open spec fn spec_parse(p: Seq<u8>) -> NAV_CONTROLLER_OUTPUT_DATA {
        NAV_CONTROLLER_OUTPUT_DATA {
            nav_roll: u32_at(p, 0),
            nav_pitch: u32_at(p, 4),
            alt_error: u32_at(p, 8),
            aspd_error: u32_at(p, 12),
            xtrack_error: u32_at(p, 16),
            nav_bearing: u16_at(p, 20) as i16,
            target_bearing: u16_at(p, 22) as i16,
            wp_dist: u16_at(p, 24),
        }
    }

    open spec fn spec_serialize(&self) -> Seq<u8> {
        le32(self.nav_roll) + le32(self.nav_pitch) + le32(self.alt_error)
            + le32(self.aspd_error) + le32(self.xtrack_error) + le16(self.nav_bearing as u16)
            + le16(self.target_bearing as u16) + le16(self.wp_dist)
    }

    fn parse(payload: &[u8]) -> NAV_CONTROLLER_OUTPUT_DATA {
        NAV_CONTROLLER_OUTPUT_DATA {
            nav_roll: get_u32(payload, 0),
            nav_pitch: get_u32(payload, 4),
            alt_error: get_u32(payload, 8),
            aspd_error: get_u32(payload, 12),
            xtrack_error: get_u32(payload, 16),
            nav_bearing: get_i16(payload, 20),
            target_bearing: get_i16(payload, 22),
            wp_dist: get_u16(payload, 24),
        }
    }

    fn serialize(&self) -> Vec<u8> {
        let mut wtr = Vec::new();
        put_u32(&mut wtr, self.nav_roll);
        assert(wtr@ =~= le32(self.nav_roll));
        put_u32(&mut wtr, self.nav_pitch);
        put_u32(&mut wtr, self.alt_error);
        put_u32(&mut wtr, self.aspd_error);
        put_u32(&mut wtr, self.xtrack_error);
        put_i16(&mut wtr, self.nav_bearing);
        put_i16(&mut wtr, self.target_bearing);
        put_u16(&mut wtr, self.wp_dist);
        wtr
    }

    proof fn lemma_roundtrip(&self) {
        let w = self.spec_serialize();
        let w0 = le32(self.nav_roll);
        let w1 = w0 + le32(self.nav_pitch);
        let w2 = w1 + le32(self.alt_error);
        let w3 = w2 + le32(self.aspd_error);
        let w4 = w3 + le32(self.xtrack_error);
        let w5 = w4 + le16(self.nav_bearing as u16);
        let w6 = w5 + le16(self.target_bearing as u16);
        lemma_whole(w, le32(self.nav_roll));
        lemma_read_u16(w, w6, self.wp_dist);
        lemma_read_i16(w, w5, self.target_bearing);
        lemma_read_i16(w, w4, self.nav_bearing);
        lemma_read_u32(w, w3, self.xtrack_error);
        lemma_read_u32(w, w2, self.aspd_error);
        lemma_read_u32(w, w1, self.alt_error);
        lemma_read_u32(w, w0, self.nav_pitch);
        lemma_read_u32(w, Seq::empty(), self.nav_roll);
    }
}

/// `GLOBAL_POSITION_INT_COV`, message 63: 185 payload bytes.
#[allow(non_camel_case_types)]
#[derive(Clone, Copy, Debug, PartialEq, Eq)]
pub struct GLOBAL_POSITION_INT_COV_DATA {
    pub time_utc: u64,
    pub time_boot_ms: u32,
    pub lat: i32,
    pub lon: i32,
    pub alt: i32,
    pub relative_alt: i32,
    pub vx: Ieee32,
    pub vy: Ieee32,
    pub vz: Ieee32,
    pub covariance: [Ieee32; 36],
    pub estimator_type: u8,
}

impl Parsable for GLOBAL_POSITION_INT_COV_DATA {
    open spec fn wire_len() -> nat {
        185
    }

    open spec fn spec_parse(p: Seq<u8>) -> GLOBAL_POSITION_INT_COV_DATA {
        GLOBAL_POSITION_INT_COV_DATA {
            time_utc: u64_at(p, 0),
            time_boot_ms: u32_at(p, 8),
            lat: u32_at(p, 12) as i32,
            lon: u32_at(p, 16) as i32,
            alt: u32_at(p, 20) as i32,
            relative_alt: u32_at(p, 24) as i32,
            vx: u32_at(p, 28),
            vy: u32_at(p, 32),
            vz: u32_at(p, 36),
            covariance: array_of(u32s_at(p, 40, 36)),
            estimator_type: p[184],
        }
    }

    open spec fn spec_serialize(&self) -> Seq<u8> {
        le64(self.time_utc) + le32(self.time_boot_ms) + le32(self.lat as u32)
            + le32(self.lon as u32) + le32(self.alt as u32) + le32(self.relative_alt as u32)
            + le32(self.vx) + le32(self.vy) + le32(self.vz) + le32s(self.covariance@)
            + le8(self.estimator_type)
    }

    fn parse(payload: &[u8]) -> GLOBAL_POSITION_INT_COV_DATA {
        GLOBAL_POSITION_INT_COV_DATA {
            time_utc: get_u64(payload, 0),
            time_boot_ms: get_u32(payload, 8),
            lat: get_i32(payload, 12),
            lon: get_i32(payload, 16),
            alt: get_i32(payload, 20),
            relative_alt: get_i32(payload, 24),
            vx: get_u32(payload, 28),
            vy: get_u32(payload, 32),
            vz: get_u32(payload, 36),
            covariance: get_u32s(payload, 40),
            estimator_type: get_u8(payload, 184),
        }
    }

    fn serialize(&self) -> Vec<u8> {
        let mut wtr = Vec::new();
        put_u64(&mut wtr, self.time_utc);
        assert(wtr@ =~= le64(self.time_utc));
        put_u32(&mut wtr, self.time_boot_ms);
        put_i32(&mut wtr, self.lat);
        put_i32(&mut wtr, self.lon);
        put_i32(&mut wtr, self.alt);
        put_i32(&mut wtr, self.relative_alt);
        put_u32(&mut wtr, self.vx);
        put_u32(&mut wtr, self.vy);
        put_u32(&mut wtr, self.vz);
        put_u32s(&mut wtr, &self.covariance);
        put_u8(&mut wtr, self.estimator_type);
        wtr
    }

    proof fn lemma_roundtrip(&self) {
        let w = self.spec_serialize();
        let w0 = le64(self.time_utc);
        let w1 = w0 + le32(self.time_boot_ms);
        let w2 = w1 + le32(self.lat as u32);
        let w3 = w2 + le32(self.lon as u32);
        let w4 = w3 + le32(self.alt as u32);
        let w5 = w4 + le32(self.relative_alt as u32);
        let w6 = w5 + le32(self.vx);
        let w7 = w6 + le32(self.vy);
        let w8 = w7 + le32(self.vz);
        let w9 = w8 + le32s(self.covariance@);
        lemma_whole(w, le64(self.time_utc));
        lemma_read_u8(w, w9, self.estimator_type);
        lemma_read_u32s(w, w8, self.covariance);
        lemma_read_u32(w, w7, self.vz);
        lemma_read_u32(w, w6, self.vy);
        lemma_read_u32(w, w5, self.vx);
        lemma_read_i32(w, w4, self.relative_alt);
        lemma_read_i32(w, w3, self.alt);
        lemma_read_i32(w, w2, self.lon);
        lemma_read_i32(w, w1, self.lat);
        lemma_read_u32(w, w0, self.time_boot_ms);
        lemma_read_u64(w, Seq::empty(), self.time_utc);
    }
}

/// `LOCAL_POSITION_NED_COV`, message 64: 229 payload bytes.
#[allow(non_camel_case_types)]
#[derive(Clone, Copy, Debug, PartialEq, Eq)]
pub struct LOCAL_POSITION_NED_COV_DATA {
    pub time_utc: u64,
    pub time_boot_ms: u32,
    pub x: Ieee32,
    pub y: Ieee32,
    pub z: Ieee32,
    pub vx: Ieee32,
    pub vy: Ieee32,
    pub vz: Ieee32,
    pub ax: Ieee32,
    pub ay: Ieee32,
    pub az: Ieee32,
    pub covariance: [Ieee32; 45],
    pub estimator_type: u8,
}

impl Parsable for LOCAL_POSITION_NED_COV_DATA {
    open spec fn wire_len() -> nat {
        229
    }

    open spec fn spec_parse(p: Seq<u8>) -> LOCAL_POSITION_NED_COV_DATA {
        LOCAL_POSITION_NED_COV_DATA {
            time_utc: u64_at(p, 0),
            time_boot_ms: u32_at(p, 8),
            x: u32_at(p, 12),
            y: u32_at(p, 16),
            z: u32_at(p, 20),
            vx: u32_at(p, 24),
            vy: u32_at(p, 28),
            vz: u32_at(p, 32),
            ax: u32_at(p, 36),
            ay: u32_at(p, 40),
            az: u32_at(p, 44),
            covariance: array_of(u32s_at(p, 48, 45)),
            estimator_type: p[228],
        }
    }

    open spec fn spec_serialize(&self) -> Seq<u8> {
        le64(self.time_utc) + le32(self.time_boot_ms) + le32(self.x) + le32(self.y)
            + le32(self.z) + le32(self.vx) + le32(self.vy) + le32(self.vz) + le32(self.ax)
            + le32(self.ay) + le32(self.az) + le32s(self.covariance@) + le8(self.estimator_type)
    }

    fn parse(payload: &[u8]) -> LOCAL_POSITION_NED_COV_DATA {
        LOCAL_POSITION_NED_COV_DATA {
            time_utc: get_u64(payload, 0),
            time_boot_ms: get_u32(payload, 8),
            x: get_u32(payload, 12),
            y: get_u32(payload, 16),
            z: get_u32(payload, 20),
            vx: get_u32(payload, 24),
            vy: get_u32(payload, 28),
            vz: get_u32(payload, 32),
            ax: get_u32(payload, 36),
            ay: get_u32(payload, 40),
            az: get_u32(payload, 44),
            covariance: get_u32s(payload, 48),
            estimator_type: get_u8(payload, 228),
        }
    }

    fn serialize(&self) -> Vec<u8> {
        let mut wtr = Vec::new();
        put_u64(&mut wtr, self.time_utc);
        assert(wtr@ =~= le64(self.time_utc));
        put_u32(&mut wtr, self.time_boot_ms);
        put_u32(&mut wtr, self.x);
        put_u32(&mut wtr, self.y);
        put_u32(&mut wtr, self.z);
        put_u32(&mut wtr, self.vx);
        put_u32(&mut wtr, self.vy);
        put_u32(&mut wtr, self.vz);
        put_u32(&mut wtr, self.ax);
        put_u32(&mut wtr, self.ay);
        put_u32(&mut wtr, self.az);
        put_u32s(&mut wtr, &self.covariance);
        put_u8(&mut wtr, self.estimator_type);
        wtr
    }

    proof fn lemma_roundtrip(&self) {
        let w = self.spec_serialize();
        let w0 = le64(self.time_utc);
        let w1 = w0 + le32(self.time_boot_ms);
        let w2 = w1 + le32(self.x);
        let w3 = w2 + le32(self.y);
        let w4 = w3 + le32(self.z);
        let w5 = w4 + le32(self.vx);
        let w6 = w5 + le32(self.vy);
        let w7 = w6 + le32(self.vz);
        let w8 = w7 + le32(self.ax);
        let w9 = w8 + le32(self.ay);
        let w10 = w9 + le32(self.az);
        let w11 = w10 + le32s(self.covariance@);
        lemma_whole(w, le64(self.time_utc));
        lemma_read_u8(w, w11, self.estimator_type);
        lemma_read_u32s(w, w10, self.covariance);
        lemma_read_u32(w, w9, self.az);
        lemma_read_u32(w, w8, self.ay);
        lemma_read_u32(w, w7, self.ax);
        lemma_read_u32(w, w6, self.vz);
        lemma_read_u32(w, w5, self.vy);
        lemma_read_u32(w, w4, self.vx);
        lemma_read_u32(w, w3, self.z);
        lemma_read_u32(w, w2, self.y);
        lemma_read_u32(w, w1, self.x);
        lemma_read_u32(w, w0, self.time_boot_ms);
        lemma_read_u64(w, Seq::empty(), self.time_utc);
    }
}

/// `RC_CHANNELS`, message 65: 42 payload bytes.
#[allow(non_camel_case_types)]
#[derive(Clone, Copy, Debug, PartialEq, Eq)]
pub struct RC_CHANNELS_DATA {
    pub time_boot_ms: u32,
    pub chan1_raw: u16,
    pub chan2_raw: u16,
    pub chan3_raw: u16,
    pub chan4_raw: u16,
    pub chan5_raw: u16,
    pub chan6_raw: u16,
    pub chan7_raw: u16,
    pub chan8_raw: u16,
    pub chan9_raw: u16,
    pub chan10_raw: u16,
    pub chan11_raw: u16,
    pub chan12_raw: u16,
    pub chan13_raw: u16,
    pub chan14_raw: u16,
    pub chan15_raw: u16,
    pub chan16_raw: u16,
    pub chan17_raw: u16,
    pub chan18_raw: u16,
    pub chancount: u8,
    pub rssi: u8,
}

impl Parsable for RC_CHANNELS_DATA {
    open spec fn wire_len() -> nat {
        42
    }

    open spec fn spec_parse(p: Seq<u8>) -> RC_CHANNELS_DATA {
        RC_CHANNELS_DATA {
            time_boot_ms: u32_at(p, 0),
            chan1_raw: u16_at(p, 4),
            chan2_raw: u16_at(p, 6),
            chan3_raw: u16_at(p, 8),
            chan4_raw: u16_at(p, 10),
            chan5_raw: u16_at(p, 12),
            chan6_raw: u16_at(p, 14),
            chan7_raw: u16_at(p, 16),
            chan8_raw: u16_at(p, 18),
            chan9_raw: u16_at(p, 20),
            chan10_raw: u16_at(p, 22),
            chan11_raw: u16_at(p, 24),
            chan12_raw: u16_at(p, 26),
            chan13_raw: u16_at(p, 28),
            chan14_raw: u16_at(p, 30),
            chan15_raw: u16_at(p, 32),
            chan16_raw: u16_at(p, 34),
            chan17_raw: u16_at(p, 36),
            chan18_raw: u16_at(p, 38),
            chancount: p[40],
            rssi: p[41],
        }
    }

    open spec fn spec_serialize(&self) -> Seq<u8> {
        le32(self.time_boot_ms) + le16(self.chan1_raw) + le16(self.chan2_raw)
            + le16(self.chan3_raw) + le16(self.chan4_raw) + le16(self.chan5_raw)
            + le16(self.chan6_raw) + le16(self.chan7_raw) + le16(self.chan8_raw)
            + le16(self.chan9_raw) + le16(self.chan10_raw) + le16(self.chan11_raw)
            + le16(self.chan12_raw) + le16(self.chan13_raw) + le16(self.chan14_raw)
            + le16(self.chan15_raw) + le16(self.chan16_raw) + le16(self.chan17_raw)
            + le16(self.chan18_raw) + le8(self.chancount) + le8(self.rssi)
    }

    fn parse(payload: &[u8]) -> RC_CHANNELS_DATA {
        RC_CHANNELS_DATA {
            time_boot_ms: get_u32(payload, 0),
            chan1_raw: get_u16(payload, 4),
            chan2_raw: get_u16(payload, 6),
            chan3_raw: get_u16(payload, 8),
            chan4_raw: get_u16(payload, 10),
            chan5_raw: get_u16(payload, 12),
            chan6_raw: get_u16(payload, 14),
            chan7_raw: get_u16(payload, 16),
            chan8_raw: get_u16(payload, 18),
            chan9_raw: get_u16(payload, 20),
            chan10_raw: get_u16(payload, 22),
            chan11_raw: get_u16(payload, 24),
            chan12_raw: get_u16(payload, 26),
            chan13_raw: get_u16(payload, 28),
            chan14_raw: get_u16(payload, 30),
            chan15_raw: get_u16(payload, 32),
            chan16_raw: get_u16(payload, 34),
            chan17_raw: get_u16(payload, 36),
            chan18_raw: get_u16(payload, 38),
            chancount: get_u8(payload, 40),
            rssi: get_u8(payload, 41),
        }
    }

    fn serialize(&self) -> Vec<u8> {
        let mut wtr = Vec::new();
        put_u32(&mut wtr, self.time_boot_ms);
        assert(wtr@ =~= le32(self.time_boot_ms));
        put_u16(&mut wtr, self.chan1_raw);
        put_u16(&mut wtr, self.chan2_raw);
        put_u16(&mut wtr, self.chan3_raw);
        put_u16(&mut wtr, self.chan4_raw);
        put_u16(&mut wtr, self.chan5_raw);
        put_u16(&mut wtr, self.chan6_raw);
        put_u16(&mut wtr, self.chan7_raw);
        put_u16(&mut wtr, self.chan8_raw);
        put_u16(&mut wtr, self.chan9_raw);
        put_u16(&mut wtr, self.chan10_raw);
        put_u16(&mut wtr, self.chan11_raw);
        put_u16(&mut wtr, self.chan12_raw);
        put_u16(&mut wtr, self.chan13_raw);
        put_u16(&mut wtr, self.chan14_raw);
        put_u16(&mut wtr, self.chan15_raw);
        put_u16(&mut wtr, self.chan16_raw);
        put_u16(&mut wtr, self.chan17_raw);
        put_u16(&mut wtr, self.chan18_raw);
        put_u8(&mut wtr, self.chancount);
        put_u8(&mut wtr, self.rssi);
        wtr
    }

    proof fn lemma_roundtrip(&self) {
        let w = self.spec_serialize();
        let w0 = le32(self.time_boot_ms);
        let w1 = w0 + le16(self.chan1_raw);
        let w2 = w1 + le16(self.chan2_raw);
        let w3 = w2 + le16(self.chan3_raw);
        let w4 = w3 + le16(self.chan4_raw);
        let w5 = w4 + le16(self.chan5_raw);
        let w6 = w5 + le16(self.chan6_raw);
        let w7 = w6 + le16(self.chan7_raw);
        let w8 = w7 + le16(self.chan8_raw);
        let w9 = w8 + le16(self.chan9_raw);
        let w10 = w9 + le16(self.chan10_raw);
        let w11 = w10 + le16(self.chan11_raw);
        let w12 = w11 + le16(self.chan12_raw);
        let w13 = w12 + le16(self.chan13_raw);
        let w14 = w13 + le16(self.chan14_raw);
        let w15 = w14 + le16(self.chan15_raw);
        let w16 = w15 + le16(self.chan16_raw);
        let w17 = w16 + le16(self.chan17_raw);
        let w18 = w17 + le16(self.chan18_raw);
        let w19 = w18 + le8(self.chancount);
        lemma_whole(w, le32(self.time_boot_ms));
        lemma_read_u8(w, w19, self.rssi);
        lemma_read_u8(w, w18, self.chancount);
        lemma_read_u16(w, w17, self.chan18_raw);
        lemma_read_u16(w, w16, self.chan17_raw);
        lemma_read_u16(w, w15, self.chan16_raw);
        lemma_read_u16(w, w14, self.chan15_raw);
        lemma_read_u16(w, w13, self.chan14_raw);
        lemma_read_u16(w, w12, self.chan13_raw);
        lemma_read_u16(w, w11, self.chan12_raw);
        lemma_read_u16(w, w10, self.chan11_raw);
        lemma_read_u16(w, w9, self.chan10_raw);
        lemma_read_u16(w, w8, self.chan9_raw);
        lemma_read_u16(w, w7, self.chan8_raw);
        lemma_read_u16(w, w6, self.chan7_raw);
        lemma_read_u16(w, w5, self.chan6_raw);
        lemma_read_u16(w, w4, self.chan5_raw);
        lemma_read_u16(w, w3, self.chan4_raw);
        lemma_read_u16(w, w2, self.chan3_raw);
        lemma_read_u16(w, w1, self.chan2_raw);
        lemma_read_u16(w, w0, self.chan1_raw);
        lemma_read_u32(w, Seq::empty(), self.time_boot_ms);
    }
}

/// `REQUEST_DATA_STREAM`, message 66: 6 payload bytes.
#[allow(non_camel_case_types)]
#[derive(Clone, Copy, Debug, PartialEq, Eq)]
pub struct REQUEST_DATA_STREAM_DATA {
    pub req_message_rate: u16,
    pub target_system: u8,
    pub target_component: u8,
    pub req_stream_id: u8,
    pub start_stop: u8,
}

impl Parsable for REQUEST_DATA_STREAM_DATA {
    open spec fn wire_len() -> nat {
        6
    }

    open spec fn spec_parse(p: Seq<u8>) -> REQUEST_DATA_STREAM_DATA {
        REQUEST_DATA_STREAM_DATA {
            req_message_rate: u16_at(p, 0),
            target_system: p[2],
            target_component: p[3],
            req_stream_id: p[4],
            start_stop: p[5],
        }
    }

    open spec fn spec_serialize(&self) -> Seq<u8> {
        le16(self.req_message_rate) + le8(self.target_system) + le8(self.target_component)
            + le8(self.req_stream_id) + le8(self.start_stop)
    }

    fn parse(payload: &[u8]) -> REQUEST_DATA_STREAM_DATA {
        REQUEST_DATA_STREAM_DATA {
            req_message_rate: get_u16(payload, 0),
            target_system: get_u8(payload, 2),
            target_component: get_u8(payload, 3),
            req_stream_id: get_u8(payload, 4),
            start_stop: get_u8(payload, 5),
        }
    }

    fn serialize(&self) -> Vec<u8> {
        let mut wtr = Vec::new();
        put_u16(&mut wtr, self.req_message_rate);
        assert(wtr@ =~= le16(self.req_message_rate));
        put_u8(&mut wtr, self.target_system);
        put_u8(&mut wtr, self.target_component);
        put_u8(&mut wtr, self.req_stream_id);
        put_u8(&mut wtr, self.start_stop);
        wtr
    }

    proof fn lemma_roundtrip(&self) {
        let w = self.spec_serialize();
        let w0 = le16(self.req_message_rate);
        let w1 = w0 + le8(self.target_system);
        let w2 = w1 + le8(self.target_component);
        let w3 = w2 + le8(self.req_stream_id);
        lemma_whole(w, le16(self.req_message_rate));
        lemma_read_u8(w, w3, self.start_stop);
        lemma_read_u8(w, w2, self.req_stream_id);
        lemma_read_u8(w, w1, self.target_component);
        lemma_read_u8(w, w0, self.target_system);
        lemma_read_u16(w, Seq::empty(), self.req_message_rate);
    }
}

/// `DATA_STREAM`, message 67: 4 payload bytes.
#[allow(non_camel_case_types)]
#[derive(Clone, Copy, Debug, PartialEq, Eq)]
pub struct DATA_STREAM_DATA {
    pub message_rate: u16,
    pub stream_id: u8,
    pub on_off: u8,
}

impl Parsable for DATA_STREAM_DATA {
    open spec fn wire_len() -> nat {
        4
    }

    open spec fn spec_parse(p: Seq<u8>) -> DATA_STREAM_DATA {
        DATA_STREAM_DATA {
            message_rate: u16_at(p, 0),
            stream_id: p[2],
            on_off: p[3],
        }
    }

    open spec fn spec_serialize(&self) -> Seq<u8> {
        le16(self.message_rate) + le8(self.stream_id) + le8(self.on_off)
    }

    fn parse(payload: &[u8]) -> DATA_STREAM_DATA {
        DATA_STREAM_DATA {
            message_rate: get_u16(payload, 0),
            stream_id: get_u8(payload, 2),
            on_off: get_u8(payload, 3),
        }
    }

    fn serialize(&self) -> Vec<u8> {
        let mut wtr = Vec::new();
        put_u16(&mut wtr, self.message_rate);
        assert(wtr@ =~= le16(self.message_rate));
        put_u8(&mut wtr, self.stream_id);
        put_u8(&mut wtr, self.on_off);
        wtr
    }

    proof fn lemma_roundtrip(&self) {
        let w = self.spec_serialize();
        let w0 = le16(self.message_rate);
        let w1 = w0 + le8(self.stream_id);
        lemma_whole(w, le16(self.message_rate));
        lemma_read_u8(w, w1, self.on_off);
        lemma_read_u8(w, w0, self.stream_id);
        lemma_read_u16(w, Seq::empty(), self.message_rate);
    }
}

/// `MANUAL_CONTROL`, message 69: 11 payload bytes.
#[allow(non_camel_case_types)]
#[derive(Clone, Copy, Debug, PartialEq, Eq)]
pub struct MANUAL_CONTROL_DATA {
    pub x: i16,
    pub y: i16,
    pub z: i16,
    pub r: i16,
    pub buttons: u16,
    pub target: u8,
}

impl Parsable for MANUAL_CONTROL_DATA {
    open spec fn wire_len() -> nat {
        11
    }

    open spec fn spec_parse(p: Seq<u8>) -> MANUAL_CONTROL_DATA {
        MANUAL_CONTROL_DATA {
            x: u16_at(p, 0) as i16,
            y: u16_at(p, 2) as i16,
            z: u16_at(p, 4) as i16,
            r: u16_at(p, 6) as i16,
            buttons: u16_at(p, 8),
            target: p[10],
        }
    }

    open spec fn spec_serialize(&self) -> Seq<u8> {
        le16(self.x as u16) + le16(self.y as u16) + le16(self.z as u16) + le16(self.r as u16)
            + le16(self.buttons) + le8(self.target)
    }

    fn parse(payload: &[u8]) -> MANUAL_CONTROL_DATA {
        MANUAL_CONTROL_DATA {
            x: get_i16(payload, 0),
            y: get_i16(payload, 2),
            z: get_i16(payload, 4),
            r: get_i16(payload, 6),
            buttons: get_u16(payload, 8),
            target: get_u8(payload, 10),
        }
    }

    fn serialize(&self) -> Vec<u8> {
        let mut wtr = Vec::new();
        put_i16(&mut wtr, self.x);
        assert(wtr@ =~= le16(self.x as u16));
        put_i16(&mut wtr, self.y);
        put_i16(&mut wtr, self.z);
        put_i16(&mut wtr, self.r);
        put_u16(&mut wtr, self.buttons);
        put_u8(&mut wtr, self.target);
        wtr
    }

    proof fn lemma_roundtrip(&self) {
        let w = self.spec_serialize();
        let w0 = le16(self.x as u16);
        let w1 = w0 + le16(self.y as u16);
        let w2 = w1 + le16(self.z as u16);
        let w3 = w2 + le16(self.r as u16);
        let w4 = w3 + le16(self.buttons);
        lemma_whole(w, le16(self.x as u16));
        lemma_read_u8(w, w4, self.target);
        lemma_read_u16(w, w3, self.buttons);
        lemma_read_i16(w, w2, self.r);
        lemma_read_i16(w, w1, self.z);
        lemma_read_i16(w, w0, self.y);
        lemma_read_i16(w, Seq::empty(), self.x);
    }
}

/// `RC_CHANNELS_OVERRIDE`, message 70: 18 payload bytes.
#[allow(non_camel_case_types)]
#[derive(Clone, Copy, Debug, PartialEq, Eq)]
pub struct RC_CHANNELS_OVERRIDE_DATA {
    pub chan1_raw: u16,
    pub chan2_raw: u16,
    pub chan3_raw: u16,
    pub chan4_raw: u16,
    pub chan5_raw: u16,
    pub chan6_raw: u16,
    pub chan7_raw: u16,
    pub chan8_raw: u16,
    pub target_system: u8,
    pub target_component: u8,
}

impl Parsable for RC_CHANNELS_OVERRIDE_DATA {
    open spec fn wire_len() -> nat {
        18
    }

    open spec fn spec_parse(p: Seq<u8>) -> RC_CHANNELS_OVERRIDE_DATA {
        RC_CHANNELS_OVERRIDE_DATA {
            chan1_raw: u16_at(p, 0),
            chan2_raw: u16_at(p, 2),
            chan3_raw: u16_at(p, 4),
            chan4_raw: u16_at(p, 6),
            chan5_raw: u16_at(p, 8),
            chan6_raw: u16_at(p, 10),
            chan7_raw: u16_at(p, 12),
            chan8_raw: u16_at(p, 14),
            target_system: p[16],
            target_component: p[17],
        }
    }

    open spec fn spec_serialize(&self) -> Seq<u8> {
        le16(self.chan1_raw) + le16(self.chan2_raw) + le16(self.chan3_raw)
            + le16(self.chan4_raw) + le16(self.chan5_raw) + le16(self.chan6_raw)
            + le16(self.chan7_raw) + le16(self.chan8_raw) + le8(self.target_system)
            + le8(self.target_component)
    }

    fn parse(payload: &[u8]) -> RC_CHANNELS_OVERRIDE_DATA {
        RC_CHANNELS_OVERRIDE_DATA {
            chan1_raw: get_u16(payload, 0),
            chan2_raw: get_u16(payload, 2),
            chan3_raw: get_u16(payload, 4),
            chan4_raw: get_u16(payload, 6),
            chan5_raw: get_u16(payload, 8),
            chan6_raw: get_u16(payload, 10),
            chan7_raw: get_u16(payload, 12),
            chan8_raw: get_u16(payload, 14),
            target_system: get_u8(payload, 16),
            target_component: get_u8(payload, 17),
        }
    }

    fn serialize(&self) -> Vec<u8> {
        let mut wtr = Vec::new();
        put_u16(&mut wtr, self.chan1_raw);
        assert(wtr@ =~= le16(self.chan1_raw));
        put_u16(&mut wtr, self.chan2_raw);
        put_u16(&mut wtr, self.chan3_raw);
        put_u16(&mut wtr, self.chan4_raw);
        put_u16(&mut wtr, self.chan5_raw);
        put_u16(&mut wtr, self.chan6_raw);
        put_u16(&mut wtr, self.chan7_raw);
        put_u16(&mut wtr, self.chan8_raw);
        put_u8(&mut wtr, self.target_system);
        put_u8(&mut wtr, self.target_component);
        wtr
    }

    proof fn lemma_roundtrip(&self) {
        let w = self.spec_serialize();
        let w0 = le16(self.chan1_raw);
        let w1 = w0 + le16(self.chan2_raw);
        let w2 = w1 + le16(self.chan3_raw);
        let w3 = w2 + le16(self.chan4_raw);
        let w4 = w3 + le16(self.chan5_raw);
        let w5 = w4 + le16(self.chan6_raw);
        let w6 = w5 + le16(self.chan7_raw);
        let w7 = w6 + le16(self.chan8_raw);
        let w8 = w7 + le8(self.target_system);
        lemma_whole(w, le16(self.chan1_raw));
        lemma_read_u8(w, w8, self.target_component);
        lemma_read_u8(w, w7, self.target_system);
        lemma_read_u16(w, w6, self.chan8_raw);
        lemma_read_u16(w, w5, self.chan7_raw);
        lemma_read_u16(w, w4, self.chan6_raw);
        lemma_read_u16(w, w3, self.chan5_raw);
        lemma_read_u16(w, w2, self.chan4_raw);
        lemma_read_u16(w, w1, self.chan3_raw);
        lemma_read_u16(w, w0, self.chan2_raw);
        lemma_read_u16(w, Seq::empty(), self.chan1_raw);
    }
}

/// `MISSION_ITEM_INT`, message 73: 37 payload bytes.
#[allow(non_camel_case_types)]
#[derive(Clone, Copy, Debug, PartialEq, Eq)]
pub struct MISSION_ITEM_INT_DATA {
    pub param1: Ieee32,
    pub param2: Ieee32,
    pub param3: Ieee32,
    pub param4: Ieee32,
    pub x: i32,
    pub y: i32,
    pub z: Ieee32,
    pub seq: u16,
    pub command: u16,
    pub target_system: u8,
    pub target_component: u8,
    pub frame: u8,
    pub current: u8,
    pub autocontinue: u8,
}

impl Parsable for MISSION_ITEM_INT_DATA {
    open spec fn wire_len() -> nat {
        37
    }

    open spec fn spec_parse(p: Seq<u8>) -> MISSION_ITEM_INT_DATA {
        MISSION_ITEM_INT_DATA {
            param1: u32_at(p, 0),
            param2: u32_at(p, 4),
            param3: u32_at(p, 8),
            param4: u32_at(p, 12),
            x: u32_at(p, 16) as i32,
            y: u32_at(p, 20) as i32,
            z: u32_at(p, 24),
            seq: u16_at(p, 28),
            command: u16_at(p, 30),
            target_system: p[32],
            target_component: p[33],
            frame: p[34],
            current: p[35],
            autocontinue: p[36],
        }
    }

    open spec fn spec_serialize(&self) -> Seq<u8> {
        le32(self.param1) + le32(self.param2) + le32(self.param3) + le32(self.param4)
            + le32(self.x as u32) + le32(self.y as u32) + le32(self.z) + le16(self.seq)
            + le16(self.command) + le8(self.target_system) + le8(self.target_component)
            + le8(self.frame) + le8(self.current) + le8(self.autocontinue)
    }

    fn parse(payload: &[u8]) -> MISSION_ITEM_INT_DATA {
        MISSION_ITEM_INT_DATA {
            param1: get_u32(payload, 0),
            param2: get_u32(payload, 4),
            param3: get_u32(payload, 8),
            param4: get_u32(payload, 12),
            x: get_i32(payload, 16),
            y: get_i32(payload, 20),
            z: get_u32(payload, 24),
            seq: get_u16(payload, 28),
            command: get_u16(payload, 30),
            target_system: get_u8(payload, 32),
            target_component: get_u8(payload, 33),
            frame: get_u8(payload, 34),
            current: get_u8(payload, 35),
            autocontinue: get_u8(payload, 36),
        }
    }

    fn serialize(&self) -> Vec<u8> {
        let mut wtr = Vec::new();
        put_u32(&mut wtr, self.param1);
        assert(wtr@ =~= le32(self.param1));
        put_u32(&mut wtr, self.param2);
        put_u32(&mut wtr, self.param3);
        put_u32(&mut wtr, self.param4);
        put_i32(&mut wtr, self.x);
        put_i32(&mut wtr, self.y);
        put_u32(&mut wtr, self.z);
        put_u16(&mut wtr, self.seq);
        put_u16(&mut wtr, self.command);
        put_u8(&mut wtr, self.target_system);
        put_u8(&mut wtr, self.target_component);
        put_u8(&mut wtr, self.frame);
        put_u8(&mut wtr, self.current);
        put_u8(&mut wtr, self.autocontinue);
        wtr
    }

    proof fn lemma_roundtrip(&self) {
        let w = self.spec_serialize();
        let w0 = le32(self.param1);
        let w1 = w0 + le32(self.param2);
        let w2 = w1 + le32(self.param3);
        let w3 = w2 + le32(self.param4);
        let w4 = w3 + le32(self.x as u32);
        let w5 = w4 + le32(self.y as u32);
        let w6 = w5 + le32(self.z);
        let w7 = w6 + le16(self.seq);
        let w8 = w7 + le16(self.command);
        let w9 = w8 + le8(self.target_system);
        let w10 = w9 + le8(self.target_component);
        let w11 = w10 + le8(self.frame);
        let w12 = w11 + le8(self.current);
        lemma_whole(w, le32(self.param1));
        lemma_read_u8(w, w12, self.autocontinue);
        lemma_read_u8(w, w11, self.current);
        lemma_read_u8(w, w10, self.frame);
        lemma_read_u8(w, w9, self.target_component);
        lemma_read_u8(w, w8, self.target_system);
        lemma_read_u16(w, w7, self.command);
        lemma_read_u16(w, w6, self.seq);
        lemma_read_u32(w, w5, self.z);
        lemma_read_i32(w, w4, self.y);
        lemma_read_i32(w, w3, self.x);
        lemma_read_u32(w, w2, self.param4);
        lemma_read_u32(w, w1, self.param3);
        lemma_read_u32(w, w0, self.param2);
        lemma_read_u32(w, Seq::empty(), self.param1);
    }
}

/// `VFR_HUD`, message 74: 20 payload bytes.
#[allow(non_camel_case_types)]
#[derive(Clone, Copy, Debug, PartialEq, Eq)]
pub struct VFR_HUD_DATA {
    pub airspeed: Ieee32,
    pub groundspeed: Ieee32,
    pub alt: Ieee32,
    pub climb: Ieee32,
    pub heading: i16,
    pub throttle: u16,
}

impl Parsable for VFR_HUD_DATA {
    open spec fn wire_len() -> nat {
        20
    }

    open spec fn spec_parse(p: Seq<u8>) -> VFR_HUD_DATA {
        VFR_HUD_DATA {
            airspeed: u32_at(p, 0),
            groundspeed: u32_at(p, 4),
            alt: u32_at(p, 8),
            climb: u32_at(p, 12),
            heading: u16_at(p, 16) as i16,
            throttle: u16_at(p, 18),
        }
    }

    open spec fn spec_serialize(&self) -> Seq<u8> {
        le32(self.airspeed) + le32(self.groundspeed) + le32(self.alt) + le32(self.climb)
            + le16(self.heading as u16) + le16(self.throttle)
    }

    fn parse(payload: &[u8]) -> VFR_HUD_DATA {
        VFR_HUD_DATA {
            airspeed: get_u32(payload, 0),
            groundspeed: get_u32(payload, 4),
            alt: get_u32(payload, 8),
            climb: get_u32(payload, 12),
            heading: get_i16(payload, 16),
            throttle: get_u16(payload, 18),
        }
    }

    fn serialize(&self) -> Vec<u8> {
        let mut wtr = Vec::new();
        put_u32(&mut wtr, self.airspeed);
        assert(wtr@ =~= le32(self.airspeed));
        put_u32(&mut wtr, self.groundspeed);
        put_u32(&mut wtr, self.alt);
        put_u32(&mut wtr, self.climb);
        put_i16(&mut wtr, self.heading);
        put_u16(&mut wtr, self.throttle);
        wtr
    }

    proof fn lemma_roundtrip(&self) {
        let w = self.spec_serialize();
        let w0 = le32(self.airspeed);
        let w1 = w0 + le32(self.groundspeed);
        let w2 = w1 + le32(self.alt);
        let w3 = w2 + le32(self.climb);
        let w4 = w3 + le16(self.heading as u16);
        lemma_whole(w, le32(self.airspeed));
        lemma_read_u16(w, w4, self.throttle);
        lemma_read_i16(w, w3, self.heading);
        lemma_read_u32(w, w2, self.climb);
        lemma_read_u32(w, w1, self.alt);
        lemma_read_u32(w, w0, self.groundspeed);
        lemma_read_u32(w, Seq::empty(), self.airspeed);
    }
}

/// `COMMAND_INT`, message 75: 35 payload bytes.
#[allow(non_camel_case_types)]
#[derive(Clone, Copy, Debug, PartialEq, Eq)]
pub struct COMMAND_INT_DATA {
    pub param1: Ieee32,
    pub param2: Ieee32,
    pub param3: Ieee32,
    pub param4: Ieee32,
    pub x: i32,
    pub y: i32,
    pub z: Ieee32,
    pub command: u16,
    pub target_system: u8,
    pub target_component: u8,
    pub frame: u8,
    pub current: u8,
    pub autocontinue: u8,
}

impl Parsable for COMMAND_INT_DATA {
    open spec fn wire_len() -> nat {
        35
    }

    open spec fn spec_parse(p: Seq<u8>) -> COMMAND_INT_DATA {
        COMMAND_INT_DATA {
            param1: u32_at(p, 0),
            param2: u32_at(p, 4),
            param3: u32_at(p, 8),
            param4: u32_at(p, 12),
            x: u32_at(p, 16) as i32,
            y: u32_at(p, 20) as i32,
            z: u32_at(p, 24),
            command: u16_at(p, 28),
            target_system: p[30],
            target_component: p[31],
            frame: p[32],
            current: p[33],
            autocontinue: p[34],
        }
    }

    open spec fn spec_serialize(&self) -> Seq<u8> {
        le32(self.param1) + le32(self.param2) + le32(self.param3) + le32(self.param4)
            + le32(self.x as u32) + le32(self.y as u32) + le32(self.z) + le16(self.command)
            + le8(self.target_system) + le8(self.target_component) + le8(self.frame)
            + le8(self.current) + le8(self.autocontinue)
    }

    fn parse(payload: &[u8]) -> COMMAND_INT_DATA {
        COMMAND_INT_DATA {
            param1: get_u32(payload, 0),
            param2: get_u32(payload, 4),
            param3: get_u32(payload, 8),
            param4: get_u32(payload, 12),
            x: get_i32(payload, 16),
            y: get_i32(payload, 20),
            z: get_u32(payload, 24),
            command: get_u16(payload, 28),
            target_system: get_u8(payload, 30),
            target_component: get_u8(payload, 31),
            frame: get_u8(payload, 32),
            current: get_u8(payload, 33),
            autocontinue: get_u8(payload, 34),
        }
    }

    fn serialize(&self) -> Vec<u8> {
        let mut wtr = Vec::new();
        put_u32(&mut wtr, self.param1);
        assert(wtr@ =~= le32(self.param1));
        put_u32(&mut wtr, self.param2);
        put_u32(&mut wtr, self.param3);
        put_u32(&mut wtr, self.param4);
        put_i32(&mut wtr, self.x);
        put_i32(&mut wtr, self.y);
        put_u32(&mut wtr, self.z);
        put_u16(&mut wtr, self.command);
        put_u8(&mut wtr, self.target_system);
        put_u8(&mut wtr, self.target_component);
        put_u8(&mut wtr, self.frame);
        put_u8(&mut wtr, self.current);
        put_u8(&mut wtr, self.autocontinue);
        wtr
    }

    proof fn lemma_roundtrip(&self) {
        let w = self.spec_serialize();
        let w0 = le32(self.param1);
        let w1 = w0 + le32(self.param2);
        let w2 = w1 + le32(self.param3);
        let w3 = w2 + le32(self.param4);
        let w4 = w3 + le32(self.x as u32);
        let w5 = w4 + le32(self.y as u32);
        let w6 = w5 + le32(self.z);
        let w7 = w6 + le16(self.command);
        let w8 = w7 + le8(self.target_system);
        let w9 = w8 + le8(self.target_component);
        let w10 = w9 + le8(self.frame);
        let w11 = w10 + le8(self.current);
        lemma_whole(w, le32(self.param1));
        lemma_read_u8(w, w11, self.autocontinue);
        lemma_read_u8(w, w10, self.current);
        lemma_read_u8(w, w9, self.frame);
        lemma_read_u8(w, w8, self.target_component);
        lemma_read_u8(w, w7, self.target_system);
        lemma_read_u16(w, w6, self.command);
        lemma_read_u32(w, w5, self.z);
        lemma_read_i32(w, w4, self.y);
        lemma_read_i32(w, w3, self.x);
        lemma_read_u32(w, w2, self.param4);
        lemma_read_u32(w, w1, self.param3);
        lemma_read_u32(w, w0, self.param2);
        lemma_read_u32(w, Seq::empty(), self.param1);
    }
}

/// `COMMAND_LONG`, message 76: 33 payload bytes.
#[allow(non_camel_case_types)]
#[derive(Clone, Copy, Debug, PartialEq, Eq)]
pub struct COMMAND_LONG_DATA {
    pub param1: Ieee32,
    pub param2: Ieee32,
    pub param3: Ieee32,
    pub param4: Ieee32,
    pub param5: Ieee32,
    pub param6: Ieee32,
    pub param7: Ieee32,
    pub command: u16,
    pub target_system: u8,
    pub target_component: u8,
    pub confirmation: u8,
}

impl Parsable for COMMAND_LONG_DATA {
    open spec fn wire_len() -> nat {
        33
    }

    open spec fn spec_parse(p: Seq<u8>) -> COMMAND_LONG_DATA {
        COMMAND_LONG_DATA {
            param1: u32_at(p, 0),
            param2: u32_at(p, 4),
            param3: u32_at(p, 8),
            param4: u32_at(p, 12),
            param5: u32_at(p, 16),
            param6: u32_at(p, 20),
            param7: u32_at(p, 24),
            command: u16_at(p, 28),
            target_system: p[30],
            target_component: p[31],
            confirmation: p[32],
        }
    }

    open spec fn spec_serialize(&self) -> Seq<u8> {
        le32(self.param1) + le32(self.param2) + le32(self.param3) + le32(self.param4)
            + le32(self.param5) + le32(self.param6) + le32(self.param7) + le16(self.command)
            + le8(self.target_system) + le8(self.target_component) + le8(self.confirmation)
    }

    fn parse(payload: &[u8]) -> COMMAND_LONG_DATA {
        COMMAND_LONG_DATA {
            param1: get_u32(payload, 0),
            param2: get_u32(payload, 4),
            param3: get_u32(payload, 8),
            param4: get_u32(payload, 12),
            param5: get_u32(payload, 16),
            param6: get_u32(payload, 20),
            param7: get_u32(payload, 24),
            command: get_u16(payload, 28),
            target_system: get_u8(payload, 30),
            target_component: get_u8(payload, 31),
            confirmation: get_u8(payload, 32),
        }
    }

    fn serialize(&self) -> Vec<u8> {
        let mut wtr = Vec::new();
        put_u32(&mut wtr, self.param1);
        assert(wtr@ =~= le32(self.param1));
        put_u32(&mut wtr, self.param2);
        put_u32(&mut wtr, self.param3);
        put_u32(&mut wtr, self.param4);
        put_u32(&mut wtr, self.param5);
        put_u32(&mut wtr, self.param6);
        put_u32(&mut wtr, self.param7);
        put_u16(&mut wtr, self.command);
        put_u8(&mut wtr, self.target_system);
        put_u8(&mut wtr, self.target_component);
        put_u8(&mut wtr, self.confirmation);
        wtr
    }

    proof fn lemma_roundtrip(&self) {
        let w = self.spec_serialize();
        let w0 = le32(self.param1);
        let w1 = w0 + le32(self.param2);
        let w2 = w1 + le32(self.param3);
        let w3 = w2 + le32(self.param4);
        let w4 = w3 + le32(self.param5);
        let w5 = w4 + le32(self.param6);
        let w6 = w5 + le32(self.param7);
        let w7 = w6 + le16(self.command);
        let w8 = w7 + le8(self.target_system);
        let w9 = w8 + le8(self.target_component);
        lemma_whole(w, le32(self.param1));
        lemma_read_u8(w, w9, self.confirmation);
        lemma_read_u8(w, w8, self.target_component);
        lemma_read_u8(w, w7, self.target_system);
        lemma_read_u16(w, w6, self.command);
        lemma_read_u32(w, w5, self.param7);
        lemma_read_u32(w, w4, self.param6);
        lemma_read_u32(w, w3, self.param5);
        lemma_read_u32(w, w2, self.param4);
        lemma_read_u32(w, w1, self.param3);
        lemma_read_u32(w, w0, self.param2);
        lemma_read_u32(w, Seq::empty(), self.param1);
    }
}

/// `COMMAND_ACK`, message 77: 3 payload bytes.
#[allow(non_camel_case_types)]
#[derive(Clone, Copy, Debug, PartialEq, Eq)]
pub struct COMMAND_ACK_DATA {
    pub command: u16,
    pub result: u8,
}

impl Parsable for COMMAND_ACK_DATA {
    open spec fn wire_len() -> nat {
        3
    }

    open spec fn spec_parse(p: Seq<u8>) -> COMMAND_ACK_DATA {
        COMMAND_ACK_DATA {
            command: u16_at(p, 0),
            result: p[2],
        }
    }

    open spec fn spec_serialize(&self) -> Seq<u8> {
        le16(self.command) + le8(self.result)
    }

    fn parse(payload: &[u8]) -> COMMAND_ACK_DATA {
        COMMAND_ACK_DATA {
            command: get_u16(payload, 0),
            result: get_u8(payload, 2),
        }
    }

    fn serialize(&self) -> Vec<u8> {
        let mut wtr = Vec::new();
        put_u16(&mut wtr, self.command);
        assert(wtr@ =~= le16(self.command));
        put_u8(&mut wtr, self.result);
        wtr
    }

    proof fn lemma_roundtrip(&self) {
        let w = self.spec_serialize();
        let w0 = le16(self.command);
        lemma_whole(w, le16(self.command));
        lemma_read_u8(w, w0, self.result);
        lemma_read_u16(w, Seq::empty(), self.command);
    }
}

/// `MANUAL_SETPOINT`, message 81: 22 payload bytes.
#[allow(non_camel_case_types)]
#[derive(Clone, Copy, Debug, PartialEq, Eq)]
pub struct MANUAL_SETPOINT_DATA {
    pub time_boot_ms: u32,
    pub roll: Ieee32,
    pub pitch: Ieee32,
    pub yaw: Ieee32,
    pub thrust: Ieee32,
    pub mode_switch: u8,
    pub manual_override_switch: u8,
}

impl Parsable for MANUAL_SETPOINT_DATA {
    open spec fn wire_len() -> nat {
        22
    }

    open spec fn spec_parse(p: Seq<u8>) -> MANUAL_SETPOINT_DATA {
        MANUAL_SETPOINT_DATA {
            time_boot_ms: u32_at(p, 0),
            roll: u32_at(p, 4),
            pitch: u32_at(p, 8),
            yaw: u32_at(p, 12),
            thrust: u32_at(p, 16),
            mode_switch: p[20],
            manual_override_switch: p[21],
        }
    }

    open spec fn spec_serialize(&self) -> Seq<u8> {
        le32(self.time_boot_ms) + le32(self.roll) + le32(self.pitch) + le32(self.yaw)
            + le32(self.thrust) + le8(self.mode_switch) + le8(self.manual_override_switch)
    }

    fn parse(payload: &[u8]) -> MANUAL_SETPOINT_DATA {
        MANUAL_SETPOINT_DATA {
            time_boot_ms: get_u32(payload, 0),
            roll: get_u32(payload, 4),
            pitch: get_u32(payload, 8),
            yaw: get_u32(payload, 12),
            thrust: get_u32(payload, 16),
            mode_switch: get_u8(payload, 20),
            manual_override_switch: get_u8(payload, 21),
        }
    }

    fn serialize(&self) -> Vec<u8> {
        let mut wtr = Vec::new();
        put_u32(&mut wtr, self.time_boot_ms);
        assert(wtr@ =~= le32(self.time_boot_ms));
        put_u32(&mut wtr, self.roll);
        put_u32(&mut wtr, self.pitch);
        put_u32(&mut wtr, self.yaw);
        put_u32(&mut wtr, self.thrust);
        put_u8(&mut wtr, self.mode_switch);
        put_u8(&mut wtr, self.manual_override_switch);
        wtr
    }

    proof fn lemma_roundtrip(&self) {
        let w = self.spec_serialize();
        let w0 = le32(self.time_boot_ms);
        let w1 = w0 + le32(self.roll);
        let w2 = w1 + le32(self.pitch);
        let w3 = w2 + le32(self.yaw);
        let w4 = w3 + le32(self.thrust);
        let w5 = w4 + le8(self.mode_switch);
        lemma_whole(w, le32(self.time_boot_ms));
        lemma_read_u8(w, w5, self.manual_override_switch);
        lemma_read_u8(w, w4, self.mode_switch);
        lemma_read_u32(w, w3, self.thrust);
        lemma_read_u32(w, w2, self.yaw);
        lemma_read_u32(w, w1, self.pitch);
        lemma_read_u32(w, w0, self.roll);
        lemma_read_u32(w, Seq::empty(), self.time_boot_ms);
    }
}

/// `SET_ATTITUDE_TARGET`, message 82: 39 payload bytes.
#[allow(non_camel_case_types)]
#[derive(Clone, Copy, Debug, PartialEq, Eq)]
pub struct SET_ATTITUDE_TARGET_DATA {
    pub time_boot_ms: u32,
    pub q: [Ieee32; 4],
    pub body_roll_rate: Ieee32,
    pub body_pitch_rate: Ieee32,
    pub body_yaw_rate: Ieee32,
    pub thrust: Ieee32,
    pub target_system: u8,
    pub target_component: u8,
    pub type_mask: u8,
}

impl Parsable for SET_ATTITUDE_TARGET_DATA {
    open spec fn wire_len() -> nat {
        39
    }

    open spec fn spec_parse(p: Seq<u8>) -> SET_ATTITUDE_TARGET_DATA {
        SET_ATTITUDE_TARGET_DATA {
            time_boot_ms: u32_at(p, 0),
            q: array_of(u32s_at(p, 4, 4)),
            body_roll_rate: u32_at(p, 20),
            body_pitch_rate: u32_at(p, 24),
            body_yaw_rate: u32_at(p, 28),
            thrust: u32_at(p, 32),
            target_system: p[36],
            target_component: p[37],
            type_mask: p[38],
        }
    }

    open spec fn spec_serialize(&self) -> Seq<u8> {
        le32(self.time_boot_ms) + le32s(self.q@) + le32(self.body_roll_rate)
            + le32(self.body_pitch_rate) + le32(self.body_yaw_rate) + le32(self.thrust)
            + le8(self.target_system) + le8(self.target_component) + le8(self.type_mask)
    }

    fn parse(payload: &[u8]) -> SET_ATTITUDE_TARGET_DATA {
        SET_ATTITUDE_TARGET_DATA {
            time_boot_ms: get_u32(payload, 0),
            q: get_u32s(payload, 4),
            body_roll_rate: get_u32(payload, 20),
            body_pitch_rate: get_u32(payload, 24),
            body_yaw_rate: get_u32(payload, 28),
            thrust: get_u32(payload, 32),
            target_system: get_u8(payload, 36),
            target_component: get_u8(payload, 37),
            type_mask: get_u8(payload, 38),
        }
    }

    fn serialize(&self) -> Vec<u8> {
        let mut wtr = Vec::new();
        put_u32(&mut wtr, self.time_boot_ms);
        assert(wtr@ =~= le32(self.time_boot_ms));
        put_u32s(&mut wtr, &self.q);
        put_u32(&mut wtr, self.body_roll_rate);
        put_u32(&mut wtr, self.body_pitch_rate);
        put_u32(&mut wtr, self.body_yaw_rate);
        put_u32(&mut wtr, self.thrust);
        put_u8(&mut wtr, self.target_system);
        put_u8(&mut wtr, self.target_component);
        put_u8(&mut wtr, self.type_mask);
        wtr
    }

    proof fn lemma_roundtrip(&self) {
        let w = self.spec_serialize();
        let w0 = le32(self.time_boot_ms);
        let w1 = w0 + le32s(self.q@);
        let w2 = w1 + le32(self.body_roll_rate);
        let w3 = w2 + le32(self.body_pitch_rate);
        let w4 = w3 + le32(self.body_yaw_rate);
        let w5 = w4 + le32(self.thrust);
        let w6 = w5 + le8(self.target_system);
        let w7 = w6 + le8(self.target_component);
        lemma_whole(w, le32(self.time_boot_ms));
        lemma_read_u8(w, w7, self.type_mask);
        lemma_read_u8(w, w6, self.target_component);
        lemma_read_u8(w, w5, self.target_system);
        lemma_read_u32(w, w4, self.thrust);
        lemma_read_u32(w, w3, self.body_yaw_rate);
        lemma_read_u32(w, w2, self.body_pitch_rate);
        lemma_read_u32(w, w1, self.body_roll_rate);
        lemma_read_u32s(w, w0, self.q);
        lemma_read_u32(w, Seq::empty(), self.time_boot_ms);
    }
}

/// `ATTITUDE_TARGET`, message 83: 37 payload bytes.
#[allow(non_camel_case_types)]
#[derive(Clone, Copy, Debug, PartialEq, Eq)]
pub struct ATTITUDE_TARGET_DATA {
    pub time_boot_ms: u32,
    pub q: [Ieee32; 4],
    pub body_roll_rate: Ieee32,
    pub body_pitch_rate: Ieee32,
    pub body_yaw_rate: Ieee32,
    pub thrust: Ieee32,
    pub type_mask: u8,
}

impl Parsable for ATTITUDE_TARGET_DATA {
    open spec fn wire_len() -> nat {
        37
    }

    open spec fn spec_parse(p: Seq<u8>) -> ATTITUDE_TARGET_DATA {
        ATTITUDE_TARGET_DATA {
            time_boot_ms: u32_at(p, 0),
            q: array_of(u32s_at(p, 4, 4)),
            body_roll_rate: u32_at(p, 20),
            body_pitch_rate: u32_at(p, 24),
            body_yaw_rate: u32_at(p, 28),
            thrust: u32_at(p, 32),
            type_mask: p[36],
        }
    }

    open spec fn spec_serialize(&self) -> Seq<u8> {
        le32(self.time_boot_ms) + le32s(self.q@) + le32(self.body_roll_rate)
            + le32(self.body_pitch_rate) + le32(self.body_yaw_rate) + le32(self.thrust)
            + le8(self.type_mask)
    }

    fn parse(payload: &[u8]) -> ATTITUDE_TARGET_DATA {
        ATTITUDE_TARGET_DATA {
            time_boot_ms: get_u32(payload, 0),
            q: get_u32s(payload, 4),
            body_roll_rate: get_u32(payload, 20),
            body_pitch_rate: get_u32(payload, 24),
            body_yaw_rate: get_u32(payload, 28),
            thrust: get_u32(payload, 32),
            type_mask: get_u8(payload, 36),
        }
    }

    fn serialize(&self) -> Vec<u8> {
        let mut wtr = Vec::new();
        put_u32(&mut wtr, self.time_boot_ms);
        assert(wtr@ =~= le32(self.time_boot_ms));
        put_u32s(&mut wtr, &self.q);
        put_u32(&mut wtr, self.body_roll_rate);
        put_u32(&mut wtr, self.body_pitch_rate);
        put_u32(&mut wtr, self.body_yaw_rate);
        put_u32(&mut wtr, self.thrust);
        put_u8(&mut wtr, self.type_mask);
        wtr
    }

    proof fn lemma_roundtrip(&self) {
        let w = self.spec_serialize();
        let w0 = le32(self.time_boot_ms);
        let w1 = w0 + le32s(self.q@);
        let w2 = w1 + le32(self.body_roll_rate);
        let w3 = w2 + le32(self.body_pitch_rate);
        let w4 = w3 + le32(self.body_yaw_rate);
        let w5 = w4 + le32(self.thrust);
        lemma_whole(w, le32(self.time_boot_ms));
        lemma_read_u8(w, w5, self.type_mask);
        lemma_read_u32(w, w4, self.thrust);
        lemma_read_u32(w, w3, self.body_yaw_rate);
        lemma_read_u32(w, w2, self.body_pitch_rate);
        lemma_read_u32(w, w1, self.body_roll_rate);
        lemma_read_u32s(w, w0, self.q);
        lemma_read_u32(w, Seq::empty(), self.time_boot_ms);
    }
}

/// `SET_POSITION_TARGET_LOCAL_NED`, message 84: 53 payload bytes.
#[allow(non_camel_case_types)]
#[derive(Clone, Copy, Debug, PartialEq, Eq)]
pub struct SET_POSITION_TARGET_LOCAL_NED_DATA {
    pub time_boot_ms: u32,
    pub x: Ieee32,
    pub y: Ieee32,
    pub z: Ieee32,
    pub vx: Ieee32,
    pub vy: Ieee32,
    pub vz: Ieee32,
    pub afx: Ieee32,
    pub afy: Ieee32,
    pub afz: Ieee32,
    pub yaw: Ieee32,
    pub yaw_rate: Ieee32,
    pub type_mask: u16,
    pub target_system: u8,
    pub target_component: u8,
    pub coordinate_frame: u8,
}

impl Parsable for SET_POSITION_TARGET_LOCAL_NED_DATA {
    open spec fn wire_len() -> nat {
        53
    }

    open spec fn spec_parse(p: Seq<u8>) -> SET_POSITION_TARGET_LOCAL_NED_DATA {
        SET_POSITION_TARGET_LOCAL_NED_DATA {
            time_boot_ms: u32_at(p, 0),
            x: u32_at(p, 4),
            y: u32_at(p, 8),
            z: u32_at(p, 12),
            vx: u32_at(p, 16),
            vy: u32_at(p, 20),
            vz: u32_at(p, 24),
            afx: u32_at(p, 28),
            afy: u32_at(p, 32),
            afz: u32_at(p, 36),
            yaw: u32_at(p, 40),
            yaw_rate: u32_at(p, 44),
            type_mask: u16_at(p, 48),
            target_system: p[50],
            target_component: p[51],
            coordinate_frame: p[52],
        }
    }

    open spec fn spec_serialize(&self) -> Seq<u8> {
        le32(self.time_boot_ms) + le32(self.x) + le32(self.y) + le32(self.z) + le32(self.vx)
            + le32(self.vy) + le32(self.vz) + le32(self.afx) + le32(self.afy) + le32(self.afz)
            + le32(self.yaw) + le32(self.yaw_rate) + le16(self.type_mask) + le8(self.target_system)
            + le8(self.target_component) + le8(self.coordinate_frame)
    }

    fn parse(payload: &[u8]) -> SET_POSITION_TARGET_LOCAL_NED_DATA {
        SET_POSITION_TARGET_LOCAL_NED_DATA {
            time_boot_ms: get_u32(payload, 0),
            x: get_u32(payload, 4),
            y: get_u32(payload, 8),
            z: get_u32(payload, 12),
            vx: get_u32(payload, 16),
            vy: get_u32(payload, 20),
            vz: get_u32(payload, 24),
            afx: get_u32(payload, 28),
            afy: get_u32(payload, 32),
            afz: get_u32(payload, 36),
            yaw: get_u32(payload, 40),
            yaw_rate: get_u32(payload, 44),
            type_mask: get_u16(payload, 48),
            target_system: get_u8(payload, 50),
            target_component: get_u8(payload, 51),
            coordinate_frame: get_u8(payload, 52),
        }
    }

    fn serialize(&self) -> Vec<u8> {
        let mut wtr = Vec::new();
        put_u32(&mut wtr, self.time_boot_ms);
        assert(wtr@ =~= le32(self.time_boot_ms));
        put_u32(&mut wtr, self.x);
        put_u32(&mut wtr, self.y);
        put_u32(&mut wtr, self.z);
        put_u32(&mut wtr, self.vx);
        put_u32(&mut wtr, self.vy);
        put_u32(&mut wtr, self.vz);
        put_u32(&mut wtr, self.afx);
        put_u32(&mut wtr, self.afy);
        put_u32(&mut wtr, self.afz);
        put_u32(&mut wtr, self.yaw);
        put_u32(&mut wtr, self.yaw_rate);
        put_u16(&mut wtr, self.type_mask);
        put_u8(&mut wtr, self.target_system);
        put_u8(&mut wtr, self.target_component);
        put_u8(&mut wtr, self.coordinate_frame);
        wtr
    }

    proof fn lemma_roundtrip(&self) {
        let w = self.spec_serialize();
        let w0 = le32(self.time_boot_ms);
        let w1 = w0 + le32(self.x);
        let w2 = w1 + le32(self.y);
        let w3 = w2 + le32(self.z);
        let w4 = w3 + le32(self.vx);
        let w5 = w4 + le32(self.vy);
        let w6 = w5 + le32(self.vz);
        let w7 = w6 + le32(self.afx);
        let w8 = w7 + le32(self.afy);
        let w9 = w8 + le32(self.afz);
        let w10 = w9 + le32(self.yaw);
        let w11 = w10 + le32(self.yaw_rate);
        let w12 = w11 + le16(self.type_mask);
        let w13 = w12 + le8(self.target_system);
        let w14 = w13 + le8(self.target_component);
        lemma_whole(w, le32(self.time_boot_ms));
        lemma_read_u8(w, w14, self.coordinate_frame);
        lemma_read_u8(w, w13, self.target_component);
        lemma_read_u8(w, w12, self.target_system);
        lemma_read_u16(w, w11, self.type_mask);
        lemma_read_u32(w, w10, self.yaw_rate);
        lemma_read_u32(w, w9, self.yaw);
        lemma_read_u32(w, w8, self.afz);
        lemma_read_u32(w, w7, self.afy);
        lemma_read_u32(w, w6, self.afx);
        lemma_read_u32(w, w5, self.vz);
        lemma_read_u32(w, w4, self.vy);
        lemma_read_u32(w, w3, self.vx);
        lemma_read_u32(w, w2, self.z);
        lemma_read_u32(w, w1, self.y);
        lemma_read_u32(w, w0, self.x);
        lemma_read_u32(w, Seq::empty(), self.time_boot_ms);
    }
}

/// `POSITION_TARGET_LOCAL_NED`, message 85: 51 payload bytes.
#[allow(non_camel_case_types)]
#[derive(Clone, Copy, Debug, PartialEq, Eq)]
pub struct POSITION_TARGET_LOCAL_NED_DATA {
    pub time_boot_ms: u32,
    pub x: Ieee32,
    pub y: Ieee32,
    pub z: Ieee32,
    pub vx: Ieee32,
    pub vy: Ieee32,
    pub vz: Ieee32,
    pub afx: Ieee32,
    pub afy: Ieee32,
    pub afz: Ieee32,
    pub yaw: Ieee32,
    pub yaw_rate: Ieee32,
    pub type_mask: u16,
    pub coordinate_frame: u8,
}

impl Parsable for POSITION_TARGET_LOCAL_NED_DATA {
    open spec fn wire_len() -> nat {
        51
    }

    open spec fn spec_parse(p: Seq<u8>) -> POSITION_TARGET_LOCAL_NED_DATA {
        POSITION_TARGET_LOCAL_NED_DATA {
            time_boot_ms: u32_at(p, 0),
            x: u32_at(p, 4),
            y: u32_at(p, 8),
            z: u32_at(p, 12),
            vx: u32_at(p, 16),
            vy: u32_at(p, 20),
            vz: u32_at(p, 24),
            afx: u32_at(p, 28),
            afy: u32_at(p, 32),
            afz: u32_at(p, 36),
            yaw: u32_at(p, 40),
            yaw_rate: u32_at(p, 44),
            type_mask: u16_at(p, 48),
            coordinate_frame: p[50],
        }
    }

    open spec fn spec_serialize(&self) -> Seq<u8> {
        le32(self.time_boot_ms) + le32(self.x) + le32(self.y) + le32(self.z) + le32(self.vx)
            + le32(self.vy) + le32(self.vz) + le32(self.afx) + le32(self.afy) + le32(self.afz)
            + le32(self.yaw) + le32(self.yaw_rate) + le16(self.type_mask)
            + le8(self.coordinate_frame)
    }

    fn parse(payload: &[u8]) -> POSITION_TARGET_LOCAL_NED_DATA {
        POSITION_TARGET_LOCAL_NED_DATA {
            time_boot_ms: get_u32(payload, 0),
            x: get_u32(payload, 4),
            y: get_u32(payload, 8),
            z: get_u32(payload, 12),
            vx: get_u32(payload, 16),
            vy: get_u32(payload, 20),
            vz: get_u32(payload, 24),
            afx: get_u32(payload, 28),
            afy: get_u32(payload, 32),
            afz: get_u32(payload, 36),
            yaw: get_u32(payload, 40),
            yaw_rate: get_u32(payload, 44),
            type_mask: get_u16(payload, 48),
            coordinate_frame: get_u8(payload, 50),
        }
    }

    fn serialize(&self) -> Vec<u8> {
        let mut wtr = Vec::new();
        put_u32(&mut wtr, self.time_boot_ms);
        assert(wtr@ =~= le32(self.time_boot_ms));
        put_u32(&mut wtr, self.x);
        put_u32(&mut wtr, self.y);
        put_u32(&mut wtr, self.z);
        put_u32(&mut wtr, self.vx);
        put_u32(&mut wtr, self.vy);
        put_u32(&mut wtr, self.vz);
        put_u32(&mut wtr, self.afx);
        put_u32(&mut wtr, self.afy);
        put_u32(&mut wtr, self.afz);
        put_u32(&mut wtr, self.yaw);
        put_u32(&mut wtr, self.yaw_rate);
        put_u16(&mut wtr, self.type_mask);
        put_u8(&mut wtr, self.coordinate_frame);
        wtr
    }

    proof fn lemma_roundtrip(&self) {
        let w = self.spec_serialize();
        let w0 = le32(self.time_boot_ms);
        let w1 = w0 + le32(self.x);
        let w2 = w1 + le32(self.y);
        let w3 = w2 + le32(self.z);
        let w4 = w3 + le32(self.vx);
        let w5 = w4 + le32(self.vy);
        let w6 = w5 + le32(self.vz);
        let w7 = w6 + le32(self.afx);
        let w8 = w7 + le32(self.afy);
        let w9 = w8 + le32(self.afz);
        let w10 = w9 + le32(self.yaw);
        let w11 = w10 + le32(self.yaw_rate);
        let w12 = w11 + le16(self.type_mask);
        lemma_whole(w, le32(self.time_boot_ms));
        lemma_read_u8(w, w12, self.coordinate_frame);
        lemma_read_u16(w, w11, self.type_mask);
        lemma_read_u32(w, w10, self.yaw_rate);
        lemma_read_u32(w, w9, self.yaw);
        lemma_read_u32(w, w8, self.afz);
        lemma_read_u32(w, w7, self.afy);
        lemma_read_u32(w, w6, self.afx);
        lemma_read_u32(w, w5, self.vz);
        lemma_read_u32(w, w4, self.vy);
        lemma_read_u32(w, w3, self.vx);
        lemma_read_u32(w, w2, self.z);
        lemma_read_u32(w, w1, self.y);
        lemma_read_u32(w, w0, self.x);
        lemma_read_u32(w, Seq::empty(), self.time_boot_ms);
    }
}

/// `SET_POSITION_TARGET_GLOBAL_INT`, message 86: 53 payload bytes.
#[allow(non_camel_case_types)]
#[derive(Clone, Copy, Debug, PartialEq, Eq)]
pub struct SET_POSITION_TARGET_GLOBAL_INT_DATA {
    pub time_boot_ms: u32,
    pub lat_int: i32,
    pub lon_int: i32,
    pub alt: Ieee32,
    pub vx: Ieee32,
    pub vy: Ieee32,
    pub vz: Ieee32,
    pub afx: Ieee32,
    pub afy: Ieee32,
    pub afz: Ieee32,
    pub yaw: Ieee32,
    pub yaw_rate: Ieee32,
    pub type_mask: u16,
    pub target_system: u8,
    pub target_component: u8,
    pub coordinate_frame: u8,
}

impl Parsable for SET_POSITION_TARGET_GLOBAL_INT_DATA {
    open spec fn wire_len() -> nat {
        53
    }

    open spec fn spec_parse(p: Seq<u8>) -> SET_POSITION_TARGET_GLOBAL_INT_DATA {
        SET_POSITION_TARGET_GLOBAL_INT_DATA {
            time_boot_ms: u32_at(p, 0),
            lat_int: u32_at(p, 4) as i32,
            lon_int: u32_at(p, 8) as i32,
            alt: u32_at(p, 12),
            vx: u32_at(p, 16),
            vy: u32_at(p, 20),
            vz: u32_at(p, 24),
            afx: u32_at(p, 28),
            afy: u32_at(p, 32),
            afz: u32_at(p, 36),
            yaw: u32_at(p, 40),
            yaw_rate: u32_at(p, 44),
            type_mask: u16_at(p, 48),
            target_system: p[50],
            target_component: p[51],
            coordinate_frame: p[52],
        }
    }

    open spec fn spec_serialize(&self) -> Seq<u8> {
        le32(self.time_boot_ms) + le32(self.lat_int as u32) + le32(self.lon_int as u32)
            + le32(self.alt) + le32(self.vx) + le32(self.vy) + le32(self.vz) + le32(self.afx)
            + le32(self.afy) + le32(self.afz) + le32(self.yaw) + le32(self.yaw_rate)
            + le16(self.type_mask) + le8(self.target_system) + le8(self.target_component)
            + le8(self.coordinate_frame)
    }

    fn parse(payload: &[u8]) -> SET_POSITION_TARGET_GLOBAL_INT_DATA {
        SET_POSITION_TARGET_GLOBAL_INT_DATA {
            time_boot_ms: get_u32(payload, 0),
            lat_int: get_i32(payload, 4),
            lon_int: get_i32(payload, 8),
            alt: get_u32(payload, 12),
            vx: get_u32(payload, 16),
            vy: get_u32(payload, 20),
            vz: get_u32(payload, 24),
            afx: get_u32(payload, 28),
            afy: get_u32(payload, 32),
            afz: get_u32(payload, 36),
            yaw: get_u32(payload, 40),
            yaw_rate: get_u32(payload, 44),
            type_mask: get_u16(payload, 48),
            target_system: get_u8(payload, 50),
            target_component: get_u8(payload, 51),
            coordinate_frame: get_u8(payload, 52),
        }
    }

    fn serialize(&self) -> Vec<u8> {
        let mut wtr = Vec::new();
        put_u32(&mut wtr, self.time_boot_ms);
        assert(wtr@ =~= le32(self.time_boot_ms));
        put_i32(&mut wtr, self.lat_int);
        put_i32(&mut wtr, self.lon_int);
        put_u32(&mut wtr, self.alt);
        put_u32(&mut wtr, self.vx);
        put_u32(&mut wtr, self.vy);
        put_u32(&mut wtr, self.vz);
        put_u32(&mut wtr, self.afx);
        put_u32(&mut wtr, self.afy);
        put_u32(&mut wtr, self.afz);
        put_u32(&mut wtr, self.yaw);
        put_u32(&mut wtr, self.yaw_rate);
        put_u16(&mut wtr, self.type_mask);
        put_u8(&mut wtr, self.target_system);
        put_u8(&mut wtr, self.target_component);
        put_u8(&mut wtr, self.coordinate_frame);
        wtr
    }

    proof fn lemma_roundtrip(&self) {
        let w = self.spec_serialize();
        let w0 = le32(self.time_boot_ms);
        let w1 = w0 + le32(self.lat_int as u32);
        let w2 = w1 + le32(self.lon_int as u32);
        let w3 = w2 + le32(self.alt);
        let w4 = w3 + le32(self.vx);
        let w5 = w4 + le32(self.vy);
        let w6 = w5 + le32(self.vz);
        let w7 = w6 + le32(self.afx);
        let w8 = w7 + le32(self.afy);
        let w9 = w8 + le32(self.afz);
        let w10 = w9 + le32(self.yaw);
        let w11 = w10 + le32(self.yaw_rate);
        let w12 = w11 + le16(self.type_mask);
        let w13 = w12 + le8(self.target_system);
        let w14 = w13 + le8(self.target_component);
        lemma_whole(w, le32(self.time_boot_ms));
        lemma_read_u8(w, w14, self.coordinate_frame);
        lemma_read_u8(w, w13, self.target_component);
        lemma_read_u8(w, w12, self.target_system);
        lemma_read_u16(w, w11, self.type_mask);
        lemma_read_u32(w, w10, self.yaw_rate);
        lemma_read_u32(w, w9, self.yaw);
        lemma_read_u32(w, w8, self.afz);
        lemma_read_u32(w, w7, self.afy);
        lemma_read_u32(w, w6, self.afx);
        lemma_read_u32(w, w5, self.vz);
        lemma_read_u32(w, w4, self.vy);
        lemma_read_u32(w, w3, self.vx);
        lemma_read_u32(w, w2, self.alt);
        lemma_read_i32(w, w1, self.lon_int);
        lemma_read_i32(w, w0, self.lat_int);
        lemma_read_u32(w, Seq::empty(), self.time_boot_ms);
    }
}

/// `POSITION_TARGET_GLOBAL_INT`, message 87: 51 payload bytes.
#[allow(non_camel_case_types)]
#[derive(Clone, Copy, Debug, PartialEq, Eq)]
pub struct POSITION_TARGET_GLOBAL_INT_DATA {
    pub time_boot_ms: u32,
    pub lat_int: i32,
    pub lon_int: i32,
    pub alt: Ieee32,
    pub vx: Ieee32,
    pub vy: Ieee32,
    pub vz: Ieee32,
    pub afx: Ieee32,
    pub afy: Ieee32,
    pub afz: Ieee32,
    pub yaw: Ieee32,
    pub yaw_rate: Ieee32,
    pub type_mask: u16,
    pub coordinate_frame: u8,
}

impl Parsable for POSITION_TARGET_GLOBAL_INT_DATA {
    open spec fn wire_len() -> nat {
        51
    }

    open spec fn spec_parse(p: Seq<u8>) -> POSITION_TARGET_GLOBAL_INT_DATA {
        POSITION_TARGET_GLOBAL_INT_DATA {
            time_boot_ms: u32_at(p, 0),
            lat_int: u32_at(p, 4) as i32,
            lon_int: u32_at(p, 8) as i32,
            alt: u32_at(p, 12),
            vx: u32_at(p, 16),
            vy: u32_at(p, 20),
            vz: u32_at(p, 24),
            afx: u32_at(p, 28),
            afy: u32_at(p, 32),
            afz: u32_at(p, 36),
            yaw: u32_at(p, 40),
            yaw_rate: u32_at(p, 44),
            type_mask: u16_at(p, 48),
            coordinate_frame: p[50],
        }
    }

    open spec fn spec_serialize(&self) -> Seq<u8> {
        le32(self.time_boot_ms) + le32(self.lat_int as u32) + le32(self.lon_int as u32)
            + le32(self.alt) + le32(self.vx) + le32(self.vy) + le32(self.vz) + le32(self.afx)
            + le32(self.afy) + le32(self.afz) + le32(self.yaw) + le32(self.yaw_rate)
            + le16(self.type_mask) + le8(self.coordinate_frame)
    }

    fn parse(payload: &[u8]) -> POSITION_TARGET_GLOBAL_INT_DATA {
        POSITION_TARGET_GLOBAL_INT_DATA {
            time_boot_ms: get_u32(payload, 0),
            lat_int: get_i32(payload, 4),
            lon_int: get_i32(payload, 8),
            alt: get_u32(payload, 12),
            vx: get_u32(payload, 16),
            vy: get_u32(payload, 20),
            vz: get_u32(payload, 24),
            afx: get_u32(payload, 28),
            afy: get_u32(payload, 32),
            afz: get_u32(payload, 36),
            yaw: get_u32(payload, 40),
            yaw_rate: get_u32(payload, 44),
            type_mask: get_u16(payload, 48),
            coordinate_frame: get_u8(payload, 50),
        }
    }

    fn serialize(&self) -> Vec<u8> {
        let mut wtr = Vec::new();
        put_u32(&mut wtr, self.time_boot_ms);
        assert(wtr@ =~= le32(self.time_boot_ms));
        put_i32(&mut wtr, self.lat_int);
        put_i32(&mut wtr, self.lon_int);
        put_u32(&mut wtr, self.alt);
        put_u32(&mut wtr, self.vx);
        put_u32(&mut wtr, self.vy);
        put_u32(&mut wtr, self.vz);
        put_u32(&mut wtr, self.afx);
        put_u32(&mut wtr, self.afy);
        put_u32(&mut wtr, self.afz);
        put_u32(&mut wtr, self.yaw);
        put_u32(&mut wtr, self.yaw_rate);
        put_u16(&mut wtr, self.type_mask);
        put_u8(&mut wtr, self.coordinate_frame);
        wtr
    }

    proof fn lemma_roundtrip(&self) {
        let w = self.spec_serialize();
        let w0 = le32(self.time_boot_ms);
        let w1 = w0 + le32(self.lat_int as u32);
        let w2 = w1 + le32(self.lon_int as u32);
        let w3 = w2 + le32(self.alt);
        let w4 = w3 + le32(self.vx);
        let w5 = w4 + le32(self.vy);
        let w6 = w5 + le32(self.vz);
        let w7 = w6 + le32(self.afx);
        let w8 = w7 + le32(self.afy);
        let w9 = w8 + le32(self.afz);
        let w10 = w9 + le32(self.yaw);
        let w11 = w10 + le32(self.yaw_rate);
        let w12 = w11 + le16(self.type_mask);
        lemma_whole(w, le32(self.time_boot_ms));
        lemma_read_u8(w, w12, self.coordinate_frame);
        lemma_read_u16(w, w11, self.type_mask);
        lemma_read_u32(w, w10, self.yaw_rate);
        lemma_read_u32(w, w9, self.yaw);
        lemma_read_u32(w, w8, self.afz);
        lemma_read_u32(w, w7, self.afy);
        lemma_read_u32(w, w6, self.afx);
        lemma_read_u32(w, w5, self.vz);
        lemma_read_u32(w, w4, self.vy);
        lemma_read_u32(w, w3, self.vx);
        lemma_read_u32(w, w2, self.alt);
        lemma_read_i32(w, w1, self.lon_int);
        lemma_read_i32(w, w0, self.lat_int);
        lemma_read_u32(w, Seq::empty(), self.time_boot_ms);
    }
}

/// `LOCAL_POSITION_NED_SYSTEM_GLOBAL_OFFSET`, message 89: 28 payload bytes.
#[allow(non_camel_case_types)]
#[derive(Clone, Copy, Debug, PartialEq, Eq)]
pub struct LOCAL_POSITION_NED_SYSTEM_GLOBAL_OFFSET_DATA {
    pub time_boot_ms: u32,
    pub x: Ieee32,
    pub y: Ieee32,
    pub z: Ieee32,
    pub roll: Ieee32,
    pub pitch: Ieee32,
    pub yaw: Ieee32,
}

impl Parsable for LOCAL_POSITION_NED_SYSTEM_GLOBAL_OFFSET_DATA {
    open spec fn wire_len() -> nat {
        28
    }

    open spec fn spec_parse(p: Seq<u8>) -> LOCAL_POSITION_NED_SYSTEM_GLOBAL_OFFSET_DATA {
        LOCAL_POSITION_NED_SYSTEM_GLOBAL_OFFSET_DATA {
            time_boot_ms: u32_at(p, 0),
            x: u32_at(p, 4),
            y: u32_at(p, 8),
            z: u32_at(p, 12),
            roll: u32_at(p, 16),
            pitch: u32_at(p, 20),
            yaw: u32_at(p, 24),
        }
    }

    open spec fn spec_serialize(&self) -> Seq<u8> {
        le32(self.time_boot_ms) + le32(self.x) + le32(self.y) + le32(self.z) + le32(self.roll)
            + le32(self.pitch) + le32(self.yaw)
    }

    fn parse(payload: &[u8]) -> LOCAL_POSITION_NED_SYSTEM_GLOBAL_OFFSET_DATA {
        LOCAL_POSITION_NED_SYSTEM_GLOBAL_OFFSET_DATA {
            time_boot_ms: get_u32(payload, 0),
            x: get_u32(payload, 4),
            y: get_u32(payload, 8),
            z: get_u32(payload, 12),
            roll: get_u32(payload, 16),
            pitch: get_u32(payload, 20),
            yaw: get_u32(payload, 24),
        }
    }

    fn serialize(&self) -> Vec<u8> {
        let mut wtr = Vec::new();
        put_u32(&mut wtr, self.time_boot_ms);
        assert(wtr@ =~= le32(self.time_boot_ms));
        put_u32(&mut wtr, self.x);
        put_u32(&mut wtr, self.y);
        put_u32(&mut wtr, self.z);
        put_u32(&mut wtr, self.roll);
        put_u32(&mut wtr, self.pitch);
        put_u32(&mut wtr, self.yaw);
        wtr
    }

    proof fn lemma_roundtrip(&self) {
        let w = self.spec_serialize();
        let w0 = le32(self.time_boot_ms);
        let w1 = w0 + le32(self.x);
        let w2 = w1 + le32(self.y);
        let w3 = w2 + le32(self.z);
        let w4 = w3 + le32(self.roll);
        let w5 = w4 + le32(self.pitch);
        lemma_whole(w, le32(self.time_boot_ms));
        lemma_read_u32(w, w5, self.yaw);
        lemma_read_u32(w, w4, self.pitch);
        lemma_read_u32(w, w3, self.roll);
        lemma_read_u32(w, w2, self.z);
        lemma_read_u32(w, w1, self.y);
        lemma_read_u32(w, w0, self.x);
        lemma_read_u32(w, Seq::empty(), self.time_boot_ms);
    }
}

} // verus!
