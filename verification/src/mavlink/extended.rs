//! Terrain reports, actuators, batteries, home position and debugging (messages 136 to 254).

use crate::mavlink::Parsable;
use crate::wire::{
    Ieee32, array_of, get_i16, get_i32, get_i8, get_i8s, get_u16, get_u16s, get_u32, get_u32s,
    get_u64, get_u8, get_u8s, i8s_at, le16, le16s, le32, le32s, le64, le8, le8s_signed,
    lemma_read_i16, lemma_read_i32, lemma_read_i8, lemma_read_i8s, lemma_read_u16,
    lemma_read_u16s, lemma_read_u32, lemma_read_u32s, lemma_read_u64, lemma_read_u8,
    lemma_read_u8s, lemma_whole, put_i16, put_i32, put_i8, put_i8s, put_u16, put_u16s, put_u32,
    put_u32s, put_u64, put_u8, put_u8s, u16_at, u16s_at, u32_at, u32s_at, u64_at, u8s_at,
};
use vstd::prelude::*;

verus! {

/// `TERRAIN_REPORT`, message 136: 22 payload bytes.
#[allow(non_camel_case_types)]
#[derive(Clone, Copy, Debug, PartialEq, Eq)]
pub struct TERRAIN_REPORT_DATA {
    pub lat: i32,
    pub lon: i32,
    pub terrain_height: Ieee32,
    pub current_height: Ieee32,
    pub spacing: u16,
    pub pending: u16,
    pub loaded: u16,
}

impl Parsable for TERRAIN_REPORT_DATA {
    open spec fn wire_len() -> nat {
        22
    }

    open spec fn spec_parse(p: Seq<u8>) -> TERRAIN_REPORT_DATA {
        TERRAIN_REPORT_DATA {
            lat: u32_at(p, 0) as i32,
            lon: u32_at(p, 4) as i32,
            terrain_height: u32_at(p, 8),
            current_height: u32_at(p, 12),
            spacing: u16_at(p, 16),
            pending: u16_at(p, 18),
            loaded: u16_at(p, 20),
        }
    }

    open spec fn spec_serialize(&self) -> Seq<u8> {
        le32(self.lat as u32) + le32(self.lon as u32) + le32(self.terrain_height)
            + le32(self.current_height) + le16(self.spacing) + le16(self.pending)
            + le16(self.loaded)
    }

    fn parse(payload: &[u8]) -> TERRAIN_REPORT_DATA {
        TERRAIN_REPORT_DATA {
            lat: get_i32(payload, 0),
            lon: get_i32(payload, 4),
            terrain_height: get_u32(payload, 8),
            current_height: get_u32(payload, 12),
            spacing: get_u16(payload, 16),
            pending: get_u16(payload, 18),
            loaded: get_u16(payload, 20),
        }
    }

    fn serialize(&self) -> Vec<u8> {
        let mut wtr = Vec::new();
        put_i32(&mut wtr, self.lat);
        assert(wtr@ =~= le32(self.lat as u32));
        put_i32(&mut wtr, self.lon);
        put_u32(&mut wtr, self.terrain_height);
        put_u32(&mut wtr, self.current_height);
        put_u16(&mut wtr, self.spacing);
        put_u16(&mut wtr, self.pending);
        put_u16(&mut wtr, self.loaded);
        wtr
    }

    proof fn lemma_roundtrip(&self) {
        let w = self.spec_serialize();
        let w0 = le32(self.lat as u32);
        let w1 = w0 + le32(self.lon as u32);
        let w2 = w1 + le32(self.terrain_height);
        let w3 = w2 + le32(self.current_height);
        let w4 = w3 + le16(self.spacing);
        let w5 = w4 + le16(self.pending);
        lemma_whole(w, le32(self.lat as u32));
        lemma_read_u16(w, w5, self.loaded);
        lemma_read_u16(w, w4, self.pending);
        lemma_read_u16(w, w3, self.spacing);
        lemma_read_u32(w, w2, self.current_height);
        lemma_read_u32(w, w1, self.terrain_height);
        lemma_read_i32(w, w0, self.lon);
        lemma_read_i32(w, Seq::empty(), self.lat);
    }
}

/// `SCALED_PRESSURE2`, message 137: 14 payload bytes.
#[allow(non_camel_case_types)]
#[derive(Clone, Copy, Debug, PartialEq, Eq)]
pub struct SCALED_PRESSURE2_DATA {
    pub time_boot_ms: u32,
    pub press_abs: Ieee32,
    pub press_diff: Ieee32,
    pub temperature: i16,
}

impl Parsable for SCALED_PRESSURE2_DATA {
    open spec fn wire_len() -> nat {
        14
    }

    open spec fn spec_parse(p: Seq<u8>) -> SCALED_PRESSURE2_DATA {
        SCALED_PRESSURE2_DATA {
            time_boot_ms: u32_at(p, 0),
            press_abs: u32_at(p, 4),
            press_diff: u32_at(p, 8),
            temperature: u16_at(p, 12) as i16,
        }
    }

    open spec fn spec_serialize(&self) -> Seq<u8> {
        le32(self.time_boot_ms) + le32(self.press_abs) + le32(self.press_diff)
            + le16(self.temperature as u16)
    }

    fn parse(payload: &[u8]) -> SCALED_PRESSURE2_DATA {
        SCALED_PRESSURE2_DATA {
            time_boot_ms: get_u32(payload, 0),
            press_abs: get_u32(payload, 4),
            press_diff: get_u32(payload, 8),
            temperature: get_i16(payload, 12),
        }
    }

    fn serialize(&self) -> Vec<u8> {
        let mut wtr = Vec::new();
        put_u32(&mut wtr, self.time_boot_ms);
        assert(wtr@ =~= le32(self.time_boot_ms));
        put_u32(&mut wtr, self.press_abs);
        put_u32(&mut wtr, self.press_diff);
        put_i16(&mut wtr, self.temperature);
        wtr
    }

    proof fn lemma_roundtrip(&self) {
        let w = self.spec_serialize();
        let w0 = le32(self.time_boot_ms);
        let w1 = w0 + le32(self.press_abs);
        let w2 = w1 + le32(self.press_diff);
        lemma_whole(w, le32(self.time_boot_ms));
        lemma_read_i16(w, w2, self.temperature);
        lemma_read_u32(w, w1, self.press_diff);
        lemma_read_u32(w, w0, self.press_abs);
        lemma_read_u32(w, Seq::empty(), self.time_boot_ms);
    }
}

/// `ATT_POS_MOCAP`, message 138: 36 payload bytes.
#[allow(non_camel_case_types)]
#[derive(Clone, Copy, Debug, PartialEq, Eq)]
pub struct ATT_POS_MOCAP_DATA {
    pub time_usec: u64,
    pub q: [Ieee32; 4],
    pub x: Ieee32,
    pub y: Ieee32,
    pub z: Ieee32,
}

impl Parsable for ATT_POS_MOCAP_DATA {
    open spec fn wire_len() -> nat {
        36
    }

    open spec fn spec_parse(p: Seq<u8>) -> ATT_POS_MOCAP_DATA {
        ATT_POS_MOCAP_DATA {
            time_usec: u64_at(p, 0),
            q: array_of(u32s_at(p, 8, 4)),
            x: u32_at(p, 24),
            y: u32_at(p, 28),
            z: u32_at(p, 32),
        }
    }

    open spec fn spec_serialize(&self) -> Seq<u8> {
        le64(self.time_usec) + le32s(self.q@) + le32(self.x) + le32(self.y) + le32(self.z)
    }

    fn parse(payload: &[u8]) -> ATT_POS_MOCAP_DATA {
        ATT_POS_MOCAP_DATA {
            time_usec: get_u64(payload, 0),
            q: get_u32s(payload, 8),
            x: get_u32(payload, 24),
            y: get_u32(payload, 28),
            z: get_u32(payload, 32),
        }
    }

    fn serialize(&self) -> Vec<u8> {
        let mut wtr = Vec::new();
        put_u64(&mut wtr, self.time_usec);
        assert(wtr@ =~= le64(self.time_usec));
        put_u32s(&mut wtr, &self.q);
        put_u32(&mut wtr, self.x);
        put_u32(&mut wtr, self.y);
        put_u32(&mut wtr, self.z);
        wtr
    }

    proof fn lemma_roundtrip(&self) {
        let w = self.spec_serialize();
        let w0 = le64(self.time_usec);
        let w1 = w0 + le32s(self.q@);
        let w2 = w1 + le32(self.x);
        let w3 = w2 + le32(self.y);
        lemma_whole(w, le64(self.time_usec));
        lemma_read_u32(w, w3, self.z);
        lemma_read_u32(w, w2, self.y);
        lemma_read_u32(w, w1, self.x);
        lemma_read_u32s(w, w0, self.q);
        lemma_read_u64(w, Seq::empty(), self.time_usec);
    }
}

/// `SET_ACTUATOR_CONTROL_TARGET`, message 139: 43 payload bytes.
#[allow(non_camel_case_types)]
#[derive(Clone, Copy, Debug, PartialEq, Eq)]
pub struct SET_ACTUATOR_CONTROL_TARGET_DATA {
    pub time_usec: u64,
    pub controls: [Ieee32; 8],
    pub group_mlx: u8,
    pub target_system: u8,
    pub target_component: u8,
}

impl Parsable for SET_ACTUATOR_CONTROL_TARGET_DATA {
    open spec fn wire_len() -> nat {
        43
    }

    open spec fn spec_parse(p: Seq<u8>) -> SET_ACTUATOR_CONTROL_TARGET_DATA {
        SET_ACTUATOR_CONTROL_TARGET_DATA {
            time_usec: u64_at(p, 0),
            controls: array_of(u32s_at(p, 8, 8)),
            group_mlx: p[40],
            target_system: p[41],
            target_component: p[42],
        }
    }

    open spec fn spec_serialize(&self) -> Seq<u8> {
        le64(self.time_usec) + le32s(self.controls@) + le8(self.group_mlx)
            + le8(self.target_system) + le8(self.target_component)
    }

    fn parse(payload: &[u8]) -> SET_ACTUATOR_CONTROL_TARGET_DATA {
        SET_ACTUATOR_CONTROL_TARGET_DATA {
            time_usec: get_u64(payload, 0),
            controls: get_u32s(payload, 8),
            group_mlx: get_u8(payload, 40),
            target_system: get_u8(payload, 41),
            target_component: get_u8(payload, 42),
        }
    }

    fn serialize(&self) -> Vec<u8> {
        let mut wtr = Vec::new();
        put_u64(&mut wtr, self.time_usec);
        assert(wtr@ =~= le64(self.time_usec));
        put_u32s(&mut wtr, &self.controls);
        put_u8(&mut wtr, self.group_mlx);
        put_u8(&mut wtr, self.target_system);
        put_u8(&mut wtr, self.target_component);
        wtr
    }

    proof fn lemma_roundtrip(&self) {
        let w = self.spec_serialize();
        let w0 = le64(self.time_usec);
        let w1 = w0 + le32s(self.controls@);
        let w2 = w1 + le8(self.group_mlx);
        let w3 = w2 + le8(self.target_system);
        lemma_whole(w, le64(self.time_usec));
        lemma_read_u8(w, w3, self.target_component);
        lemma_read_u8(w, w2, self.target_system);
        lemma_read_u8(w, w1, self.group_mlx);
        lemma_read_u32s(w, w0, self.controls);
        lemma_read_u64(w, Seq::empty(), self.time_usec);
    }
}

/// `ACTUATOR_CONTROL_TARGET`, message 140: 41 payload bytes.
#[allow(non_camel_case_types)]
#[derive(Clone, Copy, Debug, PartialEq, Eq)]
pub struct ACTUATOR_CONTROL_TARGET_DATA {
    pub time_usec: u64,
    pub controls: [Ieee32; 8],
    pub group_mlx: u8,
}

impl Parsable for ACTUATOR_CONTROL_TARGET_DATA {
    open spec fn wire_len() -> nat {
        41
    }

    open spec fn spec_parse(p: Seq<u8>) -> ACTUATOR_CONTROL_TARGET_DATA {
        ACTUATOR_CONTROL_TARGET_DATA {
            time_usec: u64_at(p, 0),
            controls: array_of(u32s_at(p, 8, 8)),
            group_mlx: p[40],
        }
    }

    open spec fn spec_serialize(&self) -> Seq<u8> {
        le64(self.time_usec) + le32s(self.controls@) + le8(self.group_mlx)
    }

    fn parse(payload: &[u8]) -> ACTUATOR_CONTROL_TARGET_DATA {
        ACTUATOR_CONTROL_TARGET_DATA {
            time_usec: get_u64(payload, 0),
            controls: get_u32s(payload, 8),
            group_mlx: get_u8(payload, 40),
        }
    }

    fn serialize(&self) -> Vec<u8> {
        let mut wtr = Vec::new();
        put_u64(&mut wtr, self.time_usec);
        assert(wtr@ =~= le64(self.time_usec));
        put_u32s(&mut wtr, &self.controls);
        put_u8(&mut wtr, self.group_mlx);
        wtr
    }

    proof fn lemma_roundtrip(&self) {
        let w = self.spec_serialize();
        let w0 = le64(self.time_usec);
        let w1 = w0 + le32s(self.controls@);
        lemma_whole(w, le64(self.time_usec));
        lemma_read_u8(w, w1, self.group_mlx);
        lemma_read_u32s(w, w0, self.controls);
        lemma_read_u64(w, Seq::empty(), self.time_usec);
    }
}

/// `ALTITUDE`, message 141: 32 payload bytes.
#[allow(non_camel_case_types)]
#[derive(Clone, Copy, Debug, PartialEq, Eq)]
pub struct ALTITUDE_DATA {
    pub time_usec: u64,
    pub altitude_monotonic: Ieee32,
    pub altitude_amsl: Ieee32,
    pub altitude_local: Ieee32,
    pub altitude_relative: Ieee32,
    pub altitude_terrain: Ieee32,
    pub bottom_clearance: Ieee32,
}

impl Parsable for ALTITUDE_DATA {
    open spec fn wire_len() -> nat {
        32
    }

    open spec fn spec_parse(p: Seq<u8>) -> ALTITUDE_DATA {
        ALTITUDE_DATA {
            time_usec: u64_at(p, 0),
            altitude_monotonic: u32_at(p, 8),
            altitude_amsl: u32_at(p, 12),
            altitude_local: u32_at(p, 16),
            altitude_relative: u32_at(p, 20),
            altitude_terrain: u32_at(p, 24),
            bottom_clearance: u32_at(p, 28),
        }
    }

    open spec fn spec_serialize(&self) -> Seq<u8> {
        le64(self.time_usec) + le32(self.altitude_monotonic) + le32(self.altitude_amsl)
            + le32(self.altitude_local) + le32(self.altitude_relative) + le32(self.altitude_terrain)
            + le32(self.bottom_clearance)
    }

    fn parse(payload: &[u8]) -> ALTITUDE_DATA {
        ALTITUDE_DATA {
            time_usec: get_u64(payload, 0),
            altitude_monotonic: get_u32(payload, 8),
            altitude_amsl: get_u32(payload, 12),
            altitude_local: get_u32(payload, 16),
            altitude_relative: get_u32(payload, 20),
            altitude_terrain: get_u32(payload, 24),
            bottom_clearance: get_u32(payload, 28),
        }
    }

    fn serialize(&self) -> Vec<u8> {
        let mut wtr = Vec::new();
        put_u64(&mut wtr, self.time_usec);
        assert(wtr@ =~= le64(self.time_usec));
        put_u32(&mut wtr, self.altitude_monotonic);
        put_u32(&mut wtr, self.altitude_amsl);
        put_u32(&mut wtr, self.altitude_local);
        put_u32(&mut wtr, self.altitude_relative);
        put_u32(&mut wtr, self.altitude_terrain);
        put_u32(&mut wtr, self.bottom_clearance);
        wtr
    }

    proof fn lemma_roundtrip(&self) {
        let w = self.spec_serialize();
        let w0 = le64(self.time_usec);
        let w1 = w0 + le32(self.altitude_monotonic);
        let w2 = w1 + le32(self.altitude_amsl);
        let w3 = w2 + le32(self.altitude_local);
        let w4 = w3 + le32(self.altitude_relative);
        let w5 = w4 + le32(self.altitude_terrain);
        lemma_whole(w, le64(self.time_usec));
        lemma_read_u32(w, w5, self.bottom_clearance);
        lemma_read_u32(w, w4, self.altitude_terrain);
        lemma_read_u32(w, w3, self.altitude_relative);
        lemma_read_u32(w, w2, self.altitude_local);
        lemma_read_u32(w, w1, self.altitude_amsl);
        lemma_read_u32(w, w0, self.altitude_monotonic);
        lemma_read_u64(w, Seq::empty(), self.time_usec);
    }
}

/// `RESOURCE_REQUEST`, message 142: 243 payload bytes.
#[allow(non_camel_case_types)]
#[derive(Clone, Copy, Debug, PartialEq, Eq)]
pub struct RESOURCE_REQUEST_DATA {
    pub request_id: u8,
    pub uri_type: u8,
    pub uri: [u8; 120],
    pub transfer_type: u8,
    pub storage: [u8; 120],
}

impl Parsable for RESOURCE_REQUEST_DATA {
    open spec fn wire_len() -> nat {
        243
    }

    open spec fn spec_parse(p: Seq<u8>) -> RESOURCE_REQUEST_DATA {
        RESOURCE_REQUEST_DATA {
            request_id: p[0],
            uri_type: p[1],
            uri: array_of(u8s_at(p, 2, 120)),
            transfer_type: p[122],
            storage: array_of(u8s_at(p, 123, 120)),
        }
    }

    open spec fn spec_serialize(&self) -> Seq<u8> {
        le8(self.request_id) + le8(self.uri_type) + self.uri@ + le8(self.transfer_type)
            + self.storage@
    }

    fn parse(payload: &[u8]) -> RESOURCE_REQUEST_DATA {
        RESOURCE_REQUEST_DATA {
            request_id: get_u8(payload, 0),
            uri_type: get_u8(payload, 1),
            uri: get_u8s(payload, 2),
            transfer_type: get_u8(payload, 122),
            storage: get_u8s(payload, 123),
        }
    }

    fn serialize(&self) -> Vec<u8> {
        let mut wtr = Vec::new();
        put_u8(&mut wtr, self.request_id);
        assert(wtr@ =~= le8(self.request_id));
        put_u8(&mut wtr, self.uri_type);
        put_u8s(&mut wtr, &self.uri);
        put_u8(&mut wtr, self.transfer_type);
        put_u8s(&mut wtr, &self.storage);
        wtr
    }

    proof fn lemma_roundtrip(&self) {
        let w = self.spec_serialize();
        let w0 = le8(self.request_id);
        let w1 = w0 + le8(self.uri_type);
        let w2 = w1 + self.uri@;
        let w3 = w2 + le8(self.transfer_type);
        lemma_whole(w, le8(self.request_id));
        lemma_read_u8s(w, w3, self.storage);
        lemma_read_u8(w, w2, self.transfer_type);
        lemma_read_u8s(w, w1, self.uri);
        lemma_read_u8(w, w0, self.uri_type);
        lemma_read_u8(w, Seq::empty(), self.request_id);
    }
}

/// `SCALED_PRESSURE3`, message 143: 14 payload bytes.
#[allow(non_camel_case_types)]
#[derive(Clone, Copy, Debug, PartialEq, Eq)]
pub struct SCALED_PRESSURE3_DATA {
    pub time_boot_ms: u32,
    pub press_abs: Ieee32,
    pub press_diff: Ieee32,
    pub temperature: i16,
}

impl Parsable for SCALED_PRESSURE3_DATA {
    open spec fn wire_len() -> nat {
        14
    }

    open spec fn spec_parse(p: Seq<u8>) -> SCALED_PRESSURE3_DATA {
        SCALED_PRESSURE3_DATA {
            time_boot_ms: u32_at(p, 0),
            press_abs: u32_at(p, 4),
            press_diff: u32_at(p, 8),
            temperature: u16_at(p, 12) as i16,
        }
    }

    open spec fn spec_serialize(&self) -> Seq<u8> {
        le32(self.time_boot_ms) + le32(self.press_abs) + le32(self.press_diff)
            + le16(self.temperature as u16)
    }

    fn parse(payload: &[u8]) -> SCALED_PRESSURE3_DATA {
        SCALED_PRESSURE3_DATA {
            time_boot_ms: get_u32(payload, 0),
            press_abs: get_u32(payload, 4),
            press_diff: get_u32(payload, 8),
            temperature: get_i16(payload, 12),
        }
    }

    fn serialize(&self) -> Vec<u8> {
        let mut wtr = Vec::new();
        put_u32(&mut wtr, self.time_boot_ms);
        assert(wtr@ =~= le32(self.time_boot_ms));
        put_u32(&mut wtr, self.press_abs);
        put_u32(&mut wtr, self.press_diff);
        put_i16(&mut wtr, self.temperature);
        wtr
    }

    proof fn lemma_roundtrip(&self) {
        let w = self.spec_serialize();
        let w0 = le32(self.time_boot_ms);
        let w1 = w0 + le32(self.press_abs);
        let w2 = w1 + le32(self.press_diff);
        lemma_whole(w, le32(self.time_boot_ms));
        lemma_read_i16(w, w2, self.temperature);
        lemma_read_u32(w, w1, self.press_diff);
        lemma_read_u32(w, w0, self.press_abs);
        lemma_read_u32(w, Seq::empty(), self.time_boot_ms);
    }
}

/// `CONTROL_SYSTEM_STATE`, message 146: 100 payload bytes.
#[allow(non_camel_case_types)]
#[derive(Clone, Copy, Debug, PartialEq, Eq)]
pub struct CONTROL_SYSTEM_STATE_DATA {
    pub time_usec: u64,
    pub x_acc: Ieee32,
    pub y_acc: Ieee32,
    pub z_acc: Ieee32,
    pub x_vel: Ieee32,
    pub y_vel: Ieee32,
    pub z_vel: Ieee32,
    pub x_pos: Ieee32,
    pub y_pos: Ieee32,
    pub z_pos: Ieee32,
    pub airspeed: Ieee32,
    pub vel_variance: [Ieee32; 3],
    pub pos_variance: [Ieee32; 3],
    pub q: [Ieee32; 4],
    pub roll_rate: Ieee32,
    pub pitch_rate: Ieee32,
    pub yaw_rate: Ieee32,
}

impl Parsable for CONTROL_SYSTEM_STATE_DATA {
    open spec fn wire_len() -> nat {
        100
    }

    open spec fn spec_parse(p: Seq<u8>) -> CONTROL_SYSTEM_STATE_DATA {
        CONTROL_SYSTEM_STATE_DATA {
            time_usec: u64_at(p, 0),
            x_acc: u32_at(p, 8),
            y_acc: u32_at(p, 12),
            z_acc: u32_at(p, 16),
            x_vel: u32_at(p, 20),
            y_vel: u32_at(p, 24),
            z_vel: u32_at(p, 28),
            x_pos: u32_at(p, 32),
            y_pos: u32_at(p, 36),
            z_pos: u32_at(p, 40),
            airspeed: u32_at(p, 44),
            vel_variance: array_of(u32s_at(p, 48, 3)),
            pos_variance: array_of(u32s_at(p, 60, 3)),
            q: array_of(u32s_at(p, 72, 4)),
            roll_rate: u32_at(p, 88),
            pitch_rate: u32_at(p, 92),
            yaw_rate: u32_at(p, 96),
        }
    }

    open spec fn spec_serialize(&self) -> Seq<u8> {
        le64(self.time_usec) + le32(self.x_acc) + le32(self.y_acc) + le32(self.z_acc)
            + le32(self.x_vel) + le32(self.y_vel) + le32(self.z_vel) + le32(self.x_pos)
            + le32(self.y_pos) + le32(self.z_pos) + le32(self.airspeed) + le32s(self.vel_variance@)
            + le32s(self.pos_variance@) + le32s(self.q@) + le32(self.roll_rate)
            + le32(self.pitch_rate) + le32(self.yaw_rate)
    }

    fn parse(payload: &[u8]) -> CONTROL_SYSTEM_STATE_DATA {
        CONTROL_SYSTEM_STATE_DATA {
            time_usec: get_u64(payload, 0),
            x_acc: get_u32(payload, 8),
            y_acc: get_u32(payload, 12),
            z_acc: get_u32(payload, 16),
            x_vel: get_u32(payload, 20),
            y_vel: get_u32(payload, 24),
            z_vel: get_u32(payload, 28),
            x_pos: get_u32(payload, 32),
            y_pos: get_u32(payload, 36),
            z_pos: get_u32(payload, 40),
            airspeed: get_u32(payload, 44),
            vel_variance: get_u32s(payload, 48),
            pos_variance: get_u32s(payload, 60),
            q: get_u32s(payload, 72),
            roll_rate: get_u32(payload, 88),
            pitch_rate: get_u32(payload, 92),
            yaw_rate: get_u32(payload, 96),
        }
    }

    fn serialize(&self) -> Vec<u8> {
        let mut wtr = Vec::new();
        put_u64(&mut wtr, self.time_usec);
        assert(wtr@ =~= le64(self.time_usec));
        put_u32(&mut wtr, self.x_acc);
        put_u32(&mut wtr, self.y_acc);
        put_u32(&mut wtr, self.z_acc);
        put_u32(&mut wtr, self.x_vel);
        put_u32(&mut wtr, self.y_vel);
        put_u32(&mut wtr, self.z_vel);
        put_u32(&mut wtr, self.x_pos);
        put_u32(&mut wtr, self.y_pos);
        put_u32(&mut wtr, self.z_pos);
        put_u32(&mut wtr, self.airspeed);
        put_u32s(&mut wtr, &self.vel_variance);
        put_u32s(&mut wtr, &self.pos_variance);
        put_u32s(&mut wtr, &self.q);
        put_u32(&mut wtr, self.roll_rate);
        put_u32(&mut wtr, self.pitch_rate);
        put_u32(&mut wtr, self.yaw_rate);
        wtr
    }

    proof fn lemma_roundtrip(&self) {
        let w = self.spec_serialize();
        let w0 = le64(self.time_usec);
        let w1 = w0 + le32(self.x_acc);
        let w2 = w1 + le32(self.y_acc);
        let w3 = w2 + le32(self.z_acc);
        let w4 = w3 + le32(self.x_vel);
        let w5 = w4 + le32(self.y_vel);
        let w6 = w5 + le32(self.z_vel);
        let w7 = w6 + le32(self.x_pos);
        let w8 = w7 + le32(self.y_pos);
        let w9 = w8 + le32(self.z_pos);
        let w10 = w9 + le32(self.airspeed);
        let w11 = w10 + le32s(self.vel_variance@);
        let w12 = w11 + le32s(self.pos_variance@);
        let w13 = w12 + le32s(self.q@);
        let w14 = w13 + le32(self.roll_rate);
        let w15 = w14 + le32(self.pitch_rate);
        lemma_whole(w, le64(self.time_usec));
        lemma_read_u32(w, w15, self.yaw_rate);
        lemma_read_u32(w, w14, self.pitch_rate);
        lemma_read_u32(w, w13, self.roll_rate);
        lemma_read_u32s(w, w12, self.q);
        lemma_read_u32s(w, w11, self.pos_variance);
        lemma_read_u32s(w, w10, self.vel_variance);
        lemma_read_u32(w, w9, self.airspeed);
        lemma_read_u32(w, w8, self.z_pos);
        lemma_read_u32(w, w7, self.y_pos);
        lemma_read_u32(w, w6, self.x_pos);
        lemma_read_u32(w, w5, self.z_vel);
        lemma_read_u32(w, w4, self.y_vel);
        lemma_read_u32(w, w3, self.x_vel);
        lemma_read_u32(w, w2, self.z_acc);
        lemma_read_u32(w, w1, self.y_acc);
        lemma_read_u32(w, w0, self.x_acc);
        lemma_read_u64(w, Seq::empty(), self.time_usec);
    }
}

/// `BATTERY_STATUS`, message 147: 36 payload bytes.
#[allow(non_camel_case_types)]
#[derive(Clone, Copy, Debug, PartialEq, Eq)]
pub struct BATTERY_STATUS_DATA {
    pub current_consumed: i32,
    pub energy_consumed: i32,
    pub temperature: i16,
    pub voltages: [u16; 10],
    pub current_battery: i16,
    pub id: u8,
    pub battery_function: u8,
    pub mavtype: u8,
    pub battery_remaining: i8,
}

impl Parsable for BATTERY_STATUS_DATA {
    open spec fn wire_len() -> nat {
        36
    }

    open spec fn spec_parse(p: Seq<u8>) -> BATTERY_STATUS_DATA {
        BATTERY_STATUS_DATA {
            current_consumed: u32_at(p, 0) as i32,
            energy_consumed: u32_at(p, 4) as i32,
            temperature: u16_at(p, 8) as i16,
            voltages: array_of(u16s_at(p, 10, 10)),
            current_battery: u16_at(p, 30) as i16,
            id: p[32],
            battery_function: p[33],
            mavtype: p[34],
            battery_remaining: p[35] as i8,
        }
    }

    open spec fn spec_serialize(&self) -> Seq<u8> {
        le32(self.current_consumed as u32) + le32(self.energy_consumed as u32)
            + le16(self.temperature as u16) + le16s(self.voltages@)
            + le16(self.current_battery as u16) + le8(self.id) + le8(self.battery_function)
            + le8(self.mavtype) + le8(self.battery_remaining as u8)
    }

    fn parse(payload: &[u8]) -> BATTERY_STATUS_DATA {
        BATTERY_STATUS_DATA {
            current_consumed: get_i32(payload, 0),
            energy_consumed: get_i32(payload, 4),
            temperature: get_i16(payload, 8),
            voltages: get_u16s(payload, 10),
            current_battery: get_i16(payload, 30),
            id: get_u8(payload, 32),
            battery_function: get_u8(payload, 33),
            mavtype: get_u8(payload, 34),
            battery_remaining: get_i8(payload, 35),
        }
    }

    fn serialize(&self) -> Vec<u8> {
        let mut wtr = Vec::new();
        put_i32(&mut wtr, self.current_consumed);
        assert(wtr@ =~= le32(self.current_consumed as u32));
        put_i32(&mut wtr, self.energy_consumed);
        put_i16(&mut wtr, self.temperature);
        put_u16s(&mut wtr, &self.voltages);
        put_i16(&mut wtr, self.current_battery);
        put_u8(&mut wtr, self.id);
        put_u8(&mut wtr, self.battery_function);
        put_u8(&mut wtr, self.mavtype);
        put_i8(&mut wtr, self.battery_remaining);
        wtr
    }

    proof fn lemma_roundtrip(&self) {
        let w = self.spec_serialize();
        let w0 = le32(self.current_consumed as u32);
        let w1 = w0 + le32(self.energy_consumed as u32);
        let w2 = w1 + le16(self.temperature as u16);
        let w3 = w2 + le16s(self.voltages@);
        let w4 = w3 + le16(self.current_battery as u16);
        let w5 = w4 + le8(self.id);
        let w6 = w5 + le8(self.battery_function);
        let w7 = w6 + le8(self.mavtype);
        lemma_whole(w, le32(self.current_consumed as u32));
        lemma_read_i8(w, w7, self.battery_remaining);
        lemma_read_u8(w, w6, self.mavtype);
        lemma_read_u8(w, w5, self.battery_function);
        lemma_read_u8(w, w4, self.id);
        lemma_read_i16(w, w3, self.current_battery);
        lemma_read_u16s(w, w2, self.voltages);
        lemma_read_i16(w, w1, self.temperature);
        lemma_read_i32(w, w0, self.energy_consumed);
        lemma_read_i32(w, Seq::empty(), self.current_consumed);
    }
}

/// `AUTOPILOT_VERSION`, message 148: 60 payload bytes.
#[allow(non_camel_case_types)]
#[derive(Clone, Copy, Debug, PartialEq, Eq)]
pub struct AUTOPILOT_VERSION_DATA {
    pub capabilities: u64,
    pub uid: u64,
    pub flight_sw_version: u32,
    pub middleware_sw_version: u32,
    pub os_sw_version: u32,
    pub board_version: u32,
    pub vendor_id: u16,
    pub product_id: u16,
    pub flight_custom_version: [u8; 8],
    pub middleware_custom_version: [u8; 8],
    pub os_custom_version: [u8; 8],
}

impl Parsable for AUTOPILOT_VERSION_DATA {
    open spec fn wire_len() -> nat {
        60
    }

    open spec fn spec_parse(p: Seq<u8>) -> AUTOPILOT_VERSION_DATA {
        AUTOPILOT_VERSION_DATA {
            capabilities: u64_at(p, 0),
            uid: u64_at(p, 8),
            flight_sw_version: u32_at(p, 16),
            middleware_sw_version: u32_at(p, 20),
            os_sw_version: u32_at(p, 24),
            board_version: u32_at(p, 28),
            vendor_id: u16_at(p, 32),
            product_id: u16_at(p, 34),
            flight_custom_version: array_of(u8s_at(p, 36, 8)),
            middleware_custom_version: array_of(u8s_at(p, 44, 8)),
            os_custom_version: array_of(u8s_at(p, 52, 8)),
        }
    }

    open spec fn spec_serialize(&self) -> Seq<u8> {
        le64(self.capabilities) + le64(self.uid) + le32(self.flight_sw_version)
            + le32(self.middleware_sw_version) + le32(self.os_sw_version) + le32(self.board_version)
            + le16(self.vendor_id) + le16(self.product_id) + self.flight_custom_version@
            + self.middleware_custom_version@ + self.os_custom_version@
    }

    fn parse(payload: &[u8]) -> AUTOPILOT_VERSION_DATA {
        AUTOPILOT_VERSION_DATA {
            capabilities: get_u64(payload, 0),
            uid: get_u64(payload, 8),
            flight_sw_version: get_u32(payload, 16),
            middleware_sw_version: get_u32(payload, 20),
            os_sw_version: get_u32(payload, 24),
            board_version: get_u32(payload, 28),
            vendor_id: get_u16(payload, 32),
            product_id: get_u16(payload, 34),
            flight_custom_version: get_u8s(payload, 36),
            middleware_custom_version: get_u8s(payload, 44),
            os_custom_version: get_u8s(payload, 52),
        }
    }

    fn serialize(&self) -> Vec<u8> {
        let mut wtr = Vec::new();
        put_u64(&mut wtr, self.capabilities);
        assert(wtr@ =~= le64(self.capabilities));
        put_u64(&mut wtr, self.uid);
        put_u32(&mut wtr, self.flight_sw_version);
        put_u32(&mut wtr, self.middleware_sw_version);
        put_u32(&mut wtr, self.os_sw_version);
        put_u32(&mut wtr, self.board_version);
        put_u16(&mut wtr, self.vendor_id);
        put_u16(&mut wtr, self.product_id);
        put_u8s(&mut wtr, &self.flight_custom_version);
        put_u8s(&mut wtr, &self.middleware_custom_version);
        put_u8s(&mut wtr, &self.os_custom_version);
        wtr
    }

    proof fn lemma_roundtrip(&self) {
        let w = self.spec_serialize();
        let w0 = le64(self.capabilities);
        let w1 = w0 + le64(self.uid);
        let w2 = w1 + le32(self.flight_sw_version);
        let w3 = w2 + le32(self.middleware_sw_version);
        let w4 = w3 + le32(self.os_sw_version);
        let w5 = w4 + le32(self.board_version);
        let w6 = w5 + le16(self.vendor_id);
        let w7 = w6 + le16(self.product_id);
        let w8 = w7 + self.flight_custom_version@;
        let w9 = w8 + self.middleware_custom_version@;
        lemma_whole(w, le64(self.capabilities));
        lemma_read_u8s(w, w9, self.os_custom_version);
        lemma_read_u8s(w, w8, self.middleware_custom_version);
        lemma_read_u8s(w, w7, self.flight_custom_version);
        lemma_read_u16(w, w6, self.product_id);
        lemma_read_u16(w, w5, self.vendor_id);
        lemma_read_u32(w, w4, self.board_version);
        lemma_read_u32(w, w3, self.os_sw_version);
        lemma_read_u32(w, w2, self.middleware_sw_version);
        lemma_read_u32(w, w1, self.flight_sw_version);
        lemma_read_u64(w, w0, self.uid);
        lemma_read_u64(w, Seq::empty(), self.capabilities);
    }
}

/// `LANDING_TARGET`, message 149: 30 payload bytes.
#[allow(non_camel_case_types)]
#[derive(Clone, Copy, Debug, PartialEq, Eq)]
pub struct LANDING_TARGET_DATA {
    pub time_usec: u64,
    pub angle_x: Ieee32,
    pub angle_y: Ieee32,
    pub distance: Ieee32,
    pub size_x: Ieee32,
    pub size_y: Ieee32,
    pub target_num: u8,
    pub frame: u8,
}

impl Parsable for LANDING_TARGET_DATA {
    open spec fn wire_len() -> nat {
        30
    }

    open spec fn spec_parse(p: Seq<u8>) -> LANDING_TARGET_DATA {
        LANDING_TARGET_DATA {
            time_usec: u64_at(p, 0),
            angle_x: u32_at(p, 8),
            angle_y: u32_at(p, 12),
            distance: u32_at(p, 16),
            size_x: u32_at(p, 20),
            size_y: u32_at(p, 24),
            target_num: p[28],
            frame: p[29],
        }
    }

    open spec fn spec_serialize(&self) -> Seq<u8> {
        le64(self.time_usec) + le32(self.angle_x) + le32(self.angle_y) + le32(self.distance)
            + le32(self.size_x) + le32(self.size_y) + le8(self.target_num) + le8(self.frame)
    }

    fn parse(payload: &[u8]) -> LANDING_TARGET_DATA {
        LANDING_TARGET_DATA {
            time_usec: get_u64(payload, 0),
            angle_x: get_u32(payload, 8),
            angle_y: get_u32(payload, 12),
            distance: get_u32(payload, 16),
            size_x: get_u32(payload, 20),
            size_y: get_u32(payload, 24),
            target_num: get_u8(payload, 28),
            frame: get_u8(payload, 29),
        }
    }

    fn serialize(&self) -> Vec<u8> {
        let mut wtr = Vec::new();
        put_u64(&mut wtr, self.time_usec);
        assert(wtr@ =~= le64(self.time_usec));
        put_u32(&mut wtr, self.angle_x);
        put_u32(&mut wtr, self.angle_y);
        put_u32(&mut wtr, self.distance);
        put_u32(&mut wtr, self.size_x);
        put_u32(&mut wtr, self.size_y);
        put_u8(&mut wtr, self.target_num);
        put_u8(&mut wtr, self.frame);
        wtr
    }

    proof fn lemma_roundtrip(&self) {
        let w = self.spec_serialize();
        let w0 = le64(self.time_usec);
        let w1 = w0 + le32(self.angle_x);
        let w2 = w1 + le32(self.angle_y);
        let w3 = w2 + le32(self.distance);
        let w4 = w3 + le32(self.size_x);
        let w5 = w4 + le32(self.size_y);
        let w6 = w5 + le8(self.target_num);
        lemma_whole(w, le64(self.time_usec));
        lemma_read_u8(w, w6, self.frame);
        lemma_read_u8(w, w5, self.target_num);
        lemma_read_u32(w, w4, self.size_y);
        lemma_read_u32(w, w3, self.size_x);
        lemma_read_u32(w, w2, self.distance);
        lemma_read_u32(w, w1, self.angle_y);
        lemma_read_u32(w, w0, self.angle_x);
        lemma_read_u64(w, Seq::empty(), self.time_usec);
    }
}

/// `VIBRATION`, message 241: 32 payload bytes.
#[allow(non_camel_case_types)]
#[derive(Clone, Copy, Debug, PartialEq, Eq)]
pub struct VIBRATION_DATA {
    pub time_usec: u64,
    pub vibration_x: Ieee32,
    pub vibration_y: Ieee32,
    pub vibration_z: Ieee32,
    pub clipping_0: u32,
    pub clipping_1: u32,
    pub clipping_2: u32,
}

impl Parsable for VIBRATION_DATA {
    open spec fn wire_len() -> nat {
        32
    }

    open spec fn spec_parse(p: Seq<u8>) -> VIBRATION_DATA {
        VIBRATION_DATA {
            time_usec: u64_at(p, 0),
            vibration_x: u32_at(p, 8),
            vibration_y: u32_at(p, 12),
            vibration_z: u32_at(p, 16),
            clipping_0: u32_at(p, 20),
            clipping_1: u32_at(p, 24),
            clipping_2: u32_at(p, 28),
        }
    }

    open spec fn spec_serialize(&self) -> Seq<u8> {
        le64(self.time_usec) + le32(self.vibration_x) + le32(self.vibration_y)
            + le32(self.vibration_z) + le32(self.clipping_0) + le32(self.clipping_1)
            + le32(self.clipping_2)
    }

    fn parse(payload: &[u8]) -> VIBRATION_DATA {
        VIBRATION_DATA {
            time_usec: get_u64(payload, 0),
            vibration_x: get_u32(payload, 8),
            vibration_y: get_u32(payload, 12),
            vibration_z: get_u32(payload, 16),
            clipping_0: get_u32(payload, 20),
            clipping_1: get_u32(payload, 24),
            clipping_2: get_u32(payload, 28),
        }
    }

    fn serialize(&self) -> Vec<u8> {
        let mut wtr = Vec::new();
        put_u64(&mut wtr, self.time_usec);
        assert(wtr@ =~= le64(self.time_usec));
        put_u32(&mut wtr, self.vibration_x);
        put_u32(&mut wtr, self.vibration_y);
        put_u32(&mut wtr, self.vibration_z);
        put_u32(&mut wtr, self.clipping_0);
        put_u32(&mut wtr, self.clipping_1);
        put_u32(&mut wtr, self.clipping_2);
        wtr
    }

    proof fn lemma_roundtrip(&self) {
        let w = self.spec_serialize();
        let w0 = le64(self.time_usec);
        let w1 = w0 + le32(self.vibration_x);
        let w2 = w1 + le32(self.vibration_y);
        let w3 = w2 + le32(self.vibration_z);
        let w4 = w3 + le32(self.clipping_0);
        let w5 = w4 + le32(self.clipping_1);
        lemma_whole(w, le64(self.time_usec));
        lemma_read_u32(w, w5, self.clipping_2);
        lemma_read_u32(w, w4, self.clipping_1);
        lemma_read_u32(w, w3, self.clipping_0);
        lemma_read_u32(w, w2, self.vibration_z);
        lemma_read_u32(w, w1, self.vibration_y);
        lemma_read_u32(w, w0, self.vibration_x);
        lemma_read_u64(w, Seq::empty(), self.time_usec);
    }
}

/// `HOME_POSITION`, message 242: 52 payload bytes.
#[allow(non_camel_case_types)]
#[derive(Clone, Copy, Debug, PartialEq, Eq)]
pub struct HOME_POSITION_DATA {
    pub latitude: i32,
    pub longitude: i32,
    pub altitude: i32,
    pub x: Ieee32,
    pub y: Ieee32,
    pub z: Ieee32,
    pub q: [Ieee32; 4],
    pub approach_x: Ieee32,
    pub approach_y: Ieee32,
    pub approach_z: Ieee32,
}

impl Parsable for HOME_POSITION_DATA {
    open spec fn wire_len() -> nat {
        52
    }

    open spec fn spec_parse(p: Seq<u8>) -> HOME_POSITION_DATA {
        HOME_POSITION_DATA {
            latitude: u32_at(p, 0) as i32,
            longitude: u32_at(p, 4) as i32,
            altitude: u32_at(p, 8) as i32,
            x: u32_at(p, 12),
            y: u32_at(p, 16),
            z: u32_at(p, 20),
            q: array_of(u32s_at(p, 24, 4)),
            approach_x: u32_at(p, 40),
            approach_y: u32_at(p, 44),
            approach_z: u32_at(p, 48),
        }
    }

    open spec fn spec_serialize(&self) -> Seq<u8> {
        le32(self.latitude as u32) + le32(self.longitude as u32) + le32(self.altitude as u32)
            + le32(self.x) + le32(self.y) + le32(self.z) + le32s(self.q@) + le32(self.approach_x)
            + le32(self.approach_y) + le32(self.approach_z)
    }

    fn parse(payload: &[u8]) -> HOME_POSITION_DATA {
        HOME_POSITION_DATA {
            latitude: get_i32(payload, 0),
            longitude: get_i32(payload, 4),
            altitude: get_i32(payload, 8),
            x: get_u32(payload, 12),
            y: get_u32(payload, 16),
            z: get_u32(payload, 20),
            q: get_u32s(payload, 24),
            approach_x: get_u32(payload, 40),
            approach_y: get_u32(payload, 44),
            approach_z: get_u32(payload, 48),
        }
    }

    fn serialize(&self) -> Vec<u8> {
        let mut wtr = Vec::new();
        put_i32(&mut wtr, self.latitude);
        assert(wtr@ =~= le32(self.latitude as u32));
        put_i32(&mut wtr, self.longitude);
        put_i32(&mut wtr, self.altitude);
        put_u32(&mut wtr, self.x);
        put_u32(&mut wtr, self.y);
        put_u32(&mut wtr, self.z);
        put_u32s(&mut wtr, &self.q);
        put_u32(&mut wtr, self.approach_x);
        put_u32(&mut wtr, self.approach_y);
        put_u32(&mut wtr, self.approach_z);
        wtr
    }

    proof fn lemma_roundtrip(&self) {
        let w = self.spec_serialize();
        let w0 = le32(self.latitude as u32);
        let w1 = w0 + le32(self.longitude as u32);
        let w2 = w1 + le32(self.altitude as u32);
        let w3 = w2 + le32(self.x);
        let w4 = w3 + le32(self.y);
        let w5 = w4 + le32(self.z);
        let w6 = w5 + le32s(self.q@);
        let w7 = w6 + le32(self.approach_x);
        let w8 = w7 + le32(self.approach_y);
        lemma_whole(w, le32(self.latitude as u32));
        lemma_read_u32(w, w8, self.approach_z);
        lemma_read_u32(w, w7, self.approach_y);
        lemma_read_u32(w, w6, self.approach_x);
        lemma_read_u32s(w, w5, self.q);
        lemma_read_u32(w, w4, self.z);
        lemma_read_u32(w, w3, self.y);
        lemma_read_u32(w, w2, self.x);
        lemma_read_i32(w, w1, self.altitude);
        lemma_read_i32(w, w0, self.longitude);
        lemma_read_i32(w, Seq::empty(), self.latitude);
    }
}

/// `SET_HOME_POSITION`, message 243: 53 payload bytes.
#[allow(non_camel_case_types)]
#[derive(Clone, Copy, Debug, PartialEq, Eq)]
pub struct SET_HOME_POSITION_DATA {
    pub latitude: i32,
    pub longitude: i32,
    pub altitude: i32,
    pub x: Ieee32,
    pub y: Ieee32,
    pub z: Ieee32,
    pub q: [Ieee32; 4],
    pub approach_x: Ieee32,
    pub approach_y: Ieee32,
    pub approach_z: Ieee32,
    pub target_system: u8,
}

impl Parsable for SET_HOME_POSITION_DATA {
    open spec fn wire_len() -> nat {
        53
    }

    open spec fn spec_parse(p: Seq<u8>) -> SET_HOME_POSITION_DATA {
        SET_HOME_POSITION_DATA {
            latitude: u32_at(p, 0) as i32,
            longitude: u32_at(p, 4) as i32,
            altitude: u32_at(p, 8) as i32,
            x: u32_at(p, 12),
            y: u32_at(p, 16),
            z: u32_at(p, 20),
            q: array_of(u32s_at(p, 24, 4)),
            approach_x: u32_at(p, 40),
            approach_y: u32_at(p, 44),
            approach_z: u32_at(p, 48),
            target_system: p[52],
        }
    }

    open spec fn spec_serialize(&self) -> Seq<u8> {
        le32(self.latitude as u32) + le32(self.longitude as u32) + le32(self.altitude as u32)
            + le32(self.x) + le32(self.y) + le32(self.z) + le32s(self.q@) + le32(self.approach_x)
            + le32(self.approach_y) + le32(self.approach_z) + le8(self.target_system)
    }

    fn parse(payload: &[u8]) -> SET_HOME_POSITION_DATA {
        SET_HOME_POSITION_DATA {
            latitude: get_i32(payload, 0),
            longitude: get_i32(payload, 4),
            altitude: get_i32(payload, 8),
            x: get_u32(payload, 12),
            y: get_u32(payload, 16),
            z: get_u32(payload, 20),
            q: get_u32s(payload, 24),
            approach_x: get_u32(payload, 40),
            approach_y: get_u32(payload, 44),
            approach_z: get_u32(payload, 48),
            target_system: get_u8(payload, 52),
        }
    }

    fn serialize(&self) -> Vec<u8> {
        let mut wtr = Vec::new();
        put_i32(&mut wtr, self.latitude);
        assert(wtr@ =~= le32(self.latitude as u32));
        put_i32(&mut wtr, self.longitude);
        put_i32(&mut wtr, self.altitude);
        put_u32(&mut wtr, self.x);
        put_u32(&mut wtr, self.y);
        put_u32(&mut wtr, self.z);
        put_u32s(&mut wtr, &self.q);
        put_u32(&mut wtr, self.approach_x);
        put_u32(&mut wtr, self.approach_y);
        put_u32(&mut wtr, self.approach_z);
        put_u8(&mut wtr, self.target_system);
        wtr
    }

    proof fn lemma_roundtrip(&self) {
        let w = self.spec_serialize();
        let w0 = le32(self.latitude as u32);
        let w1 = w0 + le32(self.longitude as u32);
        let w2 = w1 + le32(self.altitude as u32);
        let w3 = w2 + le32(self.x);
        let w4 = w3 + le32(self.y);
        let w5 = w4 + le32(self.z);
        let w6 = w5 + le32s(self.q@);
        let w7 = w6 + le32(self.approach_x);
        let w8 = w7 + le32(self.approach_y);
        let w9 = w8 + le32(self.approach_z);
        lemma_whole(w, le32(self.latitude as u32));
        lemma_read_u8(w, w9, self.target_system);
        lemma_read_u32(w, w8, self.approach_z);
        lemma_read_u32(w, w7, self.approach_y);
        lemma_read_u32(w, w6, self.approach_x);
        lemma_read_u32s(w, w5, self.q);
        lemma_read_u32(w, w4, self.z);
        lemma_read_u32(w, w3, self.y);
        lemma_read_u32(w, w2, self.x);
        lemma_read_i32(w, w1, self.altitude);
        lemma_read_i32(w, w0, self.longitude);
        lemma_read_i32(w, Seq::empty(), self.latitude);
    }
}

/// `MESSAGE_INTERVAL`, message 244: 6 payload bytes.
#[allow(non_camel_case_types)]
#[derive(Clone, Copy, Debug, PartialEq, Eq)]
pub struct MESSAGE_INTERVAL_DATA {
    pub interval_us: i32,
    pub message_id: u16,
}

impl Parsable for MESSAGE_INTERVAL_DATA {
    open spec fn wire_len() -> nat {
        6
    }

    open spec fn spec_parse(p: Seq<u8>) -> MESSAGE_INTERVAL_DATA {
        MESSAGE_INTERVAL_DATA {
            interval_us: u32_at(p, 0) as i32,
            message_id: u16_at(p, 4),
        }
    }

    open spec fn spec_serialize(&self) -> Seq<u8> {
        le32(self.interval_us as u32) + le16(self.message_id)
    }

    fn parse(payload: &[u8]) -> MESSAGE_INTERVAL_DATA {
        MESSAGE_INTERVAL_DATA {
            interval_us: get_i32(payload, 0),
            message_id: get_u16(payload, 4),
        }
    }

    fn serialize(&self) -> Vec<u8> {
        let mut wtr = Vec::new();
        put_i32(&mut wtr, self.interval_us);
        assert(wtr@ =~= le32(self.interval_us as u32));
        put_u16(&mut wtr, self.message_id);
        wtr
    }

    proof fn lemma_roundtrip(&self) {
        let w = self.spec_serialize();
        let w0 = le32(self.interval_us as u32);
        lemma_whole(w, le32(self.interval_us as u32));
        lemma_read_u16(w, w0, self.message_id);
        lemma_read_i32(w, Seq::empty(), self.interval_us);
    }
}

/// `EXTENDED_SYS_STATE`, message 245: 2 payload bytes.
#[allow(non_camel_case_types)]
#[derive(Clone, Copy, Debug, PartialEq, Eq)]
pub struct EXTENDED_SYS_STATE_DATA {
    pub vtol_state: u8,
    pub landed_state: u8,
}

impl Parsable for EXTENDED_SYS_STATE_DATA {
    open spec fn wire_len() -> nat {
        2
    }

    open spec fn spec_parse(p: Seq<u8>) -> EXTENDED_SYS_STATE_DATA {
        EXTENDED_SYS_STATE_DATA {
            vtol_state: p[0],
            landed_state: p[1],
        }
    }

    open spec fn spec_serialize(&self) -> Seq<u8> {
        le8(self.vtol_state) + le8(self.landed_state)
    }

    fn parse(payload: &[u8]) -> EXTENDED_SYS_STATE_DATA {
        EXTENDED_SYS_STATE_DATA {
            vtol_state: get_u8(payload, 0),
            landed_state: get_u8(payload, 1),
        }
    }

    fn serialize(&self) -> Vec<u8> {
        let mut wtr = Vec::new();
        put_u8(&mut wtr, self.vtol_state);
        assert(wtr@ =~= le8(self.vtol_state));
        put_u8(&mut wtr, self.landed_state);
        wtr
    }

    proof fn lemma_roundtrip(&self) {
        let w = self.spec_serialize();
        let w0 = le8(self.vtol_state);
        lemma_whole(w, le8(self.vtol_state));
        lemma_read_u8(w, w0, self.landed_state);
        lemma_read_u8(w, Seq::empty(), self.vtol_state);
    }
}

/// `ADSB_VEHICLE`, message 246: 42 payload bytes.
#[allow(non_camel_case_types)]
#[derive(Clone, Copy, Debug, PartialEq, Eq)]
pub struct ADSB_VEHICLE_DATA {
    pub ICAO_address: u32,
    pub lat: i32,
    pub lon: i32,
    pub altitude: Ieee32,
    pub hor_velocity: Ieee32,
    pub ver_velocity: Ieee32,
    pub heading: u16,
    pub flags: u16,
    pub squawk: u16,
    pub altitude_type: u8,
    pub callsign: [u8; 9],
    pub emitter_type: u8,
    pub tslc: u8,
}

impl Parsable for ADSB_VEHICLE_DATA {
    open spec fn wire_len() -> nat {
        42
    }

    open spec fn spec_parse(p: Seq<u8>) -> ADSB_VEHICLE_DATA {
        ADSB_VEHICLE_DATA {
            ICAO_address: u32_at(p, 0),
            lat: u32_at(p, 4) as i32,
            lon: u32_at(p, 8) as i32,
            altitude: u32_at(p, 12),
            hor_velocity: u32_at(p, 16),
            ver_velocity: u32_at(p, 20),
            heading: u16_at(p, 24),
            flags: u16_at(p, 26),
            squawk: u16_at(p, 28),
            altitude_type: p[30],
            callsign: array_of(u8s_at(p, 31, 9)),
            emitter_type: p[40],
            tslc: p[41],
        }
    }

    open spec fn spec_serialize(&self) -> Seq<u8> {
        le32(self.ICAO_address) + le32(self.lat as u32) + le32(self.lon as u32)
            + le32(self.altitude) + le32(self.hor_velocity) + le32(self.ver_velocity)
            + le16(self.heading) + le16(self.flags) + le16(self.squawk) + le8(self.altitude_type)
            + self.callsign@ + le8(self.emitter_type) + le8(self.tslc)
    }

    fn parse(payload: &[u8]) -> ADSB_VEHICLE_DATA {
        ADSB_VEHICLE_DATA {
            ICAO_address: get_u32(payload, 0),
            lat: get_i32(payload, 4),
            lon: get_i32(payload, 8),
            altitude: get_u32(payload, 12),
            hor_velocity: get_u32(payload, 16),
            ver_velocity: get_u32(payload, 20),
            heading: get_u16(payload, 24),
            flags: get_u16(payload, 26),
            squawk: get_u16(payload, 28),
            altitude_type: get_u8(payload, 30),
            callsign: get_u8s(payload, 31),
            emitter_type: get_u8(payload, 40),
            tslc: get_u8(payload, 41),
        }
    }

    fn serialize(&self) -> Vec<u8> {
        let mut wtr = Vec::new();
        put_u32(&mut wtr, self.ICAO_address);
        assert(wtr@ =~= le32(self.ICAO_address));
        put_i32(&mut wtr, self.lat);
        put_i32(&mut wtr, self.lon);
        put_u32(&mut wtr, self.altitude);
        put_u32(&mut wtr, self.hor_velocity);
        put_u32(&mut wtr, self.ver_velocity);
        put_u16(&mut wtr, self.heading);
        put_u16(&mut wtr, self.flags);
        put_u16(&mut wtr, self.squawk);
        put_u8(&mut wtr, self.altitude_type);
        put_u8s(&mut wtr, &self.callsign);
        put_u8(&mut wtr, self.emitter_type);
        put_u8(&mut wtr, self.tslc);
        wtr
    }

    proof fn lemma_roundtrip(&self) {
        let w = self.spec_serialize();
        let w0 = le32(self.ICAO_address);
        let w1 = w0 + le32(self.lat as u32);
        let w2 = w1 + le32(self.lon as u32);
        let w3 = w2 + le32(self.altitude);
        let w4 = w3 + le32(self.hor_velocity);
        let w5 = w4 + le32(self.ver_velocity);
        let w6 = w5 + le16(self.heading);
        let w7 = w6 + le16(self.flags);
        let w8 = w7 + le16(self.squawk);
        let w9 = w8 + le8(self.altitude_type);
        let w10 = w9 + self.callsign@;
        let w11 = w10 + le8(self.emitter_type);
        lemma_whole(w, le32(self.ICAO_address));
        lemma_read_u8(w, w11, self.tslc);
        lemma_read_u8(w, w10, self.emitter_type);
        lemma_read_u8s(w, w9, self.callsign);
        lemma_read_u8(w, w8, self.altitude_type);
        lemma_read_u16(w, w7, self.squawk);
        lemma_read_u16(w, w6, self.flags);
        lemma_read_u16(w, w5, self.heading);
        lemma_read_u32(w, w4, self.ver_velocity);
        lemma_read_u32(w, w3, self.hor_velocity);
        lemma_read_u32(w, w2, self.altitude);
        lemma_read_i32(w, w1, self.lon);
        lemma_read_i32(w, w0, self.lat);
        lemma_read_u32(w, Seq::empty(), self.ICAO_address);
    }
}

/// `V2_EXTENSION`, message 248: 254 payload bytes.
#[allow(non_camel_case_types)]
#[derive(Clone, Copy, Debug, PartialEq, Eq)]
pub struct V2_EXTENSION_DATA {
    pub message_type: u16,
    pub target_network: u8,
    pub target_system: u8,
    pub target_component: u8,
    pub payload: [u8; 249],
}

impl Parsable for V2_EXTENSION_DATA {
    open spec fn wire_len() -> nat {
        254
    }

    open spec fn spec_parse(p: Seq<u8>) -> V2_EXTENSION_DATA {
        V2_EXTENSION_DATA {
            message_type: u16_at(p, 0),
            target_network: p[2],
            target_system: p[3],
            target_component: p[4],
            payload: array_of(u8s_at(p, 5, 249)),
        }
    }

    open spec fn spec_serialize(&self) -> Seq<u8> {
        le16(self.message_type) + le8(self.target_network) + le8(self.target_system)
            + le8(self.target_component) + self.payload@
    }

    fn parse(payload: &[u8]) -> V2_EXTENSION_DATA {
        V2_EXTENSION_DATA {
            message_type: get_u16(payload, 0),
            target_network: get_u8(payload, 2),
            target_system: get_u8(payload, 3),
            target_component: get_u8(payload, 4),
            payload: get_u8s(payload, 5),
        }
    }

    fn serialize(&self) -> Vec<u8> {
        let mut wtr = Vec::new();
        put_u16(&mut wtr, self.message_type);
        assert(wtr@ =~= le16(self.message_type));
        put_u8(&mut wtr, self.target_network);
        put_u8(&mut wtr, self.target_system);
        put_u8(&mut wtr, self.target_component);
        put_u8s(&mut wtr, &self.payload);
        wtr
    }

    proof fn lemma_roundtrip(&self) {
        let w = self.spec_serialize();
        let w0 = le16(self.message_type);
        let w1 = w0 + le8(self.target_network);
        let w2 = w1 + le8(self.target_system);
        let w3 = w2 + le8(self.target_component);
        lemma_whole(w, le16(self.message_type));
        lemma_read_u8s(w, w3, self.payload);
        lemma_read_u8(w, w2, self.target_component);
        lemma_read_u8(w, w1, self.target_system);
        lemma_read_u8(w, w0, self.target_network);
        lemma_read_u16(w, Seq::empty(), self.message_type);
    }
}

/// `MEMORY_VECT`, message 249: 36 payload bytes.
#[allow(non_camel_case_types)]
#[derive(Clone, Copy, Debug, PartialEq, Eq)]
pub struct MEMORY_VECT_DATA {
    pub address: u16,
    pub ver: u8,
    pub mavtype: u8,
    pub value: [i8; 32],
}

impl Parsable for MEMORY_VECT_DATA {
    open spec fn wire_len() -> nat {
        36
    }

    open spec fn spec_parse(p: Seq<u8>) -> MEMORY_VECT_DATA {
        MEMORY_VECT_DATA {
            address: u16_at(p, 0),
            ver: p[2],
            mavtype: p[3],
            value: array_of(i8s_at(p, 4, 32)),
        }
    }

    open spec fn spec_serialize(&self) -> Seq<u8> {
        le16(self.address) + le8(self.ver) + le8(self.mavtype) + le8s_signed(self.value@)
    }

    fn parse(payload: &[u8]) -> MEMORY_VECT_DATA {
        MEMORY_VECT_DATA {
            address: get_u16(payload, 0),
            ver: get_u8(payload, 2),
            mavtype: get_u8(payload, 3),
            value: get_i8s(payload, 4),
        }
    }

    fn serialize(&self) -> Vec<u8> {
        let mut wtr = Vec::new();
        put_u16(&mut wtr, self.address);
        assert(wtr@ =~= le16(self.address));
        put_u8(&mut wtr, self.ver);
        put_u8(&mut wtr, self.mavtype);
        put_i8s(&mut wtr, &self.value);
        wtr
    }

    proof fn lemma_roundtrip(&self) {
        let w = self.spec_serialize();
        let w0 = le16(self.address);
        let w1 = w0 + le8(self.ver);
        let w2 = w1 + le8(self.mavtype);
        lemma_whole(w, le16(self.address));
        lemma_read_i8s(w, w2, self.value);
        lemma_read_u8(w, w1, self.mavtype);
        lemma_read_u8(w, w0, self.ver);
        lemma_read_u16(w, Seq::empty(), self.address);
    }
}

/// `DEBUG_VECT`, message 250: 30 payload bytes.
#[allow(non_camel_case_types)]
#[derive(Clone, Copy, Debug, PartialEq, Eq)]
pub struct DEBUG_VECT_DATA {
    pub time_usec: u64,
    pub x: Ieee32,
    pub y: Ieee32,
    pub z: Ieee32,
    pub name: [u8; 10],
}

impl Parsable for DEBUG_VECT_DATA {
    open spec fn wire_len() -> nat {
        30
    }

    open spec fn spec_parse(p: Seq<u8>) -> DEBUG_VECT_DATA {
        DEBUG_VECT_DATA {
            time_usec: u64_at(p, 0),
            x: u32_at(p, 8),
            y: u32_at(p, 12),
            z: u32_at(p, 16),
            name: array_of(u8s_at(p, 20, 10)),
        }
    }

    open spec fn spec_serialize(&self) -> Seq<u8> {
        le64(self.time_usec) + le32(self.x) + le32(self.y) + le32(self.z) + self.name@
    }

    fn parse(payload: &[u8]) -> DEBUG_VECT_DATA {
        DEBUG_VECT_DATA {
            time_usec: get_u64(payload, 0),
            x: get_u32(payload, 8),
            y: get_u32(payload, 12),
            z: get_u32(payload, 16),
            name: get_u8s(payload, 20),
        }
    }

    fn serialize(&self) -> Vec<u8> {
        let mut wtr = Vec::new();
        put_u64(&mut wtr, self.time_usec);
        assert(wtr@ =~= le64(self.time_usec));
        put_u32(&mut wtr, self.x);
        put_u32(&mut wtr, self.y);
        put_u32(&mut wtr, self.z);
        put_u8s(&mut wtr, &self.name);
        wtr
    }

    proof fn lemma_roundtrip(&self) {
        let w = self.spec_serialize();
        let w0 = le64(self.time_usec);
        let w1 = w0 + le32(self.x);
        let w2 = w1 + le32(self.y);
        let w3 = w2 + le32(self.z);
        lemma_whole(w, le64(self.time_usec));
        lemma_read_u8s(w, w3, self.name);
        lemma_read_u32(w, w2, self.z);
        lemma_read_u32(w, w1, self.y);
        lemma_read_u32(w, w0, self.x);
        lemma_read_u64(w, Seq::empty(), self.time_usec);
    }
}

/// `NAMED_VALUE_FLOAT`, message 251: 18 payload bytes.
#[allow(non_camel_case_types)]
#[derive(Clone, Copy, Debug, PartialEq, Eq)]
pub struct NAMED_VALUE_FLOAT_DATA {
    pub time_boot_ms: u32,
    pub value: Ieee32,
    pub name: [u8; 10],
}

impl Parsable for NAMED_VALUE_FLOAT_DATA {
    open spec fn wire_len() -> nat {
        18
    }

    open spec fn spec_parse(p: Seq<u8>) -> NAMED_VALUE_FLOAT_DATA {
        NAMED_VALUE_FLOAT_DATA {
            time_boot_ms: u32_at(p, 0),
            value: u32_at(p, 4),
            name: array_of(u8s_at(p, 8, 10)),
        }
    }

    open spec fn spec_serialize(&self) -> Seq<u8> {
        le32(self.time_boot_ms) + le32(self.value) + self.name@
    }

    fn parse(payload: &[u8]) -> NAMED_VALUE_FLOAT_DATA {
        NAMED_VALUE_FLOAT_DATA {
            time_boot_ms: get_u32(payload, 0),
            value: get_u32(payload, 4),
            name: get_u8s(payload, 8),
        }
    }

    fn serialize(&self) -> Vec<u8> {
        let mut wtr = Vec::new();
        put_u32(&mut wtr, self.time_boot_ms);
        assert(wtr@ =~= le32(self.time_boot_ms));
        put_u32(&mut wtr, self.value);
        put_u8s(&mut wtr, &self.name);
        wtr
    }

    proof fn lemma_roundtrip(&self) {
        let w = self.spec_serialize();
        let w0 = le32(self.time_boot_ms);
        let w1 = w0 + le32(self.value);
        lemma_whole(w, le32(self.time_boot_ms));
        lemma_read_u8s(w, w1, self.name);
        lemma_read_u32(w, w0, self.value);
        lemma_read_u32(w, Seq::empty(), self.time_boot_ms);
    }
}

/// `NAMED_VALUE_INT`, message 252: 18 payload bytes.
#[allow(non_camel_case_types)]
#[derive(Clone, Copy, Debug, PartialEq, Eq)]
pub struct NAMED_VALUE_INT_DATA {
    pub time_boot_ms: u32,
    pub value: i32,
    pub name: [u8; 10],
}

impl Parsable for NAMED_VALUE_INT_DATA {
    open spec fn wire_len() -> nat {
        18
    }

    open spec fn spec_parse(p: Seq<u8>) -> NAMED_VALUE_INT_DATA {
        NAMED_VALUE_INT_DATA {
            time_boot_ms: u32_at(p, 0),
            value: u32_at(p, 4) as i32,
            name: array_of(u8s_at(p, 8, 10)),
        }
    }

    open spec fn spec_serialize(&self) -> Seq<u8> {
        le32(self.time_boot_ms) + le32(self.value as u32) + self.name@
    }

    fn parse(payload: &[u8]) -> NAMED_VALUE_INT_DATA {
        NAMED_VALUE_INT_DATA {
            time_boot_ms: get_u32(payload, 0),
            value: get_i32(payload, 4),
            name: get_u8s(payload, 8),
        }
    }

    fn serialize(&self) -> Vec<u8> {
        let mut wtr = Vec::new();
        put_u32(&mut wtr, self.time_boot_ms);
        assert(wtr@ =~= le32(self.time_boot_ms));
        put_i32(&mut wtr, self.value);
        put_u8s(&mut wtr, &self.name);
        wtr
    }

    proof fn lemma_roundtrip(&self) {
        let w = self.spec_serialize();
        let w0 = le32(self.time_boot_ms);
        let w1 = w0 + le32(self.value as u32);
        lemma_whole(w, le32(self.time_boot_ms));
        lemma_read_u8s(w, w1, self.name);
        lemma_read_i32(w, w0, self.value);
        lemma_read_u32(w, Seq::empty(), self.time_boot_ms);
    }
}

/// `STATUSTEXT`, message 253: 51 payload bytes.
#[allow(non_camel_case_types)]
#[derive(Clone, Copy, Debug, PartialEq, Eq)]
pub struct STATUSTEXT_DATA {
    pub severity: u8,
    pub text: [u8; 50],
}

impl Parsable for STATUSTEXT_DATA {
    open spec fn wire_len() -> nat {
        51
    }

    open spec fn spec_parse(p: Seq<u8>) -> STATUSTEXT_DATA {
        STATUSTEXT_DATA {
            severity: p[0],
            text: array_of(u8s_at(p, 1, 50)),
        }
    }

    open spec fn spec_serialize(&self) -> Seq<u8> {
        le8(self.severity) + self.text@
    }

    fn parse(payload: &[u8]) -> STATUSTEXT_DATA {
        STATUSTEXT_DATA {
            severity: get_u8(payload, 0),
            text: get_u8s(payload, 1),
        }
    }

    fn serialize(&self) -> Vec<u8> {
        let mut wtr = Vec::new();
        put_u8(&mut wtr, self.severity);
        assert(wtr@ =~= le8(self.severity));
        put_u8s(&mut wtr, &self.text);
        wtr
    }

    proof fn lemma_roundtrip(&self) {
        let w = self.spec_serialize();
        let w0 = le8(self.severity);
        lemma_whole(w, le8(self.severity));
        lemma_read_u8s(w, w0, self.text);
        lemma_read_u8(w, Seq::empty(), self.severity);
    }
}

/// `DEBUG`, message 254: 9 payload bytes.
#[allow(non_camel_case_types)]
#[derive(Clone, Copy, Debug, PartialEq, Eq)]
pub struct DEBUG_DATA {
    pub time_boot_ms: u32,
    pub value: Ieee32,
    pub ind: u8,
}

impl Parsable for DEBUG_DATA {
    open spec fn wire_len() -> nat {
        9
    }

    open spec fn spec_parse(p: Seq<u8>) -> DEBUG_DATA {
        DEBUG_DATA {
            time_boot_ms: u32_at(p, 0),
            value: u32_at(p, 4),
            ind: p[8],
        }
    }

    open spec fn spec_serialize(&self) -> Seq<u8> {
        le32(self.time_boot_ms) + le32(self.value) + le8(self.ind)
    }

    fn parse(payload: &[u8]) -> DEBUG_DATA {
        DEBUG_DATA {
            time_boot_ms: get_u32(payload, 0),
            value: get_u32(payload, 4),
            ind: get_u8(payload, 8),
        }
    }

    fn serialize(&self) -> Vec<u8> {
        let mut wtr = Vec::new();
        put_u32(&mut wtr, self.time_boot_ms);
        assert(wtr@ =~= le32(self.time_boot_ms));
        put_u32(&mut wtr, self.value);
        put_u8(&mut wtr, self.ind);
        wtr
    }

    proof fn lemma_roundtrip(&self) {
        let w = self.spec_serialize();
        let w0 = le32(self.time_boot_ms);
        let w1 = w0 + le32(self.value);
        lemma_whole(w, le32(self.time_boot_ms));
        lemma_read_u8(w, w1, self.ind);
        lemma_read_u32(w, w0, self.value);
        lemma_read_u32(w, Seq::empty(), self.time_boot_ms);
    }
}

} // verus!
