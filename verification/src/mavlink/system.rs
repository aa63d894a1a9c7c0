//! Liveness, status, time and operator control (messages 0 to 11).

use crate::mavlink::Parsable;
use crate::wire::{
    array_of, get_i16, get_i8, get_u16, get_u32, get_u64, get_u8, get_u8s, le16, le32, le64,
    le8, lemma_read_i16, lemma_read_i8, lemma_read_u16, lemma_read_u32, lemma_read_u64,
    lemma_read_u8, lemma_read_u8s, lemma_whole, put_i16, put_i8, put_u16, put_u32, put_u64,
    put_u8, put_u8s, u16_at, u32_at, u64_at, u8s_at,
};
use vstd::prelude::*;

verus! {

/// `HEARTBEAT`, message 0: 9 payload bytes.
#[allow(non_camel_case_types)]
#[derive(Clone, Copy, Debug, PartialEq, Eq)]
pub struct HEARTBEAT_DATA {
    pub custom_mode: u32,
    pub mavtype: u8,
    pub autopilot: u8,
    pub base_mode: u8,
    pub system_status: u8,
    pub mavlink_version: u8,
}

impl Parsable for HEARTBEAT_DATA {
    open spec fn wire_len() -> nat {
        9
    }

    open spec fn spec_parse(p: Seq<u8>) -> HEARTBEAT_DATA {
        HEARTBEAT_DATA {
            custom_mode: u32_at(p, 0),
            mavtype: p[4],
            autopilot: p[5],
            base_mode: p[6],
            system_status: p[7],
            mavlink_version: p[8],
        }
    }

    open spec fn spec_serialize(&self) -> Seq<u8> {
        le32(self.custom_mode) + le8(self.mavtype) + le8(self.autopilot) + le8(self.base_mode)
            + le8(self.system_status) + le8(self.mavlink_version)
    }

    fn parse(payload: &[u8]) -> HEARTBEAT_DATA {
        HEARTBEAT_DATA {
            custom_mode: get_u32(payload, 0),
            mavtype: get_u8(payload, 4),
            autopilot: get_u8(payload, 5),
            base_mode: get_u8(payload, 6),
            system_status: get_u8(payload, 7),
            mavlink_version: get_u8(payload, 8),
        }
    }

    fn serialize(&self) -> Vec<u8> {
        let mut wtr = Vec::new();
        put_u32(&mut wtr, self.custom_mode);
        assert(wtr@ =~= le32(self.custom_mode));
        put_u8(&mut wtr, self.mavtype);
        put_u8(&mut wtr, self.autopilot);
        put_u8(&mut wtr, self.base_mode);
        put_u8(&mut wtr, self.system_status);
        put_u8(&mut wtr, self.mavlink_version);
        wtr
    }

    proof fn lemma_roundtrip(&self) {
        let w = self.spec_serialize();
        let w0 = le32(self.custom_mode);
        let w1 = w0 + le8(self.mavtype);
        let w2 = w1 + le8(self.autopilot);
        let w3 = w2 + le8(self.base_mode);
        let w4 = w3 + le8(self.system_status);
        lemma_whole(w, le32(self.custom_mode));
        lemma_read_u8(w, w4, self.mavlink_version);
        lemma_read_u8(w, w3, self.system_status);
        lemma_read_u8(w, w2, self.base_mode);
        lemma_read_u8(w, w1, self.autopilot);
        lemma_read_u8(w, w0, self.mavtype);
        lemma_read_u32(w, Seq::empty(), self.custom_mode);
    }
}

/// `SYS_STATUS`, message 1: 31 payload bytes.
#[allow(non_camel_case_types)]
#[derive(Clone, Copy, Debug, PartialEq, Eq)]
pub struct SYS_STATUS_DATA {
    pub onboard_control_sensors_present: u32,
    pub onboard_control_sensors_enabled: u32,
    pub onboard_control_sensors_health: u32,
    pub load: u16,
    pub voltage_battery: u16,
    pub current_battery: i16,
    pub drop_rate_comm: u16,
    pub errors_comm: u16,
    pub errors_count1: u16,
    pub errors_count2: u16,
    pub errors_count3: u16,
    pub errors_count4: u16,
    pub battery_remaining: i8,
}

impl Parsable for SYS_STATUS_DATA {
    open spec fn wire_len() -> nat {
        31
    }

    open spec fn spec_parse(p: Seq<u8>) -> SYS_STATUS_DATA {
        SYS_STATUS_DATA {
            onboard_control_sensors_present: u32_at(p, 0),
            onboard_control_sensors_enabled: u32_at(p, 4),
            onboard_control_sensors_health: u32_at(p, 8),
            load: u16_at(p, 12),
            voltage_battery: u16_at(p, 14),
            current_battery: u16_at(p, 16) as i16,
            drop_rate_comm: u16_at(p, 18),
            errors_comm: u16_at(p, 20),
            errors_count1: u16_at(p, 22),
            errors_count2: u16_at(p, 24),
            errors_count3: u16_at(p, 26),
            errors_count4: u16_at(p, 28),
            battery_remaining: p[30] as i8,
        }
    }

    open spec fn spec_serialize(&self) -> Seq<u8> {
        le32(self.onboard_control_sensors_present) + le32(self.onboard_control_sensors_enabled)
            + le32(self.onboard_control_sensors_health) + le16(self.load)
            + le16(self.voltage_battery) + le16(self.current_battery as u16)
            + le16(self.drop_rate_comm) + le16(self.errors_comm) + le16(self.errors_count1)
            + le16(self.errors_count2) + le16(self.errors_count3) + le16(self.errors_count4)
            + le8(self.battery_remaining as u8)
    }

    fn parse(payload: &[u8]) -> SYS_STATUS_DATA {
        SYS_STATUS_DATA {
            onboard_control_sensors_present: get_u32(payload, 0),
            onboard_control_sensors_enabled: get_u32(payload, 4),
            onboard_control_sensors_health: get_u32(payload, 8),
            load: get_u16(payload, 12),
            voltage_battery: get_u16(payload, 14),
            current_battery: get_i16(payload, 16),
            drop_rate_comm: get_u16(payload, 18),
            errors_comm: get_u16(payload, 20),
            errors_count1: get_u16(payload, 22),
            errors_count2: get_u16(payload, 24),
            errors_count3: get_u16(payload, 26),
            errors_count4: get_u16(payload, 28),
            battery_remaining: get_i8(payload, 30),
        }
    }

    fn serialize(&self) -> Vec<u8> {
        let mut wtr = Vec::new();
        put_u32(&mut wtr, self.onboard_control_sensors_present);
        assert(wtr@ =~= le32(self.onboard_control_sensors_present));
        put_u32(&mut wtr, self.onboard_control_sensors_enabled);
        put_u32(&mut wtr, self.onboard_control_sensors_health);
        put_u16(&mut wtr, self.load);
        put_u16(&mut wtr, self.voltage_battery);
        put_i16(&mut wtr, self.current_battery);
        put_u16(&mut wtr, self.drop_rate_comm);
        put_u16(&mut wtr, self.errors_comm);
        put_u16(&mut wtr, self.errors_count1);
        put_u16(&mut wtr, self.errors_count2);
        put_u16(&mut wtr, self.errors_count3);
        put_u16(&mut wtr, self.errors_count4);
        put_i8(&mut wtr, self.battery_remaining);
        wtr
    }

    proof fn lemma_roundtrip(&self) {
        let w = self.spec_serialize();
        let w0 = le32(self.onboard_control_sensors_present);
        let w1 = w0 + le32(self.onboard_control_sensors_enabled);
        let w2 = w1 + le32(self.onboard_control_sensors_health);
        let w3 = w2 + le16(self.load);
        let w4 = w3 + le16(self.voltage_battery);
        let w5 = w4 + le16(self.current_battery as u16);
        let w6 = w5 + le16(self.drop_rate_comm);
        let w7 = w6 + le16(self.errors_comm);
        let w8 = w7 + le16(self.errors_count1);
        let w9 = w8 + le16(self.errors_count2);
        let w10 = w9 + le16(self.errors_count3);
        let w11 = w10 + le16(self.errors_count4);
        lemma_whole(w, le32(self.onboard_control_sensors_present));
        lemma_read_i8(w, w11, self.battery_remaining);
        lemma_read_u16(w, w10, self.errors_count4);
        lemma_read_u16(w, w9, self.errors_count3);
        lemma_read_u16(w, w8, self.errors_count2);
        lemma_read_u16(w, w7, self.errors_count1);
        lemma_read_u16(w, w6, self.errors_comm);
        lemma_read_u16(w, w5, self.drop_rate_comm);
        lemma_read_i16(w, w4, self.current_battery);
        lemma_read_u16(w, w3, self.voltage_battery);
        lemma_read_u16(w, w2, self.load);
        lemma_read_u32(w, w1, self.onboard_control_sensors_health);
        lemma_read_u32(w, w0, self.onboard_control_sensors_enabled);
        lemma_read_u32(w, Seq::empty(), self.onboard_control_sensors_present);
    }
}

/// `SYSTEM_TIME`, message 2: 12 payload bytes.
#[allow(non_camel_case_types)]
#[derive(Clone, Copy, Debug, PartialEq, Eq)]
pub struct SYSTEM_TIME_DATA {
    pub time_unix_usec: u64,
    pub time_boot_ms: u32,
}

impl Parsable for SYSTEM_TIME_DATA {
    open spec fn wire_len() -> nat {
        12
    }

    open spec fn spec_parse(p: Seq<u8>) -> SYSTEM_TIME_DATA {
        SYSTEM_TIME_DATA {
            time_unix_usec: u64_at(p, 0),
            time_boot_ms: u32_at(p, 8),
        }
    }

    open spec fn spec_serialize(&self) -> Seq<u8> {
        le64(self.time_unix_usec) + le32(self.time_boot_ms)
    }

    fn parse(payload: &[u8]) -> SYSTEM_TIME_DATA {
        SYSTEM_TIME_DATA {
            time_unix_usec: get_u64(payload, 0),
            time_boot_ms: get_u32(payload, 8),
        }
    }

    fn serialize(&self) -> Vec<u8> {
        let mut wtr = Vec::new();
        put_u64(&mut wtr, self.time_unix_usec);
        assert(wtr@ =~= le64(self.time_unix_usec));
        put_u32(&mut wtr, self.time_boot_ms);
        wtr
    }

    proof fn lemma_roundtrip(&self) {
        let w = self.spec_serialize();
        let w0 = le64(self.time_unix_usec);
        lemma_whole(w, le64(self.time_unix_usec));
        lemma_read_u32(w, w0, self.time_boot_ms);
        lemma_read_u64(w, Seq::empty(), self.time_unix_usec);
    }
}

/// `PING`, message 4: 14 payload bytes.
#[allow(non_camel_case_types)]
#[derive(Clone, Copy, Debug, PartialEq, Eq)]
pub struct PING_DATA {
    pub time_usec: u64,
    pub seq: u32,
    pub target_system: u8,
    pub target_component: u8,
}

impl Parsable for PING_DATA {
    open spec fn wire_len() -> nat {
        14
    }

    open spec fn spec_parse(p: Seq<u8>) -> PING_DATA {
        PING_DATA {
            time_usec: u64_at(p, 0),
            seq: u32_at(p, 8),
            target_system: p[12],
            target_component: p[13],
        }
    }

    open spec fn spec_serialize(&self) -> Seq<u8> {
        le64(self.time_usec) + le32(self.seq) + le8(self.target_system)
            + le8(self.target_component)
    }

    fn parse(payload: &[u8]) -> PING_DATA {
        PING_DATA {
            time_usec: get_u64(payload, 0),
            seq: get_u32(payload, 8),
            target_system: get_u8(payload, 12),
            target_component: get_u8(payload, 13),
        }
    }

    fn serialize(&self) -> Vec<u8> {
        let mut wtr = Vec::new();
        put_u64(&mut wtr, self.time_usec);
        assert(wtr@ =~= le64(self.time_usec));
        put_u32(&mut wtr, self.seq);
        put_u8(&mut wtr, self.target_system);
        put_u8(&mut wtr, self.target_component);
        wtr
    }

    proof fn lemma_roundtrip(&self) {
        let w = self.spec_serialize();
        let w0 = le64(self.time_usec);
        let w1 = w0 + le32(self.seq);
        let w2 = w1 + le8(self.target_system);
        lemma_whole(w, le64(self.time_usec));
        lemma_read_u8(w, w2, self.target_component);
        lemma_read_u8(w, w1, self.target_system);
        lemma_read_u32(w, w0, self.seq);
        lemma_read_u64(w, Seq::empty(), self.time_usec);
    }
}

/// `CHANGE_OPERATOR_CONTROL`, message 5: 28 payload bytes.
#[allow(non_camel_case_types)]
#[derive(Clone, Copy, Debug, PartialEq, Eq)]
pub struct CHANGE_OPERATOR_CONTROL_DATA {
    pub target_system: u8,
    pub control_request: u8,
    pub version: u8,
    pub passkey: [u8; 25],
}

impl Parsable for CHANGE_OPERATOR_CONTROL_DATA {
    open spec fn wire_len() -> nat {
        28
    }

    open spec fn spec_parse(p: Seq<u8>) -> CHANGE_OPERATOR_CONTROL_DATA {
        CHANGE_OPERATOR_CONTROL_DATA {
            target_system: p[0],
            control_request: p[1],
            version: p[2],
            passkey: array_of(u8s_at(p, 3, 25)),
        }
    }

    open spec fn spec_serialize(&self) -> Seq<u8> {
        le8(self.target_system) + le8(self.control_request) + le8(self.version) + self.passkey@
    }

    fn parse(payload: &[u8]) -> CHANGE_OPERATOR_CONTROL_DATA {
        CHANGE_OPERATOR_CONTROL_DATA {
            target_system: get_u8(payload, 0),
            control_request: get_u8(payload, 1),
            version: get_u8(payload, 2),
            passkey: get_u8s(payload, 3),
        }
    }

    fn serialize(&self) -> Vec<u8> {
        let mut wtr = Vec::new();
        put_u8(&mut wtr, self.target_system);
        assert(wtr@ =~= le8(self.target_system));
        put_u8(&mut wtr, self.control_request);
        put_u8(&mut wtr, self.version);
        put_u8s(&mut wtr, &self.passkey);
        wtr
    }

    proof fn lemma_roundtrip(&self) {
        let w = self.spec_serialize();
        let w0 = le8(self.target_system);
        let w1 = w0 + le8(self.control_request);
        let w2 = w1 + le8(self.version);
        lemma_whole(w, le8(self.target_system));
        lemma_read_u8s(w, w2, self.passkey);
        lemma_read_u8(w, w1, self.version);
        lemma_read_u8(w, w0, self.control_request);
        lemma_read_u8(w, Seq::empty(), self.target_system);
    }
}

/// `CHANGE_OPERATOR_CONTROL_ACK`, message 6: 3 payload bytes.
#[allow(non_camel_case_types)]
#[derive(Clone, Copy, Debug, PartialEq, Eq)]
pub struct CHANGE_OPERATOR_CONTROL_ACK_DATA {
    pub gcs_system_id: u8,
    pub control_request: u8,
    pub ack: u8,
}

impl Parsable for CHANGE_OPERATOR_CONTROL_ACK_DATA {
    open spec fn wire_len() -> nat {
        3
    }

    open spec fn spec_parse(p: Seq<u8>) -> CHANGE_OPERATOR_CONTROL_ACK_DATA {
        CHANGE_OPERATOR_CONTROL_ACK_DATA {
            gcs_system_id: p[0],
            control_request: p[1],
            ack: p[2],
        }
    }

    open spec fn spec_serialize(&self) -> Seq<u8> {
        le8(self.gcs_system_id) + le8(self.control_request) + le8(self.ack)
    }

    fn parse(payload: &[u8]) -> CHANGE_OPERATOR_CONTROL_ACK_DATA {
        CHANGE_OPERATOR_CONTROL_ACK_DATA {
            gcs_system_id: get_u8(payload, 0),
            control_request: get_u8(payload, 1),
            ack: get_u8(payload, 2),
        }
    }

    fn serialize(&self) -> Vec<u8> {
        let mut wtr = Vec::new();
        put_u8(&mut wtr, self.gcs_system_id);
        assert(wtr@ =~= le8(self.gcs_system_id));
        put_u8(&mut wtr, self.control_request);
        put_u8(&mut wtr, self.ack);
        wtr
    }

    proof fn lemma_roundtrip(&self) {
        let w = self.spec_serialize();
        let w0 = le8(self.gcs_system_id);
        let w1 = w0 + le8(self.control_request);
        lemma_whole(w, le8(self.gcs_system_id));
        lemma_read_u8(w, w1, self.ack);
        lemma_read_u8(w, w0, self.control_request);
        lemma_read_u8(w, Seq::empty(), self.gcs_system_id);
    }
}

/// `AUTH_KEY`, message 7: 32 payload bytes.
#[allow(non_camel_case_types)]
#[derive(Clone, Copy, Debug, PartialEq, Eq)]
pub struct AUTH_KEY_DATA {
    pub key: [u8; 32],
}

impl Parsable for AUTH_KEY_DATA {
    open spec fn wire_len() -> nat {
        32
    }

    open spec fn spec_parse(p: Seq<u8>) -> AUTH_KEY_DATA {
        AUTH_KEY_DATA {
            key: array_of(u8s_at(p, 0, 32)),
        }
    }

    open spec fn spec_serialize(&self) -> Seq<u8> {
        self.key@
    }

    fn parse(payload: &[u8]) -> AUTH_KEY_DATA {
        AUTH_KEY_DATA {
            key: get_u8s(payload, 0),
        }
    }

    fn serialize(&self) -> Vec<u8> {
        let mut wtr = Vec::new();
        put_u8s(&mut wtr, &self.key);
        assert(wtr@ =~= self.key@);
        wtr
    }

    proof fn lemma_roundtrip(&self) {
        let w = self.spec_serialize();
        lemma_whole(w, self.key@);
        lemma_read_u8s(w, Seq::empty(), self.key);
    }
}

/// `SET_MODE`, message 11: 6 payload bytes.
#[allow(non_camel_case_types)]
#[derive(Clone, Copy, Debug, PartialEq, Eq)]
pub struct SET_MODE_DATA {
    pub custom_mode: u32,
    pub target_system: u8,
    pub base_mode: u8,
}

impl Parsable for SET_MODE_DATA {
    open spec fn wire_len() -> nat {
        6
    }

    open spec fn spec_parse(p: Seq<u8>) -> SET_MODE_DATA {
        SET_MODE_DATA {
            custom_mode: u32_at(p, 0),
            target_system: p[4],
            base_mode: p[5],
        }
    }

    open spec fn spec_serialize(&self) -> Seq<u8> {
        le32(self.custom_mode) + le8(self.target_system) + le8(self.base_mode)
    }

    fn parse(payload: &[u8]) -> SET_MODE_DATA {
        SET_MODE_DATA {
            custom_mode: get_u32(payload, 0),
            target_system: get_u8(payload, 4),
            base_mode: get_u8(payload, 5),
        }
    }

    fn serialize(&self) -> Vec<u8> {
        let mut wtr = Vec::new();
        put_u32(&mut wtr, self.custom_mode);
        assert(wtr@ =~= le32(self.custom_mode));
        put_u8(&mut wtr, self.target_system);
        put_u8(&mut wtr, self.base_mode);
        wtr
    }

    proof fn lemma_roundtrip(&self) {
        let w = self.spec_serialize();
        let w0 = le32(self.custom_mode);
        let w1 = w0 + le8(self.target_system);
        lemma_whole(w, le32(self.custom_mode));
        lemma_read_u8(w, w1, self.base_mode);
        lemma_read_u8(w, w0, self.target_system);
        lemma_read_u32(w, Seq::empty(), self.custom_mode);
    }
}

} // verus!
