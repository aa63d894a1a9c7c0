use dronekit::mavlink::{
    DkMessage, Parsable, BATTERY_STATUS_DATA, GLOBAL_POSITION_INT_DATA, GPS_STATUS_DATA,
    HEARTBEAT_DATA, HIL_STATE_QUATERNION_DATA, MEMORY_VECT_DATA, PARAM_VALUE_DATA,
    SYSTEM_TIME_DATA, TERRAIN_DATA_DATA,
};

/// The extra byte of each message id; 0 where the dialect has no message.
const EXTRA_CRC: [u8; 256] = [
    50, 124, 137, 0, 237, 217, 104, 119, 0, 0, 0, 89, 0, 0, 0, 0,
    0, 0, 0, 0, 214, 159, 220, 168, 24, 23, 170, 144, 67, 115, 39, 246,
    185, 104, 237, 244, 222, 212, 9, 254, 230, 28, 28, 132, 221, 232, 11, 153,
    41, 39, 78, 0, 0, 0, 15, 3, 0, 0, 0, 0, 0, 153, 183, 51,
    59, 118, 148, 21, 0, 243, 124, 0, 0, 38, 20, 158, 152, 143, 0, 0,
    0, 106, 49, 22, 143, 140, 5, 150, 0, 231, 183, 63, 54, 0, 0, 0,
    0, 0, 0, 0, 175, 102, 158, 208, 56, 93, 138, 108, 32, 185, 84, 34,
    174, 124, 237, 4, 76, 128, 56, 116, 134, 237, 203, 250, 87, 203, 220, 25,
    226, 46, 29, 223, 85, 6, 229, 203, 1, 195, 109, 168, 181, 47, 72, 131,
    0, 0, 103, 154, 178, 200, 0, 0, 0, 0, 0, 0, 0, 0, 0, 0,
    0, 0, 0, 0, 0, 0, 0, 0, 0, 0, 0, 0, 0, 0, 0, 0,
    0, 0, 0, 0, 0, 0, 0, 0, 0, 0, 0, 0, 0, 0, 0, 0,
    0, 0, 0, 0, 0, 0, 0, 0, 0, 0, 0, 0, 0, 0, 0, 0,
    0, 0, 0, 0, 0, 0, 0, 0, 0, 0, 0, 0, 0, 0, 0, 0,
    0, 0, 0, 0, 0, 0, 0, 0, 0, 0, 0, 0, 0, 0, 0, 0,
    0, 90, 104, 85, 95, 130, 210, 0, 8, 204, 49, 170, 44, 83, 46, 0,
];

/// The payload length of each message id; -1 where the dialect has no
/// message.
const BODY_LEN: [i32; 256] = [
    9, 31, 12, -1, 14, 28, 3, 32, -1, -1, -1, 6, -1, -1, -1, -1,
    -1, -1, -1, -1, 20, 2, 25, 23, 30, 101, 22, 26, 16, 14, 28, 32,
    28, 28, 22, 22, 21, 6, 6, 37, 4, 4, 2, 2, 4, 2, 2, 3,
    13, 12, 37, -1, -1, -1, 27, 25, -1, -1, -1, -1, -1, 68, 26, 185,
    229, 42, 6, 4, -1, 11, 18, -1, -1, 37, 20, 35, 33, 3, -1, -1,
    -1, 22, 39, 37, 53, 51, 53, 51, -1, 28, 56, 42, 33, -1, -1, -1,
    -1, -1, -1, -1, 26, 32, 32, 20, 32, 62, 44, 64, 84, 9, 254, 16,
    12, 36, 44, 64, 22, 6, 14, 12, 97, 2, 2, 113, 35, 6, 79, 35,
    35, 22, 13, 255, 14, 18, 43, 8, 22, 14, 36, 43, 41, 32, 243, 14,
    -1, -1, 100, 36, 60, 30, -1, -1, -1, -1, -1, -1, -1, -1, -1, -1,
    -1, -1, -1, -1, -1, -1, -1, -1, -1, -1, -1, -1, -1, -1, -1, -1,
    -1, -1, -1, -1, -1, -1, -1, -1, -1, -1, -1, -1, -1, -1, -1, -1,
    -1, -1, -1, -1, -1, -1, -1, -1, -1, -1, -1, -1, -1, -1, -1, -1,
    -1, -1, -1, -1, -1, -1, -1, -1, -1, -1, -1, -1, -1, -1, -1, -1,
    -1, -1, -1, -1, -1, -1, -1, -1, -1, -1, -1, -1, -1, -1, -1, -1,
    -1, 32, 52, 53, 6, 2, 42, -1, 254, 36, 30, 18, 18, 51, 9, -1,
];

fn heartbeat() -> HEARTBEAT_DATA {
    HEARTBEAT_DATA {
        custom_mode: 0x0102_0304,
        mavtype: 6,
        autopilot: 8,
        base_mode: 129,
        system_status: 4,
        mavlink_version: 3,
    }
}

#[test]
fn extra_crc_of_heartbeat_and_statustext() {
    assert_eq!(DkMessage::extra_crc(0), 50);
    assert_eq!(DkMessage::extra_crc(253), 83);
}

#[test]
fn extra_crc_of_every_id() {
    for id in 0..=255u8 {
        assert_eq!(DkMessage::extra_crc(id), EXTRA_CRC[id as usize], "id {}", id);
    }
}

#[test]
fn extra_crc_of_unknown_id_is_zero() {
    assert_eq!(DkMessage::extra_crc(3), 0);
    assert_eq!(DkMessage::extra_crc(199), 0);
    assert_eq!(DkMessage::extra_crc(255), 0);
}

#[test]
fn heartbeat_wire_order_is_largest_first() {
    let bytes = heartbeat().serialize();
    assert_eq!(bytes, vec![0x04, 0x03, 0x02, 0x01, 6, 8, 129, 4, 3]);
}

#[test]
fn heartbeat_parse_reads_little_endian() {
    let body = HEARTBEAT_DATA::parse(&[0x04, 0x03, 0x02, 0x01, 6, 8, 129, 4, 3]);
    assert_eq!(body, heartbeat());
}

#[test]
fn parse_ignores_what_follows_the_body() {
    let body = HEARTBEAT_DATA::parse(&[0x04, 0x03, 0x02, 0x01, 6, 8, 129, 4, 3, 0xAA, 0xBB]);
    assert_eq!(body, heartbeat());
}

#[test]
fn system_time_has_the_wider_field_first() {
    let body = SYSTEM_TIME_DATA { time_unix_usec: 0x0807_0605_0403_0201, time_boot_ms: 0x0C0B_0A09 };
    let bytes = body.serialize();
    assert_eq!(bytes, vec![1, 2, 3, 4, 5, 6, 7, 8, 9, 10, 11, 12]);
    assert_eq!(SYSTEM_TIME_DATA::parse(&bytes), body);
}

#[test]
fn signed_fields_are_twos_complement() {
    let body = GLOBAL_POSITION_INT_DATA {
        time_boot_ms: 1,
        lat: -1,
        lon: i32::MIN,
        alt: 1000,
        relative_alt: -1000,
        vx: -2,
        vy: i16::MIN,
        vz: i16::MAX,
        hdg: 65535,
    };
    let bytes = body.serialize();
    assert_eq!(bytes.len(), 28);
    assert_eq!(&bytes[4..8], &[0xFF, 0xFF, 0xFF, 0xFF]);
    assert_eq!(&bytes[8..12], &[0x00, 0x00, 0x00, 0x80]);
    assert_eq!(&bytes[16..20], &[0x18, 0xFC, 0xFF, 0xFF]);
    assert_eq!(&bytes[20..22], &[0xFE, 0xFF]);
    assert_eq!(&bytes[22..24], &[0x00, 0x80]);
    assert_eq!(&bytes[24..26], &[0xFF, 0x7F]);
    assert_eq!(GLOBAL_POSITION_INT_DATA::parse(&bytes), body);
}

#[test]
fn param_value_round_trip() {
    let mut param_id = [0u8; 16];
    param_id[..13].copy_from_slice(b"FS_EKF_THRESH");
    let body = PARAM_VALUE_DATA {
        param_value: 30.0f32.to_bits(),
        param_count: 3,
        param_index: 1,
        param_id,
        param_type: 9,
    };
    let bytes = body.serialize();
    assert_eq!(bytes.len(), 25);
    assert_eq!(&bytes[0..4], &30.0f32.to_le_bytes());
    assert_eq!(&bytes[4..8], &[3, 0, 1, 0]);
    assert_eq!(&bytes[8..21], b"FS_EKF_THRESH");
    assert_eq!(bytes[24], 9);
    assert_eq!(PARAM_VALUE_DATA::parse(&bytes), body);
}

#[test]
fn byte_arrays_round_trip() {
    let mut body = GPS_STATUS_DATA {
        satellites_visible: 7,
        satellite_prn: [0; 20],
        satellite_used: [0; 20],
        satellite_elevation: [0; 20],
        satellite_azimuth: [0; 20],
        satellite_snr: [0; 20],
    };
    for i in 0..20 {
        body.satellite_prn[i] = i as u8;
        body.satellite_used[i] = (i % 2) as u8;
        body.satellite_elevation[i] = 90 - i as u8;
        body.satellite_azimuth[i] = 200 + i as u8;
        body.satellite_snr[i] = 255 - i as u8;
    }
    let bytes = body.serialize();
    assert_eq!(bytes.len(), 101);
    assert_eq!(bytes[0], 7);
    assert_eq!(bytes[1 + 19], 19);
    assert_eq!(bytes[100], 255 - 19);
    assert_eq!(GPS_STATUS_DATA::parse(&bytes), body);
}

#[test]
fn signed_byte_arrays_round_trip() {
    let mut value = [0i8; 32];
    for i in 0..32 {
        value[i] = (i as i8) - 16;
    }
    let body = MEMORY_VECT_DATA { address: 0xBEEF, ver: 1, mavtype: 2, value };
    let bytes = body.serialize();
    assert_eq!(bytes.len(), 36);
    assert_eq!(&bytes[0..2], &[0xEF, 0xBE]);
    assert_eq!(bytes[4], 0xF0);
    assert_eq!(MEMORY_VECT_DATA::parse(&bytes), body);
}

#[test]
fn wide_element_arrays_round_trip() {
    let mut voltages = [0u16; 10];
    for i in 0..10 {
        voltages[i] = 0x1000 + i as u16;
    }
    let battery = BATTERY_STATUS_DATA {
        current_consumed: -5,
        energy_consumed: 77,
        temperature: -300,
        voltages,
        current_battery: -1,
        id: 1,
        battery_function: 2,
        mavtype: 3,
        battery_remaining: -1,
    };
    let bytes = battery.serialize();
    assert_eq!(bytes.len(), 36);
    assert_eq!(&bytes[10..14], &[0x00, 0x10, 0x01, 0x10]);
    assert_eq!(BATTERY_STATUS_DATA::parse(&bytes), battery);

    let mut data = [0i16; 16];
    for i in 0..16 {
        data[i] = -(i as i16) * 100;
    }
    let terrain = TERRAIN_DATA_DATA { lat: 1, lon: -1, grid_spacing: 100, data, gridbit: 5 };
    let bytes = terrain.serialize();
    assert_eq!(bytes.len(), 43);
    assert_eq!(&bytes[12..14], &[0x9C, 0xFF]);
    assert_eq!(TERRAIN_DATA_DATA::parse(&bytes), terrain);

    let hil = HIL_STATE_QUATERNION_DATA {
        time_usec: u64::MAX,
        attitude_quaternion: [
            1.0f32.to_bits(),
            (-0.5f32).to_bits(),
            0.25f32.to_bits(),
            f32::NAN.to_bits(),
        ],
        rollspeed: 0.1f32.to_bits(),
        pitchspeed: 0,
        yawspeed: 0,
        lat: 1,
        lon: 2,
        alt: 3,
        vx: 4,
        vy: 5,
        vz: 6,
        ind_airspeed: 7,
        true_airspeed: 8,
        xacc: 9,
        yacc: 10,
        zacc: 11,
    };
    let bytes = hil.serialize();
    assert_eq!(bytes.len(), 64);
    assert_eq!(&bytes[8..12], &1.0f32.to_le_bytes());
    assert_eq!(&bytes[12..16], &(-0.5f32).to_le_bytes());
    assert_eq!(HIL_STATE_QUATERNION_DATA::parse(&bytes), hil);
}

#[test]
fn every_message_round_trips_under_its_id() {
    let mut payload = [0u8; 255];
    for i in 0..255 {
        payload[i] = (i as u8).wrapping_mul(37).wrapping_add(11);
    }
    let mut known = 0;
    for id in 0..=255u8 {
        match DkMessage::parse(id, &payload) {
            Some(msg) => {
                known += 1;
                assert_eq!(msg.message_id(), id);
                let bytes = msg.serialize();
                assert_eq!(bytes.len() as i32, BODY_LEN[id as usize], "id {}", id);
                assert_eq!(&bytes[..], &payload[..bytes.len()], "id {}", id);
                assert_eq!(DkMessage::parse(id, &bytes), Some(msg), "id {}", id);
            }
            None => assert_eq!(BODY_LEN[id as usize], -1, "id {}", id),
        }
    }
    assert_eq!(known, 127);
}

#[test]
fn unknown_id_parses_to_none() {
    assert_eq!(DkMessage::parse(199, &[0u8; 255]), None);
    assert_eq!(DkMessage::parse(3, &[0u8; 255]), None);
}

#[test]
fn short_payload_parses_to_none() {
    assert_eq!(DkMessage::parse(0, &[0u8; 8]), None);
    assert!(DkMessage::parse(0, &[0u8; 9]).is_some());
    for id in 0..=255u8 {
        let len = BODY_LEN[id as usize];
        if len > 0 {
            assert_eq!(DkMessage::parse(id, &vec![0u8; (len - 1) as usize]), None, "id {}", id);
            assert!(DkMessage::parse(id, &vec![0u8; len as usize]).is_some(), "id {}", id);
        }
    }
}

#[test]
fn message_dispatch_matches_the_body() {
    let msg = DkMessage::HEARTBEAT(heartbeat());
    assert_eq!(msg.message_id(), 0);
    assert_eq!(msg.serialize(), heartbeat().serialize());
    assert_eq!(DkMessage::parse(0, &msg.serialize()), Some(msg));
}
