use dronekit::connection::{
    parse_mavlink_string, DkHandler, DkHandlerMessage, DkHandlerRx, MavPacket, VehicleConnection,
};
use dronekit::framing::decode;
use dronekit::mavlink::{DkMessage, COMMAND_ACK_DATA, HEARTBEAT_DATA};

fn own_heartbeat() -> DkMessage {
    DkMessage::HEARTBEAT(HEARTBEAT_DATA {
        custom_mode: 0,
        mavtype: 6,
        autopilot: 8,
        base_mode: 0,
        system_status: 0,
        mavlink_version: 3,
    })
}

fn frame_of(seq: u8, msg: DkMessage) -> Vec<u8> {
    let mut conn = VehicleConnection::new();
    conn.msg_id = seq;
    match conn.send(msg) {
        DkHandlerMessage::TxMessage(bytes) => bytes,
        _ => panic!("a frame was expected"),
    }
}

fn messages(inbound: &[DkHandlerRx]) -> Vec<DkMessage> {
    let mut out = vec![];
    for item in inbound {
        match item {
            DkHandlerRx::RxMessage(msg) => out.push(*msg),
            DkHandlerRx::RxCork => panic!("no cork was expected"),
        }
    }
    out
}

#[test]
fn heartbeat_frame_bytes() {
    let bytes = frame_of(0, own_heartbeat());
    assert_eq!(
        bytes,
        vec![
            0xFE, 0x09, 0x00, 0xFF, 0x00, 0x00, 0x00, 0x00, 0x00, 0x00, 0x06, 0x08, 0x00, 0x00,
            0x03, 0xA1, 0xDF
        ]
    );
}

#[test]
fn heartbeat_frame_checksum_is_that_of_the_crate() {
    let bytes = frame_of(0, own_heartbeat());
    let mut covered = bytes[1..15].to_vec();
    covered.push(50);
    let crc = crc16::State::<crc16::MCRF4XX>::calculate(&covered);
    assert_eq!(bytes[15], (crc & 0xFF) as u8);
    assert_eq!(bytes[16], (crc >> 8) as u8);
}

#[test]
fn send_advances_the_sequence_number_and_wraps() {
    let mut conn = VehicleConnection::new();
    conn.msg_id = 254;
    let first = match conn.send(own_heartbeat()) {
        DkHandlerMessage::TxMessage(bytes) => bytes,
        _ => panic!("a frame was expected"),
    };
    assert_eq!(first[2], 254);
    assert_eq!(conn.msg_id, 255);
    let second = match conn.send(own_heartbeat()) {
        DkHandlerMessage::TxMessage(bytes) => bytes,
        _ => panic!("a frame was expected"),
    };
    assert_eq!(second[2], 255);
    assert_eq!(conn.msg_id, 0);
    assert_eq!(frame_of(1, own_heartbeat())[15..], [0x4B, 0xA1]);
}

#[test]
fn packet_new_reads_by_position() {
    let bytes = frame_of(7, own_heartbeat());
    let pkt = MavPacket::new(&bytes);
    assert_eq!(pkt.seq, 7);
    assert_eq!(pkt.system_id, 255);
    assert_eq!(pkt.component_id, 0);
    assert_eq!(pkt.message_id, 0);
    assert_eq!(pkt.data, vec![0, 0, 0, 0, 6, 8, 0, 0, 3]);
    assert_eq!(pkt.checksum, (bytes[15] as u16) | ((bytes[16] as u16) << 8));
    assert!(pkt.check_crc());
    assert_eq!(pkt.parse(), Some(own_heartbeat()));
}

#[test]
fn packet_encode_round_trips() {
    let mut pkt = MavPacket {
        seq: 9,
        system_id: 1,
        component_id: 2,
        message_id: 77,
        data: vec![0x90, 0x01, 0x00],
        checksum: 0x1234,
    };
    assert_eq!(pkt.encode_nocrc(), vec![0xFE, 3, 9, 1, 2, 77, 0x90, 0x01, 0x00]);
    assert_eq!(pkt.encode(), vec![0xFE, 3, 9, 1, 2, 77, 0x90, 0x01, 0x00, 0x34, 0x12]);
    assert!(!pkt.check_crc());
    pkt.update_crc();
    assert!(pkt.check_crc());
    assert_eq!(pkt.checksum, pkt.calc_crc());
    let mut covered = vec![3, 9, 1, 2, 77, 0x90, 0x01, 0x00];
    covered.push(DkMessage::extra_crc(77));
    assert_eq!(pkt.checksum, crc16::State::<crc16::MCRF4XX>::calculate(&covered));
    let again = MavPacket::new(&pkt.encode());
    assert_eq!(again.seq, pkt.seq);
    assert_eq!(again.system_id, pkt.system_id);
    assert_eq!(again.component_id, pkt.component_id);
    assert_eq!(again.message_id, pkt.message_id);
    assert_eq!(again.data, pkt.data);
    assert_eq!(again.checksum, pkt.checksum);
}

#[test]
fn checksum_depends_on_the_extra_byte_of_the_id() {
    let mut a = MavPacket {
        seq: 0,
        system_id: 1,
        component_id: 1,
        message_id: 199,
        data: vec![1, 2, 3],
        checksum: 0,
    };
    a.update_crc();
    let mut covered = vec![3, 0, 1, 1, 199, 1, 2, 3, 0];
    assert_eq!(a.checksum, crc16::State::<crc16::MCRF4XX>::calculate(&covered));
    covered.pop();
    assert_ne!(a.checksum, crc16::State::<crc16::MCRF4XX>::calculate(&covered));
}

#[test]
fn decode_of_encode_is_the_frame() {
    let bytes = frame_of(3, own_heartbeat());
    let (packets, consumed) = decode(&bytes);
    assert_eq!(consumed, bytes.len());
    assert_eq!(packets.len(), 1);
    assert_eq!(packets[0].encode(), bytes);
    assert_eq!(packets[0].parse(), Some(own_heartbeat()));
}

#[test]
fn decode_of_empty_payload_frame() {
    let mut pkt = MavPacket {
        seq: 1,
        system_id: 2,
        component_id: 3,
        message_id: 42,
        data: vec![],
        checksum: 0,
    };
    pkt.update_crc();
    let bytes = pkt.encode();
    assert_eq!(bytes.len(), 8);
    let (packets, consumed) = decode(&bytes);
    assert_eq!(consumed, 8);
    assert_eq!(packets.len(), 1);
    assert_eq!(packets[0].message_id, 42);
}

#[test]
fn decode_of_longest_payload_frame() {
    let mut pkt = MavPacket {
        seq: 1,
        system_id: 2,
        component_id: 3,
        message_id: 131,
        data: vec![0xFE; 255],
        checksum: 0,
    };
    pkt.update_crc();
    let bytes = pkt.encode();
    assert_eq!(bytes.len(), 263);
    let (packets, consumed) = decode(&bytes);
    assert_eq!(consumed, 263);
    assert_eq!(packets.len(), 1);
    assert_eq!(packets[0].data, vec![0xFE; 255]);
}

#[test]
fn decode_skips_noise_before_and_between_frames() {
    let f1 = frame_of(0, own_heartbeat());
    let f2 = frame_of(1, DkMessage::COMMAND_ACK(COMMAND_ACK_DATA { command: 400, result: 0 }));
    let mut stream = vec![0x00, 0x11, 0x22, 0xFD, 0xFF];
    stream.extend_from_slice(&f1);
    stream.extend_from_slice(&[0x01, 0x02, 0x03]);
    stream.extend_from_slice(&f2);
    let (packets, consumed) = decode(&stream);
    assert_eq!(consumed, stream.len());
    assert_eq!(packets.len(), 2);
    assert_eq!(packets[0].encode(), f1);
    assert_eq!(packets[1].encode(), f2);
}

#[test]
fn decode_passes_a_start_byte_whose_candidate_fails_the_checksum() {
    let f1 = frame_of(0, own_heartbeat());
    let mut stream = vec![0xFE, 0x00, 0x01, 0x02, 0x03, 0x04, 0x05, 0x06];
    stream.extend_from_slice(&f1);
    let (packets, consumed) = decode(&stream);
    assert_eq!(consumed, stream.len());
    assert_eq!(packets.len(), 1);
    assert_eq!(packets[0].encode(), f1);
}

#[test]
fn decode_waits_for_a_candidate_that_is_not_all_there() {
    let f1 = frame_of(0, own_heartbeat());
    let (packets, consumed) = decode(&f1[..16]);
    assert_eq!(packets.len(), 0);
    assert_eq!(consumed, 0);
    let (packets, consumed) = decode(&f1[..7]);
    assert_eq!(packets.len(), 0);
    assert_eq!(consumed, 0);
    let mut stream = vec![0x00, 0x01];
    stream.extend_from_slice(&f1[..10]);
    let (packets, consumed) = decode(&stream);
    assert_eq!(packets.len(), 0);
    assert_eq!(consumed, 2);
}

#[test]
fn decode_discards_noise_without_a_start_byte() {
    let (packets, consumed) = decode(&[0x00, 0x01, 0x02, 0x03]);
    assert_eq!(packets.len(), 0);
    assert_eq!(consumed, 4);
    let (packets, consumed) = decode(&[]);
    assert_eq!(packets.len(), 0);
    assert_eq!(consumed, 0);
}

#[test]
fn two_heartbeats_separated_by_start_bytes() {
    let f1 = frame_of(0, own_heartbeat());
    let f2 = frame_of(1, own_heartbeat());
    let mut stream = f1.clone();
    stream.extend_from_slice(&[0xFE, 0xFE, 0xFE]);
    stream.extend_from_slice(&f2);

    // Each of the three start bytes announces a payload of 254 bytes: the
    // decoder waits for the rest of that candidate.
    let mut handler = DkHandler::new();
    let first = handler.ready(&stream);
    assert_eq!(messages(&first.inbound), vec![own_heartbeat()]);
    assert_eq!(handler.buf.len(), 3 + f2.len());

    // Once the candidates are all there they fail the checksum, and the
    // second heartbeat is found behind them.
    let second = handler.ready(&[0u8; 300]);
    assert_eq!(messages(&second.inbound), vec![own_heartbeat()]);
    assert_eq!(handler.buf.len(), 0);
}

#[test]
fn a_flipped_bit_never_yields_the_frame() {
    let frame = frame_of(5, own_heartbeat());
    for byte in 0..frame.len() {
        for bit in 0..8 {
            let mut stream = frame.clone();
            stream[byte] ^= 1 << bit;
            let (packets, _) = decode(&stream);
            for pkt in &packets {
                assert_ne!(pkt.encode(), frame);
            }
            assert_eq!(packets.len(), 0, "byte {} bit {}", byte, bit);
        }
    }
}

#[test]
fn a_frame_fed_byte_by_byte_is_found_after_the_last_byte() {
    let frame = frame_of(0, own_heartbeat());
    let mut handler = DkHandler::new();
    for (i, byte) in frame.iter().enumerate() {
        let out = handler.ready(&[*byte]);
        if i + 1 < frame.len() {
            assert_eq!(out.inbound.len(), 0);
            assert_eq!(handler.buf.len(), i + 1);
        } else {
            assert_eq!(messages(&out.inbound), vec![own_heartbeat()]);
            assert_eq!(handler.buf.len(), 0);
        }
    }
}

#[test]
fn frames_fed_in_uneven_chunks_are_found_in_order() {
    let ack = DkMessage::COMMAND_ACK(COMMAND_ACK_DATA { command: 22, result: 0 });
    let mut stream = vec![0x42];
    stream.extend_from_slice(&frame_of(0, own_heartbeat()));
    stream.extend_from_slice(&frame_of(1, ack));
    stream.extend_from_slice(&frame_of(2, own_heartbeat()));
    for cut in [1usize, 2, 3, 5, 7, 11, 13, 40] {
        let mut handler = DkHandler::new();
        let mut found = vec![];
        for chunk in stream.chunks(cut) {
            found.extend(messages(&handler.ready(chunk).inbound));
        }
        assert_eq!(found, vec![own_heartbeat(), ack, own_heartbeat()], "cut {}", cut);
        assert_eq!(handler.buf.len(), 0);
    }
}

#[test]
fn a_frame_of_an_unknown_message_is_dropped() {
    let mut pkt = MavPacket {
        seq: 0,
        system_id: 1,
        component_id: 1,
        message_id: 199,
        data: vec![1, 2, 3],
        checksum: 0,
    };
    pkt.update_crc();
    assert!(pkt.check_crc());
    assert_eq!(pkt.parse(), None);
    let mut handler = DkHandler::new();
    let out = handler.ready(&pkt.encode());
    assert_eq!(out.inbound.len(), 0);
    assert_eq!(out.fired.len(), 0);
    assert_eq!(handler.buf.len(), 0);
}

#[test]
fn a_frame_with_a_short_payload_is_dropped() {
    let mut pkt = MavPacket {
        seq: 0,
        system_id: 1,
        component_id: 1,
        message_id: 0,
        data: vec![0, 0, 0, 0],
        checksum: 0,
    };
    pkt.update_crc();
    let mut handler = DkHandler::new();
    let out = handler.ready(&pkt.encode());
    assert_eq!(out.inbound.len(), 0);
    assert_eq!(handler.buf.len(), 0);
}

#[test]
fn mavlink_string_stops_at_the_first_zero() {
    assert_eq!(parse_mavlink_string(b"FS_EKF_THRESH\0\0\0"), "FS_EKF_THRESH");
    assert_eq!(parse_mavlink_string(b"ab\0cd"), "ab");
    assert_eq!(parse_mavlink_string(b"\0abc"), "");
    assert_eq!(parse_mavlink_string(b""), "");
    assert_eq!(parse_mavlink_string(b"SIXTEEN_BYTES_OK"), "SIXTEEN_BYTES_OK");
    assert_eq!(parse_mavlink_string(&[0xE9, 0x41, 0]), "\u{e9}A");
}
