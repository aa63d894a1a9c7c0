use dronekit::connection::{DkHandler, DkHandlerMessage, DkHandlerRx, MavPacket, VehicleConnection};
use dronekit::mavlink::{
    DkMessage, COMMAND_ACK_DATA, GLOBAL_POSITION_INT_DATA, HEARTBEAT_DATA, LOCAL_POSITION_NED_DATA,
    PARAM_VALUE_DATA, STATUSTEXT_DATA,
};
use dronekit::vehicle::{
    InitStep, LocationGlobal, LocationGlobalRelative, LocationLocal, Parameters, Vehicle,
    VehicleMode,
};
use dronekit::watcher::Predicate;

fn vehicle_heartbeat(base_mode: u8, custom_mode: u32, system_status: u8) -> DkMessage {
    DkMessage::HEARTBEAT(HEARTBEAT_DATA {
        custom_mode,
        mavtype: 2,
        autopilot: 3,
        base_mode,
        system_status,
        mavlink_version: 3,
    })
}

fn param_value(name: &str, value: f32, count: u16, index: u16) -> PARAM_VALUE_DATA {
    let mut param_id = [0u8; 16];
    param_id[..name.len()].copy_from_slice(name.as_bytes());
    PARAM_VALUE_DATA {
        param_value: value.to_bits(),
        param_count: count,
        param_index: index,
        param_id,
        param_type: 9,
    }
}

/// The message that a command for the reactor frames.
fn sent(command: &DkHandlerMessage) -> (u8, DkMessage) {
    match command {
        DkHandlerMessage::TxMessage(bytes) => {
            let pkt = MavPacket::new(bytes);
            assert!(pkt.check_crc());
            assert_eq!(pkt.system_id, 255);
            assert_eq!(pkt.component_id, 0);
            assert_eq!(bytes[0], 0xFE);
            assert_eq!(bytes[1] as usize, pkt.data.len());
            (pkt.seq, pkt.parse().expect("a message of the dialect"))
        }
        _ => panic!("a frame was expected"),
    }
}

fn own_heartbeat() -> DkMessage {
    DkMessage::HEARTBEAT(HEARTBEAT_DATA {
        custom_mode: 0,
        mavtype: 6,
        autopilot: 8,
        base_mode: 0,
        system_status: 0,
        mavlink_version: 3,
    })
}

#[test]
fn new_table_is_empty() {
    let table = Parameters::new();
    assert_eq!(table.available(), 0);
    assert_eq!(table.remaining(), 0);
    assert_eq!(table.get("ANY"), None);
    let mut conn = VehicleConnection::new();
    assert!(table.complete(&mut conn).is_some());
}

#[test]
fn table_is_complete_after_every_index_in_any_order() {
    let mut table = Parameters::new();
    let mut conn = VehicleConnection::new();
    let order = [4u16, 0, 3, 1, 1, 2];
    for (k, index) in order.iter().enumerate() {
        assert!(table.complete(&mut conn).is_some());
        table.resize(5);
        table.assign(*index, &format!("P{}", index), *index as u32);
        if k + 1 < order.len() {
            assert!(table.complete(&mut conn).is_some());
        }
    }
    assert!(table.complete(&mut conn).is_none());
    assert_eq!(table.available(), 5);
    assert_eq!(table.get("P3"), Some(3));
}

#[test]
fn table_of_three_is_complete_after_the_third_index() {
    let mut vehicle = Vehicle::new(VehicleConnection::new());
    let mut complete = vec![];
    for (name, index) in [("B", 1u16), ("C", 2), ("A", 0)] {
        vehicle.on_message(DkMessage::PARAM_VALUE(param_value(name, 1.5, 3, index)));
        complete.push(vehicle.parameters.complete(&mut vehicle.connection).is_none());
    }
    assert_eq!(complete, vec![false, false, true]);
    assert_eq!(vehicle.parameters.available(), 3);
    assert_eq!(vehicle.parameters.get("A"), Some(1.5f32.to_bits()));
}

#[test]
fn another_count_resets_the_table() {
    let mut table = Parameters::new();
    let mut conn = VehicleConnection::new();
    table.resize(2);
    table.assign(0, "A", 1);
    table.assign(1, "B", 2);
    assert!(table.complete(&mut conn).is_none());
    assert_eq!(table.available(), 2);

    table.resize(3);
    assert_eq!(table.available(), 0);
    assert_eq!(table.get("A"), None);
    table.assign(1, "B", 2);
    assert!(table.complete(&mut conn).is_some());
    table.resize(3);
    table.assign(2, "C", 3);
    assert!(table.complete(&mut conn).is_some());
    assert_eq!(table.available(), 2);
    table.resize(3);
    table.assign(0, "A", 1);
    assert!(table.complete(&mut conn).is_none());
    assert_eq!(table.available(), 3);
}

#[test]
fn a_table_of_one_is_complete_at_once() {
    let mut table = Parameters::new();
    let mut conn = VehicleConnection::new();
    table.resize(1);
    table.assign(0, "ONLY", 7);
    assert!(table.complete(&mut conn).is_none());
}

#[test]
fn same_count_keeps_the_table() {
    let mut table = Parameters::new();
    table.resize(2);
    table.assign(0, "A", 1);
    table.resize(2);
    assert_eq!(table.available(), 1);
    assert_eq!(table.get("A"), Some(1));
}

#[test]
fn unsolicited_value_updates_the_name_only() {
    let mut table = Parameters::new();
    table.resize(2);
    table.assign(65535, "A", 1);
    assert_eq!(table.get("A"), Some(1));
    assert_eq!(table.available(), 0);
    table.assign(2, "B", 2);
    assert_eq!(table.get("B"), Some(2));
    assert_eq!(table.available(), 0);
    table.assign(1, "A", 5);
    assert_eq!(table.get("A"), Some(5));
    assert_eq!(table.available(), 1);
}

#[test]
fn a_later_value_replaces_the_earlier() {
    let mut table = Parameters::new();
    table.resize(3);
    table.assign(0, "A", 1);
    table.assign(1, "B", 2);
    table.assign(0, "A", 3);
    table.assign(2, "B", 4);
    assert_eq!(table.get("A"), Some(3));
    assert_eq!(table.get("B"), Some(4));
    assert_eq!(table.get("C"), None);
    assert_eq!(table.available(), 3);
    assert_eq!(table.remaining(), 3);
}

#[test]
fn complete_hands_the_watcher_what_was_observed() {
    let mut table = Parameters::new();
    let mut conn = VehicleConnection::new();
    conn.next_handle = 11;
    table.resize(3);
    table.assign(1, "B", 2);
    let mut watcher = match table.complete(&mut conn) {
        Some(DkHandlerMessage::TxWatcher(w)) => w,
        _ => panic!("a watcher was expected"),
    };
    assert_eq!(watcher.handle, 11);
    assert_eq!(conn.next_handle, 12);
    match &watcher.predicate {
        Predicate::ParamsComplete { missing } => {
            assert_eq!(missing.len(), 3);
            assert_eq!(missing.get(0), Some(false));
            assert_eq!(missing.get(1), Some(true));
            assert_eq!(missing.get(2), Some(false));
        }
        _ => panic!("a watcher for the table was expected"),
    }
    assert!(!watcher.predicate.offer(&DkMessage::PARAM_VALUE(param_value("A", 0.0, 3, 0))));
    assert!(watcher.predicate.offer(&DkMessage::PARAM_VALUE(param_value("C", 0.0, 3, 2))));
}

#[test]
fn set_registers_the_echo_watcher_then_sends_param_set() {
    let mut table = Parameters::new();
    let mut conn = VehicleConnection::new();
    conn.msg_id = 9;
    conn.next_handle = 5;
    let out = table.set(&mut conn, "FS_EKF_THRESH", 30.0f32.to_bits());
    assert_eq!(out.len(), 2);
    match &out[0] {
        DkHandlerMessage::TxWatcher(w) => {
            assert_eq!(w.handle, 5);
            match &w.predicate {
                Predicate::ParamEcho { name, value } => {
                    assert_eq!(name, "FS_EKF_THRESH");
                    assert_eq!(*value, 30.0f32.to_bits());
                }
                _ => panic!("an echo watcher was expected"),
            }
        }
        _ => panic!("a watcher was expected"),
    }
    let (seq, msg) = sent(&out[1]);
    assert_eq!(seq, 9);
    match msg {
        DkMessage::PARAM_SET(data) => {
            assert_eq!(data.param_value, 30.0f32.to_bits());
            assert_eq!(&data.param_id, b"FS_EKF_THRESH\0\0\0");
            assert_eq!(data.target_system, 0);
            assert_eq!(data.target_component, 0);
            assert_eq!(data.param_type, 0);
        }
        _ => panic!("a PARAM_SET was expected"),
    }
    assert_eq!(conn.msg_id, 10);
    assert_eq!(conn.next_handle, 6);
}

#[test]
fn set_cuts_a_long_name_at_sixteen_bytes() {
    let mut table = Parameters::new();
    let mut conn = VehicleConnection::new();
    let out = table.set(&mut conn, "A_NAME_OF_MORE_THAN_SIXTEEN", 0);
    match sent(&out[1]).1 {
        DkMessage::PARAM_SET(data) => assert_eq!(&data.param_id, b"A_NAME_OF_MORE_T"),
        _ => panic!("a PARAM_SET was expected"),
    }
}

#[test]
fn set_then_echo_resolves_through_the_reactor() {
    let mut table = Parameters::new();
    let mut conn = VehicleConnection::new();
    let mut handler = DkHandler::new();
    for command in table.set(&mut conn, "FS_EKF_THRESH", 30.0f32.to_bits()) {
        handler.notify(command);
    }
    assert_eq!(handler.watchers.len(), 1);
    let mut vehicle_side = VehicleConnection::new();
    let wrong = vehicle_side.send(DkMessage::PARAM_VALUE(param_value("FS_EKF_THRESH", 25.0, 9, 4)));
    let right = vehicle_side.send(DkMessage::PARAM_VALUE(param_value("FS_EKF_THRESH", 30.0, 9, 4)));
    let bytes = |m: DkHandlerMessage| match m {
        DkHandlerMessage::TxMessage(b) => b,
        _ => panic!("a frame was expected"),
    };
    assert_eq!(handler.ready(&bytes(wrong)).fired, Vec::<u64>::new());
    assert_eq!(handler.ready(&bytes(right)).fired, vec![0]);
}

#[test]
fn heartbeat_is_answered_and_remembered() {
    let mut conn = VehicleConnection::new();
    conn.msg_id = 255;
    let mut vehicle = Vehicle::new(conn);
    assert!(!vehicle.master_heartbeat);
    let out = vehicle.on_message(vehicle_heartbeat(81, 0, 3));
    assert!(vehicle.master_heartbeat);
    assert_eq!(out.outbound.len(), 1);
    assert_eq!(out.log.len(), 0);
    assert_eq!(sent(&out.outbound[0]), (255, own_heartbeat()));
    assert_eq!(vehicle.connection.msg_id, 0);
}

#[test]
fn positions_are_mirrored() {
    let mut vehicle = Vehicle::new(VehicleConnection::new());
    assert_eq!(vehicle.location_global, None);
    assert_eq!(vehicle.location_global_relative, None);
    assert_eq!(vehicle.location_local, None);
    let out = vehicle.on_message(DkMessage::GLOBAL_POSITION_INT(GLOBAL_POSITION_INT_DATA {
        time_boot_ms: 1,
        lat: 473_977_420,
        lon: 85_455_940,
        alt: 500_000,
        relative_alt: 12_000,
        vx: 0,
        vy: 0,
        vz: 0,
        hdg: 0,
    }));
    assert_eq!(out.outbound.len(), 0);
    assert_eq!(
        vehicle.location_global,
        Some(LocationGlobal { alt: 500_000, lat: 473_977_420, lon: 85_455_940 })
    );
    assert_eq!(
        vehicle.location_global_relative,
        Some(LocationGlobalRelative { alt: 12_000, lat: 473_977_420, lon: 85_455_940 })
    );
    vehicle.on_message(DkMessage::LOCAL_POSITION_NED(LOCAL_POSITION_NED_DATA {
        time_boot_ms: 2,
        x: 1.0f32.to_bits(),
        y: (-2.0f32).to_bits(),
        z: (-30.0f32).to_bits(),
        vx: 0,
        vy: 0,
        vz: 0,
    }));
    assert_eq!(
        vehicle.location_local,
        Some(LocationLocal {
            x: 1.0f32.to_bits(),
            y: (-2.0f32).to_bits(),
            z: (-30.0f32).to_bits()
        })
    );
    assert!(!vehicle.master_heartbeat);
}

#[test]
fn status_text_goes_to_the_log() {
    let mut vehicle = Vehicle::new(VehicleConnection::new());
    let mut text = [0u8; 50];
    text[..9].copy_from_slice(b"PreArm ok");
    let out = vehicle.on_message(DkMessage::STATUSTEXT(STATUSTEXT_DATA { severity: 6, text }));
    assert_eq!(out.outbound.len(), 0);
    assert_eq!(out.log.len(), 1);
    assert_eq!(out.log[0].severity, 6);
    assert_eq!(out.log[0].text, "PreArm ok");
}

#[test]
fn other_messages_leave_the_mirror() {
    let mut vehicle = Vehicle::new(VehicleConnection::new());
    let out = vehicle.on_message(DkMessage::COMMAND_ACK(COMMAND_ACK_DATA { command: 400, result: 0 }));
    assert_eq!(out.outbound.len(), 0);
    assert_eq!(out.log.len(), 0);
    assert!(!vehicle.master_heartbeat);
    assert_eq!(vehicle.connection.msg_id, 0);
    assert_eq!(vehicle.parameters.available(), 0);
}

#[test]
fn update_takes_the_buffer_first_and_then_the_channel() {
    let mut conn = VehicleConnection::new();
    conn.cork(DkHandlerRx::RxMessage(DkMessage::PARAM_VALUE(param_value("A", 1.0, 2, 0))));
    conn.cork(DkHandlerRx::RxCork);
    let mut vehicle = Vehicle::new(conn);
    let out = vehicle.update(&[
        DkHandlerRx::RxMessage(vehicle_heartbeat(0, 0, 3)),
        DkHandlerRx::RxCork,
        DkHandlerRx::RxMessage(DkMessage::PARAM_VALUE(param_value("A", 2.0, 2, 1))),
        DkHandlerRx::RxMessage(vehicle_heartbeat(0, 0, 3)),
    ]);
    assert_eq!(vehicle.connection.buffer.len(), 0);
    assert!(vehicle.master_heartbeat);
    // The buffered value came first: the later one stands.
    assert_eq!(vehicle.parameters.get("A"), Some(2.0f32.to_bits()));
    assert_eq!(vehicle.parameters.available(), 2);
    assert_eq!(out.outbound.len(), 2);
    assert_eq!(sent(&out.outbound[0]), (0, own_heartbeat()));
    assert_eq!(sent(&out.outbound[1]), (1, own_heartbeat()));
    let nothing = vehicle.update(&[]);
    assert_eq!(nothing.outbound.len(), 0);
}

#[test]
fn init_sends_a_heartbeat_waits_and_then_asks_for_everything() {
    let mut vehicle = Vehicle::new(VehicleConnection::new());
    match vehicle.init() {
        InitStep::Wait(out) => {
            assert_eq!(out.len(), 1);
            assert_eq!(sent(&out[0]), (0, own_heartbeat()));
        }
        InitStep::Done(_) => panic!("the vehicle has not been heard yet"),
    }
    match vehicle.init() {
        InitStep::Wait(out) => assert_eq!(out.len(), 0),
        InitStep::Done(_) => panic!("the vehicle has not been heard yet"),
    }
    vehicle.update(&[DkHandlerRx::RxMessage(vehicle_heartbeat(0, 0, 3))]);
    match vehicle.init() {
        InitStep::Done(out) => {
            assert_eq!(out.len(), 2);
            match sent(&out[0]) {
                (2, DkMessage::PARAM_REQUEST_LIST(data)) => {
                    assert_eq!((data.target_system, data.target_component), (0, 0));
                }
                other => panic!("unexpected {:?}", other),
            }
            match sent(&out[1]) {
                (3, DkMessage::REQUEST_DATA_STREAM(data)) => {
                    assert_eq!(data.req_stream_id, 0);
                    assert_eq!(data.req_message_rate, 10);
                    assert_eq!(data.start_stop, 1);
                }
                other => panic!("unexpected {:?}", other),
            }
        }
        InitStep::Wait(_) => panic!("the vehicle has been heard"),
    }
}

#[test]
fn set_mode_watches_for_the_mode_and_sends_it() {
    let mut vehicle = Vehicle::new(VehicleConnection::new());
    let out = vehicle.set_mode(VehicleMode::GUIDED);
    assert_eq!(out.len(), 2);
    match &out[0] {
        DkHandlerMessage::TxWatcher(w) => {
            assert_eq!(w.handle, 0);
            assert!(matches!(w.predicate, Predicate::Mode { custom_mode: 4 }));
        }
        _ => panic!("a watcher was expected"),
    }
    match sent(&out[1]) {
        (0, DkMessage::SET_MODE(data)) => {
            assert_eq!(data.target_system, 0);
            assert_eq!(data.base_mode, 1);
            assert_eq!(data.custom_mode, 4);
        }
        other => panic!("unexpected {:?}", other),
    }
    let out = vehicle.set_mode(VehicleMode::LOITER);
    match &out[0] {
        DkHandlerMessage::TxWatcher(w) => {
            assert_eq!(w.handle, 1);
            assert!(matches!(w.predicate, Predicate::Mode { custom_mode: 5 }));
        }
        _ => panic!("a watcher was expected"),
    }
    assert_eq!(VehicleMode::GUIDED.custom_mode(), 4);
    assert_eq!(VehicleMode::LOITER.custom_mode(), 5);
}

#[test]
fn arm_then_ack_and_heartbeat_resolve_in_either_order() {
    for reversed in [false, true] {
        let mut vehicle = Vehicle::new(VehicleConnection::new());
        let mut handler = DkHandler::new();
        let out = vehicle.arm();
        assert_eq!(out.len(), 2);
        match sent(&out[1]) {
            (0, DkMessage::COMMAND_LONG(data)) => {
                assert_eq!(data.command, 400);
                assert_eq!(data.param1, 1.0f32.to_bits());
                assert_eq!(data.param2, 0);
                assert_eq!(data.param7, 0);
                assert_eq!(data.confirmation, 0);
            }
            other => panic!("unexpected {:?}", other),
        }
        for command in out {
            handler.notify(command);
        }
        let ack = DkMessage::COMMAND_ACK(COMMAND_ACK_DATA { command: 400, result: 0 });
        let beat = vehicle_heartbeat(128, 0, 3);
        let (first, second) = if reversed { (beat, ack) } else { (ack, beat) };
        assert_eq!(handler.dispatch(first), Vec::<u64>::new());
        assert_eq!(handler.dispatch(second), vec![0]);
    }
}

#[test]
fn takeoff_sends_the_altitude_as_the_seventh_parameter() {
    let mut vehicle = Vehicle::new(VehicleConnection::new());
    let out = vehicle.takeoff(30.0f32.to_bits());
    assert!(
        matches!(&out[0], DkHandlerMessage::TxWatcher(w) if matches!(w.predicate, Predicate::Airborne { ack: false, active: false }))
    );
    match sent(&out[1]) {
        (0, DkMessage::COMMAND_LONG(data)) => {
            assert_eq!(data.command, 22);
            assert_eq!(data.param1, 0);
            assert_eq!(data.param7, 30.0f32.to_bits());
        }
        other => panic!("unexpected {:?}", other),
    }
}

#[test]
fn goto_keeps_the_position_and_masks_the_rest() {
    let mut vehicle = Vehicle::new(VehicleConnection::new());
    let target = LocationLocal {
        x: (-50.0f32).to_bits(),
        y: (-50.0f32).to_bits(),
        z: (-30.0f32).to_bits(),
    };
    match sent(&vehicle.goto(target)) {
        (0, DkMessage::SET_POSITION_TARGET_LOCAL_NED(data)) => {
            assert_eq!(data.time_boot_ms, 0);
            assert_eq!(data.coordinate_frame, 1);
            assert_eq!(data.type_mask, 0b0000_111_111_000_000);
            assert_eq!(f32::from_bits(data.x), -50.0);
            assert_eq!(f32::from_bits(data.y), -50.0);
            assert_eq!(f32::from_bits(data.z), -30.0);
            assert_eq!(f32::from_bits(data.vx), 0.1);
            assert_eq!(f32::from_bits(data.vy), 0.1);
            assert_eq!(f32::from_bits(data.vz), 0.1);
            assert_eq!((data.afx, data.afy, data.afz, data.yaw, data.yaw_rate), (0, 0, 0, 0, 0));
        }
        other => panic!("unexpected {:?}", other),
    }
    match sent(&vehicle.retry(target)) {
        (1, DkMessage::SET_POSITION_TARGET_LOCAL_NED(data)) => {
            assert_eq!(data.time_boot_ms, 10);
            assert_eq!(f32::from_bits(data.x), -50.0);
        }
        other => panic!("unexpected {:?}", other),
    }
}

#[test]
fn requests_are_framed_in_turn() {
    let mut vehicle = Vehicle::new(VehicleConnection::new());
    assert_eq!(sent(&vehicle.send_heartbeat()), (0, own_heartbeat()));
    assert!(matches!(sent(&vehicle.request_parameters()), (1, DkMessage::PARAM_REQUEST_LIST(_))));
    assert!(matches!(sent(&vehicle.request_stream()), (2, DkMessage::REQUEST_DATA_STREAM(_))));
}
