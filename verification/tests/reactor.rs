use bit_vec::BitVec;
use dronekit::connection::{
    DkHandler, DkHandlerMessage, DkHandlerRx, Reaction, VehicleConnection,
};
use dronekit::mavlink::{
    DkMessage, ATTITUDE_DATA, COMMAND_ACK_DATA, HEARTBEAT_DATA, PARAM_VALUE_DATA,
};
use dronekit::watcher::{Predicate, Watcher};
use dronekit::wire::ieee32_eq;

fn vehicle_heartbeat(base_mode: u8, custom_mode: u32, system_status: u8) -> DkMessage {
    DkMessage::HEARTBEAT(HEARTBEAT_DATA {
        custom_mode,
        mavtype: 2,
        autopilot: 3,
        base_mode,
        system_status,
        mavlink_version: 3,
    })
}

fn ack(command: u16) -> DkMessage {
    DkMessage::COMMAND_ACK(COMMAND_ACK_DATA { command, result: 0 })
}

fn param_value(name: &str, value: f32, count: u16, index: u16) -> DkMessage {
    let mut param_id = [0u8; 16];
    param_id[..name.len()].copy_from_slice(name.as_bytes());
    DkMessage::PARAM_VALUE(PARAM_VALUE_DATA {
        param_value: value.to_bits(),
        param_count: count,
        param_index: index,
        param_id,
        param_type: 9,
    })
}

fn frame(conn: &mut VehicleConnection, msg: DkMessage) -> Vec<u8> {
    match conn.send(msg) {
        DkHandlerMessage::TxMessage(bytes) => bytes,
        _ => panic!("a frame was expected"),
    }
}

fn watching(watchers: Vec<Watcher>) -> DkHandler {
    let mut handler = DkHandler::new();
    for w in watchers {
        assert!(matches!(handler.notify(DkHandlerMessage::TxWatcher(w)), Reaction::Idle));
    }
    handler
}

fn armed() -> Predicate {
    Predicate::Armed { ack: false, armed: false }
}

#[test]
fn watchers_are_offered_in_the_order_of_registration() {
    let mut handler = watching(vec![
        Watcher { handle: 1, predicate: armed() },
        Watcher { handle: 2, predicate: Predicate::Mode { custom_mode: 4 } },
    ]);
    let fired = handler.dispatch(vehicle_heartbeat(129, 4, 3));
    assert_eq!(fired, vec![2]);
    assert_eq!(handler.watchers.len(), 1);
    assert_eq!(handler.watchers[0].handle, 1);
    // The first watcher has seen the message, and stays.
    assert!(matches!(handler.watchers[0].predicate, Predicate::Armed { ack: false, armed: true }));
}

#[test]
fn handles_are_reported_in_the_order_of_registration() {
    let mut handler = watching(vec![
        Watcher { handle: 30, predicate: Predicate::Mode { custom_mode: 4 } },
        Watcher { handle: 10, predicate: Predicate::Mode { custom_mode: 5 } },
        Watcher { handle: 20, predicate: Predicate::Mode { custom_mode: 4 } },
    ]);
    let fired = handler.dispatch(vehicle_heartbeat(1, 4, 3));
    assert_eq!(fired, vec![30, 20]);
    assert_eq!(handler.watchers.len(), 1);
    assert_eq!(handler.watchers[0].handle, 10);
    let fired = handler.dispatch(vehicle_heartbeat(1, 4, 3));
    assert_eq!(fired, Vec::<u64>::new());
    assert_eq!(handler.watchers.len(), 1);
}

#[test]
fn a_watcher_fires_once() {
    let mut handler = watching(vec![Watcher { handle: 1, predicate: Predicate::Mode { custom_mode: 4 } }]);
    let mut conn = VehicleConnection::new();
    let mut stream = frame(&mut conn, vehicle_heartbeat(1, 4, 3));
    stream.extend(frame(&mut conn, vehicle_heartbeat(1, 4, 3)));
    let out = handler.ready(&stream);
    assert_eq!(out.inbound.len(), 2);
    assert_eq!(out.fired, vec![1]);
    assert_eq!(handler.watchers.len(), 0);
}

#[test]
fn mode_watcher_needs_the_flag_and_the_mode() {
    let mut p = Predicate::Mode { custom_mode: 4 };
    assert!(!p.offer(&vehicle_heartbeat(0, 4, 3)));
    assert!(!p.offer(&vehicle_heartbeat(1, 5, 3)));
    assert!(!p.offer(&ack(400)));
    assert!(p.offer(&vehicle_heartbeat(129, 4, 3)));
}

#[test]
fn arm_resolves_on_ack_then_heartbeat() {
    let mut handler = watching(vec![Watcher { handle: 7, predicate: armed() }]);
    assert_eq!(handler.dispatch(ack(400)), Vec::<u64>::new());
    assert_eq!(handler.dispatch(vehicle_heartbeat(128, 0, 3)), vec![7]);
    assert_eq!(handler.watchers.len(), 0);
}

#[test]
fn arm_resolves_on_heartbeat_then_ack() {
    let mut handler = watching(vec![Watcher { handle: 7, predicate: armed() }]);
    assert_eq!(handler.dispatch(vehicle_heartbeat(128, 0, 3)), Vec::<u64>::new());
    assert_eq!(handler.dispatch(ack(400)), vec![7]);
    assert_eq!(handler.watchers.len(), 0);
}

#[test]
fn arm_does_not_resolve_on_one_of_the_two() {
    let mut handler = watching(vec![Watcher { handle: 7, predicate: armed() }]);
    assert_eq!(handler.dispatch(ack(400)), Vec::<u64>::new());
    assert_eq!(handler.dispatch(ack(400)), Vec::<u64>::new());
    assert_eq!(handler.dispatch(vehicle_heartbeat(1, 0, 3)), Vec::<u64>::new());
    assert_eq!(handler.dispatch(ack(22)), Vec::<u64>::new());
    assert_eq!(handler.watchers.len(), 1);

    let mut handler = watching(vec![Watcher { handle: 7, predicate: armed() }]);
    assert_eq!(handler.dispatch(vehicle_heartbeat(128, 0, 3)), Vec::<u64>::new());
    assert_eq!(handler.dispatch(vehicle_heartbeat(128, 0, 3)), Vec::<u64>::new());
    assert_eq!(handler.dispatch(ack(22)), Vec::<u64>::new());
    assert_eq!(handler.watchers.len(), 1);
}

#[test]
fn takeoff_resolves_on_ack_and_active_heartbeat() {
    let airborne = || Predicate::Airborne { ack: false, active: false };
    let mut handler = watching(vec![Watcher { handle: 1, predicate: airborne() }]);
    assert_eq!(handler.dispatch(vehicle_heartbeat(128, 0, 3)), Vec::<u64>::new());
    assert_eq!(handler.dispatch(ack(400)), Vec::<u64>::new());
    assert_eq!(handler.dispatch(ack(22)), Vec::<u64>::new());
    assert_eq!(handler.dispatch(vehicle_heartbeat(128, 0, 4)), vec![1]);

    let mut handler = watching(vec![Watcher { handle: 1, predicate: airborne() }]);
    assert_eq!(handler.dispatch(vehicle_heartbeat(128, 0, 4)), Vec::<u64>::new());
    assert_eq!(handler.dispatch(ack(22)), vec![1]);
}

#[test]
fn param_set_resolves_on_the_echo_of_the_value() {
    let echo = || Predicate::ParamEcho { name: "FS_EKF_THRESH".to_string(), value: 30.0f32.to_bits() };
    let mut handler = watching(vec![Watcher { handle: 3, predicate: echo() }]);
    assert_eq!(handler.dispatch(param_value("FS_EKF_THRESH", 30.0, 5, 2)), vec![3]);

    let mut handler = watching(vec![Watcher { handle: 3, predicate: echo() }]);
    assert_eq!(handler.dispatch(param_value("FS_EKF_THRESH", 25.0, 5, 2)), Vec::<u64>::new());
    assert_eq!(handler.dispatch(param_value("FS_GCS_ENABLE", 30.0, 5, 3)), Vec::<u64>::new());
    assert_eq!(handler.dispatch(vehicle_heartbeat(1, 4, 4)), Vec::<u64>::new());
    assert_eq!(handler.watchers.len(), 1);
}

#[test]
fn param_echo_compares_numbers_not_bits() {
    let mut zero = Predicate::ParamEcho { name: "A".to_string(), value: 0.0f32.to_bits() };
    assert!(zero.offer(&param_value("A", -0.0, 1, 0)));
    let mut nan = Predicate::ParamEcho { name: "A".to_string(), value: f32::NAN.to_bits() };
    assert!(!nan.offer(&param_value("A", f32::NAN, 1, 0)));
}

#[test]
fn ieee_equality_agrees_with_the_machine() {
    let samples = [
        0.0f32,
        -0.0,
        1.0,
        -1.0,
        30.0,
        25.0,
        0.1,
        f32::MIN_POSITIVE,
        f32::MAX,
        f32::MIN,
        f32::INFINITY,
        f32::NEG_INFINITY,
        f32::NAN,
        -f32::NAN,
        f32::from_bits(0x7F80_0001),
        f32::from_bits(0xFFC0_0000),
        f32::from_bits(1),
        f32::from_bits(0x8000_0001),
    ];
    for a in samples {
        for b in samples {
            assert_eq!(ieee32_eq(a.to_bits(), b.to_bits()), a == b, "{:?} {:?}", a, b);
        }
    }
}

#[test]
fn params_complete_fires_once_after_the_last_index() {
    let watcher = Watcher {
        handle: 9,
        predicate: Predicate::ParamsComplete { missing: BitVec::new() },
    };
    let mut handler = watching(vec![watcher]);
    assert_eq!(handler.dispatch(param_value("B", 1.0, 3, 1)), Vec::<u64>::new());
    assert_eq!(handler.dispatch(param_value("C", 2.0, 3, 2)), Vec::<u64>::new());
    assert_eq!(handler.dispatch(param_value("A", 0.0, 3, 0)), vec![9]);
    assert_eq!(handler.watchers.len(), 0);
    assert_eq!(handler.dispatch(param_value("A", 0.0, 3, 0)), Vec::<u64>::new());
}

#[test]
fn params_complete_starts_over_on_another_count() {
    let mut p = Predicate::ParamsComplete { missing: BitVec::from_elem(2, false) };
    assert!(!p.offer(&param_value("A", 0.0, 2, 0)));
    assert!(!p.offer(&param_value("B", 0.0, 3, 1)));
    assert!(!p.offer(&param_value("C", 0.0, 3, 2)));
    assert!(!p.offer(&param_value("B", 0.0, 3, 1)));
    assert!(p.offer(&param_value("A", 0.0, 3, 0)));
}

#[test]
fn params_complete_passes_over_unsolicited_values() {
    let mut p = Predicate::ParamsComplete { missing: BitVec::from_elem(1, false) };
    assert!(!p.offer(&param_value("A", 0.0, 1, 65535)));
    assert!(!p.offer(&param_value("A", 0.0, 1, 1)));
    assert!(!p.offer(&vehicle_heartbeat(0, 0, 0)));
    assert!(p.offer(&param_value("A", 0.0, 1, 0)));
    let mut none = Predicate::ParamsComplete { missing: BitVec::new() };
    assert!(!none.offer(&param_value("A", 0.0, 0, 0)));
}

#[test]
fn ready_delivers_in_wire_order_and_fires_watchers() {
    let mut handler = watching(vec![Watcher { handle: 7, predicate: armed() }]);
    let mut conn = VehicleConnection::new();
    let attitude = DkMessage::ATTITUDE(ATTITUDE_DATA {
        time_boot_ms: 1,
        roll: 0,
        pitch: 0,
        yaw: 0,
        rollspeed: 0,
        pitchspeed: 0,
        yawspeed: 0,
    });
    let mut stream = frame(&mut conn, ack(400));
    stream.extend(frame(&mut conn, attitude));
    stream.extend(frame(&mut conn, vehicle_heartbeat(128, 0, 3)));
    let out = handler.ready(&stream);
    assert_eq!(
        out.inbound,
        vec![
            DkHandlerRx::RxMessage(ack(400)),
            DkHandlerRx::RxMessage(attitude),
            DkHandlerRx::RxMessage(vehicle_heartbeat(128, 0, 3)),
        ]
    );
    assert_eq!(out.fired, vec![7]);
    assert_eq!(handler.watchers.len(), 0);
}

#[test]
fn notify_says_what_the_loop_owes() {
    let mut handler = DkHandler::new();
    match handler.notify(DkHandlerMessage::TxMessage(vec![1, 2, 3])) {
        Reaction::Write(bytes) => assert_eq!(bytes, vec![1, 2, 3]),
        _ => panic!("a write was expected"),
    }
    assert!(matches!(handler.notify(DkHandlerMessage::TxCork), Reaction::Cork));
    assert!(matches!(handler.notify(DkHandlerMessage::TxUncork), Reaction::Uncork));
    assert_eq!(handler.watchers.len(), 0);
    let w = Watcher { handle: 4, predicate: armed() };
    assert!(matches!(handler.notify(DkHandlerMessage::TxWatcher(w)), Reaction::Idle));
    assert_eq!(handler.watchers.len(), 1);
    assert_eq!(handler.watchers[0].handle, 4);
}

#[test]
fn cork_buffers_until_the_sentinel() {
    let mut conn = VehicleConnection::new();
    assert_eq!(conn.cork(DkHandlerRx::RxMessage(ack(1))), None);
    assert_eq!(conn.cork(DkHandlerRx::RxMessage(ack(2))), None);
    assert_eq!(conn.cork(DkHandlerRx::RxCork), Some(vec![ack(1), ack(2)]));
    assert_eq!(conn.buffer.len(), 2);
    assert!(matches!(conn.uncork(), DkHandlerMessage::TxUncork));
    assert_eq!(conn.recv(), Some(DkHandlerRx::RxMessage(ack(1))));
    assert_eq!(conn.try_recv(), Some(DkHandlerRx::RxMessage(ack(2))));
    assert_eq!(conn.recv(), None);
    assert_eq!(conn.try_recv(), None);
}

#[test]
fn complete_hands_out_handles_in_turn() {
    let mut conn = VehicleConnection::new();
    conn.next_handle = u64::MAX;
    match conn.complete(armed()) {
        DkHandlerMessage::TxWatcher(w) => assert_eq!(w.handle, u64::MAX),
        _ => panic!("a watcher was expected"),
    }
    match conn.complete(armed()) {
        DkHandlerMessage::TxWatcher(w) => assert_eq!(w.handle, 0),
        _ => panic!("a watcher was expected"),
    }
    assert_eq!(conn.next_handle, 1);
    assert_eq!(conn.msg_id, 0);
}
