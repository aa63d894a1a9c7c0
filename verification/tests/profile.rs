use dronekit::mavlink::DkMessage;
use dronekit::profile::{extra_crc, fold, wire_order, MavField, MavMessage, MavScalar, MavType};

fn field(name: &str, mavtype: MavType) -> MavField {
    MavField { name: name.to_string(), mavtype }
}

fn scalar(name: &str, t: MavScalar) -> MavField {
    field(name, MavType::Scalar(t))
}

fn message(id: u8, name: &str, fields: Vec<MavField>) -> MavMessage {
    MavMessage { id, name: name.to_string(), fields }
}

/// `HEARTBEAT` as the dialect declares it.
fn heartbeat() -> MavMessage {
    message(
        0,
        "HEARTBEAT",
        vec![
            scalar("type", MavScalar::UInt8),
            scalar("autopilot", MavScalar::UInt8),
            scalar("base_mode", MavScalar::UInt8),
            scalar("custom_mode", MavScalar::UInt32),
            scalar("system_status", MavScalar::UInt8),
            scalar("mavlink_version", MavScalar::UInt8MavlinkVersion),
        ],
    )
}

#[test]
fn fold_is_low_byte_xor_high_byte() {
    assert_eq!(fold(0x0000), 0x00);
    assert_eq!(fold(0x12FF), 0xED);
    assert_eq!(fold(0xDFA1), 0x7E);
    assert_eq!(fold(0xFFFF), 0x00);
}

#[test]
fn scalar_sizes_and_names() {
    assert_eq!(MavScalar::Char.size(), 1);
    assert_eq!(MavScalar::UInt8MavlinkVersion.size(), 1);
    assert_eq!(MavScalar::Int16.size(), 2);
    assert_eq!(MavScalar::Float.size(), 4);
    assert_eq!(MavScalar::Int32.size(), 4);
    assert_eq!(MavScalar::Double.size(), 8);
    assert_eq!(MavScalar::UInt64.size(), 8);
    assert_eq!(MavScalar::UInt8MavlinkVersion.primitive_type(), "uint8_t");
    assert_eq!(MavScalar::Char.primitive_type(), "char");
    assert_eq!(MavScalar::Int64.primitive_type(), "int64_t");
    assert_eq!(MavScalar::Float.primitive_type(), "float");
    assert_eq!(MavScalar::Double.primitive_type(), "double");
    assert_eq!(MavType::Array(MavScalar::UInt16, 10).scalar(), MavScalar::UInt16);
}

#[test]
fn wire_order_is_largest_first_and_stable() {
    let fields = vec![
        scalar("a", MavScalar::UInt8),
        scalar("b", MavScalar::UInt16),
        field("c", MavType::Array(MavScalar::UInt8, 20)),
        scalar("d", MavScalar::UInt64),
        scalar("e", MavScalar::Float),
        scalar("f", MavScalar::Int16),
        field("g", MavType::Array(MavScalar::Float, 4)),
        scalar("h", MavScalar::Double),
        scalar("i", MavScalar::Char),
    ];
    let names: Vec<String> = wire_order(&fields).into_iter().map(|f| f.name).collect();
    assert_eq!(names, vec!["d", "h", "e", "g", "b", "f", "a", "c", "i"]);
    assert_eq!(wire_order(&vec![]), vec![]);
}

#[test]
fn extra_crc_of_heartbeat_schema() {
    assert_eq!(extra_crc(&heartbeat()), 50);
    assert_eq!(extra_crc(&heartbeat()), DkMessage::extra_crc(0));
}

#[test]
fn extra_crc_of_schemas_with_arrays() {
    let statustext = message(
        253,
        "STATUSTEXT",
        vec![
            scalar("severity", MavScalar::UInt8),
            field("text", MavType::Array(MavScalar::Char, 50)),
        ],
    );
    assert_eq!(extra_crc(&statustext), 83);
    let param_value = message(
        22,
        "PARAM_VALUE",
        vec![
            field("param_id", MavType::Array(MavScalar::Char, 16)),
            scalar("param_value", MavScalar::Float),
            scalar("param_type", MavScalar::UInt8),
            scalar("param_count", MavScalar::UInt16),
            scalar("param_index", MavScalar::UInt16),
        ],
    );
    assert_eq!(extra_crc(&param_value), 220);
    let battery = message(
        147,
        "BATTERY_STATUS",
        vec![
            scalar("id", MavScalar::UInt8),
            scalar("battery_function", MavScalar::UInt8),
            scalar("type", MavScalar::UInt8),
            scalar("temperature", MavScalar::Int16),
            field("voltages", MavType::Array(MavScalar::UInt16, 10)),
            scalar("current_battery", MavScalar::Int16),
            scalar("current_consumed", MavScalar::Int32),
            scalar("energy_consumed", MavScalar::Int32),
            scalar("battery_remaining", MavScalar::Int8),
        ],
    );
    assert_eq!(extra_crc(&battery), 154);
}

#[test]
fn extra_crc_of_scalar_schemas() {
    let system_time = message(
        2,
        "SYSTEM_TIME",
        vec![
            scalar("time_unix_usec", MavScalar::UInt64),
            scalar("time_boot_ms", MavScalar::UInt32),
        ],
    );
    assert_eq!(extra_crc(&system_time), 137);
    let command_ack = message(
        77,
        "COMMAND_ACK",
        vec![scalar("command", MavScalar::UInt16), scalar("result", MavScalar::UInt8)],
    );
    assert_eq!(extra_crc(&command_ack), 143);
}

#[test]
fn extra_crc_changes_with_the_schema() {
    let mut renamed = heartbeat();
    renamed.fields[1].name = "autopilots".to_string();
    assert_ne!(extra_crc(&renamed), 50);
    let mut retyped = heartbeat();
    retyped.fields[3].mavtype = MavType::Scalar(MavScalar::Int32);
    assert_ne!(extra_crc(&retyped), 50);
    // The order of declaration among fields of one size counts.
    let mut swapped = heartbeat();
    swapped.fields.swap(0, 1);
    assert_ne!(extra_crc(&swapped), 50);
    // The place of a field among those of other sizes does not.
    let mut moved = heartbeat();
    let custom_mode = moved.fields.remove(3);
    moved.fields.insert(0, custom_mode);
    assert_eq!(extra_crc(&moved), 50);
}
