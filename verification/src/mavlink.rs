//! The message registry: every message body of the dialect with its wire
//! layout, and the tagged union over them.
//!
//! A body's fields stand in wire order: largest first, ties in the order of
//! the dialect. Floating-point fields are held as their IEEE 754 bit
//! patterns, arrays at their fixed lengths.

use vstd::prelude::*;

pub mod control;
pub mod extended;
pub mod mission;
pub mod onboard;
pub mod params;
pub mod simulation;
pub mod system;
pub mod telemetry;

pub use self::control::{
    ATTITUDE_QUATERNION_COV_DATA, ATTITUDE_TARGET_DATA, COMMAND_ACK_DATA, COMMAND_INT_DATA,
    COMMAND_LONG_DATA, DATA_STREAM_DATA, GLOBAL_POSITION_INT_COV_DATA,
    LOCAL_POSITION_NED_COV_DATA, LOCAL_POSITION_NED_SYSTEM_GLOBAL_OFFSET_DATA,
    MANUAL_CONTROL_DATA, MANUAL_SETPOINT_DATA, MISSION_ITEM_INT_DATA,
    NAV_CONTROLLER_OUTPUT_DATA, PARAM_MAP_RC_DATA, POSITION_TARGET_GLOBAL_INT_DATA,
    POSITION_TARGET_LOCAL_NED_DATA, RC_CHANNELS_DATA, RC_CHANNELS_OVERRIDE_DATA,
    REQUEST_DATA_STREAM_DATA, SAFETY_ALLOWED_AREA_DATA, SAFETY_SET_ALLOWED_AREA_DATA,
    SET_ATTITUDE_TARGET_DATA, SET_POSITION_TARGET_GLOBAL_INT_DATA,
    SET_POSITION_TARGET_LOCAL_NED_DATA, VFR_HUD_DATA,
};
pub use self::extended::{
    ACTUATOR_CONTROL_TARGET_DATA, ADSB_VEHICLE_DATA, ALTITUDE_DATA, ATT_POS_MOCAP_DATA,
    AUTOPILOT_VERSION_DATA, BATTERY_STATUS_DATA, CONTROL_SYSTEM_STATE_DATA, DEBUG_DATA,
    DEBUG_VECT_DATA, EXTENDED_SYS_STATE_DATA, HOME_POSITION_DATA, LANDING_TARGET_DATA,
    MEMORY_VECT_DATA, MESSAGE_INTERVAL_DATA, NAMED_VALUE_FLOAT_DATA, NAMED_VALUE_INT_DATA,
    RESOURCE_REQUEST_DATA, SCALED_PRESSURE2_DATA, SCALED_PRESSURE3_DATA,
    SET_ACTUATOR_CONTROL_TARGET_DATA, SET_HOME_POSITION_DATA, STATUSTEXT_DATA,
    TERRAIN_REPORT_DATA, V2_EXTENSION_DATA, VIBRATION_DATA,
};
pub use self::mission::{
    GPS_GLOBAL_ORIGIN_DATA, MISSION_ACK_DATA, MISSION_CLEAR_ALL_DATA, MISSION_COUNT_DATA,
    MISSION_CURRENT_DATA, MISSION_ITEM_DATA, MISSION_ITEM_REACHED_DATA, MISSION_REQUEST_DATA,
    MISSION_REQUEST_LIST_DATA, MISSION_REQUEST_PARTIAL_LIST_DATA, MISSION_SET_CURRENT_DATA,
    MISSION_WRITE_PARTIAL_LIST_DATA, SET_GPS_GLOBAL_ORIGIN_DATA,
};
pub use self::onboard::{
    DATA_TRANSMISSION_HANDSHAKE_DATA, DISTANCE_SENSOR_DATA, ENCAPSULATED_DATA_DATA,
    GPS2_RAW_DATA, GPS2_RTK_DATA, GPS_INJECT_DATA_DATA, GPS_RTK_DATA, LOG_DATA_DATA,
    LOG_ENTRY_DATA, LOG_ERASE_DATA, LOG_REQUEST_DATA_DATA, LOG_REQUEST_END_DATA,
    LOG_REQUEST_LIST_DATA, POWER_STATUS_DATA, SCALED_IMU2_DATA, SCALED_IMU3_DATA,
    SERIAL_CONTROL_DATA, TERRAIN_CHECK_DATA, TERRAIN_DATA_DATA, TERRAIN_REQUEST_DATA,
};
pub use self::params::{
    PARAM_REQUEST_LIST_DATA, PARAM_REQUEST_READ_DATA, PARAM_SET_DATA, PARAM_VALUE_DATA,
};
pub use self::simulation::{
    CAMERA_TRIGGER_DATA, FILE_TRANSFER_PROTOCOL_DATA, GLOBAL_VISION_POSITION_ESTIMATE_DATA,
    HIGHRES_IMU_DATA, HIL_CONTROLS_DATA, HIL_GPS_DATA, HIL_OPTICAL_FLOW_DATA,
    HIL_RC_INPUTS_RAW_DATA, HIL_SENSOR_DATA, HIL_STATE_DATA, HIL_STATE_QUATERNION_DATA,
    OPTICAL_FLOW_DATA, OPTICAL_FLOW_RAD_DATA, RADIO_STATUS_DATA, SIM_STATE_DATA, TIMESYNC_DATA,
    VICON_POSITION_ESTIMATE_DATA, VISION_POSITION_ESTIMATE_DATA, VISION_SPEED_ESTIMATE_DATA,
};
pub use self::system::{
    AUTH_KEY_DATA, CHANGE_OPERATOR_CONTROL_ACK_DATA, CHANGE_OPERATOR_CONTROL_DATA,
    HEARTBEAT_DATA, PING_DATA, SET_MODE_DATA, SYSTEM_TIME_DATA, SYS_STATUS_DATA,
};
pub use self::telemetry::{
    ATTITUDE_DATA, ATTITUDE_QUATERNION_DATA, GLOBAL_POSITION_INT_DATA, GPS_RAW_INT_DATA,
    GPS_STATUS_DATA, LOCAL_POSITION_NED_DATA, RAW_IMU_DATA, RAW_PRESSURE_DATA,
    RC_CHANNELS_RAW_DATA, RC_CHANNELS_SCALED_DATA, SCALED_IMU_DATA, SCALED_PRESSURE_DATA,
    SERVO_OUTPUT_RAW_DATA,
};

verus! {

/// A message body with a fixed wire layout: fields largest first, each
/// little-endian.
pub trait Parsable: Sized {
    /// The number of payload bytes that the body occupies.
    spec fn wire_len() -> nat;

    /// The body that the leading `wire_len()` bytes of `p` hold.
    spec fn spec_parse(p: Seq<u8>) -> Self;

    /// The payload bytes of the body.
    spec fn spec_serialize(&self) -> Seq<u8>;

    /// Reads the body from the leading bytes of `payload`.
    fn parse(payload: &[u8]) -> (body: Self)
        requires
            payload@.len() >= Self::wire_len(),
        ensures
            body == Self::spec_parse(payload@),
    ;

    /// Writes the body as payload bytes.
    fn serialize(&self) -> (bytes: Vec<u8>)
        ensures
            bytes@ == self.spec_serialize(),
    ;

    /// Parsing the payload bytes of a body gives the body back.
    proof fn lemma_roundtrip(&self)
        ensures
            self.spec_serialize().len() == Self::wire_len(),
            Self::spec_parse(self.spec_serialize()) == *self,
    ;
}

/// A message of the dialect: the body, tagged by its kind.
#[allow(non_camel_case_types)]
#[derive(Clone, Copy, Debug, PartialEq, Eq)]
pub enum DkMessage {
    HEARTBEAT(HEARTBEAT_DATA),
    SYS_STATUS(SYS_STATUS_DATA),
    SYSTEM_TIME(SYSTEM_TIME_DATA),
    PING(PING_DATA),
    CHANGE_OPERATOR_CONTROL(CHANGE_OPERATOR_CONTROL_DATA),
    CHANGE_OPERATOR_CONTROL_ACK(CHANGE_OPERATOR_CONTROL_ACK_DATA),
    AUTH_KEY(AUTH_KEY_DATA),
    SET_MODE(SET_MODE_DATA),
    PARAM_REQUEST_READ(PARAM_REQUEST_READ_DATA),
    PARAM_REQUEST_LIST(PARAM_REQUEST_LIST_DATA),
    PARAM_VALUE(PARAM_VALUE_DATA),
    PARAM_SET(PARAM_SET_DATA),
    GPS_RAW_INT(GPS_RAW_INT_DATA),
    GPS_STATUS(GPS_STATUS_DATA),
    SCALED_IMU(SCALED_IMU_DATA),
    RAW_IMU(RAW_IMU_DATA),
    RAW_PRESSURE(RAW_PRESSURE_DATA),
    SCALED_PRESSURE(SCALED_PRESSURE_DATA),
    ATTITUDE(ATTITUDE_DATA),
    ATTITUDE_QUATERNION(ATTITUDE_QUATERNION_DATA),
    LOCAL_POSITION_NED(LOCAL_POSITION_NED_DATA),
    GLOBAL_POSITION_INT(GLOBAL_POSITION_INT_DATA),
    RC_CHANNELS_SCALED(RC_CHANNELS_SCALED_DATA),
    RC_CHANNELS_RAW(RC_CHANNELS_RAW_DATA),
    SERVO_OUTPUT_RAW(SERVO_OUTPUT_RAW_DATA),
    MISSION_REQUEST_PARTIAL_LIST(MISSION_REQUEST_PARTIAL_LIST_DATA),
    MISSION_WRITE_PARTIAL_LIST(MISSION_WRITE_PARTIAL_LIST_DATA),
    MISSION_ITEM(MISSION_ITEM_DATA),
    MISSION_REQUEST(MISSION_REQUEST_DATA),
    MISSION_SET_CURRENT(MISSION_SET_CURRENT_DATA),
    MISSION_CURRENT(MISSION_CURRENT_DATA),
    MISSION_REQUEST_LIST(MISSION_REQUEST_LIST_DATA),
    MISSION_COUNT(MISSION_COUNT_DATA),
    MISSION_CLEAR_ALL(MISSION_CLEAR_ALL_DATA),
    MISSION_ITEM_REACHED(MISSION_ITEM_REACHED_DATA),
    MISSION_ACK(MISSION_ACK_DATA),
    SET_GPS_GLOBAL_ORIGIN(SET_GPS_GLOBAL_ORIGIN_DATA),
    GPS_GLOBAL_ORIGIN(GPS_GLOBAL_ORIGIN_DATA),
    PARAM_MAP_RC(PARAM_MAP_RC_DATA),
    SAFETY_SET_ALLOWED_AREA(SAFETY_SET_ALLOWED_AREA_DATA),
    SAFETY_ALLOWED_AREA(SAFETY_ALLOWED_AREA_DATA),
    ATTITUDE_QUATERNION_COV(ATTITUDE_QUATERNION_COV_DATA),
    NAV_CONTROLLER_OUTPUT(NAV_CONTROLLER_OUTPUT_DATA),
    GLOBAL_POSITION_INT_COV(GLOBAL_POSITION_INT_COV_DATA),
    LOCAL_POSITION_NED_COV(LOCAL_POSITION_NED_COV_DATA),
    RC_CHANNELS(RC_CHANNELS_DATA),
    REQUEST_DATA_STREAM(REQUEST_DATA_STREAM_DATA),
    DATA_STREAM(DATA_STREAM_DATA),
    MANUAL_CONTROL(MANUAL_CONTROL_DATA),
    RC_CHANNELS_OVERRIDE(RC_CHANNELS_OVERRIDE_DATA),
    MISSION_ITEM_INT(MISSION_ITEM_INT_DATA),
    VFR_HUD(VFR_HUD_DATA),
    COMMAND_INT(COMMAND_INT_DATA),
    COMMAND_LONG(COMMAND_LONG_DATA),
    COMMAND_ACK(COMMAND_ACK_DATA),
    MANUAL_SETPOINT(MANUAL_SETPOINT_DATA),
    SET_ATTITUDE_TARGET(SET_ATTITUDE_TARGET_DATA),
    ATTITUDE_TARGET(ATTITUDE_TARGET_DATA),
    SET_POSITION_TARGET_LOCAL_NED(SET_POSITION_TARGET_LOCAL_NED_DATA),
    POSITION_TARGET_LOCAL_NED(POSITION_TARGET_LOCAL_NED_DATA),
    SET_POSITION_TARGET_GLOBAL_INT(SET_POSITION_TARGET_GLOBAL_INT_DATA),
    POSITION_TARGET_GLOBAL_INT(POSITION_TARGET_GLOBAL_INT_DATA),
    LOCAL_POSITION_NED_SYSTEM_GLOBAL_OFFSET(LOCAL_POSITION_NED_SYSTEM_GLOBAL_OFFSET_DATA),
    HIL_STATE(HIL_STATE_DATA),
    HIL_CONTROLS(HIL_CONTROLS_DATA),
    HIL_RC_INPUTS_RAW(HIL_RC_INPUTS_RAW_DATA),
    OPTICAL_FLOW(OPTICAL_FLOW_DATA),
    GLOBAL_VISION_POSITION_ESTIMATE(GLOBAL_VISION_POSITION_ESTIMATE_DATA),
    VISION_POSITION_ESTIMATE(VISION_POSITION_ESTIMATE_DATA),
    VISION_SPEED_ESTIMATE(VISION_SPEED_ESTIMATE_DATA),
    VICON_POSITION_ESTIMATE(VICON_POSITION_ESTIMATE_DATA),
    HIGHRES_IMU(HIGHRES_IMU_DATA),
    OPTICAL_FLOW_RAD(OPTICAL_FLOW_RAD_DATA),
    HIL_SENSOR(HIL_SENSOR_DATA),
    SIM_STATE(SIM_STATE_DATA),
    RADIO_STATUS(RADIO_STATUS_DATA),
    FILE_TRANSFER_PROTOCOL(FILE_TRANSFER_PROTOCOL_DATA),
    TIMESYNC(TIMESYNC_DATA),
    CAMERA_TRIGGER(CAMERA_TRIGGER_DATA),
    HIL_GPS(HIL_GPS_DATA),
    HIL_OPTICAL_FLOW(HIL_OPTICAL_FLOW_DATA),
    HIL_STATE_QUATERNION(HIL_STATE_QUATERNION_DATA),
    SCALED_IMU2(SCALED_IMU2_DATA),
    LOG_REQUEST_LIST(LOG_REQUEST_LIST_DATA),
    LOG_ENTRY(LOG_ENTRY_DATA),
    LOG_REQUEST_DATA(LOG_REQUEST_DATA_DATA),
    LOG_DATA(LOG_DATA_DATA),
    LOG_ERASE(LOG_ERASE_DATA),
    LOG_REQUEST_END(LOG_REQUEST_END_DATA),
    GPS_INJECT_DATA(GPS_INJECT_DATA_DATA),
    GPS2_RAW(GPS2_RAW_DATA),
    POWER_STATUS(POWER_STATUS_DATA),
    SERIAL_CONTROL(SERIAL_CONTROL_DATA),
    GPS_RTK(GPS_RTK_DATA),
    GPS2_RTK(GPS2_RTK_DATA),
    SCALED_IMU3(SCALED_IMU3_DATA),
    DATA_TRANSMISSION_HANDSHAKE(DATA_TRANSMISSION_HANDSHAKE_DATA),
    ENCAPSULATED_DATA(ENCAPSULATED_DATA_DATA),
    DISTANCE_SENSOR(DISTANCE_SENSOR_DATA),
    TERRAIN_REQUEST(TERRAIN_REQUEST_DATA),
    TERRAIN_DATA(TERRAIN_DATA_DATA),
    TERRAIN_CHECK(TERRAIN_CHECK_DATA),
    TERRAIN_REPORT(TERRAIN_REPORT_DATA),
    SCALED_PRESSURE2(SCALED_PRESSURE2_DATA),
    ATT_POS_MOCAP(ATT_POS_MOCAP_DATA),
    SET_ACTUATOR_CONTROL_TARGET(SET_ACTUATOR_CONTROL_TARGET_DATA),
    ACTUATOR_CONTROL_TARGET(ACTUATOR_CONTROL_TARGET_DATA),
    ALTITUDE(ALTITUDE_DATA),
    RESOURCE_REQUEST(RESOURCE_REQUEST_DATA),
    SCALED_PRESSURE3(SCALED_PRESSURE3_DATA),
    CONTROL_SYSTEM_STATE(CONTROL_SYSTEM_STATE_DATA),
    BATTERY_STATUS(BATTERY_STATUS_DATA),
    AUTOPILOT_VERSION(AUTOPILOT_VERSION_DATA),
    LANDING_TARGET(LANDING_TARGET_DATA),
    VIBRATION(VIBRATION_DATA),
    HOME_POSITION(HOME_POSITION_DATA),
    SET_HOME_POSITION(SET_HOME_POSITION_DATA),
    MESSAGE_INTERVAL(MESSAGE_INTERVAL_DATA),
    EXTENDED_SYS_STATE(EXTENDED_SYS_STATE_DATA),
    ADSB_VEHICLE(ADSB_VEHICLE_DATA),
    V2_EXTENSION(V2_EXTENSION_DATA),
    MEMORY_VECT(MEMORY_VECT_DATA),
    DEBUG_VECT(DEBUG_VECT_DATA),
    NAMED_VALUE_FLOAT(NAMED_VALUE_FLOAT_DATA),
    NAMED_VALUE_INT(NAMED_VALUE_INT_DATA),
    STATUSTEXT(STATUSTEXT_DATA),
    DEBUG(DEBUG_DATA),
}

impl DkMessage {
    /// The number of payload bytes of the message with this id; `None` for
    /// an id outside the dialect.
    pub open spec fn body_len(id: u8) -> Option<nat> {
        match id {
            0u8 => Some(HEARTBEAT_DATA::wire_len()),
            1u8 => Some(SYS_STATUS_DATA::wire_len()),
            2u8 => Some(SYSTEM_TIME_DATA::wire_len()),
            4u8 => Some(PING_DATA::wire_len()),
            5u8 => Some(CHANGE_OPERATOR_CONTROL_DATA::wire_len()),
            6u8 => Some(CHANGE_OPERATOR_CONTROL_ACK_DATA::wire_len()),
            7u8 => Some(AUTH_KEY_DATA::wire_len()),
            11u8 => Some(SET_MODE_DATA::wire_len()),
            20u8 => Some(PARAM_REQUEST_READ_DATA::wire_len()),
            21u8 => Some(PARAM_REQUEST_LIST_DATA::wire_len()),
            22u8 => Some(PARAM_VALUE_DATA::wire_len()),
            23u8 => Some(PARAM_SET_DATA::wire_len()),
            24u8 => Some(GPS_RAW_INT_DATA::wire_len()),
            25u8 => Some(GPS_STATUS_DATA::wire_len()),
            26u8 => Some(SCALED_IMU_DATA::wire_len()),
            27u8 => Some(RAW_IMU_DATA::wire_len()),
            28u8 => Some(RAW_PRESSURE_DATA::wire_len()),
            29u8 => Some(SCALED_PRESSURE_DATA::wire_len()),
            30u8 => Some(ATTITUDE_DATA::wire_len()),
            31u8 => Some(ATTITUDE_QUATERNION_DATA::wire_len()),
            32u8 => Some(LOCAL_POSITION_NED_DATA::wire_len()),
            33u8 => Some(GLOBAL_POSITION_INT_DATA::wire_len()),
            34u8 => Some(RC_CHANNELS_SCALED_DATA::wire_len()),
            35u8 => Some(RC_CHANNELS_RAW_DATA::wire_len()),
            36u8 => Some(SERVO_OUTPUT_RAW_DATA::wire_len()),
            37u8 => Some(MISSION_REQUEST_PARTIAL_LIST_DATA::wire_len()),
            38u8 => Some(MISSION_WRITE_PARTIAL_LIST_DATA::wire_len()),
            39u8 => Some(MISSION_ITEM_DATA::wire_len()),
            40u8 => Some(MISSION_REQUEST_DATA::wire_len()),
            41u8 => Some(MISSION_SET_CURRENT_DATA::wire_len()),
            42u8 => Some(MISSION_CURRENT_DATA::wire_len()),
            43u8 => Some(MISSION_REQUEST_LIST_DATA::wire_len()),
            44u8 => Some(MISSION_COUNT_DATA::wire_len()),
            45u8 => Some(MISSION_CLEAR_ALL_DATA::wire_len()),
            46u8 => Some(MISSION_ITEM_REACHED_DATA::wire_len()),
            47u8 => Some(MISSION_ACK_DATA::wire_len()),
            48u8 => Some(SET_GPS_GLOBAL_ORIGIN_DATA::wire_len()),
            49u8 => Some(GPS_GLOBAL_ORIGIN_DATA::wire_len()),
            50u8 => Some(PARAM_MAP_RC_DATA::wire_len()),
            54u8 => Some(SAFETY_SET_ALLOWED_AREA_DATA::wire_len()),
            55u8 => Some(SAFETY_ALLOWED_AREA_DATA::wire_len()),
            61u8 => Some(ATTITUDE_QUATERNION_COV_DATA::wire_len()),
            62u8 => Some(NAV_CONTROLLER_OUTPUT_DATA::wire_len()),
            63u8 => Some(GLOBAL_POSITION_INT_COV_DATA::wire_len()),
            64u8 => Some(LOCAL_POSITION_NED_COV_DATA::wire_len()),
            65u8 => Some(RC_CHANNELS_DATA::wire_len()),
            66u8 => Some(REQUEST_DATA_STREAM_DATA::wire_len()),
            67u8 => Some(DATA_STREAM_DATA::wire_len()),
            69u8 => Some(MANUAL_CONTROL_DATA::wire_len()),
            70u8 => Some(RC_CHANNELS_OVERRIDE_DATA::wire_len()),
            73u8 => Some(MISSION_ITEM_INT_DATA::wire_len()),
            74u8 => Some(VFR_HUD_DATA::wire_len()),
            75u8 => Some(COMMAND_INT_DATA::wire_len()),
            76u8 => Some(COMMAND_LONG_DATA::wire_len()),
            77u8 => Some(COMMAND_ACK_DATA::wire_len()),
            81u8 => Some(MANUAL_SETPOINT_DATA::wire_len()),
            82u8 => Some(SET_ATTITUDE_TARGET_DATA::wire_len()),
            83u8 => Some(ATTITUDE_TARGET_DATA::wire_len()),
            84u8 => Some(SET_POSITION_TARGET_LOCAL_NED_DATA::wire_len()),
            85u8 => Some(POSITION_TARGET_LOCAL_NED_DATA::wire_len()),
            86u8 => Some(SET_POSITION_TARGET_GLOBAL_INT_DATA::wire_len()),
            87u8 => Some(POSITION_TARGET_GLOBAL_INT_DATA::wire_len()),
            89u8 => Some(LOCAL_POSITION_NED_SYSTEM_GLOBAL_OFFSET_DATA::wire_len()),
            90u8 => Some(HIL_STATE_DATA::wire_len()),
            91u8 => Some(HIL_CONTROLS_DATA::wire_len()),
            92u8 => Some(HIL_RC_INPUTS_RAW_DATA::wire_len()),
            100u8 => Some(OPTICAL_FLOW_DATA::wire_len()),
            101u8 => Some(GLOBAL_VISION_POSITION_ESTIMATE_DATA::wire_len()),
            102u8 => Some(VISION_POSITION_ESTIMATE_DATA::wire_len()),
            103u8 => Some(VISION_SPEED_ESTIMATE_DATA::wire_len()),
            104u8 => Some(VICON_POSITION_ESTIMATE_DATA::wire_len()),
            105u8 => Some(HIGHRES_IMU_DATA::wire_len()),
            106u8 => Some(OPTICAL_FLOW_RAD_DATA::wire_len()),
            107u8 => Some(HIL_SENSOR_DATA::wire_len()),
            108u8 => Some(SIM_STATE_DATA::wire_len()),
            109u8 => Some(RADIO_STATUS_DATA::wire_len()),
            110u8 => Some(FILE_TRANSFER_PROTOCOL_DATA::wire_len()),
            111u8 => Some(TIMESYNC_DATA::wire_len()),
            112u8 => Some(CAMERA_TRIGGER_DATA::wire_len()),
            113u8 => Some(HIL_GPS_DATA::wire_len()),
            114u8 => Some(HIL_OPTICAL_FLOW_DATA::wire_len()),
            115u8 => Some(HIL_STATE_QUATERNION_DATA::wire_len()),
            116u8 => Some(SCALED_IMU2_DATA::wire_len()),
            117u8 => Some(LOG_REQUEST_LIST_DATA::wire_len()),
            118u8 => Some(LOG_ENTRY_DATA::wire_len()),
            119u8 => Some(LOG_REQUEST_DATA_DATA::wire_len()),
            120u8 => Some(LOG_DATA_DATA::wire_len()),
            121u8 => Some(LOG_ERASE_DATA::wire_len()),
            122u8 => Some(LOG_REQUEST_END_DATA::wire_len()),
            123u8 => Some(GPS_INJECT_DATA_DATA::wire_len()),
            124u8 => Some(GPS2_RAW_DATA::wire_len()),
            125u8 => Some(POWER_STATUS_DATA::wire_len()),
            126u8 => Some(SERIAL_CONTROL_DATA::wire_len()),
            127u8 => Some(GPS_RTK_DATA::wire_len()),
            128u8 => Some(GPS2_RTK_DATA::wire_len()),
            129u8 => Some(SCALED_IMU3_DATA::wire_len()),
            130u8 => Some(DATA_TRANSMISSION_HANDSHAKE_DATA::wire_len()),
            131u8 => Some(ENCAPSULATED_DATA_DATA::wire_len()),
            132u8 => Some(DISTANCE_SENSOR_DATA::wire_len()),
            133u8 => Some(TERRAIN_REQUEST_DATA::wire_len()),
            134u8 => Some(TERRAIN_DATA_DATA::wire_len()),
            135u8 => Some(TERRAIN_CHECK_DATA::wire_len()),
            136u8 => Some(TERRAIN_REPORT_DATA::wire_len()),
            137u8 => Some(SCALED_PRESSURE2_DATA::wire_len()),
            138u8 => Some(ATT_POS_MOCAP_DATA::wire_len()),
            139u8 => Some(SET_ACTUATOR_CONTROL_TARGET_DATA::wire_len()),
            140u8 => Some(ACTUATOR_CONTROL_TARGET_DATA::wire_len()),
            141u8 => Some(ALTITUDE_DATA::wire_len()),
            142u8 => Some(RESOURCE_REQUEST_DATA::wire_len()),
            143u8 => Some(SCALED_PRESSURE3_DATA::wire_len()),
            146u8 => Some(CONTROL_SYSTEM_STATE_DATA::wire_len()),
            147u8 => Some(BATTERY_STATUS_DATA::wire_len()),
            148u8 => Some(AUTOPILOT_VERSION_DATA::wire_len()),
            149u8 => Some(LANDING_TARGET_DATA::wire_len()),
            241u8 => Some(VIBRATION_DATA::wire_len()),
            242u8 => Some(HOME_POSITION_DATA::wire_len()),
            243u8 => Some(SET_HOME_POSITION_DATA::wire_len()),
            244u8 => Some(MESSAGE_INTERVAL_DATA::wire_len()),
            245u8 => Some(EXTENDED_SYS_STATE_DATA::wire_len()),
            246u8 => Some(ADSB_VEHICLE_DATA::wire_len()),
            248u8 => Some(V2_EXTENSION_DATA::wire_len()),
            249u8 => Some(MEMORY_VECT_DATA::wire_len()),
            250u8 => Some(DEBUG_VECT_DATA::wire_len()),
            251u8 => Some(NAMED_VALUE_FLOAT_DATA::wire_len()),
            252u8 => Some(NAMED_VALUE_INT_DATA::wire_len()),
            253u8 => Some(STATUSTEXT_DATA::wire_len()),
            254u8 => Some(DEBUG_DATA::wire_len()),
            _ => None,
        }
    }

    /// The message with this id that the leading bytes of `p` hold. Of use
    /// for an id of the dialect only.
    pub open spec fn spec_body(id: u8, p: Seq<u8>) -> DkMessage {
        match id {
            0u8 => DkMessage::HEARTBEAT(HEARTBEAT_DATA::spec_parse(p)),
            1u8 => DkMessage::SYS_STATUS(SYS_STATUS_DATA::spec_parse(p)),
            2u8 => DkMessage::SYSTEM_TIME(SYSTEM_TIME_DATA::spec_parse(p)),
            4u8 => DkMessage::PING(PING_DATA::spec_parse(p)),
            5u8 => DkMessage::CHANGE_OPERATOR_CONTROL(CHANGE_OPERATOR_CONTROL_DATA::spec_parse(p)),
            6u8 => DkMessage::CHANGE_OPERATOR_CONTROL_ACK(CHANGE_OPERATOR_CONTROL_ACK_DATA::spec_parse(p)),
            7u8 => DkMessage::AUTH_KEY(AUTH_KEY_DATA::spec_parse(p)),
            11u8 => DkMessage::SET_MODE(SET_MODE_DATA::spec_parse(p)),
            20u8 => DkMessage::PARAM_REQUEST_READ(PARAM_REQUEST_READ_DATA::spec_parse(p)),
            21u8 => DkMessage::PARAM_REQUEST_LIST(PARAM_REQUEST_LIST_DATA::spec_parse(p)),
            22u8 => DkMessage::PARAM_VALUE(PARAM_VALUE_DATA::spec_parse(p)),
            23u8 => DkMessage::PARAM_SET(PARAM_SET_DATA::spec_parse(p)),
            24u8 => DkMessage::GPS_RAW_INT(GPS_RAW_INT_DATA::spec_parse(p)),
            25u8 => DkMessage::GPS_STATUS(GPS_STATUS_DATA::spec_parse(p)),
            26u8 => DkMessage::SCALED_IMU(SCALED_IMU_DATA::spec_parse(p)),
            27u8 => DkMessage::RAW_IMU(RAW_IMU_DATA::spec_parse(p)),
            28u8 => DkMessage::RAW_PRESSURE(RAW_PRESSURE_DATA::spec_parse(p)),
            29u8 => DkMessage::SCALED_PRESSURE(SCALED_PRESSURE_DATA::spec_parse(p)),
            30u8 => DkMessage::ATTITUDE(ATTITUDE_DATA::spec_parse(p)),
            31u8 => DkMessage::ATTITUDE_QUATERNION(ATTITUDE_QUATERNION_DATA::spec_parse(p)),
            32u8 => DkMessage::LOCAL_POSITION_NED(LOCAL_POSITION_NED_DATA::spec_parse(p)),
            33u8 => DkMessage::GLOBAL_POSITION_INT(GLOBAL_POSITION_INT_DATA::spec_parse(p)),
            34u8 => DkMessage::RC_CHANNELS_SCALED(RC_CHANNELS_SCALED_DATA::spec_parse(p)),
            35u8 => DkMessage::RC_CHANNELS_RAW(RC_CHANNELS_RAW_DATA::spec_parse(p)),
            36u8 => DkMessage::SERVO_OUTPUT_RAW(SERVO_OUTPUT_RAW_DATA::spec_parse(p)),
            37u8 => DkMessage::MISSION_REQUEST_PARTIAL_LIST(MISSION_REQUEST_PARTIAL_LIST_DATA::spec_parse(p)),
            38u8 => DkMessage::MISSION_WRITE_PARTIAL_LIST(MISSION_WRITE_PARTIAL_LIST_DATA::spec_parse(p)),
            39u8 => DkMessage::MISSION_ITEM(MISSION_ITEM_DATA::spec_parse(p)),
            40u8 => DkMessage::MISSION_REQUEST(MISSION_REQUEST_DATA::spec_parse(p)),
            41u8 => DkMessage::MISSION_SET_CURRENT(MISSION_SET_CURRENT_DATA::spec_parse(p)),
            42u8 => DkMessage::MISSION_CURRENT(MISSION_CURRENT_DATA::spec_parse(p)),
            43u8 => DkMessage::MISSION_REQUEST_LIST(MISSION_REQUEST_LIST_DATA::spec_parse(p)),
            44u8 => DkMessage::MISSION_COUNT(MISSION_COUNT_DATA::spec_parse(p)),
            45u8 => DkMessage::MISSION_CLEAR_ALL(MISSION_CLEAR_ALL_DATA::spec_parse(p)),
            46u8 => DkMessage::MISSION_ITEM_REACHED(MISSION_ITEM_REACHED_DATA::spec_parse(p)),
            47u8 => DkMessage::MISSION_ACK(MISSION_ACK_DATA::spec_parse(p)),
            48u8 => DkMessage::SET_GPS_GLOBAL_ORIGIN(SET_GPS_GLOBAL_ORIGIN_DATA::spec_parse(p)),
            49u8 => DkMessage::GPS_GLOBAL_ORIGIN(GPS_GLOBAL_ORIGIN_DATA::spec_parse(p)),
            50u8 => DkMessage::PARAM_MAP_RC(PARAM_MAP_RC_DATA::spec_parse(p)),
            54u8 => DkMessage::SAFETY_SET_ALLOWED_AREA(SAFETY_SET_ALLOWED_AREA_DATA::spec_parse(p)),
            55u8 => DkMessage::SAFETY_ALLOWED_AREA(SAFETY_ALLOWED_AREA_DATA::spec_parse(p)),
            61u8 => DkMessage::ATTITUDE_QUATERNION_COV(ATTITUDE_QUATERNION_COV_DATA::spec_parse(p)),
            62u8 => DkMessage::NAV_CONTROLLER_OUTPUT(NAV_CONTROLLER_OUTPUT_DATA::spec_parse(p)),
            63u8 => DkMessage::GLOBAL_POSITION_INT_COV(GLOBAL_POSITION_INT_COV_DATA::spec_parse(p)),
            64u8 => DkMessage::LOCAL_POSITION_NED_COV(LOCAL_POSITION_NED_COV_DATA::spec_parse(p)),
            65u8 => DkMessage::RC_CHANNELS(RC_CHANNELS_DATA::spec_parse(p)),
            66u8 => DkMessage::REQUEST_DATA_STREAM(REQUEST_DATA_STREAM_DATA::spec_parse(p)),
            67u8 => DkMessage::DATA_STREAM(DATA_STREAM_DATA::spec_parse(p)),
            69u8 => DkMessage::MANUAL_CONTROL(MANUAL_CONTROL_DATA::spec_parse(p)),
            70u8 => DkMessage::RC_CHANNELS_OVERRIDE(RC_CHANNELS_OVERRIDE_DATA::spec_parse(p)),
            73u8 => DkMessage::MISSION_ITEM_INT(MISSION_ITEM_INT_DATA::spec_parse(p)),
            74u8 => DkMessage::VFR_HUD(VFR_HUD_DATA::spec_parse(p)),
            75u8 => DkMessage::COMMAND_INT(COMMAND_INT_DATA::spec_parse(p)),
            76u8 => DkMessage::COMMAND_LONG(COMMAND_LONG_DATA::spec_parse(p)),
            77u8 => DkMessage::COMMAND_ACK(COMMAND_ACK_DATA::spec_parse(p)),
            81u8 => DkMessage::MANUAL_SETPOINT(MANUAL_SETPOINT_DATA::spec_parse(p)),
            82u8 => DkMessage::SET_ATTITUDE_TARGET(SET_ATTITUDE_TARGET_DATA::spec_parse(p)),
            83u8 => DkMessage::ATTITUDE_TARGET(ATTITUDE_TARGET_DATA::spec_parse(p)),
            84u8 => DkMessage::SET_POSITION_TARGET_LOCAL_NED(SET_POSITION_TARGET_LOCAL_NED_DATA::spec_parse(p)),
            85u8 => DkMessage::POSITION_TARGET_LOCAL_NED(POSITION_TARGET_LOCAL_NED_DATA::spec_parse(p)),
            86u8 => DkMessage::SET_POSITION_TARGET_GLOBAL_INT(SET_POSITION_TARGET_GLOBAL_INT_DATA::spec_parse(p)),
            87u8 => DkMessage::POSITION_TARGET_GLOBAL_INT(POSITION_TARGET_GLOBAL_INT_DATA::spec_parse(p)),
            89u8 => DkMessage::LOCAL_POSITION_NED_SYSTEM_GLOBAL_OFFSET(LOCAL_POSITION_NED_SYSTEM_GLOBAL_OFFSET_DATA::spec_parse(p)),
            90u8 => DkMessage::HIL_STATE(HIL_STATE_DATA::spec_parse(p)),
            91u8 => DkMessage::HIL_CONTROLS(HIL_CONTROLS_DATA::spec_parse(p)),
            92u8 => DkMessage::HIL_RC_INPUTS_RAW(HIL_RC_INPUTS_RAW_DATA::spec_parse(p)),
            100u8 => DkMessage::OPTICAL_FLOW(OPTICAL_FLOW_DATA::spec_parse(p)),
            101u8 => DkMessage::GLOBAL_VISION_POSITION_ESTIMATE(GLOBAL_VISION_POSITION_ESTIMATE_DATA::spec_parse(p)),
            102u8 => DkMessage::VISION_POSITION_ESTIMATE(VISION_POSITION_ESTIMATE_DATA::spec_parse(p)),
            103u8 => DkMessage::VISION_SPEED_ESTIMATE(VISION_SPEED_ESTIMATE_DATA::spec_parse(p)),
            104u8 => DkMessage::VICON_POSITION_ESTIMATE(VICON_POSITION_ESTIMATE_DATA::spec_parse(p)),
            105u8 => DkMessage::HIGHRES_IMU(HIGHRES_IMU_DATA::spec_parse(p)),
            106u8 => DkMessage::OPTICAL_FLOW_RAD(OPTICAL_FLOW_RAD_DATA::spec_parse(p)),
            107u8 => DkMessage::HIL_SENSOR(HIL_SENSOR_DATA::spec_parse(p)),
            108u8 => DkMessage::SIM_STATE(SIM_STATE_DATA::spec_parse(p)),
            109u8 => DkMessage::RADIO_STATUS(RADIO_STATUS_DATA::spec_parse(p)),
            110u8 => DkMessage::FILE_TRANSFER_PROTOCOL(FILE_TRANSFER_PROTOCOL_DATA::spec_parse(p)),
            111u8 => DkMessage::TIMESYNC(TIMESYNC_DATA::spec_parse(p)),
            112u8 => DkMessage::CAMERA_TRIGGER(CAMERA_TRIGGER_DATA::spec_parse(p)),
            113u8 => DkMessage::HIL_GPS(HIL_GPS_DATA::spec_parse(p)),
            114u8 => DkMessage::HIL_OPTICAL_FLOW(HIL_OPTICAL_FLOW_DATA::spec_parse(p)),
            115u8 => DkMessage::HIL_STATE_QUATERNION(HIL_STATE_QUATERNION_DATA::spec_parse(p)),
            116u8 => DkMessage::SCALED_IMU2(SCALED_IMU2_DATA::spec_parse(p)),
            117u8 => DkMessage::LOG_REQUEST_LIST(LOG_REQUEST_LIST_DATA::spec_parse(p)),
            118u8 => DkMessage::LOG_ENTRY(LOG_ENTRY_DATA::spec_parse(p)),
            119u8 => DkMessage::LOG_REQUEST_DATA(LOG_REQUEST_DATA_DATA::spec_parse(p)),
            120u8 => DkMessage::LOG_DATA(LOG_DATA_DATA::spec_parse(p)),
            121u8 => DkMessage::LOG_ERASE(LOG_ERASE_DATA::spec_parse(p)),
            122u8 => DkMessage::LOG_REQUEST_END(LOG_REQUEST_END_DATA::spec_parse(p)),
            123u8 => DkMessage::GPS_INJECT_DATA(GPS_INJECT_DATA_DATA::spec_parse(p)),
            124u8 => DkMessage::GPS2_RAW(GPS2_RAW_DATA::spec_parse(p)),
            125u8 => DkMessage::POWER_STATUS(POWER_STATUS_DATA::spec_parse(p)),
            126u8 => DkMessage::SERIAL_CONTROL(SERIAL_CONTROL_DATA::spec_parse(p)),
            127u8 => DkMessage::GPS_RTK(GPS_RTK_DATA::spec_parse(p)),
            128u8 => DkMessage::GPS2_RTK(GPS2_RTK_DATA::spec_parse(p)),
            129u8 => DkMessage::SCALED_IMU3(SCALED_IMU3_DATA::spec_parse(p)),
            130u8 => DkMessage::DATA_TRANSMISSION_HANDSHAKE(DATA_TRANSMISSION_HANDSHAKE_DATA::spec_parse(p)),
            131u8 => DkMessage::ENCAPSULATED_DATA(ENCAPSULATED_DATA_DATA::spec_parse(p)),
            132u8 => DkMessage::DISTANCE_SENSOR(DISTANCE_SENSOR_DATA::spec_parse(p)),
            133u8 => DkMessage::TERRAIN_REQUEST(TERRAIN_REQUEST_DATA::spec_parse(p)),
            134u8 => DkMessage::TERRAIN_DATA(TERRAIN_DATA_DATA::spec_parse(p)),
            135u8 => DkMessage::TERRAIN_CHECK(TERRAIN_CHECK_DATA::spec_parse(p)),
            136u8 => DkMessage::TERRAIN_REPORT(TERRAIN_REPORT_DATA::spec_parse(p)),
            137u8 => DkMessage::SCALED_PRESSURE2(SCALED_PRESSURE2_DATA::spec_parse(p)),
            138u8 => DkMessage::ATT_POS_MOCAP(ATT_POS_MOCAP_DATA::spec_parse(p)),
            139u8 => DkMessage::SET_ACTUATOR_CONTROL_TARGET(SET_ACTUATOR_CONTROL_TARGET_DATA::spec_parse(p)),
            140u8 => DkMessage::ACTUATOR_CONTROL_TARGET(ACTUATOR_CONTROL_TARGET_DATA::spec_parse(p)),
            141u8 => DkMessage::ALTITUDE(ALTITUDE_DATA::spec_parse(p)),
            142u8 => DkMessage::RESOURCE_REQUEST(RESOURCE_REQUEST_DATA::spec_parse(p)),
            143u8 => DkMessage::SCALED_PRESSURE3(SCALED_PRESSURE3_DATA::spec_parse(p)),
            146u8 => DkMessage::CONTROL_SYSTEM_STATE(CONTROL_SYSTEM_STATE_DATA::spec_parse(p)),
            147u8 => DkMessage::BATTERY_STATUS(BATTERY_STATUS_DATA::spec_parse(p)),
            148u8 => DkMessage::AUTOPILOT_VERSION(AUTOPILOT_VERSION_DATA::spec_parse(p)),
            149u8 => DkMessage::LANDING_TARGET(LANDING_TARGET_DATA::spec_parse(p)),
            241u8 => DkMessage::VIBRATION(VIBRATION_DATA::spec_parse(p)),
            242u8 => DkMessage::HOME_POSITION(HOME_POSITION_DATA::spec_parse(p)),
            243u8 => DkMessage::SET_HOME_POSITION(SET_HOME_POSITION_DATA::spec_parse(p)),
            244u8 => DkMessage::MESSAGE_INTERVAL(MESSAGE_INTERVAL_DATA::spec_parse(p)),
            245u8 => DkMessage::EXTENDED_SYS_STATE(EXTENDED_SYS_STATE_DATA::spec_parse(p)),
            246u8 => DkMessage::ADSB_VEHICLE(ADSB_VEHICLE_DATA::spec_parse(p)),
            248u8 => DkMessage::V2_EXTENSION(V2_EXTENSION_DATA::spec_parse(p)),
            249u8 => DkMessage::MEMORY_VECT(MEMORY_VECT_DATA::spec_parse(p)),
            250u8 => DkMessage::DEBUG_VECT(DEBUG_VECT_DATA::spec_parse(p)),
            251u8 => DkMessage::NAMED_VALUE_FLOAT(NAMED_VALUE_FLOAT_DATA::spec_parse(p)),
            252u8 => DkMessage::NAMED_VALUE_INT(NAMED_VALUE_INT_DATA::spec_parse(p)),
            253u8 => DkMessage::STATUSTEXT(STATUSTEXT_DATA::spec_parse(p)),
            _ => DkMessage::DEBUG(DEBUG_DATA::spec_parse(p)),
        }
    }

    /// What `parse` returns: the message, where the id is of the dialect and
    /// the payload holds the whole body.
    pub open spec fn spec_parse(id: u8, p: Seq<u8>) -> Option<DkMessage> {
        match Self::body_len(id) {
            Some(n) if p.len() >= n => Some(Self::spec_body(id, p)),
            _ => None,
        }
    }

    /// The id of the message.
    pub open spec fn spec_message_id(&self) -> u8 {
        match self {
            DkMessage::HEARTBEAT(_) => 0,
            DkMessage::SYS_STATUS(_) => 1,
            DkMessage::SYSTEM_TIME(_) => 2,
            DkMessage::PING(_) => 4,
            DkMessage::CHANGE_OPERATOR_CONTROL(_) => 5,
            DkMessage::CHANGE_OPERATOR_CONTROL_ACK(_) => 6,
            DkMessage::AUTH_KEY(_) => 7,
            DkMessage::SET_MODE(_) => 11,
            DkMessage::PARAM_REQUEST_READ(_) => 20,
            DkMessage::PARAM_REQUEST_LIST(_) => 21,
            DkMessage::PARAM_VALUE(_) => 22,
            DkMessage::PARAM_SET(_) => 23,
            DkMessage::GPS_RAW_INT(_) => 24,
            DkMessage::GPS_STATUS(_) => 25,
            DkMessage::SCALED_IMU(_) => 26,
            DkMessage::RAW_IMU(_) => 27,
            DkMessage::RAW_PRESSURE(_) => 28,
            DkMessage::SCALED_PRESSURE(_) => 29,
            DkMessage::ATTITUDE(_) => 30,
            DkMessage::ATTITUDE_QUATERNION(_) => 31,
            DkMessage::LOCAL_POSITION_NED(_) => 32,
            DkMessage::GLOBAL_POSITION_INT(_) => 33,
            DkMessage::RC_CHANNELS_SCALED(_) => 34,
            DkMessage::RC_CHANNELS_RAW(_) => 35,
            DkMessage::SERVO_OUTPUT_RAW(_) => 36,
            DkMessage::MISSION_REQUEST_PARTIAL_LIST(_) => 37,
            DkMessage::MISSION_WRITE_PARTIAL_LIST(_) => 38,
            DkMessage::MISSION_ITEM(_) => 39,
            DkMessage::MISSION_REQUEST(_) => 40,
            DkMessage::MISSION_SET_CURRENT(_) => 41,
            DkMessage::MISSION_CURRENT(_) => 42,
            DkMessage::MISSION_REQUEST_LIST(_) => 43,
            DkMessage::MISSION_COUNT(_) => 44,
            DkMessage::MISSION_CLEAR_ALL(_) => 45,
            DkMessage::MISSION_ITEM_REACHED(_) => 46,
            DkMessage::MISSION_ACK(_) => 47,
            DkMessage::SET_GPS_GLOBAL_ORIGIN(_) => 48,
            DkMessage::GPS_GLOBAL_ORIGIN(_) => 49,
            DkMessage::PARAM_MAP_RC(_) => 50,
            DkMessage::SAFETY_SET_ALLOWED_AREA(_) => 54,
            DkMessage::SAFETY_ALLOWED_AREA(_) => 55,
            DkMessage::ATTITUDE_QUATERNION_COV(_) => 61,
            DkMessage::NAV_CONTROLLER_OUTPUT(_) => 62,
            DkMessage::GLOBAL_POSITION_INT_COV(_) => 63,
            DkMessage::LOCAL_POSITION_NED_COV(_) => 64,
            DkMessage::RC_CHANNELS(_) => 65,
            DkMessage::REQUEST_DATA_STREAM(_) => 66,
            DkMessage::DATA_STREAM(_) => 67,
            DkMessage::MANUAL_CONTROL(_) => 69,
            DkMessage::RC_CHANNELS_OVERRIDE(_) => 70,
            DkMessage::MISSION_ITEM_INT(_) => 73,
            DkMessage::VFR_HUD(_) => 74,
            DkMessage::COMMAND_INT(_) => 75,
            DkMessage::COMMAND_LONG(_) => 76,
            DkMessage::COMMAND_ACK(_) => 77,
            DkMessage::MANUAL_SETPOINT(_) => 81,
            DkMessage::SET_ATTITUDE_TARGET(_) => 82,
            DkMessage::ATTITUDE_TARGET(_) => 83,
            DkMessage::SET_POSITION_TARGET_LOCAL_NED(_) => 84,
            DkMessage::POSITION_TARGET_LOCAL_NED(_) => 85,
            DkMessage::SET_POSITION_TARGET_GLOBAL_INT(_) => 86,
            DkMessage::POSITION_TARGET_GLOBAL_INT(_) => 87,
            DkMessage::LOCAL_POSITION_NED_SYSTEM_GLOBAL_OFFSET(_) => 89,
            DkMessage::HIL_STATE(_) => 90,
            DkMessage::HIL_CONTROLS(_) => 91,
            DkMessage::HIL_RC_INPUTS_RAW(_) => 92,
            DkMessage::OPTICAL_FLOW(_) => 100,
            DkMessage::GLOBAL_VISION_POSITION_ESTIMATE(_) => 101,
            DkMessage::VISION_POSITION_ESTIMATE(_) => 102,
            DkMessage::VISION_SPEED_ESTIMATE(_) => 103,
            DkMessage::VICON_POSITION_ESTIMATE(_) => 104,
            DkMessage::HIGHRES_IMU(_) => 105,
            DkMessage::OPTICAL_FLOW_RAD(_) => 106,
            DkMessage::HIL_SENSOR(_) => 107,
            DkMessage::SIM_STATE(_) => 108,
            DkMessage::RADIO_STATUS(_) => 109,
            DkMessage::FILE_TRANSFER_PROTOCOL(_) => 110,
            DkMessage::TIMESYNC(_) => 111,
            DkMessage::CAMERA_TRIGGER(_) => 112,
            DkMessage::HIL_GPS(_) => 113,
            DkMessage::HIL_OPTICAL_FLOW(_) => 114,
            DkMessage::HIL_STATE_QUATERNION(_) => 115,
            DkMessage::SCALED_IMU2(_) => 116,
            DkMessage::LOG_REQUEST_LIST(_) => 117,
            DkMessage::LOG_ENTRY(_) => 118,
            DkMessage::LOG_REQUEST_DATA(_) => 119,
            DkMessage::LOG_DATA(_) => 120,
            DkMessage::LOG_ERASE(_) => 121,
            DkMessage::LOG_REQUEST_END(_) => 122,
            DkMessage::GPS_INJECT_DATA(_) => 123,
            DkMessage::GPS2_RAW(_) => 124,
            DkMessage::POWER_STATUS(_) => 125,
            DkMessage::SERIAL_CONTROL(_) => 126,
            DkMessage::GPS_RTK(_) => 127,
            DkMessage::GPS2_RTK(_) => 128,
            DkMessage::SCALED_IMU3(_) => 129,
            DkMessage::DATA_TRANSMISSION_HANDSHAKE(_) => 130,
            DkMessage::ENCAPSULATED_DATA(_) => 131,
            DkMessage::DISTANCE_SENSOR(_) => 132,
            DkMessage::TERRAIN_REQUEST(_) => 133,
            DkMessage::TERRAIN_DATA(_) => 134,
            DkMessage::TERRAIN_CHECK(_) => 135,
            DkMessage::TERRAIN_REPORT(_) => 136,
            DkMessage::SCALED_PRESSURE2(_) => 137,
            DkMessage::ATT_POS_MOCAP(_) => 138,
            DkMessage::SET_ACTUATOR_CONTROL_TARGET(_) => 139,
            DkMessage::ACTUATOR_CONTROL_TARGET(_) => 140,
            DkMessage::ALTITUDE(_) => 141,
            DkMessage::RESOURCE_REQUEST(_) => 142,
            DkMessage::SCALED_PRESSURE3(_) => 143,
            DkMessage::CONTROL_SYSTEM_STATE(_) => 146,
            DkMessage::BATTERY_STATUS(_) => 147,
            DkMessage::AUTOPILOT_VERSION(_) => 148,
            DkMessage::LANDING_TARGET(_) => 149,
            DkMessage::VIBRATION(_) => 241,
            DkMessage::HOME_POSITION(_) => 242,
            DkMessage::SET_HOME_POSITION(_) => 243,
            DkMessage::MESSAGE_INTERVAL(_) => 244,
            DkMessage::EXTENDED_SYS_STATE(_) => 245,
            DkMessage::ADSB_VEHICLE(_) => 246,
            DkMessage::V2_EXTENSION(_) => 248,
            DkMessage::MEMORY_VECT(_) => 249,
            DkMessage::DEBUG_VECT(_) => 250,
            DkMessage::NAMED_VALUE_FLOAT(_) => 251,
            DkMessage::NAMED_VALUE_INT(_) => 252,
            DkMessage::STATUSTEXT(_) => 253,
            DkMessage::DEBUG(_) => 254,
        }
    }

    /// The byte that stands for the schema of the message with this id in
    /// a frame's checksum; 0 for an id outside the dialect.
    pub open spec fn spec_extra_crc(id: u8) -> u8 {
        match id {
            0u8 => 50,
            1u8 => 124,
            2u8 => 137,
            4u8 => 237,
            5u8 => 217,
            6u8 => 104,
            7u8 => 119,
            11u8 => 89,
            20u8 => 214,
            21u8 => 159,
            22u8 => 220,
            23u8 => 168,
            24u8 => 24,
            25u8 => 23,
            26u8 => 170,
            27u8 => 144,
            28u8 => 67,
            29u8 => 115,
            30u8 => 39,
            31u8 => 246,
            32u8 => 185,
            33u8 => 104,
            34u8 => 237,
            35u8 => 244,
            36u8 => 222,
            37u8 => 212,
            38u8 => 9,
            39u8 => 254,
            40u8 => 230,
            41u8 => 28,
            42u8 => 28,
            43u8 => 132,
            44u8 => 221,
            45u8 => 232,
            46u8 => 11,
            47u8 => 153,
            48u8 => 41,
            49u8 => 39,
            50u8 => 78,
            54u8 => 15,
            55u8 => 3,
            61u8 => 153,
            62u8 => 183,
            63u8 => 51,
            64u8 => 59,
            65u8 => 118,
            66u8 => 148,
            67u8 => 21,
            69u8 => 243,
            70u8 => 124,
            73u8 => 38,
            74u8 => 20,
            75u8 => 158,
            76u8 => 152,
            77u8 => 143,
            81u8 => 106,
            82u8 => 49,
            83u8 => 22,
            84u8 => 143,
            85u8 => 140,
            86u8 => 5,
            87u8 => 150,
            89u8 => 231,
            90u8 => 183,
            91u8 => 63,
            92u8 => 54,
            100u8 => 175,
            101u8 => 102,
            102u8 => 158,
            103u8 => 208,
            104u8 => 56,
            105u8 => 93,
            106u8 => 138,
            107u8 => 108,
            108u8 => 32,
            109u8 => 185,
            110u8 => 84,
            111u8 => 34,
            112u8 => 174,
            113u8 => 124,
            114u8 => 237,
            115u8 => 4,
            116u8 => 76,
            117u8 => 128,
            118u8 => 56,
            119u8 => 116,
            120u8 => 134,
            121u8 => 237,
            122u8 => 203,
            123u8 => 250,
            124u8 => 87,
            125u8 => 203,
            126u8 => 220,
            127u8 => 25,
            128u8 => 226,
            129u8 => 46,
            130u8 => 29,
            131u8 => 223,
            132u8 => 85,
            133u8 => 6,
            134u8 => 229,
            135u8 => 203,
            136u8 => 1,
            137u8 => 195,
            138u8 => 109,
            139u8 => 168,
            140u8 => 181,
            141u8 => 47,
            142u8 => 72,
            143u8 => 131,
            146u8 => 103,
            147u8 => 154,
            148u8 => 178,
            149u8 => 200,
            241u8 => 90,
            242u8 => 104,
            243u8 => 85,
            244u8 => 95,
            245u8 => 130,
            246u8 => 210,
            248u8 => 8,
            249u8 => 204,
            250u8 => 49,
            251u8 => 170,
            252u8 => 44,
            253u8 => 83,
            254u8 => 46,
            _ => 0,
        }
    }

    /// The payload bytes of the message.
    pub open spec fn spec_serialize(&self) -> Seq<u8> {
        match self {
            DkMessage::HEARTBEAT(body) => body.spec_serialize(),
            DkMessage::SYS_STATUS(body) => body.spec_serialize(),
            DkMessage::SYSTEM_TIME(body) => body.spec_serialize(),
            DkMessage::PING(body) => body.spec_serialize(),
            DkMessage::CHANGE_OPERATOR_CONTROL(body) => body.spec_serialize(),
            DkMessage::CHANGE_OPERATOR_CONTROL_ACK(body) => body.spec_serialize(),
            DkMessage::AUTH_KEY(body) => body.spec_serialize(),
            DkMessage::SET_MODE(body) => body.spec_serialize(),
            DkMessage::PARAM_REQUEST_READ(body) => body.spec_serialize(),
            DkMessage::PARAM_REQUEST_LIST(body) => body.spec_serialize(),
            DkMessage::PARAM_VALUE(body) => body.spec_serialize(),
            DkMessage::PARAM_SET(body) => body.spec_serialize(),
            DkMessage::GPS_RAW_INT(body) => body.spec_serialize(),
            DkMessage::GPS_STATUS(body) => body.spec_serialize(),
            DkMessage::SCALED_IMU(body) => body.spec_serialize(),
            DkMessage::RAW_IMU(body) => body.spec_serialize(),
            DkMessage::RAW_PRESSURE(body) => body.spec_serialize(),
            DkMessage::SCALED_PRESSURE(body) => body.spec_serialize(),
            DkMessage::ATTITUDE(body) => body.spec_serialize(),
            DkMessage::ATTITUDE_QUATERNION(body) => body.spec_serialize(),
            DkMessage::LOCAL_POSITION_NED(body) => body.spec_serialize(),
            DkMessage::GLOBAL_POSITION_INT(body) => body.spec_serialize(),
            DkMessage::RC_CHANNELS_SCALED(body) => body.spec_serialize(),
            DkMessage::RC_CHANNELS_RAW(body) => body.spec_serialize(),
            DkMessage::SERVO_OUTPUT_RAW(body) => body.spec_serialize(),
            DkMessage::MISSION_REQUEST_PARTIAL_LIST(body) => body.spec_serialize(),
            DkMessage::MISSION_WRITE_PARTIAL_LIST(body) => body.spec_serialize(),
            DkMessage::MISSION_ITEM(body) => body.spec_serialize(),
            DkMessage::MISSION_REQUEST(body) => body.spec_serialize(),
            DkMessage::MISSION_SET_CURRENT(body) => body.spec_serialize(),
            DkMessage::MISSION_CURRENT(body) => body.spec_serialize(),
            DkMessage::MISSION_REQUEST_LIST(body) => body.spec_serialize(),
            DkMessage::MISSION_COUNT(body) => body.spec_serialize(),
            DkMessage::MISSION_CLEAR_ALL(body) => body.spec_serialize(),
            DkMessage::MISSION_ITEM_REACHED(body) => body.spec_serialize(),
            DkMessage::MISSION_ACK(body) => body.spec_serialize(),
            DkMessage::SET_GPS_GLOBAL_ORIGIN(body) => body.spec_serialize(),
            DkMessage::GPS_GLOBAL_ORIGIN(body) => body.spec_serialize(),
            DkMessage::PARAM_MAP_RC(body) => body.spec_serialize(),
            DkMessage::SAFETY_SET_ALLOWED_AREA(body) => body.spec_serialize(),
            DkMessage::SAFETY_ALLOWED_AREA(body) => body.spec_serialize(),
            DkMessage::ATTITUDE_QUATERNION_COV(body) => body.spec_serialize(),
            DkMessage::NAV_CONTROLLER_OUTPUT(body) => body.spec_serialize(),
            DkMessage::GLOBAL_POSITION_INT_COV(body) => body.spec_serialize(),
            DkMessage::LOCAL_POSITION_NED_COV(body) => body.spec_serialize(),
            DkMessage::RC_CHANNELS(body) => body.spec_serialize(),
            DkMessage::REQUEST_DATA_STREAM(body) => body.spec_serialize(),
            DkMessage::DATA_STREAM(body) => body.spec_serialize(),
            DkMessage::MANUAL_CONTROL(body) => body.spec_serialize(),
            DkMessage::RC_CHANNELS_OVERRIDE(body) => body.spec_serialize(),
            DkMessage::MISSION_ITEM_INT(body) => body.spec_serialize(),
            DkMessage::VFR_HUD(body) => body.spec_serialize(),
            DkMessage::COMMAND_INT(body) => body.spec_serialize(),
            DkMessage::COMMAND_LONG(body) => body.spec_serialize(),
            DkMessage::COMMAND_ACK(body) => body.spec_serialize(),
            DkMessage::MANUAL_SETPOINT(body) => body.spec_serialize(),
            DkMessage::SET_ATTITUDE_TARGET(body) => body.spec_serialize(),
            DkMessage::ATTITUDE_TARGET(body) => body.spec_serialize(),
            DkMessage::SET_POSITION_TARGET_LOCAL_NED(body) => body.spec_serialize(),
            DkMessage::POSITION_TARGET_LOCAL_NED(body) => body.spec_serialize(),
            DkMessage::SET_POSITION_TARGET_GLOBAL_INT(body) => body.spec_serialize(),
            DkMessage::POSITION_TARGET_GLOBAL_INT(body) => body.spec_serialize(),
            DkMessage::LOCAL_POSITION_NED_SYSTEM_GLOBAL_OFFSET(body) => body.spec_serialize(),
            DkMessage::HIL_STATE(body) => body.spec_serialize(),
            DkMessage::HIL_CONTROLS(body) => body.spec_serialize(),
            DkMessage::HIL_RC_INPUTS_RAW(body) => body.spec_serialize(),
            DkMessage::OPTICAL_FLOW(body) => body.spec_serialize(),
            DkMessage::GLOBAL_VISION_POSITION_ESTIMATE(body) => body.spec_serialize(),
            DkMessage::VISION_POSITION_ESTIMATE(body) => body.spec_serialize(),
            DkMessage::VISION_SPEED_ESTIMATE(body) => body.spec_serialize(),
            DkMessage::VICON_POSITION_ESTIMATE(body) => body.spec_serialize(),
            DkMessage::HIGHRES_IMU(body) => body.spec_serialize(),
            DkMessage::OPTICAL_FLOW_RAD(body) => body.spec_serialize(),
            DkMessage::HIL_SENSOR(body) => body.spec_serialize(),
            DkMessage::SIM_STATE(body) => body.spec_serialize(),
            DkMessage::RADIO_STATUS(body) => body.spec_serialize(),
            DkMessage::FILE_TRANSFER_PROTOCOL(body) => body.spec_serialize(),
            DkMessage::TIMESYNC(body) => body.spec_serialize(),
            DkMessage::CAMERA_TRIGGER(body) => body.spec_serialize(),
            DkMessage::HIL_GPS(body) => body.spec_serialize(),
            DkMessage::HIL_OPTICAL_FLOW(body) => body.spec_serialize(),
            DkMessage::HIL_STATE_QUATERNION(body) => body.spec_serialize(),
            DkMessage::SCALED_IMU2(body) => body.spec_serialize(),
            DkMessage::LOG_REQUEST_LIST(body) => body.spec_serialize(),
            DkMessage::LOG_ENTRY(body) => body.spec_serialize(),
            DkMessage::LOG_REQUEST_DATA(body) => body.spec_serialize(),
            DkMessage::LOG_DATA(body) => body.spec_serialize(),
            DkMessage::LOG_ERASE(body) => body.spec_serialize(),
            DkMessage::LOG_REQUEST_END(body) => body.spec_serialize(),
            DkMessage::GPS_INJECT_DATA(body) => body.spec_serialize(),
            DkMessage::GPS2_RAW(body) => body.spec_serialize(),
            DkMessage::POWER_STATUS(body) => body.spec_serialize(),
            DkMessage::SERIAL_CONTROL(body) => body.spec_serialize(),
            DkMessage::GPS_RTK(body) => body.spec_serialize(),
            DkMessage::GPS2_RTK(body) => body.spec_serialize(),
            DkMessage::SCALED_IMU3(body) => body.spec_serialize(),
            DkMessage::DATA_TRANSMISSION_HANDSHAKE(body) => body.spec_serialize(),
            DkMessage::ENCAPSULATED_DATA(body) => body.spec_serialize(),
            DkMessage::DISTANCE_SENSOR(body) => body.spec_serialize(),
            DkMessage::TERRAIN_REQUEST(body) => body.spec_serialize(),
            DkMessage::TERRAIN_DATA(body) => body.spec_serialize(),
            DkMessage::TERRAIN_CHECK(body) => body.spec_serialize(),
            DkMessage::TERRAIN_REPORT(body) => body.spec_serialize(),
            DkMessage::SCALED_PRESSURE2(body) => body.spec_serialize(),
            DkMessage::ATT_POS_MOCAP(body) => body.spec_serialize(),
            DkMessage::SET_ACTUATOR_CONTROL_TARGET(body) => body.spec_serialize(),
            DkMessage::ACTUATOR_CONTROL_TARGET(body) => body.spec_serialize(),
            DkMessage::ALTITUDE(body) => body.spec_serialize(),
            DkMessage::RESOURCE_REQUEST(body) => body.spec_serialize(),
            DkMessage::SCALED_PRESSURE3(body) => body.spec_serialize(),
            DkMessage::CONTROL_SYSTEM_STATE(body) => body.spec_serialize(),
            DkMessage::BATTERY_STATUS(body) => body.spec_serialize(),
            DkMessage::AUTOPILOT_VERSION(body) => body.spec_serialize(),
            DkMessage::LANDING_TARGET(body) => body.spec_serialize(),
            DkMessage::VIBRATION(body) => body.spec_serialize(),
            DkMessage::HOME_POSITION(body) => body.spec_serialize(),
            DkMessage::SET_HOME_POSITION(body) => body.spec_serialize(),
            DkMessage::MESSAGE_INTERVAL(body) => body.spec_serialize(),
            DkMessage::EXTENDED_SYS_STATE(body) => body.spec_serialize(),
            DkMessage::ADSB_VEHICLE(body) => body.spec_serialize(),
            DkMessage::V2_EXTENSION(body) => body.spec_serialize(),
            DkMessage::MEMORY_VECT(body) => body.spec_serialize(),
            DkMessage::DEBUG_VECT(body) => body.spec_serialize(),
            DkMessage::NAMED_VALUE_FLOAT(body) => body.spec_serialize(),
            DkMessage::NAMED_VALUE_INT(body) => body.spec_serialize(),
            DkMessage::STATUSTEXT(body) => body.spec_serialize(),
            DkMessage::DEBUG(body) => body.spec_serialize(),
        }
    }

    /// Decodes the payload of a frame by its message id. `None` for an id
    /// outside the dialect, and for a payload shorter than the body.
    pub fn parse(id: u8, payload: &[u8]) -> (r: Option<DkMessage>)
        ensures
            r == Self::spec_parse(id, payload@),
    {
        let n = payload.len();
        match id {
            0 => if n >= 9 {
                Some(DkMessage::HEARTBEAT(HEARTBEAT_DATA::parse(payload)))
            } else {
                None
            },
            1 => if n >= 31 {
                Some(DkMessage::SYS_STATUS(SYS_STATUS_DATA::parse(payload)))
            } else {
                None
            },
            2 => if n >= 12 {
                Some(DkMessage::SYSTEM_TIME(SYSTEM_TIME_DATA::parse(payload)))
            } else {
                None
            },
            4 => if n >= 14 {
                Some(DkMessage::PING(PING_DATA::parse(payload)))
            } else {
                None
            },
            5 => if n >= 28 {
                Some(DkMessage::CHANGE_OPERATOR_CONTROL(CHANGE_OPERATOR_CONTROL_DATA::parse(payload)))
            } else {
                None
            },
            6 => if n >= 3 {
                Some(DkMessage::CHANGE_OPERATOR_CONTROL_ACK(CHANGE_OPERATOR_CONTROL_ACK_DATA::parse(payload)))
            } else {
                None
            },
            7 => if n >= 32 {
                Some(DkMessage::AUTH_KEY(AUTH_KEY_DATA::parse(payload)))
            } else {
                None
            },
            11 => if n >= 6 {
                Some(DkMessage::SET_MODE(SET_MODE_DATA::parse(payload)))
            } else {
                None
            },
            20 => if n >= 20 {
                Some(DkMessage::PARAM_REQUEST_READ(PARAM_REQUEST_READ_DATA::parse(payload)))
            } else {
                None
            },
            21 => if n >= 2 {
                Some(DkMessage::PARAM_REQUEST_LIST(PARAM_REQUEST_LIST_DATA::parse(payload)))
            } else {
                None
            },
            22 => if n >= 25 {
                Some(DkMessage::PARAM_VALUE(PARAM_VALUE_DATA::parse(payload)))
            } else {
                None
            },
            23 => if n >= 23 {
                Some(DkMessage::PARAM_SET(PARAM_SET_DATA::parse(payload)))
            } else {
                None
            },
            24 => if n >= 30 {
                Some(DkMessage::GPS_RAW_INT(GPS_RAW_INT_DATA::parse(payload)))
            } else {
                None
            },
            25 => if n >= 101 {
                Some(DkMessage::GPS_STATUS(GPS_STATUS_DATA::parse(payload)))
            } else {
                None
            },
            26 => if n >= 22 {
                Some(DkMessage::SCALED_IMU(SCALED_IMU_DATA::parse(payload)))
            } else {
                None
            },
            27 => if n >= 26 {
                Some(DkMessage::RAW_IMU(RAW_IMU_DATA::parse(payload)))
            } else {
                None
            },
            28 => if n >= 16 {
                Some(DkMessage::RAW_PRESSURE(RAW_PRESSURE_DATA::parse(payload)))
            } else {
                None
            },
            29 => if n >= 14 {
                Some(DkMessage::SCALED_PRESSURE(SCALED_PRESSURE_DATA::parse(payload)))
            } else {
                None
            },
            30 => if n >= 28 {
                Some(DkMessage::ATTITUDE(ATTITUDE_DATA::parse(payload)))
            } else {
                None
            },
            31 => if n >= 32 {
                Some(DkMessage::ATTITUDE_QUATERNION(ATTITUDE_QUATERNION_DATA::parse(payload)))
            } else {
                None
            },
            32 => if n >= 28 {
                Some(DkMessage::LOCAL_POSITION_NED(LOCAL_POSITION_NED_DATA::parse(payload)))
            } else {
                None
            },
            33 => if n >= 28 {
                Some(DkMessage::GLOBAL_POSITION_INT(GLOBAL_POSITION_INT_DATA::parse(payload)))
            } else {
                None
            },
            34 => if n >= 22 {
                Some(DkMessage::RC_CHANNELS_SCALED(RC_CHANNELS_SCALED_DATA::parse(payload)))
            } else {
                None
            },
            35 => if n >= 22 {
                Some(DkMessage::RC_CHANNELS_RAW(RC_CHANNELS_RAW_DATA::parse(payload)))
            } else {
                None
            },
            36 => if n >= 21 {
                Some(DkMessage::SERVO_OUTPUT_RAW(SERVO_OUTPUT_RAW_DATA::parse(payload)))
            } else {
                None
            },
            37 => if n >= 6 {
                Some(DkMessage::MISSION_REQUEST_PARTIAL_LIST(MISSION_REQUEST_PARTIAL_LIST_DATA::parse(payload)))
            } else {
                None
            },
            38 => if n >= 6 {
                Some(DkMessage::MISSION_WRITE_PARTIAL_LIST(MISSION_WRITE_PARTIAL_LIST_DATA::parse(payload)))
            } else {
                None
            },
            39 => if n >= 37 {
                Some(DkMessage::MISSION_ITEM(MISSION_ITEM_DATA::parse(payload)))
            } else {
                None
            },
            40 => if n >= 4 {
                Some(DkMessage::MISSION_REQUEST(MISSION_REQUEST_DATA::parse(payload)))
            } else {
                None
            },
            41 => if n >= 4 {
                Some(DkMessage::MISSION_SET_CURRENT(MISSION_SET_CURRENT_DATA::parse(payload)))
            } else {
                None
            },
            42 => if n >= 2 {
                Some(DkMessage::MISSION_CURRENT(MISSION_CURRENT_DATA::parse(payload)))
            } else {
                None
            },
            43 => if n >= 2 {
                Some(DkMessage::MISSION_REQUEST_LIST(MISSION_REQUEST_LIST_DATA::parse(payload)))
            } else {
                None
            },
            44 => if n >= 4 {
                Some(DkMessage::MISSION_COUNT(MISSION_COUNT_DATA::parse(payload)))
            } else {
                None
            },
            45 => if n >= 2 {
                Some(DkMessage::MISSION_CLEAR_ALL(MISSION_CLEAR_ALL_DATA::parse(payload)))
            } else {
                None
            },
            46 => if n >= 2 {
                Some(DkMessage::MISSION_ITEM_REACHED(MISSION_ITEM_REACHED_DATA::parse(payload)))
            } else {
                None
            },
            47 => if n >= 3 {
                Some(DkMessage::MISSION_ACK(MISSION_ACK_DATA::parse(payload)))
            } else {
                None
            },
            48 => if n >= 13 {
                Some(DkMessage::SET_GPS_GLOBAL_ORIGIN(SET_GPS_GLOBAL_ORIGIN_DATA::parse(payload)))
            } else {
                None
            },
            49 => if n >= 12 {
                Some(DkMessage::GPS_GLOBAL_ORIGIN(GPS_GLOBAL_ORIGIN_DATA::parse(payload)))
            } else {
                None
            },
            50 => if n >= 37 {
                Some(DkMessage::PARAM_MAP_RC(PARAM_MAP_RC_DATA::parse(payload)))
            } else {
                None
            },
            54 => if n >= 27 {
                Some(DkMessage::SAFETY_SET_ALLOWED_AREA(SAFETY_SET_ALLOWED_AREA_DATA::parse(payload)))
            } else {
                None
            },
            55 => if n >= 25 {
                Some(DkMessage::SAFETY_ALLOWED_AREA(SAFETY_ALLOWED_AREA_DATA::parse(payload)))
            } else {
                None
            },
            61 => if n >= 68 {
                Some(DkMessage::ATTITUDE_QUATERNION_COV(ATTITUDE_QUATERNION_COV_DATA::parse(payload)))
            } else {
                None
            },
            62 => if n >= 26 {
                Some(DkMessage::NAV_CONTROLLER_OUTPUT(NAV_CONTROLLER_OUTPUT_DATA::parse(payload)))
            } else {
                None
            },
            63 => if n >= 185 {
                Some(DkMessage::GLOBAL_POSITION_INT_COV(GLOBAL_POSITION_INT_COV_DATA::parse(payload)))
            } else {
                None
            },
            64 => if n >= 229 {
                Some(DkMessage::LOCAL_POSITION_NED_COV(LOCAL_POSITION_NED_COV_DATA::parse(payload)))
            } else {
                None
            },
            65 => if n >= 42 {
                Some(DkMessage::RC_CHANNELS(RC_CHANNELS_DATA::parse(payload)))
            } else {
                None
            },
            66 => if n >= 6 {
                Some(DkMessage::REQUEST_DATA_STREAM(REQUEST_DATA_STREAM_DATA::parse(payload)))
            } else {
                None
            },
            67 => if n >= 4 {
                Some(DkMessage::DATA_STREAM(DATA_STREAM_DATA::parse(payload)))
            } else {
                None
            },
            69 => if n >= 11 {
                Some(DkMessage::MANUAL_CONTROL(MANUAL_CONTROL_DATA::parse(payload)))
            } else {
                None
            },
            70 => if n >= 18 {
                Some(DkMessage::RC_CHANNELS_OVERRIDE(RC_CHANNELS_OVERRIDE_DATA::parse(payload)))
            } else {
                None
            },
            73 => if n >= 37 {
                Some(DkMessage::MISSION_ITEM_INT(MISSION_ITEM_INT_DATA::parse(payload)))
            } else {
                None
            },
            74 => if n >= 20 {
                Some(DkMessage::VFR_HUD(VFR_HUD_DATA::parse(payload)))
            } else {
                None
            },
            75 => if n >= 35 {
                Some(DkMessage::COMMAND_INT(COMMAND_INT_DATA::parse(payload)))
            } else {
                None
            },
            76 => if n >= 33 {
                Some(DkMessage::COMMAND_LONG(COMMAND_LONG_DATA::parse(payload)))
            } else {
                None
            },
            77 => if n >= 3 {
                Some(DkMessage::COMMAND_ACK(COMMAND_ACK_DATA::parse(payload)))
            } else {
                None
            },
            81 => if n >= 22 {
                Some(DkMessage::MANUAL_SETPOINT(MANUAL_SETPOINT_DATA::parse(payload)))
            } else {
                None
            },
            82 => if n >= 39 {
                Some(DkMessage::SET_ATTITUDE_TARGET(SET_ATTITUDE_TARGET_DATA::parse(payload)))
            } else {
                None
            },
            83 => if n >= 37 {
                Some(DkMessage::ATTITUDE_TARGET(ATTITUDE_TARGET_DATA::parse(payload)))
            } else {
                None
            },
            84 => if n >= 53 {
                Some(DkMessage::SET_POSITION_TARGET_LOCAL_NED(SET_POSITION_TARGET_LOCAL_NED_DATA::parse(payload)))
            } else {
                None
            },
            85 => if n >= 51 {
                Some(DkMessage::POSITION_TARGET_LOCAL_NED(POSITION_TARGET_LOCAL_NED_DATA::parse(payload)))
            } else {
                None
            },
            86 => if n >= 53 {
                Some(DkMessage::SET_POSITION_TARGET_GLOBAL_INT(SET_POSITION_TARGET_GLOBAL_INT_DATA::parse(payload)))
            } else {
                None
            },
            87 => if n >= 51 {
                Some(DkMessage::POSITION_TARGET_GLOBAL_INT(POSITION_TARGET_GLOBAL_INT_DATA::parse(payload)))
            } else {
                None
            },
            89 => if n >= 28 {
                Some(DkMessage::LOCAL_POSITION_NED_SYSTEM_GLOBAL_OFFSET(LOCAL_POSITION_NED_SYSTEM_GLOBAL_OFFSET_DATA::parse(payload)))
            } else {
                None
            },
            90 => if n >= 56 {
                Some(DkMessage::HIL_STATE(HIL_STATE_DATA::parse(payload)))
            } else {
                None
            },
            91 => if n >= 42 {
                Some(DkMessage::HIL_CONTROLS(HIL_CONTROLS_DATA::parse(payload)))
            } else {
                None
            },
            92 => if n >= 33 {
                Some(DkMessage::HIL_RC_INPUTS_RAW(HIL_RC_INPUTS_RAW_DATA::parse(payload)))
            } else {
                None
            },
            100 => if n >= 26 {
                Some(DkMessage::OPTICAL_FLOW(OPTICAL_FLOW_DATA::parse(payload)))
            } else {
                None
            },
            101 => if n >= 32 {
                Some(DkMessage::GLOBAL_VISION_POSITION_ESTIMATE(GLOBAL_VISION_POSITION_ESTIMATE_DATA::parse(payload)))
            } else {
                None
            },
            102 => if n >= 32 {
                Some(DkMessage::VISION_POSITION_ESTIMATE(VISION_POSITION_ESTIMATE_DATA::parse(payload)))
            } else {
                None
            },
            103 => if n >= 20 {
                Some(DkMessage::VISION_SPEED_ESTIMATE(VISION_SPEED_ESTIMATE_DATA::parse(payload)))
            } else {
                None
            },
            104 => if n >= 32 {
                Some(DkMessage::VICON_POSITION_ESTIMATE(VICON_POSITION_ESTIMATE_DATA::parse(payload)))
            } else {
                None
            },
            105 => if n >= 62 {
                Some(DkMessage::HIGHRES_IMU(HIGHRES_IMU_DATA::parse(payload)))
            } else {
                None
            },
            106 => if n >= 44 {
                Some(DkMessage::OPTICAL_FLOW_RAD(OPTICAL_FLOW_RAD_DATA::parse(payload)))
            } else {
                None
            },
            107 => if n >= 64 {
                Some(DkMessage::HIL_SENSOR(HIL_SENSOR_DATA::parse(payload)))
            } else {
                None
            },
            108 => if n >= 84 {
                Some(DkMessage::SIM_STATE(SIM_STATE_DATA::parse(payload)))
            } else {
                None
            },
            109 => if n >= 9 {
                Some(DkMessage::RADIO_STATUS(RADIO_STATUS_DATA::parse(payload)))
            } else {
                None
            },
            110 => if n >= 254 {
                Some(DkMessage::FILE_TRANSFER_PROTOCOL(FILE_TRANSFER_PROTOCOL_DATA::parse(payload)))
            } else {
                None
            },
            111 => if n >= 16 {
                Some(DkMessage::TIMESYNC(TIMESYNC_DATA::parse(payload)))
            } else {
                None
            },
            112 => if n >= 12 {
                Some(DkMessage::CAMERA_TRIGGER(CAMERA_TRIGGER_DATA::parse(payload)))
            } else {
                None
            },
            113 => if n >= 36 {
                Some(DkMessage::HIL_GPS(HIL_GPS_DATA::parse(payload)))
            } else {
                None
            },
            114 => if n >= 44 {
                Some(DkMessage::HIL_OPTICAL_FLOW(HIL_OPTICAL_FLOW_DATA::parse(payload)))
            } else {
                None
            },
            115 => if n >= 64 {
                Some(DkMessage::HIL_STATE_QUATERNION(HIL_STATE_QUATERNION_DATA::parse(payload)))
            } else {
                None
            },
            116 => if n >= 22 {
                Some(DkMessage::SCALED_IMU2(SCALED_IMU2_DATA::parse(payload)))
            } else {
                None
            },
            117 => if n >= 6 {
                Some(DkMessage::LOG_REQUEST_LIST(LOG_REQUEST_LIST_DATA::parse(payload)))
            } else {
                None
            },
            118 => if n >= 14 {
                Some(DkMessage::LOG_ENTRY(LOG_ENTRY_DATA::parse(payload)))
            } else {
                None
            },
            119 => if n >= 12 {
                Some(DkMessage::LOG_REQUEST_DATA(LOG_REQUEST_DATA_DATA::parse(payload)))
            } else {
                None
            },
            120 => if n >= 97 {
                Some(DkMessage::LOG_DATA(LOG_DATA_DATA::parse(payload)))
            } else {
                None
            },
            121 => if n >= 2 {
                Some(DkMessage::LOG_ERASE(LOG_ERASE_DATA::parse(payload)))
            } else {
                None
            },
            122 => if n >= 2 {
                Some(DkMessage::LOG_REQUEST_END(LOG_REQUEST_END_DATA::parse(payload)))
            } else {
                None
            },
            123 => if n >= 113 {
                Some(DkMessage::GPS_INJECT_DATA(GPS_INJECT_DATA_DATA::parse(payload)))
            } else {
                None
            },
            124 => if n >= 35 {
                Some(DkMessage::GPS2_RAW(GPS2_RAW_DATA::parse(payload)))
            } else {
                None
            },
            125 => if n >= 6 {
                Some(DkMessage::POWER_STATUS(POWER_STATUS_DATA::parse(payload)))
            } else {
                None
            },
            126 => if n >= 79 {
                Some(DkMessage::SERIAL_CONTROL(SERIAL_CONTROL_DATA::parse(payload)))
            } else {
                None
            },
            127 => if n >= 35 {
                Some(DkMessage::GPS_RTK(GPS_RTK_DATA::parse(payload)))
            } else {
                None
            },
            128 => if n >= 35 {
                Some(DkMessage::GPS2_RTK(GPS2_RTK_DATA::parse(payload)))
            } else {
                None
            },
            129 => if n >= 22 {
                Some(DkMessage::SCALED_IMU3(SCALED_IMU3_DATA::parse(payload)))
            } else {
                None
            },
            130 => if n >= 13 {
                Some(DkMessage::DATA_TRANSMISSION_HANDSHAKE(DATA_TRANSMISSION_HANDSHAKE_DATA::parse(payload)))
            } else {
                None
            },
            131 => if n >= 255 {
                Some(DkMessage::ENCAPSULATED_DATA(ENCAPSULATED_DATA_DATA::parse(payload)))
            } else {
                None
            },
            132 => if n >= 14 {
                Some(DkMessage::DISTANCE_SENSOR(DISTANCE_SENSOR_DATA::parse(payload)))
            } else {
                None
            },
            133 => if n >= 18 {
                Some(DkMessage::TERRAIN_REQUEST(TERRAIN_REQUEST_DATA::parse(payload)))
            } else {
                None
            },
            134 => if n >= 43 {
                Some(DkMessage::TERRAIN_DATA(TERRAIN_DATA_DATA::parse(payload)))
            } else {
                None
            },
            135 => if n >= 8 {
                Some(DkMessage::TERRAIN_CHECK(TERRAIN_CHECK_DATA::parse(payload)))
            } else {
                None
            },
            136 => if n >= 22 {
                Some(DkMessage::TERRAIN_REPORT(TERRAIN_REPORT_DATA::parse(payload)))
            } else {
                None
            },
            137 => if n >= 14 {
                Some(DkMessage::SCALED_PRESSURE2(SCALED_PRESSURE2_DATA::parse(payload)))
            } else {
                None
            },
            138 => if n >= 36 {
                Some(DkMessage::ATT_POS_MOCAP(ATT_POS_MOCAP_DATA::parse(payload)))
            } else {
                None
            },
            139 => if n >= 43 {
                Some(DkMessage::SET_ACTUATOR_CONTROL_TARGET(SET_ACTUATOR_CONTROL_TARGET_DATA::parse(payload)))
            } else {
                None
            },
            140 => if n >= 41 {
                Some(DkMessage::ACTUATOR_CONTROL_TARGET(ACTUATOR_CONTROL_TARGET_DATA::parse(payload)))
            } else {
                None
            },
            141 => if n >= 32 {
                Some(DkMessage::ALTITUDE(ALTITUDE_DATA::parse(payload)))
            } else {
                None
            },
            142 => if n >= 243 {
                Some(DkMessage::RESOURCE_REQUEST(RESOURCE_REQUEST_DATA::parse(payload)))
            } else {
                None
            },
            143 => if n >= 14 {
                Some(DkMessage::SCALED_PRESSURE3(SCALED_PRESSURE3_DATA::parse(payload)))
            } else {
                None
            },
            146 => if n >= 100 {
                Some(DkMessage::CONTROL_SYSTEM_STATE(CONTROL_SYSTEM_STATE_DATA::parse(payload)))
            } else {
                None
            },
            147 => if n >= 36 {
                Some(DkMessage::BATTERY_STATUS(BATTERY_STATUS_DATA::parse(payload)))
            } else {
                None
            },
            148 => if n >= 60 {
                Some(DkMessage::AUTOPILOT_VERSION(AUTOPILOT_VERSION_DATA::parse(payload)))
            } else {
                None
            },
            149 => if n >= 30 {
                Some(DkMessage::LANDING_TARGET(LANDING_TARGET_DATA::parse(payload)))
            } else {
                None
            },
            241 => if n >= 32 {
                Some(DkMessage::VIBRATION(VIBRATION_DATA::parse(payload)))
            } else {
                None
            },
            242 => if n >= 52 {
                Some(DkMessage::HOME_POSITION(HOME_POSITION_DATA::parse(payload)))
            } else {
                None
            },
            243 => if n >= 53 {
                Some(DkMessage::SET_HOME_POSITION(SET_HOME_POSITION_DATA::parse(payload)))
            } else {
                None
            },
            244 => if n >= 6 {
                Some(DkMessage::MESSAGE_INTERVAL(MESSAGE_INTERVAL_DATA::parse(payload)))
            } else {
                None
            },
            245 => if n >= 2 {
                Some(DkMessage::EXTENDED_SYS_STATE(EXTENDED_SYS_STATE_DATA::parse(payload)))
            } else {
                None
            },
            246 => if n >= 42 {
                Some(DkMessage::ADSB_VEHICLE(ADSB_VEHICLE_DATA::parse(payload)))
            } else {
                None
            },
            248 => if n >= 254 {
                Some(DkMessage::V2_EXTENSION(V2_EXTENSION_DATA::parse(payload)))
            } else {
                None
            },
            249 => if n >= 36 {
                Some(DkMessage::MEMORY_VECT(MEMORY_VECT_DATA::parse(payload)))
            } else {
                None
            },
            250 => if n >= 30 {
                Some(DkMessage::DEBUG_VECT(DEBUG_VECT_DATA::parse(payload)))
            } else {
                None
            },
            251 => if n >= 18 {
                Some(DkMessage::NAMED_VALUE_FLOAT(NAMED_VALUE_FLOAT_DATA::parse(payload)))
            } else {
                None
            },
            252 => if n >= 18 {
                Some(DkMessage::NAMED_VALUE_INT(NAMED_VALUE_INT_DATA::parse(payload)))
            } else {
                None
            },
            253 => if n >= 51 {
                Some(DkMessage::STATUSTEXT(STATUSTEXT_DATA::parse(payload)))
            } else {
                None
            },
            254 => if n >= 9 {
                Some(DkMessage::DEBUG(DEBUG_DATA::parse(payload)))
            } else {
                None
            },
            _ => None,
        }
    }

    /// The id of the message.
    pub fn message_id(&self) -> (id: u8)
        ensures
            id == self.spec_message_id(),
    {
        match self {
            DkMessage::HEARTBEAT(_) => 0,
            DkMessage::SYS_STATUS(_) => 1,
            DkMessage::SYSTEM_TIME(_) => 2,
            DkMessage::PING(_) => 4,
            DkMessage::CHANGE_OPERATOR_CONTROL(_) => 5,
            DkMessage::CHANGE_OPERATOR_CONTROL_ACK(_) => 6,
            DkMessage::AUTH_KEY(_) => 7,
            DkMessage::SET_MODE(_) => 11,
            DkMessage::PARAM_REQUEST_READ(_) => 20,
            DkMessage::PARAM_REQUEST_LIST(_) => 21,
            DkMessage::PARAM_VALUE(_) => 22,
            DkMessage::PARAM_SET(_) => 23,
            DkMessage::GPS_RAW_INT(_) => 24,
            DkMessage::GPS_STATUS(_) => 25,
            DkMessage::SCALED_IMU(_) => 26,
            DkMessage::RAW_IMU(_) => 27,
            DkMessage::RAW_PRESSURE(_) => 28,
            DkMessage::SCALED_PRESSURE(_) => 29,
            DkMessage::ATTITUDE(_) => 30,
            DkMessage::ATTITUDE_QUATERNION(_) => 31,
            DkMessage::LOCAL_POSITION_NED(_) => 32,
            DkMessage::GLOBAL_POSITION_INT(_) => 33,
            DkMessage::RC_CHANNELS_SCALED(_) => 34,
            DkMessage::RC_CHANNELS_RAW(_) => 35,
            DkMessage::SERVO_OUTPUT_RAW(_) => 36,
            DkMessage::MISSION_REQUEST_PARTIAL_LIST(_) => 37,
            DkMessage::MISSION_WRITE_PARTIAL_LIST(_) => 38,
            DkMessage::MISSION_ITEM(_) => 39,
            DkMessage::MISSION_REQUEST(_) => 40,
            DkMessage::MISSION_SET_CURRENT(_) => 41,
            DkMessage::MISSION_CURRENT(_) => 42,
            DkMessage::MISSION_REQUEST_LIST(_) => 43,
            DkMessage::MISSION_COUNT(_) => 44,
            DkMessage::MISSION_CLEAR_ALL(_) => 45,
            DkMessage::MISSION_ITEM_REACHED(_) => 46,
            DkMessage::MISSION_ACK(_) => 47,
            DkMessage::SET_GPS_GLOBAL_ORIGIN(_) => 48,
            DkMessage::GPS_GLOBAL_ORIGIN(_) => 49,
            DkMessage::PARAM_MAP_RC(_) => 50,
            DkMessage::SAFETY_SET_ALLOWED_AREA(_) => 54,
            DkMessage::SAFETY_ALLOWED_AREA(_) => 55,
            DkMessage::ATTITUDE_QUATERNION_COV(_) => 61,
            DkMessage::NAV_CONTROLLER_OUTPUT(_) => 62,
            DkMessage::GLOBAL_POSITION_INT_COV(_) => 63,
            DkMessage::LOCAL_POSITION_NED_COV(_) => 64,
            DkMessage::RC_CHANNELS(_) => 65,
            DkMessage::REQUEST_DATA_STREAM(_) => 66,
            DkMessage::DATA_STREAM(_) => 67,
            DkMessage::MANUAL_CONTROL(_) => 69,
            DkMessage::RC_CHANNELS_OVERRIDE(_) => 70,
            DkMessage::MISSION_ITEM_INT(_) => 73,
            DkMessage::VFR_HUD(_) => 74,
            DkMessage::COMMAND_INT(_) => 75,
            DkMessage::COMMAND_LONG(_) => 76,
            DkMessage::COMMAND_ACK(_) => 77,
            DkMessage::MANUAL_SETPOINT(_) => 81,
            DkMessage::SET_ATTITUDE_TARGET(_) => 82,
            DkMessage::ATTITUDE_TARGET(_) => 83,
            DkMessage::SET_POSITION_TARGET_LOCAL_NED(_) => 84,
            DkMessage::POSITION_TARGET_LOCAL_NED(_) => 85,
            DkMessage::SET_POSITION_TARGET_GLOBAL_INT(_) => 86,
            DkMessage::POSITION_TARGET_GLOBAL_INT(_) => 87,
            DkMessage::LOCAL_POSITION_NED_SYSTEM_GLOBAL_OFFSET(_) => 89,
            DkMessage::HIL_STATE(_) => 90,
            DkMessage::HIL_CONTROLS(_) => 91,
            DkMessage::HIL_RC_INPUTS_RAW(_) => 92,
            DkMessage::OPTICAL_FLOW(_) => 100,
            DkMessage::GLOBAL_VISION_POSITION_ESTIMATE(_) => 101,
            DkMessage::VISION_POSITION_ESTIMATE(_) => 102,
            DkMessage::VISION_SPEED_ESTIMATE(_) => 103,
            DkMessage::VICON_POSITION_ESTIMATE(_) => 104,
            DkMessage::HIGHRES_IMU(_) => 105,
            DkMessage::OPTICAL_FLOW_RAD(_) => 106,
            DkMessage::HIL_SENSOR(_) => 107,
            DkMessage::SIM_STATE(_) => 108,
            DkMessage::RADIO_STATUS(_) => 109,
            DkMessage::FILE_TRANSFER_PROTOCOL(_) => 110,
            DkMessage::TIMESYNC(_) => 111,
            DkMessage::CAMERA_TRIGGER(_) => 112,
            DkMessage::HIL_GPS(_) => 113,
            DkMessage::HIL_OPTICAL_FLOW(_) => 114,
            DkMessage::HIL_STATE_QUATERNION(_) => 115,
            DkMessage::SCALED_IMU2(_) => 116,
            DkMessage::LOG_REQUEST_LIST(_) => 117,
            DkMessage::LOG_ENTRY(_) => 118,
            DkMessage::LOG_REQUEST_DATA(_) => 119,
            DkMessage::LOG_DATA(_) => 120,
            DkMessage::LOG_ERASE(_) => 121,
            DkMessage::LOG_REQUEST_END(_) => 122,
            DkMessage::GPS_INJECT_DATA(_) => 123,
            DkMessage::GPS2_RAW(_) => 124,
            DkMessage::POWER_STATUS(_) => 125,
            DkMessage::SERIAL_CONTROL(_) => 126,
            DkMessage::GPS_RTK(_) => 127,
            DkMessage::GPS2_RTK(_) => 128,
            DkMessage::SCALED_IMU3(_) => 129,
            DkMessage::DATA_TRANSMISSION_HANDSHAKE(_) => 130,
            DkMessage::ENCAPSULATED_DATA(_) => 131,
            DkMessage::DISTANCE_SENSOR(_) => 132,
            DkMessage::TERRAIN_REQUEST(_) => 133,
            DkMessage::TERRAIN_DATA(_) => 134,
            DkMessage::TERRAIN_CHECK(_) => 135,
            DkMessage::TERRAIN_REPORT(_) => 136,
            DkMessage::SCALED_PRESSURE2(_) => 137,
            DkMessage::ATT_POS_MOCAP(_) => 138,
            DkMessage::SET_ACTUATOR_CONTROL_TARGET(_) => 139,
            DkMessage::ACTUATOR_CONTROL_TARGET(_) => 140,
            DkMessage::ALTITUDE(_) => 141,
            DkMessage::RESOURCE_REQUEST(_) => 142,
            DkMessage::SCALED_PRESSURE3(_) => 143,
            DkMessage::CONTROL_SYSTEM_STATE(_) => 146,
            DkMessage::BATTERY_STATUS(_) => 147,
            DkMessage::AUTOPILOT_VERSION(_) => 148,
            DkMessage::LANDING_TARGET(_) => 149,
            DkMessage::VIBRATION(_) => 241,
            DkMessage::HOME_POSITION(_) => 242,
            DkMessage::SET_HOME_POSITION(_) => 243,
            DkMessage::MESSAGE_INTERVAL(_) => 244,
            DkMessage::EXTENDED_SYS_STATE(_) => 245,
            DkMessage::ADSB_VEHICLE(_) => 246,
            DkMessage::V2_EXTENSION(_) => 248,
            DkMessage::MEMORY_VECT(_) => 249,
            DkMessage::DEBUG_VECT(_) => 250,
            DkMessage::NAMED_VALUE_FLOAT(_) => 251,
            DkMessage::NAMED_VALUE_INT(_) => 252,
            DkMessage::STATUSTEXT(_) => 253,
            DkMessage::DEBUG(_) => 254,
        }
    }

    /// The extra byte of the message with this id; 0 for an id outside
    /// the dialect.
    pub fn extra_crc(id: u8) -> (crc: u8)
        ensures
            crc == Self::spec_extra_crc(id),
    {
        match id {
            0 => 50,
            1 => 124,
            2 => 137,
            4 => 237,
            5 => 217,
            6 => 104,
            7 => 119,
            11 => 89,
            20 => 214,
            21 => 159,
            22 => 220,
            23 => 168,
            24 => 24,
            25 => 23,
            26 => 170,
            27 => 144,
            28 => 67,
            29 => 115,
            30 => 39,
            31 => 246,
            32 => 185,
            33 => 104,
            34 => 237,
            35 => 244,
            36 => 222,
            37 => 212,
            38 => 9,
            39 => 254,
            40 => 230,
            41 => 28,
            42 => 28,
            43 => 132,
            44 => 221,
            45 => 232,
            46 => 11,
            47 => 153,
            48 => 41,
            49 => 39,
            50 => 78,
            54 => 15,
            55 => 3,
            61 => 153,
            62 => 183,
            63 => 51,
            64 => 59,
            65 => 118,
            66 => 148,
            67 => 21,
            69 => 243,
            70 => 124,
            73 => 38,
            74 => 20,
            75 => 158,
            76 => 152,
            77 => 143,
            81 => 106,
            82 => 49,
            83 => 22,
            84 => 143,
            85 => 140,
            86 => 5,
            87 => 150,
            89 => 231,
            90 => 183,
            91 => 63,
            92 => 54,
            100 => 175,
            101 => 102,
            102 => 158,
            103 => 208,
            104 => 56,
            105 => 93,
            106 => 138,
            107 => 108,
            108 => 32,
            109 => 185,
            110 => 84,
            111 => 34,
            112 => 174,
            113 => 124,
            114 => 237,
            115 => 4,
            116 => 76,
            117 => 128,
            118 => 56,
            119 => 116,
            120 => 134,
            121 => 237,
            122 => 203,
            123 => 250,
            124 => 87,
            125 => 203,
            126 => 220,
            127 => 25,
            128 => 226,
            129 => 46,
            130 => 29,
            131 => 223,
            132 => 85,
            133 => 6,
            134 => 229,
            135 => 203,
            136 => 1,
            137 => 195,
            138 => 109,
            139 => 168,
            140 => 181,
            141 => 47,
            142 => 72,
            143 => 131,
            146 => 103,
            147 => 154,
            148 => 178,
            149 => 200,
            241 => 90,
            242 => 104,
            243 => 85,
            244 => 95,
            245 => 130,
            246 => 210,
            248 => 8,
            249 => 204,
            250 => 49,
            251 => 170,
            252 => 44,
            253 => 83,
            254 => 46,
            _ => 0,
        }
    }

    /// The payload bytes of the message.
    pub fn serialize(&self) -> (bytes: Vec<u8>)
        ensures
            bytes@ == self.spec_serialize(),
    {
        match self {
            DkMessage::HEARTBEAT(body) => body.serialize(),
            DkMessage::SYS_STATUS(body) => body.serialize(),
            DkMessage::SYSTEM_TIME(body) => body.serialize(),
            DkMessage::PING(body) => body.serialize(),
            DkMessage::CHANGE_OPERATOR_CONTROL(body) => body.serialize(),
            DkMessage::CHANGE_OPERATOR_CONTROL_ACK(body) => body.serialize(),
            DkMessage::AUTH_KEY(body) => body.serialize(),
            DkMessage::SET_MODE(body) => body.serialize(),
            DkMessage::PARAM_REQUEST_READ(body) => body.serialize(),
            DkMessage::PARAM_REQUEST_LIST(body) => body.serialize(),
            DkMessage::PARAM_VALUE(body) => body.serialize(),
            DkMessage::PARAM_SET(body) => body.serialize(),
            DkMessage::GPS_RAW_INT(body) => body.serialize(),
            DkMessage::GPS_STATUS(body) => body.serialize(),
            DkMessage::SCALED_IMU(body) => body.serialize(),
            DkMessage::RAW_IMU(body) => body.serialize(),
            DkMessage::RAW_PRESSURE(body) => body.serialize(),
            DkMessage::SCALED_PRESSURE(body) => body.serialize(),
            DkMessage::ATTITUDE(body) => body.serialize(),
            DkMessage::ATTITUDE_QUATERNION(body) => body.serialize(),
            DkMessage::LOCAL_POSITION_NED(body) => body.serialize(),
            DkMessage::GLOBAL_POSITION_INT(body) => body.serialize(),
            DkMessage::RC_CHANNELS_SCALED(body) => body.serialize(),
            DkMessage::RC_CHANNELS_RAW(body) => body.serialize(),
            DkMessage::SERVO_OUTPUT_RAW(body) => body.serialize(),
            DkMessage::MISSION_REQUEST_PARTIAL_LIST(body) => body.serialize(),
            DkMessage::MISSION_WRITE_PARTIAL_LIST(body) => body.serialize(),
            DkMessage::MISSION_ITEM(body) => body.serialize(),
            DkMessage::MISSION_REQUEST(body) => body.serialize(),
            DkMessage::MISSION_SET_CURRENT(body) => body.serialize(),
            DkMessage::MISSION_CURRENT(body) => body.serialize(),
            DkMessage::MISSION_REQUEST_LIST(body) => body.serialize(),
            DkMessage::MISSION_COUNT(body) => body.serialize(),
            DkMessage::MISSION_CLEAR_ALL(body) => body.serialize(),
            DkMessage::MISSION_ITEM_REACHED(body) => body.serialize(),
            DkMessage::MISSION_ACK(body) => body.serialize(),
            DkMessage::SET_GPS_GLOBAL_ORIGIN(body) => body.serialize(),
            DkMessage::GPS_GLOBAL_ORIGIN(body) => body.serialize(),
            DkMessage::PARAM_MAP_RC(body) => body.serialize(),
            DkMessage::SAFETY_SET_ALLOWED_AREA(body) => body.serialize(),
            DkMessage::SAFETY_ALLOWED_AREA(body) => body.serialize(),
            DkMessage::ATTITUDE_QUATERNION_COV(body) => body.serialize(),
            DkMessage::NAV_CONTROLLER_OUTPUT(body) => body.serialize(),
            DkMessage::GLOBAL_POSITION_INT_COV(body) => body.serialize(),
            DkMessage::LOCAL_POSITION_NED_COV(body) => body.serialize(),
            DkMessage::RC_CHANNELS(body) => body.serialize(),
            DkMessage::REQUEST_DATA_STREAM(body) => body.serialize(),
            DkMessage::DATA_STREAM(body) => body.serialize(),
            DkMessage::MANUAL_CONTROL(body) => body.serialize(),
            DkMessage::RC_CHANNELS_OVERRIDE(body) => body.serialize(),
            DkMessage::MISSION_ITEM_INT(body) => body.serialize(),
            DkMessage::VFR_HUD(body) => body.serialize(),
            DkMessage::COMMAND_INT(body) => body.serialize(),
            DkMessage::COMMAND_LONG(body) => body.serialize(),
            DkMessage::COMMAND_ACK(body) => body.serialize(),
            DkMessage::MANUAL_SETPOINT(body) => body.serialize(),
            DkMessage::SET_ATTITUDE_TARGET(body) => body.serialize(),
            DkMessage::ATTITUDE_TARGET(body) => body.serialize(),
            DkMessage::SET_POSITION_TARGET_LOCAL_NED(body) => body.serialize(),
            DkMessage::POSITION_TARGET_LOCAL_NED(body) => body.serialize(),
            DkMessage::SET_POSITION_TARGET_GLOBAL_INT(body) => body.serialize(),
            DkMessage::POSITION_TARGET_GLOBAL_INT(body) => body.serialize(),
            DkMessage::LOCAL_POSITION_NED_SYSTEM_GLOBAL_OFFSET(body) => body.serialize(),
            DkMessage::HIL_STATE(body) => body.serialize(),
            DkMessage::HIL_CONTROLS(body) => body.serialize(),
            DkMessage::HIL_RC_INPUTS_RAW(body) => body.serialize(),
            DkMessage::OPTICAL_FLOW(body) => body.serialize(),
            DkMessage::GLOBAL_VISION_POSITION_ESTIMATE(body) => body.serialize(),
            DkMessage::VISION_POSITION_ESTIMATE(body) => body.serialize(),
            DkMessage::VISION_SPEED_ESTIMATE(body) => body.serialize(),
            DkMessage::VICON_POSITION_ESTIMATE(body) => body.serialize(),
            DkMessage::HIGHRES_IMU(body) => body.serialize(),
            DkMessage::OPTICAL_FLOW_RAD(body) => body.serialize(),
            DkMessage::HIL_SENSOR(body) => body.serialize(),
            DkMessage::SIM_STATE(body) => body.serialize(),
            DkMessage::RADIO_STATUS(body) => body.serialize(),
            DkMessage::FILE_TRANSFER_PROTOCOL(body) => body.serialize(),
            DkMessage::TIMESYNC(body) => body.serialize(),
            DkMessage::CAMERA_TRIGGER(body) => body.serialize(),
            DkMessage::HIL_GPS(body) => body.serialize(),
            DkMessage::HIL_OPTICAL_FLOW(body) => body.serialize(),
            DkMessage::HIL_STATE_QUATERNION(body) => body.serialize(),
            DkMessage::SCALED_IMU2(body) => body.serialize(),
            DkMessage::LOG_REQUEST_LIST(body) => body.serialize(),
            DkMessage::LOG_ENTRY(body) => body.serialize(),
            DkMessage::LOG_REQUEST_DATA(body) => body.serialize(),
            DkMessage::LOG_DATA(body) => body.serialize(),
            DkMessage::LOG_ERASE(body) => body.serialize(),
            DkMessage::LOG_REQUEST_END(body) => body.serialize(),
            DkMessage::GPS_INJECT_DATA(body) => body.serialize(),
            DkMessage::GPS2_RAW(body) => body.serialize(),
            DkMessage::POWER_STATUS(body) => body.serialize(),
            DkMessage::SERIAL_CONTROL(body) => body.serialize(),
            DkMessage::GPS_RTK(body) => body.serialize(),
            DkMessage::GPS2_RTK(body) => body.serialize(),
            DkMessage::SCALED_IMU3(body) => body.serialize(),
            DkMessage::DATA_TRANSMISSION_HANDSHAKE(body) => body.serialize(),
            DkMessage::ENCAPSULATED_DATA(body) => body.serialize(),
            DkMessage::DISTANCE_SENSOR(body) => body.serialize(),
            DkMessage::TERRAIN_REQUEST(body) => body.serialize(),
            DkMessage::TERRAIN_DATA(body) => body.serialize(),
            DkMessage::TERRAIN_CHECK(body) => body.serialize(),
            DkMessage::TERRAIN_REPORT(body) => body.serialize(),
            DkMessage::SCALED_PRESSURE2(body) => body.serialize(),
            DkMessage::ATT_POS_MOCAP(body) => body.serialize(),
            DkMessage::SET_ACTUATOR_CONTROL_TARGET(body) => body.serialize(),
            DkMessage::ACTUATOR_CONTROL_TARGET(body) => body.serialize(),
            DkMessage::ALTITUDE(body) => body.serialize(),
            DkMessage::RESOURCE_REQUEST(body) => body.serialize(),
            DkMessage::SCALED_PRESSURE3(body) => body.serialize(),
            DkMessage::CONTROL_SYSTEM_STATE(body) => body.serialize(),
            DkMessage::BATTERY_STATUS(body) => body.serialize(),
            DkMessage::AUTOPILOT_VERSION(body) => body.serialize(),
            DkMessage::LANDING_TARGET(body) => body.serialize(),
            DkMessage::VIBRATION(body) => body.serialize(),
            DkMessage::HOME_POSITION(body) => body.serialize(),
            DkMessage::SET_HOME_POSITION(body) => body.serialize(),
            DkMessage::MESSAGE_INTERVAL(body) => body.serialize(),
            DkMessage::EXTENDED_SYS_STATE(body) => body.serialize(),
            DkMessage::ADSB_VEHICLE(body) => body.serialize(),
            DkMessage::V2_EXTENSION(body) => body.serialize(),
            DkMessage::MEMORY_VECT(body) => body.serialize(),
            DkMessage::DEBUG_VECT(body) => body.serialize(),
            DkMessage::NAMED_VALUE_FLOAT(body) => body.serialize(),
            DkMessage::NAMED_VALUE_INT(body) => body.serialize(),
            DkMessage::STATUSTEXT(body) => body.serialize(),
            DkMessage::DEBUG(body) => body.serialize(),
        }
    }

    /// Parsing the payload bytes of a message under its own id gives the
    /// message back.
    pub proof fn lemma_roundtrip(&self)
        ensures
            Self::body_len(self.spec_message_id()) == Some(self.spec_serialize().len()),
            Self::spec_parse(self.spec_message_id(), self.spec_serialize()) == Some(*self),
    {
        match self {
            DkMessage::HEARTBEAT(body) => body.lemma_roundtrip(),
            DkMessage::SYS_STATUS(body) => body.lemma_roundtrip(),
            DkMessage::SYSTEM_TIME(body) => body.lemma_roundtrip(),
            DkMessage::PING(body) => body.lemma_roundtrip(),
            DkMessage::CHANGE_OPERATOR_CONTROL(body) => body.lemma_roundtrip(),
            DkMessage::CHANGE_OPERATOR_CONTROL_ACK(body) => body.lemma_roundtrip(),
            DkMessage::AUTH_KEY(body) => body.lemma_roundtrip(),
            DkMessage::SET_MODE(body) => body.lemma_roundtrip(),
            DkMessage::PARAM_REQUEST_READ(body) => body.lemma_roundtrip(),
            DkMessage::PARAM_REQUEST_LIST(body) => body.lemma_roundtrip(),
            DkMessage::PARAM_VALUE(body) => body.lemma_roundtrip(),
            DkMessage::PARAM_SET(body) => body.lemma_roundtrip(),
            DkMessage::GPS_RAW_INT(body) => body.lemma_roundtrip(),
            DkMessage::GPS_STATUS(body) => body.lemma_roundtrip(),
            DkMessage::SCALED_IMU(body) => body.lemma_roundtrip(),
            DkMessage::RAW_IMU(body) => body.lemma_roundtrip(),
            DkMessage::RAW_PRESSURE(body) => body.lemma_roundtrip(),
            DkMessage::SCALED_PRESSURE(body) => body.lemma_roundtrip(),
            DkMessage::ATTITUDE(body) => body.lemma_roundtrip(),
            DkMessage::ATTITUDE_QUATERNION(body) => body.lemma_roundtrip(),
            DkMessage::LOCAL_POSITION_NED(body) => body.lemma_roundtrip(),
            DkMessage::GLOBAL_POSITION_INT(body) => body.lemma_roundtrip(),
            DkMessage::RC_CHANNELS_SCALED(body) => body.lemma_roundtrip(),
            DkMessage::RC_CHANNELS_RAW(body) => body.lemma_roundtrip(),
            DkMessage::SERVO_OUTPUT_RAW(body) => body.lemma_roundtrip(),
            DkMessage::MISSION_REQUEST_PARTIAL_LIST(body) => body.lemma_roundtrip(),
            DkMessage::MISSION_WRITE_PARTIAL_LIST(body) => body.lemma_roundtrip(),
            DkMessage::MISSION_ITEM(body) => body.lemma_roundtrip(),
            DkMessage::MISSION_REQUEST(body) => body.lemma_roundtrip(),
            DkMessage::MISSION_SET_CURRENT(body) => body.lemma_roundtrip(),
            DkMessage::MISSION_CURRENT(body) => body.lemma_roundtrip(),
            DkMessage::MISSION_REQUEST_LIST(body) => body.lemma_roundtrip(),
            DkMessage::MISSION_COUNT(body) => body.lemma_roundtrip(),
            DkMessage::MISSION_CLEAR_ALL(body) => body.lemma_roundtrip(),
            DkMessage::MISSION_ITEM_REACHED(body) => body.lemma_roundtrip(),
            DkMessage::MISSION_ACK(body) => body.lemma_roundtrip(),
            DkMessage::SET_GPS_GLOBAL_ORIGIN(body) => body.lemma_roundtrip(),
            DkMessage::GPS_GLOBAL_ORIGIN(body) => body.lemma_roundtrip(),
            DkMessage::PARAM_MAP_RC(body) => body.lemma_roundtrip(),
            DkMessage::SAFETY_SET_ALLOWED_AREA(body) => body.lemma_roundtrip(),
            DkMessage::SAFETY_ALLOWED_AREA(body) => body.lemma_roundtrip(),
            DkMessage::ATTITUDE_QUATERNION_COV(body) => body.lemma_roundtrip(),
            DkMessage::NAV_CONTROLLER_OUTPUT(body) => body.lemma_roundtrip(),
            DkMessage::GLOBAL_POSITION_INT_COV(body) => body.lemma_roundtrip(),
            DkMessage::LOCAL_POSITION_NED_COV(body) => body.lemma_roundtrip(),
            DkMessage::RC_CHANNELS(body) => body.lemma_roundtrip(),
            DkMessage::REQUEST_DATA_STREAM(body) => body.lemma_roundtrip(),
            DkMessage::DATA_STREAM(body) => body.lemma_roundtrip(),
            DkMessage::MANUAL_CONTROL(body) => body.lemma_roundtrip(),
            DkMessage::RC_CHANNELS_OVERRIDE(body) => body.lemma_roundtrip(),
            DkMessage::MISSION_ITEM_INT(body) => body.lemma_roundtrip(),
            DkMessage::VFR_HUD(body) => body.lemma_roundtrip(),
            DkMessage::COMMAND_INT(body) => body.lemma_roundtrip(),
            DkMessage::COMMAND_LONG(body) => body.lemma_roundtrip(),
            DkMessage::COMMAND_ACK(body) => body.lemma_roundtrip(),
            DkMessage::MANUAL_SETPOINT(body) => body.lemma_roundtrip(),
            DkMessage::SET_ATTITUDE_TARGET(body) => body.lemma_roundtrip(),
            DkMessage::ATTITUDE_TARGET(body) => body.lemma_roundtrip(),
            DkMessage::SET_POSITION_TARGET_LOCAL_NED(body) => body.lemma_roundtrip(),
            DkMessage::POSITION_TARGET_LOCAL_NED(body) => body.lemma_roundtrip(),
            DkMessage::SET_POSITION_TARGET_GLOBAL_INT(body) => body.lemma_roundtrip(),
            DkMessage::POSITION_TARGET_GLOBAL_INT(body) => body.lemma_roundtrip(),
            DkMessage::LOCAL_POSITION_NED_SYSTEM_GLOBAL_OFFSET(body) => body.lemma_roundtrip(),
            DkMessage::HIL_STATE(body) => body.lemma_roundtrip(),
            DkMessage::HIL_CONTROLS(body) => body.lemma_roundtrip(),
            DkMessage::HIL_RC_INPUTS_RAW(body) => body.lemma_roundtrip(),
            DkMessage::OPTICAL_FLOW(body) => body.lemma_roundtrip(),
            DkMessage::GLOBAL_VISION_POSITION_ESTIMATE(body) => body.lemma_roundtrip(),
            DkMessage::VISION_POSITION_ESTIMATE(body) => body.lemma_roundtrip(),
            DkMessage::VISION_SPEED_ESTIMATE(body) => body.lemma_roundtrip(),
            DkMessage::VICON_POSITION_ESTIMATE(body) => body.lemma_roundtrip(),
            DkMessage::HIGHRES_IMU(body) => body.lemma_roundtrip(),
            DkMessage::OPTICAL_FLOW_RAD(body) => body.lemma_roundtrip(),
            DkMessage::HIL_SENSOR(body) => body.lemma_roundtrip(),
            DkMessage::SIM_STATE(body) => body.lemma_roundtrip(),
            DkMessage::RADIO_STATUS(body) => body.lemma_roundtrip(),
            DkMessage::FILE_TRANSFER_PROTOCOL(body) => body.lemma_roundtrip(),
            DkMessage::TIMESYNC(body) => body.lemma_roundtrip(),
            DkMessage::CAMERA_TRIGGER(body) => body.lemma_roundtrip(),
            DkMessage::HIL_GPS(body) => body.lemma_roundtrip(),
            DkMessage::HIL_OPTICAL_FLOW(body) => body.lemma_roundtrip(),
            DkMessage::HIL_STATE_QUATERNION(body) => body.lemma_roundtrip(),
            DkMessage::SCALED_IMU2(body) => body.lemma_roundtrip(),
            DkMessage::LOG_REQUEST_LIST(body) => body.lemma_roundtrip(),
            DkMessage::LOG_ENTRY(body) => body.lemma_roundtrip(),
            DkMessage::LOG_REQUEST_DATA(body) => body.lemma_roundtrip(),
            DkMessage::LOG_DATA(body) => body.lemma_roundtrip(),
            DkMessage::LOG_ERASE(body) => body.lemma_roundtrip(),
            DkMessage::LOG_REQUEST_END(body) => body.lemma_roundtrip(),
            DkMessage::GPS_INJECT_DATA(body) => body.lemma_roundtrip(),
            DkMessage::GPS2_RAW(body) => body.lemma_roundtrip(),
            DkMessage::POWER_STATUS(body) => body.lemma_roundtrip(),
            DkMessage::SERIAL_CONTROL(body) => body.lemma_roundtrip(),
            DkMessage::GPS_RTK(body) => body.lemma_roundtrip(),
            DkMessage::GPS2_RTK(body) => body.lemma_roundtrip(),
            DkMessage::SCALED_IMU3(body) => body.lemma_roundtrip(),
            DkMessage::DATA_TRANSMISSION_HANDSHAKE(body) => body.lemma_roundtrip(),
            DkMessage::ENCAPSULATED_DATA(body) => body.lemma_roundtrip(),
            DkMessage::DISTANCE_SENSOR(body) => body.lemma_roundtrip(),
            DkMessage::TERRAIN_REQUEST(body) => body.lemma_roundtrip(),
            DkMessage::TERRAIN_DATA(body) => body.lemma_roundtrip(),
            DkMessage::TERRAIN_CHECK(body) => body.lemma_roundtrip(),
            DkMessage::TERRAIN_REPORT(body) => body.lemma_roundtrip(),
            DkMessage::SCALED_PRESSURE2(body) => body.lemma_roundtrip(),
            DkMessage::ATT_POS_MOCAP(body) => body.lemma_roundtrip(),
            DkMessage::SET_ACTUATOR_CONTROL_TARGET(body) => body.lemma_roundtrip(),
            DkMessage::ACTUATOR_CONTROL_TARGET(body) => body.lemma_roundtrip(),
            DkMessage::ALTITUDE(body) => body.lemma_roundtrip(),
            DkMessage::RESOURCE_REQUEST(body) => body.lemma_roundtrip(),
            DkMessage::SCALED_PRESSURE3(body) => body.lemma_roundtrip(),
            DkMessage::CONTROL_SYSTEM_STATE(body) => body.lemma_roundtrip(),
            DkMessage::BATTERY_STATUS(body) => body.lemma_roundtrip(),
            DkMessage::AUTOPILOT_VERSION(body) => body.lemma_roundtrip(),
            DkMessage::LANDING_TARGET(body) => body.lemma_roundtrip(),
            DkMessage::VIBRATION(body) => body.lemma_roundtrip(),
            DkMessage::HOME_POSITION(body) => body.lemma_roundtrip(),
            DkMessage::SET_HOME_POSITION(body) => body.lemma_roundtrip(),
            DkMessage::MESSAGE_INTERVAL(body) => body.lemma_roundtrip(),
            DkMessage::EXTENDED_SYS_STATE(body) => body.lemma_roundtrip(),
            DkMessage::ADSB_VEHICLE(body) => body.lemma_roundtrip(),
            DkMessage::V2_EXTENSION(body) => body.lemma_roundtrip(),
            DkMessage::MEMORY_VECT(body) => body.lemma_roundtrip(),
            DkMessage::DEBUG_VECT(body) => body.lemma_roundtrip(),
            DkMessage::NAMED_VALUE_FLOAT(body) => body.lemma_roundtrip(),
            DkMessage::NAMED_VALUE_INT(body) => body.lemma_roundtrip(),
            DkMessage::STATUSTEXT(body) => body.lemma_roundtrip(),
            DkMessage::DEBUG(body) => body.lemma_roundtrip(),
        }
    }

    /// A payload has 255 bytes at most.
    pub proof fn lemma_body_len_bound(id: u8)
        ensures
            Self::body_len(id) is Some ==> Self::body_len(id).unwrap() <= 255,
    {
    }

    /// A parsed message carries the id that it was parsed under.
    pub proof fn lemma_parse_id(id: u8, p: Seq<u8>)
        requires
            Self::spec_parse(id, p) is Some,
        ensures
            Self::spec_parse(id, p).unwrap().spec_message_id() == id,
    {
        let m = Self::spec_body(id, p);
        match m {
            DkMessage::HEARTBEAT(_) => assert(id == 0),
            DkMessage::SYS_STATUS(_) => assert(id == 1),
            DkMessage::SYSTEM_TIME(_) => assert(id == 2),
            DkMessage::PING(_) => assert(id == 4),
            DkMessage::CHANGE_OPERATOR_CONTROL(_) => assert(id == 5),
            DkMessage::CHANGE_OPERATOR_CONTROL_ACK(_) => assert(id == 6),
            DkMessage::AUTH_KEY(_) => assert(id == 7),
            DkMessage::SET_MODE(_) => assert(id == 11),
            DkMessage::PARAM_REQUEST_READ(_) => assert(id == 20),
            DkMessage::PARAM_REQUEST_LIST(_) => assert(id == 21),
            DkMessage::PARAM_VALUE(_) => assert(id == 22),
            DkMessage::PARAM_SET(_) => assert(id == 23),
            DkMessage::GPS_RAW_INT(_) => assert(id == 24),
            DkMessage::GPS_STATUS(_) => assert(id == 25),
            DkMessage::SCALED_IMU(_) => assert(id == 26),
            DkMessage::RAW_IMU(_) => assert(id == 27),
            DkMessage::RAW_PRESSURE(_) => assert(id == 28),
            DkMessage::SCALED_PRESSURE(_) => assert(id == 29),
            DkMessage::ATTITUDE(_) => assert(id == 30),
            DkMessage::ATTITUDE_QUATERNION(_) => assert(id == 31),
            DkMessage::LOCAL_POSITION_NED(_) => assert(id == 32),
            DkMessage::GLOBAL_POSITION_INT(_) => assert(id == 33),
            DkMessage::RC_CHANNELS_SCALED(_) => assert(id == 34),
            DkMessage::RC_CHANNELS_RAW(_) => assert(id == 35),
            DkMessage::SERVO_OUTPUT_RAW(_) => assert(id == 36),
            DkMessage::MISSION_REQUEST_PARTIAL_LIST(_) => assert(id == 37),
            DkMessage::MISSION_WRITE_PARTIAL_LIST(_) => assert(id == 38),
            DkMessage::MISSION_ITEM(_) => assert(id == 39),
            DkMessage::MISSION_REQUEST(_) => assert(id == 40),
            DkMessage::MISSION_SET_CURRENT(_) => assert(id == 41),
            DkMessage::MISSION_CURRENT(_) => assert(id == 42),
            DkMessage::MISSION_REQUEST_LIST(_) => assert(id == 43),
            DkMessage::MISSION_COUNT(_) => assert(id == 44),
            DkMessage::MISSION_CLEAR_ALL(_) => assert(id == 45),
            DkMessage::MISSION_ITEM_REACHED(_) => assert(id == 46),
            DkMessage::MISSION_ACK(_) => assert(id == 47),
            DkMessage::SET_GPS_GLOBAL_ORIGIN(_) => assert(id == 48),
            DkMessage::GPS_GLOBAL_ORIGIN(_) => assert(id == 49),
            DkMessage::PARAM_MAP_RC(_) => assert(id == 50),
            DkMessage::SAFETY_SET_ALLOWED_AREA(_) => assert(id == 54),
            DkMessage::SAFETY_ALLOWED_AREA(_) => assert(id == 55),
            DkMessage::ATTITUDE_QUATERNION_COV(_) => assert(id == 61),
            DkMessage::NAV_CONTROLLER_OUTPUT(_) => assert(id == 62),
            DkMessage::GLOBAL_POSITION_INT_COV(_) => assert(id == 63),
            DkMessage::LOCAL_POSITION_NED_COV(_) => assert(id == 64),
            DkMessage::RC_CHANNELS(_) => assert(id == 65),
            DkMessage::REQUEST_DATA_STREAM(_) => assert(id == 66),
            DkMessage::DATA_STREAM(_) => assert(id == 67),
            DkMessage::MANUAL_CONTROL(_) => assert(id == 69),
            DkMessage::RC_CHANNELS_OVERRIDE(_) => assert(id == 70),
            DkMessage::MISSION_ITEM_INT(_) => assert(id == 73),
            DkMessage::VFR_HUD(_) => assert(id == 74),
            DkMessage::COMMAND_INT(_) => assert(id == 75),
            DkMessage::COMMAND_LONG(_) => assert(id == 76),
            DkMessage::COMMAND_ACK(_) => assert(id == 77),
            DkMessage::MANUAL_SETPOINT(_) => assert(id == 81),
            DkMessage::SET_ATTITUDE_TARGET(_) => assert(id == 82),
            DkMessage::ATTITUDE_TARGET(_) => assert(id == 83),
            DkMessage::SET_POSITION_TARGET_LOCAL_NED(_) => assert(id == 84),
            DkMessage::POSITION_TARGET_LOCAL_NED(_) => assert(id == 85),
            DkMessage::SET_POSITION_TARGET_GLOBAL_INT(_) => assert(id == 86),
            DkMessage::POSITION_TARGET_GLOBAL_INT(_) => assert(id == 87),
            DkMessage::LOCAL_POSITION_NED_SYSTEM_GLOBAL_OFFSET(_) => assert(id == 89),
            DkMessage::HIL_STATE(_) => assert(id == 90),
            DkMessage::HIL_CONTROLS(_) => assert(id == 91),
            DkMessage::HIL_RC_INPUTS_RAW(_) => assert(id == 92),
            DkMessage::OPTICAL_FLOW(_) => assert(id == 100),
            DkMessage::GLOBAL_VISION_POSITION_ESTIMATE(_) => assert(id == 101),
            DkMessage::VISION_POSITION_ESTIMATE(_) => assert(id == 102),
            DkMessage::VISION_SPEED_ESTIMATE(_) => assert(id == 103),
            DkMessage::VICON_POSITION_ESTIMATE(_) => assert(id == 104),
            DkMessage::HIGHRES_IMU(_) => assert(id == 105),
            DkMessage::OPTICAL_FLOW_RAD(_) => assert(id == 106),
            DkMessage::HIL_SENSOR(_) => assert(id == 107),
            DkMessage::SIM_STATE(_) => assert(id == 108),
            DkMessage::RADIO_STATUS(_) => assert(id == 109),
            DkMessage::FILE_TRANSFER_PROTOCOL(_) => assert(id == 110),
            DkMessage::TIMESYNC(_) => assert(id == 111),
            DkMessage::CAMERA_TRIGGER(_) => assert(id == 112),
            DkMessage::HIL_GPS(_) => assert(id == 113),
            DkMessage::HIL_OPTICAL_FLOW(_) => assert(id == 114),
            DkMessage::HIL_STATE_QUATERNION(_) => assert(id == 115),
            DkMessage::SCALED_IMU2(_) => assert(id == 116),
            DkMessage::LOG_REQUEST_LIST(_) => assert(id == 117),
            DkMessage::LOG_ENTRY(_) => assert(id == 118),
            DkMessage::LOG_REQUEST_DATA(_) => assert(id == 119),
            DkMessage::LOG_DATA(_) => assert(id == 120),
            DkMessage::LOG_ERASE(_) => assert(id == 121),
            DkMessage::LOG_REQUEST_END(_) => assert(id == 122),
            DkMessage::GPS_INJECT_DATA(_) => assert(id == 123),
            DkMessage::GPS2_RAW(_) => assert(id == 124),
            DkMessage::POWER_STATUS(_) => assert(id == 125),
            DkMessage::SERIAL_CONTROL(_) => assert(id == 126),
            DkMessage::GPS_RTK(_) => assert(id == 127),
            DkMessage::GPS2_RTK(_) => assert(id == 128),
            DkMessage::SCALED_IMU3(_) => assert(id == 129),
            DkMessage::DATA_TRANSMISSION_HANDSHAKE(_) => assert(id == 130),
            DkMessage::ENCAPSULATED_DATA(_) => assert(id == 131),
            DkMessage::DISTANCE_SENSOR(_) => assert(id == 132),
            DkMessage::TERRAIN_REQUEST(_) => assert(id == 133),
            DkMessage::TERRAIN_DATA(_) => assert(id == 134),
            DkMessage::TERRAIN_CHECK(_) => assert(id == 135),
            DkMessage::TERRAIN_REPORT(_) => assert(id == 136),
            DkMessage::SCALED_PRESSURE2(_) => assert(id == 137),
            DkMessage::ATT_POS_MOCAP(_) => assert(id == 138),
            DkMessage::SET_ACTUATOR_CONTROL_TARGET(_) => assert(id == 139),
            DkMessage::ACTUATOR_CONTROL_TARGET(_) => assert(id == 140),
            DkMessage::ALTITUDE(_) => assert(id == 141),
            DkMessage::RESOURCE_REQUEST(_) => assert(id == 142),
            DkMessage::SCALED_PRESSURE3(_) => assert(id == 143),
            DkMessage::CONTROL_SYSTEM_STATE(_) => assert(id == 146),
            DkMessage::BATTERY_STATUS(_) => assert(id == 147),
            DkMessage::AUTOPILOT_VERSION(_) => assert(id == 148),
            DkMessage::LANDING_TARGET(_) => assert(id == 149),
            DkMessage::VIBRATION(_) => assert(id == 241),
            DkMessage::HOME_POSITION(_) => assert(id == 242),
            DkMessage::SET_HOME_POSITION(_) => assert(id == 243),
            DkMessage::MESSAGE_INTERVAL(_) => assert(id == 244),
            DkMessage::EXTENDED_SYS_STATE(_) => assert(id == 245),
            DkMessage::ADSB_VEHICLE(_) => assert(id == 246),
            DkMessage::V2_EXTENSION(_) => assert(id == 248),
            DkMessage::MEMORY_VECT(_) => assert(id == 249),
            DkMessage::DEBUG_VECT(_) => assert(id == 250),
            DkMessage::NAMED_VALUE_FLOAT(_) => assert(id == 251),
            DkMessage::NAMED_VALUE_INT(_) => assert(id == 252),
            DkMessage::STATUSTEXT(_) => assert(id == 253),
            DkMessage::DEBUG(_) => assert(id == 254),
        }
    }
}

} // verus!
