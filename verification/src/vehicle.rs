//! The vehicle session: the mirror of what the vehicle last reported, the
//! parameter table, and the commands, each as the messages that it puts on
//! the command channel.

use crate::bits::{
    all_set, flags, flags_all, flags_clone, flags_from_elem, flags_len, flags_new, flags_set,
};
use crate::connection::{
    commands_of, mavlink_string, parse_mavlink_string, sent_frame, DkHandlerMessage,
    DkHandlerMessageView, DkHandlerRx, VehicleConnection,
};
use crate::mavlink::{
    DkMessage, COMMAND_LONG_DATA, HEARTBEAT_DATA, PARAM_REQUEST_LIST_DATA, PARAM_SET_DATA,
    PARAM_VALUE_DATA, REQUEST_DATA_STREAM_DATA, SET_MODE_DATA, SET_POSITION_TARGET_LOCAL_NED_DATA,
};
use crate::watcher::{
    observe, Predicate, PredicateView, WatcherView, CMD_COMPONENT_ARM_DISARM, CMD_NAV_TAKEOFF,
    MODE_FLAG_CUSTOM_MODE_ENABLED,
};
use crate::wire::{array_of, lemma_array_of, Ieee32};
use bit_vec::BitVec;
use vstd::prelude::*;
use vstd::string::{StrSliceExecFns, StringExecFns};

verus! {

/// The index that a `PARAM_VALUE` carries where the vehicle sent it
/// unasked: it stands for no place in the table.
pub const UNSOLICITED: u16 = 65535;

/// The bits of 1.0.
pub const ONE: Ieee32 = 0x3F80_0000;

/// The bits of 0.1.
pub const TENTH: Ieee32 = 0x3DCC_CCCD;

/// The frame of reference of a local position target: local north, east,
/// down.
pub const FRAME_LOCAL_NED: u8 = 1;

/// The `type_mask` of a position target that keeps the position and has
/// velocity and acceleration ignored.
pub const MASK_POSITION_ONLY: u16 = 0b0000_111_111_000_000;

/// The flight modes that the session can ask for.
#[allow(non_camel_case_types)]
#[derive(Clone, Copy, Debug, PartialEq, Eq)]
pub enum VehicleMode {
    LOITER,
    GUIDED,
}

impl VehicleMode {
    /// The number of the mode as the autopilot's `custom_mode`.
    pub open spec fn spec_custom_mode(self) -> u32 {
        match self {
            VehicleMode::LOITER => 5,
            VehicleMode::GUIDED => 4,
        }
    }

    /// The number of the mode as the autopilot's `custom_mode`.
    pub fn custom_mode(&self) -> (n: u32)
        ensures
            n == self.spec_custom_mode(),
    {
        match self {
            VehicleMode::LOITER => 5,
            VehicleMode::GUIDED => 4,
        }
    }
}

/// A name of the table with its value.
#[derive(Debug)]
struct Entry {
    name: String,
    value: Ieee32,
}

/// The parameter table: the value last reported under each name, the name
/// at each index, and the indices observed since the vehicle last declared
/// another count.
#[derive(Debug)]
pub struct Parameters {
    values: Vec<Entry>,
    indexes: Vec<Option<String>>,
    missing: BitVec,
}

/// The parameter table as a value.
pub struct ParametersView {
    pub values: Map<Seq<char>, Ieee32>,
    pub indexes: Seq<Option<Seq<char>>>,
    pub observed: Seq<bool>,
}

/// The number of indices with a name.
pub open spec fn named(indexes: Seq<Option<Seq<char>>>) -> nat
    decreases indexes.len(),
{
    if indexes.len() == 0 {
        0
    } else {
        named(indexes.drop_last()) + if indexes.last() is Some {
            1nat
        } else {
            0nat
        }
    }
}

impl ParametersView {
    /// An index is observed where it has a name, and nowhere else.
    pub open spec fn wf(self) -> bool {
        &&& self.indexes.len() == self.observed.len()
        &&& forall|i: int|
            0 <= i < self.indexes.len() ==> (#[trigger] self.observed[i] <==> self.indexes[i] is Some)
    }

    /// The table after the vehicle has declared `len` parameters: as it
    /// was where it has that many indices, else empty with `len` indices
    /// that have no name.
    pub open spec fn resized(self, len: u16) -> ParametersView {
        if self.indexes.len() != len {
            ParametersView {
                values: Map::empty(),
                indexes: Seq::new(len as nat, |i: int| None),
                observed: Seq::new(len as nat, |i: int| false),
            }
        } else {
            self
        }
    }

    /// Whether a report at `index` has a place in the table.
    pub open spec fn places(self, index: u16) -> bool {
        index != UNSOLICITED && index < self.indexes.len()
    }

    /// The table after a report of `value` under `name` at `index`: the
    /// value is that of the name, and where the index has a place in the
    /// table the name stands there and the index is observed.
    pub open spec fn assigned(self, index: u16, name: Seq<char>, value: Ieee32) -> ParametersView {
        if self.places(index) {
            ParametersView {
                values: self.values.insert(name, value),
                indexes: self.indexes.update(index as int, Some(name)),
                observed: self.observed.update(index as int, true),
            }
        } else {
            ParametersView { values: self.values.insert(name, value), ..self }
        }
    }

    /// The table after a `PARAM_VALUE`.
    pub open spec fn received(self, data: PARAM_VALUE_DATA) -> ParametersView {
        self.resized(data.param_count).assigned(
            data.param_index,
            mavlink_string(data.param_id@),
            data.param_value,
        )
    }

    /// The table after each `PARAM_VALUE` of `msgs` in turn.
    pub open spec fn received_all(self, msgs: Seq<PARAM_VALUE_DATA>) -> ParametersView
        decreases msgs.len(),
    {
        if msgs.len() == 0 {
            self
        } else {
            self.received_all(msgs.drop_last()).received(msgs.last())
        }
    }

    /// The number of indices with a name.
    pub open spec fn available(self) -> nat {
        named(self.indexes)
    }

    /// The table has an index, and every index is observed.
    pub open spec fn is_complete(self) -> bool {
        self.observed.len() > 0 && all_set(self.observed)
    }
}

/// The value that the entries hold under each name: the last entry of a
/// name counts.
spec fn map_of(v: Seq<Entry>) -> Map<Seq<char>, Ieee32>
    decreases v.len(),
{
    if v.len() == 0 {
        Map::empty()
    } else {
        map_of(v.drop_last()).insert(v.last().name@, v.last().value)
    }
}

/// The names at the indices.
spec fn names_of(v: Seq<Option<String>>) -> Seq<Option<Seq<char>>> {
    Seq::new(
        v.len(),
        |i: int|
            match v[i] {
                Some(s) => Some(s@),
                None => None,
            },
    )
}

/// No name has two entries.
spec fn distinct(v: Seq<Entry>) -> bool {
    forall|i: int, j: int| 0 <= i < j < v.len() ==> v[i].name@ != v[j].name@
}

proof fn lemma_map_of_absent(v: Seq<Entry>, name: Seq<char>)
    requires
        forall|i: int| 0 <= i < v.len() ==> v[i].name@ != name,
    ensures
        !map_of(v).contains_key(name),
    decreases v.len(),
{
    if v.len() > 0 {
        lemma_map_of_absent(v.drop_last(), name);
    }
}

proof fn lemma_map_of_present(v: Seq<Entry>, i: int)
    requires
        distinct(v),
        0 <= i < v.len(),
    ensures
        map_of(v).contains_key(v[i].name@),
        map_of(v)[v[i].name@] == v[i].value,
    decreases v.len(),
{
    if i < v.len() - 1 {
        lemma_map_of_present(v.drop_last(), i);
    }
}

proof fn lemma_map_of_update(v: Seq<Entry>, i: int, e: Entry)
    requires
        distinct(v),
        0 <= i < v.len(),
        e.name@ == v[i].name@,
    ensures
        distinct(v.update(i, e)),
        map_of(v.update(i, e)) =~= map_of(v).insert(e.name@, e.value),
    decreases v.len(),
{
    let u = v.update(i, e);
    if i == v.len() - 1 {
        assert(u.drop_last() =~= v.drop_last());
    } else {
        lemma_map_of_update(v.drop_last(), i, e);
        assert(u.drop_last() =~= v.drop_last().update(i, e));
        assert(u.last() == v.last());
    }
}

impl View for Parameters {
    type V = ParametersView;

    closed spec fn view(&self) -> ParametersView {
        ParametersView {
            values: map_of(self.values@),
            indexes: names_of(self.indexes@),
            observed: flags(self.missing),
        }
    }
}

impl Parameters {
    /// No name has two entries, and an index is observed where it has a
    /// name, and nowhere else.
    pub closed spec fn wf(&self) -> bool {
        &&& distinct(self.values@)
        &&& self@.wf()
    }

    /// A table of no parameters.
    pub fn new() -> (table: Parameters)
        ensures
            table.wf(),
            table@ == (ParametersView {
                values: Map::empty(),
                indexes: Seq::empty(),
                observed: Seq::empty(),
            }),
    {
        let table = Parameters { values: Vec::new(), indexes: Vec::new(), missing: flags_new() };
        assert(names_of(table.indexes@) =~= Seq::empty());
        table
    }

    /// Takes the number of parameters that the vehicle declares. Another
    /// number than the table has indices empties the table.
    pub fn resize(&mut self, len: u16)
        requires
            old(self).wf(),
        ensures
            final(self).wf(),
            final(self)@ == old(self)@.resized(len),
    {
        if self.indexes.len() != len as usize {
            self.values = Vec::new();
            let mut indexes: Vec<Option<String>> = Vec::new();
            let mut i: u16 = 0;
            while i < len
                invariant
                    i <= len,
                    indexes@.len() == i,
                    forall|j: int| 0 <= j < i ==> indexes@[j] is None,
                decreases len - i,
            {
                indexes.push(None);
                i += 1;
            }
            self.indexes = indexes;
            self.missing = flags_from_elem(len as usize, false);
            assert(names_of(self.indexes@) =~= Seq::new(len as nat, |i: int| None));
        }
    }

    /// Takes a report of `value` under `name` at `index`.
    pub fn assign(&mut self, index: u16, name: &str, value: Ieee32)
        requires
            old(self).wf(),
        ensures
            final(self).wf(),
            final(self)@ == old(self)@.assigned(index, name@, value),
    {
        let key = String::from_str(name);
        let n = self.values.len();
        let mut at: usize = 0;
        while at < n && !(self.values[at].name == key)
            invariant
                at <= n,
                n == self.values@.len(),
                self.values == old(self).values,
                key@ == name@,
                forall|j: int| 0 <= j < at ==> self.values@[j].name@ != name@,
            decreases n - at,
        {
            at += 1;
        }
        let ghost held = self.values@;
        let entry = Entry { name: key, value };
        if at < n {
            proof {
                lemma_map_of_update(held, at as int, entry);
            }
            self.values[at] = entry;
        } else {
            self.values.push(entry);
            assert(self.values@.drop_last() =~= held);
        }
        if index != UNSOLICITED && (index as usize) < self.indexes.len() {
            let ghost names = names_of(self.indexes@);
            self.indexes[index as usize] = Some(String::from_str(name));
            flags_set(&mut self.missing, index as usize, true);
            assert(names_of(self.indexes@) =~= names.update(index as int, Some(name@)));
        }
    }

    /// The value last reported under `name`, if any was.
    pub fn get(&self, name: &str) -> (value: Option<Ieee32>)
        requires
            self.wf(),
        ensures
            value == (if self@.values.contains_key(name@) {
                Some(self@.values[name@])
            } else {
                None
            }),
    {
        let key = String::from_str(name);
        let n = self.values.len();
        let mut at: usize = 0;
        while at < n
            invariant
                at <= n,
                n == self.values@.len(),
                distinct(self.values@),
                key@ == name@,
                forall|j: int| 0 <= j < at ==> self.values@[j].name@ != name@,
            decreases n - at,
        {
            if self.values[at].name == key {
                proof {
                    lemma_map_of_present(self.values@, at as int);
                }
                return Some(self.values[at].value);
            }
            at += 1;
        }
        proof {
            lemma_map_of_absent(self.values@, name@);
        }
        None
    }

    /// The bytes of a parameter's name in its 16-byte field: a byte for
    /// each of the first 16 characters, then zeros.
    pub open spec fn param_id_of(name: Seq<char>) -> Seq<u8> {
        Seq::new(
            16,
            |i: int|
                if i < name.len() {
                    name[i] as u8
                } else {
                    0u8
                },
        )
    }

    /// The `PARAM_SET` that asks for `value` under `name`.
    pub open spec fn param_set(name: Seq<char>, value: Ieee32) -> DkMessage {
        DkMessage::PARAM_SET(
            PARAM_SET_DATA {
                param_value: value,
                target_system: 0,
                target_component: 0,
                param_id: array_of(Self::param_id_of(name)),
                param_type: 0,
            },
        )
    }

    /// Asks the vehicle to set `name` to `value`. Returns the commands for
    /// the reactor: a watcher for the echo of that name with that value,
    /// then the frame of the `PARAM_SET`.
    pub fn set(&mut self, conn: &mut VehicleConnection, name: &str, value: Ieee32) -> (out: Vec<
        DkHandlerMessage,
    >)
        ensures
            *final(self) == *old(self),
            commands_of(out@) == seq![
                DkHandlerMessageView::TxWatcher(
                    WatcherView {
                        handle: old(conn).next_handle,
                        predicate: PredicateView::ParamEcho { name: name@, value },
                    },
                ),
                DkHandlerMessageView::TxMessage(
                    sent_frame(old(conn).msg_id, Self::param_set(name@, value)).bytes(),
                ),
            ],
            final(conn).msg_id == next_seq(old(conn).msg_id),
            final(conn).next_handle == next_handle(old(conn).next_handle),
            final(conn).started == old(conn).started,
            final(conn).buffer == old(conn).buffer,
    {
        let watch = conn.complete(Predicate::ParamEcho { name: String::from_str(name), value });
        let len = name.unicode_len();
        let mut param_id = [0u8;16];
        let mut i: usize = 0;
        while i < 16
            invariant
                i <= 16,
                len == name@.len(),
                forall|j: int| 0 <= j < i ==> param_id@[j] == Self::param_id_of(name@)[j],
                forall|j: int| i <= j < 16 ==> param_id@[j] == 0,
            decreases 16 - i,
        {
            if i < len {
                param_id[i] = #[verifier::truncate] (name.get_char(i) as u8);
            }
            i += 1;
        }
        proof {
            assert(param_id@ =~= Self::param_id_of(name@));
            lemma_array_of(param_id);
        }
        let frame = conn.send(
            DkMessage::PARAM_SET(
                PARAM_SET_DATA {
                    param_value: value,
                    target_system: 0,
                    target_component: 0,
                    param_id,
                    param_type: 0,
                },
            ),
        );
        pair(watch, frame)
    }

    /// Asks to be told when every index of the table has been observed.
    /// `None` where that is so already: there is nothing to wait for. Else
    /// the command that registers a watcher, which starts from what the
    /// table has observed.
    pub fn complete(&self, conn: &mut VehicleConnection) -> (out: Option<DkHandlerMessage>)
        ensures
            self@.is_complete() ==> out is None && *final(conn) == *old(conn),
            !self@.is_complete() ==> {
                &&& out is Some
                &&& out.unwrap()@ == DkHandlerMessageView::TxWatcher(
                    WatcherView {
                        handle: old(conn).next_handle,
                        predicate: PredicateView::ParamsComplete { missing: self@.observed },
                    },
                )
                &&& final(conn).next_handle == next_handle(old(conn).next_handle)
                &&& final(conn).msg_id == old(conn).msg_id
                &&& final(conn).started == old(conn).started
                &&& final(conn).buffer == old(conn).buffer
            },
    {
        if flags_len(&self.missing) > 0 && flags_all(&self.missing) {
            None
        } else {
            Some(conn.complete(Predicate::ParamsComplete { missing: flags_clone(&self.missing) }))
        }
    }

    /// The number of indices with a name.
    pub fn remaining(&self) -> (n: usize)
        ensures
            n == self@.available(),
    {
        self.available()
    }

    /// The number of indices with a name.
    pub fn available(&self) -> (n: usize)
        ensures
            n == self@.available(),
    {
        let len = self.indexes.len();
        let ghost names = names_of(self.indexes@);
        let mut n: usize = 0;
        let mut i: usize = 0;
        assert(names.take(0) =~= Seq::empty());
        while i < len
            invariant
                i <= len,
                len == self.indexes@.len(),
                names == names_of(self.indexes@),
                n == named(names.take(i as int)),
                n <= i,
            decreases len - i,
        {
            assert(names.take(i + 1).drop_last() =~= names.take(i as int));
            if self.indexes[i].is_some() {
                n += 1;
            }
            i += 1;
        }
        assert(names.take(len as int) =~= names);
        n
    }
}

/// The sequence number behind `seq`: one more, and 0 behind 255.
pub open spec fn next_seq(seq: u8) -> u8 {
    if seq == 255 {
        0
    } else {
        (seq + 1) as u8
    }
}

/// The handle behind `handle`: one more, and 0 behind the last.
pub open spec fn next_handle(handle: u64) -> u64 {
    if handle == u64::MAX {
        0
    } else {
        (handle + 1) as u64
    }
}

/// Two commands, in order.
fn pair(first: DkHandlerMessage, second: DkHandlerMessage) -> (out: Vec<DkHandlerMessage>)
    ensures
        commands_of(out@) == seq![first@, second@],
{
    let mut out: Vec<DkHandlerMessage> = Vec::new();
    out.push(first);
    out.push(second);
    assert(commands_of(out@) =~= seq![first@, second@]);
    out
}

/// A position over the globe with the altitude above the home position:
/// degrees times ten million, millimetres.
#[derive(Clone, Copy, Debug, PartialEq, Eq)]
pub struct LocationGlobalRelative {
    pub alt: i32,
    pub lat: i32,
    pub lon: i32,
}

/// A position over the globe with the altitude above mean sea level:
/// degrees times ten million, millimetres.
#[derive(Clone, Copy, Debug, PartialEq, Eq)]
pub struct LocationGlobal {
    pub alt: i32,
    pub lat: i32,
    pub lon: i32,
}

/// A position in the local frame: metres north, east and down.
#[derive(Clone, Copy, Debug, PartialEq, Eq)]
pub struct LocationLocal {
    pub x: Ieee32,
    pub y: Ieee32,
    pub z: Ieee32,
}

/// A status text of the vehicle, for the log.
#[derive(Debug)]
pub struct StatusText {
    pub severity: u8,
    pub text: String,
}

/// A status text as a value.
pub struct StatusTextView {
    pub severity: u8,
    pub text: Seq<char>,
}

impl View for StatusText {
    type V = StatusTextView;

    open spec fn view(&self) -> StatusTextView {
        StatusTextView { severity: self.severity, text: self.text@ }
    }
}

/// The status texts that a sequence of them stands for.
pub open spec fn log_of(v: Seq<StatusText>) -> Seq<StatusTextView> {
    v.map_values(|t: StatusText| t@)
}

/// What the session owes after it has taken messages in: the commands for
/// the reactor and the lines for the log, each in the order of the
/// messages.
#[derive(Debug)]
pub struct Outcome {
    pub outbound: Vec<DkHandlerMessage>,
    pub log: Vec<StatusText>,
}

/// A step of the start of a session.
#[derive(Debug)]
pub enum InitStep {
    /// Put these commands on the channel, take in what the vehicle sends,
    /// and ask again.
    Wait(Vec<DkHandlerMessage>),
    /// Put these commands on the channel: the session has started.
    Done(Vec<DkHandlerMessage>),
}

/// The messages among the items of the inbound channel, in order.
pub open spec fn delivered(inbound: Seq<DkHandlerRx>) -> Seq<DkMessage>
    decreases inbound.len(),
{
    if inbound.len() == 0 {
        Seq::empty()
    } else {
        match inbound.last() {
            DkHandlerRx::RxMessage(msg) => delivered(inbound.drop_last()).push(msg),
            DkHandlerRx::RxCork => delivered(inbound.drop_last()),
        }
    }
}

/// The heartbeat of the session: a ground station, of no autopilot.
pub open spec fn own_heartbeat() -> DkMessage {
    DkMessage::HEARTBEAT(
        HEARTBEAT_DATA {
            custom_mode: 0,
            mavtype: 6,
            autopilot: 8,
            base_mode: 0,
            system_status: 0,
            mavlink_version: 3,
        },
    )
}

/// The request for the whole parameter list.
pub open spec fn parameters_request() -> DkMessage {
    DkMessage::PARAM_REQUEST_LIST(PARAM_REQUEST_LIST_DATA { target_system: 0, target_component: 0 })
}

/// The request for every data stream, ten times a second.
pub open spec fn stream_request() -> DkMessage {
    DkMessage::REQUEST_DATA_STREAM(
        REQUEST_DATA_STREAM_DATA {
            target_system: 0,
            target_component: 0,
            req_stream_id: 0,
            req_message_rate: 10,
            start_stop: 1,
        },
    )
}

/// The `SET_MODE` that asks for `mode`.
pub open spec fn mode_request(mode: VehicleMode) -> DkMessage {
    DkMessage::SET_MODE(
        SET_MODE_DATA {
            target_system: 0,
            base_mode: MODE_FLAG_CUSTOM_MODE_ENABLED,
            custom_mode: mode.spec_custom_mode(),
        },
    )
}

/// The `COMMAND_LONG` with this command number, first and seventh
/// parameter, and zeros besides.
pub open spec fn command_long(command: u16, param1: Ieee32, param7: Ieee32) -> DkMessage {
    DkMessage::COMMAND_LONG(
        COMMAND_LONG_DATA {
            param1,
            param2: 0,
            param3: 0,
            param4: 0,
            param5: 0,
            param6: 0,
            param7,
            command,
            target_system: 0,
            target_component: 0,
            confirmation: 0,
        },
    )
}

/// The `SET_POSITION_TARGET_LOCAL_NED` that sends the vehicle to `target`:
/// the position counts, velocity and acceleration are masked.
pub open spec fn position_target(time_boot_ms: u32, target: LocationLocal) -> DkMessage {
    DkMessage::SET_POSITION_TARGET_LOCAL_NED(
        SET_POSITION_TARGET_LOCAL_NED_DATA {
            time_boot_ms,
            x: target.x,
            y: target.y,
            z: target.z,
            vx: TENTH,
            vy: TENTH,
            vz: TENTH,
            afx: 0,
            afy: 0,
            afz: 0,
            yaw: 0,
            yaw_rate: 0,
            type_mask: MASK_POSITION_ONLY,
            target_system: 0,
            target_component: 0,
            coordinate_frame: FRAME_LOCAL_NED,
        },
    )
}

/// The command that has the reactor write the frame of `data` under `seq`.
pub open spec fn write_of(seq: u8, data: DkMessage) -> DkHandlerMessageView {
    DkHandlerMessageView::TxMessage(sent_frame(seq, data).bytes())
}

/// The command that has the reactor register `predicate` under `handle`.
pub open spec fn watch_of(handle: u64, predicate: PredicateView) -> DkHandlerMessageView {
    DkHandlerMessageView::TxWatcher(WatcherView { handle, predicate })
}

/// The session as a value.
pub struct VehicleView {
    pub parameters: ParametersView,
    pub location_global: Option<LocationGlobal>,
    pub location_global_relative: Option<LocationGlobalRelative>,
    pub location_local: Option<LocationLocal>,
    pub msg_id: u8,
    pub started: bool,
    pub next_handle: u64,
    pub buffer: Seq<DkMessage>,
    pub master_heartbeat: bool,
}

/// What a run of messages leaves: the session, the commands owed and the
/// lines for the log.
pub struct Run {
    pub state: VehicleView,
    pub outbound: Seq<DkHandlerMessageView>,
    pub log: Seq<StatusTextView>,
}

impl VehicleView {
    /// The session after it has taken in `msg`. A heartbeat is answered,
    /// which takes a sequence number, and is remembered. A parameter value
    /// goes to the table. A global position sets both global locations, a
    /// local position the local one. Any other message leaves the session
    /// as it is.
    pub open spec fn applied(self, msg: DkMessage) -> VehicleView {
        match msg {
            DkMessage::HEARTBEAT(_) => VehicleView {
                msg_id: next_seq(self.msg_id),
                master_heartbeat: true,
                ..self
            },
            DkMessage::PARAM_VALUE(data) => VehicleView {
                parameters: self.parameters.received(data),
                ..self
            },
            DkMessage::GLOBAL_POSITION_INT(data) => VehicleView {
                location_global: Some(
                    LocationGlobal { alt: data.alt, lat: data.lat, lon: data.lon },
                ),
                location_global_relative: Some(
                    LocationGlobalRelative { alt: data.relative_alt, lat: data.lat, lon: data.lon },
                ),
                ..self
            },
            DkMessage::LOCAL_POSITION_NED(data) => VehicleView {
                location_local: Some(LocationLocal { x: data.x, y: data.y, z: data.z }),
                ..self
            },
            _ => self,
        }
    }

    /// The commands that taking in `msg` owes: the session's own heartbeat
    /// in answer to a heartbeat, else none.
    pub open spec fn reply(self, msg: DkMessage) -> Seq<DkHandlerMessageView> {
        match msg {
            DkMessage::HEARTBEAT(_) => seq![write_of(self.msg_id, own_heartbeat())],
            _ => Seq::empty(),
        }
    }

    /// The lines that `msg` gives the log: that of a status text, else
    /// none.
    pub open spec fn noted(msg: DkMessage) -> Seq<StatusTextView> {
        match msg {
            DkMessage::STATUSTEXT(data) => seq![
                StatusTextView { severity: data.severity, text: mavlink_string(data.text@) },
            ],
            _ => Seq::empty(),
        }
    }

    /// Takes in each message of `msgs` in turn.
    pub open spec fn run(self, msgs: Seq<DkMessage>) -> Run
        decreases msgs.len(),
    {
        if msgs.len() == 0 {
            Run { state: self, outbound: Seq::empty(), log: Seq::empty() }
        } else {
            let before = self.run(msgs.drop_last());
            Run {
                state: before.state.applied(msgs.last()),
                outbound: before.outbound + before.state.reply(msgs.last()),
                log: before.log + Self::noted(msgs.last()),
            }
        }
    }
}

/// The session: the mirror of the vehicle, the parameter table, and the
/// session's end of the channels.
#[derive(Debug)]
pub struct Vehicle {
    pub parameters: Parameters,
    pub location_global: Option<LocationGlobal>,
    pub location_global_relative: Option<LocationGlobalRelative>,
    pub location_local: Option<LocationLocal>,
    pub connection: VehicleConnection,
    pub master_heartbeat: bool,
}

impl View for Vehicle {
    type V = VehicleView;

    open spec fn view(&self) -> VehicleView {
        VehicleView {
            parameters: self.parameters@,
            location_global: self.location_global,
            location_global_relative: self.location_global_relative,
            location_local: self.location_local,
            msg_id: self.connection.msg_id,
            started: self.connection.started,
            next_handle: self.connection.next_handle,
            buffer: self.connection.buffer@,
            master_heartbeat: self.master_heartbeat,
        }
    }
}

impl Vehicle {
    /// A session over `conn` that has heard nothing of the vehicle.
    pub fn new(conn: VehicleConnection) -> (vehicle: Vehicle)
        ensures
            vehicle.parameters.wf(),
            vehicle@ == (VehicleView {
                parameters: ParametersView {
                    values: Map::empty(),
                    indexes: Seq::empty(),
                    observed: Seq::empty(),
                },
                location_global: None,
                location_global_relative: None,
                location_local: None,
                msg_id: conn.msg_id,
                started: conn.started,
                next_handle: conn.next_handle,
                buffer: conn.buffer@,
                master_heartbeat: false,
            }),
    {
        Vehicle {
            parameters: Parameters::new(),
            location_global: None,
            location_global_relative: None,
            location_local: None,
            connection: conn,
            master_heartbeat: false,
        }
    }

    /// Takes in what the session has at hand: first the messages buffered
    /// while the reactor was asked to stop reading, then the messages among
    /// `inbound`, the items that the caller took from the inbound channel,
    /// all in order.
    pub fn update(&mut self, inbound: &[DkHandlerRx]) -> (out: Outcome)
        requires
            old(self).parameters.wf(),
        ensures
            final(self).parameters.wf(),
            final(self)@ == (VehicleView {
                buffer: Seq::empty(),
                ..old(self)@.run(old(self)@.buffer + delivered(inbound@)).state
            }),
            commands_of(out.outbound@) == old(self)@.run(
                old(self)@.buffer + delivered(inbound@),
            ).outbound,
            log_of(out.log@) == old(self)@.run(old(self)@.buffer + delivered(inbound@)).log,
    {
        let ghost start = self@;
        let ghost buffered = self.connection.buffer@;
        let ghost mut done: Seq<DkMessage> = Seq::empty();
        let mut out = Outcome { outbound: Vec::new(), log: Vec::new() };
        assert(commands_of(out.outbound@) =~= Seq::empty());
        assert(log_of(out.log@) =~= Seq::empty());
        assert(done + self.connection.buffer@ =~= buffered);
        while self.connection.buffer.len() > 0
            invariant
                self.parameters.wf(),
                done + self.connection.buffer@ == buffered,
                self@ == (VehicleView {
                    buffer: self.connection.buffer@,
                    ..start.run(done).state
                }),
                commands_of(out.outbound@) == start.run(done).outbound,
                log_of(out.log@) == start.run(done).log,
            decreases self.connection.buffer@.len(),
        {
            let ghost held = self.connection.buffer@;
            match self.connection.recv() {
                Some(DkHandlerRx::RxMessage(msg)) => {
                    proof {
                        assert(done.push(msg).drop_last() =~= done);
                        assert(done.push(msg) + held.drop_first() =~= buffered);
                    }
                    self.take_in(msg, &mut out);
                    proof {
                        done = done.push(msg);
                    }
                },
                _ => {},
            }
        }
        assert(self.connection.buffer@ =~= Seq::<DkMessage>::empty());
        assert(done =~= buffered);
        assert(delivered(inbound@.take(0)) =~= Seq::<DkMessage>::empty());
        let n = inbound.len();
        let mut i: usize = 0;
        assert(inbound@.take(0) =~= Seq::<DkHandlerRx>::empty());
        assert(buffered + delivered(inbound@.take(0)) =~= buffered);
        while i < n
            invariant
                i <= n,
                n == inbound@.len(),
                self.parameters.wf(),
                self@ == (VehicleView {
                    buffer: Seq::empty(),
                    ..start.run(buffered + delivered(inbound@.take(i as int))).state
                }),
                commands_of(out.outbound@) == start.run(
                    buffered + delivered(inbound@.take(i as int)),
                ).outbound,
                log_of(out.log@) == start.run(buffered + delivered(inbound@.take(i as int))).log,
            decreases n - i,
        {
            let ghost seen = delivered(inbound@.take(i as int));
            assert(inbound@.take(i + 1).drop_last() =~= inbound@.take(i as int));
            match inbound[i] {
                DkHandlerRx::RxMessage(msg) => {
                    proof {
                        assert(buffered + seen.push(msg) =~= (buffered + seen).push(msg));
                        assert((buffered + seen).push(msg).drop_last() =~= buffered + seen);
                    }
                    self.take_in(msg, &mut out);
                },
                DkHandlerRx::RxCork => {},
            }
            i += 1;
        }
        assert(inbound@.take(n as int) =~= inbound@);
        out
    }

    /// Takes in `pkt` and adds what that owes to `out`.
    fn take_in(&mut self, pkt: DkMessage, out: &mut Outcome)
        requires
            old(self).parameters.wf(),
        ensures
            final(self).parameters.wf(),
            final(self)@ == old(self)@.applied(pkt),
            commands_of(final(out).outbound@) == commands_of(old(out).outbound@) + old(self)@.reply(
                pkt,
            ),
            log_of(final(out).log@) == log_of(old(out).log@) + VehicleView::noted(pkt),
    {
        let mut owed = self.on_message(pkt);
        let ghost a = out.outbound@;
        let ghost b = owed.outbound@;
        let ghost c = out.log@;
        let ghost d = owed.log@;
        out.outbound.append(&mut owed.outbound);
        out.log.append(&mut owed.log);
        assert(commands_of(a + b) =~= commands_of(a) + commands_of(b));
        assert(log_of(c + d) =~= log_of(c) + log_of(d));
    }

    /// The start of a session, step by step. Before anything else the
    /// session's heartbeat is owed. Until a heartbeat of the vehicle has
    /// been taken in nothing more is. Then the parameter list and the data
    /// streams are asked for, and the session has started.
    pub fn init(&mut self) -> (step: InitStep)
        ensures
            final(self).parameters == old(self).parameters,
            old(self)@.master_heartbeat ==> {
                &&& step matches InitStep::Done(out)
                &&& commands_of(out@) == seq![
                    write_of(old(self)@.msg_id, parameters_request()),
                    write_of(next_seq(old(self)@.msg_id), stream_request()),
                ]
                &&& final(self)@ == (VehicleView {
                    msg_id: next_seq(next_seq(old(self)@.msg_id)),
                    started: true,
                    ..old(self)@
                })
            },
            !old(self)@.master_heartbeat && !old(self)@.started ==> {
                &&& step matches InitStep::Wait(out)
                &&& commands_of(out@) == seq![write_of(old(self)@.msg_id, own_heartbeat())]
                &&& final(self)@ == (VehicleView {
                    msg_id: next_seq(old(self)@.msg_id),
                    started: true,
                    ..old(self)@
                })
            },
            !old(self)@.master_heartbeat && old(self)@.started ==> {
                &&& step matches InitStep::Wait(out)
                &&& out@.len() == 0
                &&& final(self)@ == old(self)@
            },
    {
        let mut out: Vec<DkHandlerMessage> = Vec::new();
        if self.master_heartbeat {
            self.connection.started = true;
            let first = self.request_parameters();
            let second = self.request_stream();
            out.push(first);
            out.push(second);
            assert(commands_of(out@) =~= seq![first@, second@]);
            InitStep::Done(out)
        } else if !self.connection.started {
            self.connection.started = true;
            let first = self.send_heartbeat();
            out.push(first);
            assert(commands_of(out@) =~= seq![first@]);
            InitStep::Wait(out)
        } else {
            InitStep::Wait(out)
        }
    }

    /// The session's own heartbeat, framed.
    pub fn send_heartbeat(&mut self) -> (out: DkHandlerMessage)
        ensures
            final(self).parameters == old(self).parameters,
            out@ == write_of(old(self)@.msg_id, own_heartbeat()),
            final(self)@ == (VehicleView { msg_id: next_seq(old(self)@.msg_id), ..old(self)@ }),
    {
        self.connection.send(
            DkMessage::HEARTBEAT(
                HEARTBEAT_DATA {
                    custom_mode: 0,
                    mavtype: 6,
                    autopilot: 8,
                    base_mode: 0,
                    system_status: 0,
                    mavlink_version: 0x3,
                },
            ),
        )
    }

    /// The request for the whole parameter list, framed.
    pub fn request_parameters(&mut self) -> (out: DkHandlerMessage)
        ensures
            final(self).parameters == old(self).parameters,
            out@ == write_of(old(self)@.msg_id, parameters_request()),
            final(self)@ == (VehicleView { msg_id: next_seq(old(self)@.msg_id), ..old(self)@ }),
    {
        self.connection.send(
            DkMessage::PARAM_REQUEST_LIST(
                PARAM_REQUEST_LIST_DATA { target_system: 0, target_component: 0 },
            ),
        )
    }

    /// The request for the data streams, framed.
    pub fn request_stream(&mut self) -> (out: DkHandlerMessage)
        ensures
            final(self).parameters == old(self).parameters,
            out@ == write_of(old(self)@.msg_id, stream_request()),
            final(self)@ == (VehicleView { msg_id: next_seq(old(self)@.msg_id), ..old(self)@ }),
    {
        self.connection.send(
            DkMessage::REQUEST_DATA_STREAM(
                REQUEST_DATA_STREAM_DATA {
                    target_system: 0,
                    target_component: 0,
                    req_stream_id: 0,
                    req_message_rate: 10,
                    start_stop: 1,
                },
            ),
        )
    }

    /// Takes in one message of the vehicle. Returns what that owes.
    pub fn on_message(&mut self, pkt: DkMessage) -> (out: Outcome)
        requires
            old(self).parameters.wf(),
        ensures
            final(self).parameters.wf(),
            final(self)@ == old(self)@.applied(pkt),
            commands_of(out.outbound@) == old(self)@.reply(pkt),
            log_of(out.log@) == VehicleView::noted(pkt),
    {
        let mut out = Outcome { outbound: Vec::new(), log: Vec::new() };
        match pkt {
            DkMessage::HEARTBEAT(_) => {
                let reply = self.send_heartbeat();
                out.outbound.push(reply);
                self.master_heartbeat = true;
            },
            DkMessage::STATUSTEXT(data) => {
                let text = parse_mavlink_string(data.text.as_slice());
                out.log.push(StatusText { severity: data.severity, text });
            },
            DkMessage::PARAM_VALUE(data) => {
                let name = parse_mavlink_string(data.param_id.as_slice());
                self.parameters.resize(data.param_count);
                self.parameters.assign(data.param_index, name.as_str(), data.param_value);
            },
            DkMessage::GLOBAL_POSITION_INT(data) => {
                self.location_global = Some(
                    LocationGlobal { lat: data.lat, lon: data.lon, alt: data.alt },
                );
                self.location_global_relative = Some(
                    LocationGlobalRelative { lat: data.lat, lon: data.lon, alt: data.relative_alt },
                );
            },
            DkMessage::LOCAL_POSITION_NED(data) => {
                self.location_local = Some(LocationLocal { x: data.x, y: data.y, z: data.z });
            },
            _ => {},
        }
        assert(commands_of(out.outbound@) =~= old(self)@.reply(pkt));
        assert(log_of(out.log@) =~= VehicleView::noted(pkt));
        out
    }

    /// Asks for a flight mode. Returns the commands for the reactor: a
    /// watcher for a heartbeat that shows the mode in force, then the frame
    /// of the `SET_MODE`.
    pub fn set_mode(&mut self, mode: VehicleMode) -> (out: Vec<DkHandlerMessage>)
        ensures
            final(self).parameters == old(self).parameters,
            commands_of(out@) == seq![
                watch_of(
                    old(self)@.next_handle,
                    PredicateView::Mode { custom_mode: mode.spec_custom_mode() },
                ),
                write_of(old(self)@.msg_id, mode_request(mode)),
            ],
            final(self)@ == (VehicleView {
                msg_id: next_seq(old(self)@.msg_id),
                next_handle: next_handle(old(self)@.next_handle),
                ..old(self)@
            }),
    {
        let custom_mode = mode.custom_mode();
        let watch = self.connection.complete(Predicate::Mode { custom_mode });
        let frame = self.connection.send(
            DkMessage::SET_MODE(
                SET_MODE_DATA {
                    target_system: 0,
                    base_mode: MODE_FLAG_CUSTOM_MODE_ENABLED,
                    custom_mode,
                },
            ),
        );
        pair(watch, frame)
    }

    /// Asks the vehicle to arm. Returns the commands for the reactor: a
    /// watcher for the acknowledgement and for a heartbeat that shows the
    /// vehicle armed, then the frame of the command.
    pub fn arm(&mut self) -> (out: Vec<DkHandlerMessage>)
        ensures
            final(self).parameters == old(self).parameters,
            commands_of(out@) == seq![
                watch_of(
                    old(self)@.next_handle,
                    PredicateView::Armed { ack: false, armed: false },
                ),
                write_of(old(self)@.msg_id, command_long(CMD_COMPONENT_ARM_DISARM, ONE, 0)),
            ],
            final(self)@ == (VehicleView {
                msg_id: next_seq(old(self)@.msg_id),
                next_handle: next_handle(old(self)@.next_handle),
                ..old(self)@
            }),
    {
        let watch = self.connection.complete(Predicate::Armed { ack: false, armed: false });
        let frame = self.connection.send(long_command(CMD_COMPONENT_ARM_DISARM, ONE, 0));
        pair(watch, frame)
    }

    /// Asks the vehicle to take off to `target_alt` metres. Returns the
    /// commands for the reactor: a watcher for the acknowledgement and for
    /// a heartbeat that shows the vehicle active, then the frame of the
    /// command.
    pub fn takeoff(&mut self, target_alt: Ieee32) -> (out: Vec<DkHandlerMessage>)
        ensures
            final(self).parameters == old(self).parameters,
            commands_of(out@) == seq![
                watch_of(
                    old(self)@.next_handle,
                    PredicateView::Airborne { ack: false, active: false },
                ),
                write_of(old(self)@.msg_id, command_long(CMD_NAV_TAKEOFF, 0, target_alt)),
            ],
            final(self)@ == (VehicleView {
                msg_id: next_seq(old(self)@.msg_id),
                next_handle: next_handle(old(self)@.next_handle),
                ..old(self)@
            }),
    {
        let watch = self.connection.complete(Predicate::Airborne { ack: false, active: false });
        let frame = self.connection.send(long_command(CMD_NAV_TAKEOFF, 0, target_alt));
        pair(watch, frame)
    }

    /// The position target for `target` once more, framed.
    pub fn retry(&mut self, target: LocationLocal) -> (out: DkHandlerMessage)
        ensures
            final(self).parameters == old(self).parameters,
            out@ == write_of(old(self)@.msg_id, position_target(10, target)),
            final(self)@ == (VehicleView { msg_id: next_seq(old(self)@.msg_id), ..old(self)@ }),
    {
        self.connection.send(target_message(10, target))
    }

    /// Sends the vehicle to `target`. Returns the frame of the position
    /// target.
    pub fn goto(&mut self, target: LocationLocal) -> (out: DkHandlerMessage)
        ensures
            final(self).parameters == old(self).parameters,
            out@ == write_of(old(self)@.msg_id, position_target(0, target)),
            final(self)@ == (VehicleView { msg_id: next_seq(old(self)@.msg_id), ..old(self)@ }),
    {
        self.connection.send(target_message(0, target))
    }
}

/// Builds a `COMMAND_LONG`.
fn long_command(command: u16, param1: Ieee32, param7: Ieee32) -> (msg: DkMessage)
    ensures
        msg == command_long(command, param1, param7),
{
    DkMessage::COMMAND_LONG(
        COMMAND_LONG_DATA {
            target_system: 0,
            target_component: 0,
            command,
            confirmation: 0,
            param1,
            param2: 0,
            param3: 0,
            param4: 0,
            param5: 0,
            param6: 0,
            param7,
        },
    )
}

/// Builds a `SET_POSITION_TARGET_LOCAL_NED`.
fn target_message(time_boot_ms: u32, target: LocationLocal) -> (msg: DkMessage)
    ensures
        msg == position_target(time_boot_ms, target),
{
    DkMessage::SET_POSITION_TARGET_LOCAL_NED(
        SET_POSITION_TARGET_LOCAL_NED_DATA {
            time_boot_ms,
            target_system: 0,
            target_component: 0,
            coordinate_frame: FRAME_LOCAL_NED,
            type_mask: MASK_POSITION_ONLY,
            x: target.x,
            y: target.y,
            z: target.z,
            vx: TENTH,
            vy: TENTH,
            vz: TENTH,
            afx: 0,
            afy: 0,
            afz: 0,
            yaw: 0,
            yaw_rate: 0,
        },
    )
}

/// Some message of `msgs` carries the index `i`.
pub open spec fn carried(msgs: Seq<PARAM_VALUE_DATA>, i: int) -> bool {
    exists|k: int| 0 <= k < msgs.len() && (#[trigger] msgs[k]).param_index == i
}

/// A table that is sent every index below the count that the messages
/// declare, in any order and however often, is complete after the last
/// message.
pub proof fn lemma_all_indices_complete(
    table: ParametersView,
    msgs: Seq<PARAM_VALUE_DATA>,
    count: u16,
)
    requires
        table.wf(),
        count > 0,
        forall|k: int|
            0 <= k < msgs.len() ==> (#[trigger] msgs[k]).param_count == count
                && msgs[k].param_index < count,
        forall|i: int| 0 <= i < count ==> #[trigger] carried(msgs, i),
    ensures
        table.received_all(msgs).is_complete(),
{
    assert(carried(msgs, 0));
    lemma_observed_after(table, msgs, count);
    let end = table.received_all(msgs);
    assert forall|i: int| 0 <= i < end.observed.len() implies end.observed[i] by {
        assert(carried(msgs, i));
        let k = choose|k: int| 0 <= k < msgs.len() && (#[trigger] msgs[k]).param_index == i;
        assert(end.observed[msgs[k].param_index as int]);
    }
}

/// After messages that all declare `count`, the table has that many
/// indices and has observed the index of each message.
proof fn lemma_observed_after(table: ParametersView, msgs: Seq<PARAM_VALUE_DATA>, count: u16)
    requires
        table.wf(),
        msgs.len() > 0,
        forall|k: int|
            0 <= k < msgs.len() ==> (#[trigger] msgs[k]).param_count == count
                && msgs[k].param_index < count,
    ensures
        table.received_all(msgs).wf(),
        table.received_all(msgs).observed.len() == count,
        forall|k: int|
            0 <= k < msgs.len() ==> table.received_all(msgs).observed[(
            #[trigger] msgs[k]).param_index as int],
    decreases msgs.len(),
{
    let before = msgs.drop_last();
    if before.len() > 0 {
        lemma_observed_after(table, before, count);
        assert forall|k: int| 0 <= k < msgs.len() implies table.received_all(msgs).observed[(
        #[trigger] msgs[k]).param_index as int] by {
            if k < before.len() {
                assert(before[k] == msgs[k]);
            }
        }
    } else {
        assert(table.received_all(before) == table);
    }
}

/// A watcher for the whole table that starts from what the table has
/// observed goes on observing what the table observes.
pub proof fn lemma_watcher_follows_table(table: ParametersView, data: PARAM_VALUE_DATA)
    requires
        table.wf(),
    ensures
        table.received(data).wf(),
        observe(table.observed, data.param_count, data.param_index) == table.received(
            data,
        ).observed,
        (PredicateView::ParamsComplete { missing: table.observed }).fires(
            DkMessage::PARAM_VALUE(data),
        ) == table.received(data).is_complete(),
{
}

/// A `PARAM_VALUE` that declares another count than the table has indices
/// leaves a table of that count which has observed nothing but the index
/// of that message: it is complete only where that is all there is.
pub proof fn lemma_new_count_resets(table: ParametersView, data: PARAM_VALUE_DATA)
    requires
        table.wf(),
        data.param_count != table.indexes.len(),
    ensures
        table.received(data).wf(),
        table.received(data).observed.len() == data.param_count,
        forall|i: int|
            0 <= i < data.param_count && table.received(data).observed[i] ==> i
                == data.param_index,
        table.received(data).is_complete() <==> data.param_count == 1 && data.param_index == 0,
{
    let after = table.received(data);
    if data.param_count == 1 && data.param_index == 0 {
        assert(after.observed[0]);
    }
    if after.is_complete() {
        assert(after.observed[0]);
        if data.param_count > 1 {
            assert(after.observed[1]);
        }
    }
}

/// A table is complete only where every index has been observed: after
/// the vehicle has declared another count, only when messages for all the
/// indices below it have come.
pub proof fn lemma_complete_needs_all(
    table: ParametersView,
    msgs: Seq<PARAM_VALUE_DATA>,
    count: u16,
)
    requires
        table.wf(),
        count != table.indexes.len(),
        msgs.len() > 0,
        forall|k: int| 0 <= k < msgs.len() ==> (#[trigger] msgs[k]).param_count == count,
        table.received_all(msgs).is_complete(),
    ensures
        forall|i: int| 0 <= i < count ==> #[trigger] carried(msgs, i),
{
    lemma_observed_only(table, msgs, count);
    let end = table.received_all(msgs);
    assert forall|i: int| 0 <= i < count implies #[trigger] carried(msgs, i) by {
        assert(end.observed[i]);
    }
}

/// After another count was declared, an index is observed only where a
/// message carried it.
proof fn lemma_observed_only(table: ParametersView, msgs: Seq<PARAM_VALUE_DATA>, count: u16)
    requires
        table.wf(),
        count != table.indexes.len(),
        msgs.len() > 0,
        forall|k: int| 0 <= k < msgs.len() ==> (#[trigger] msgs[k]).param_count == count,
    ensures
        table.received_all(msgs).wf(),
        table.received_all(msgs).observed.len() == count,
        forall|i: int|
            0 <= i < count && #[trigger] table.received_all(msgs).observed[i] ==> carried(msgs, i),
    decreases msgs.len(),
{
    let before = msgs.drop_last();
    let end = table.received_all(msgs);
    if before.len() > 0 {
        lemma_observed_only(table, before, count);
        let mid = table.received_all(before);
        assert forall|i: int| 0 <= i < count && #[trigger] end.observed[i] implies carried(
            msgs,
            i,
        ) by {
            if i == msgs.last().param_index {
                assert(msgs[msgs.len() - 1].param_index == i);
            } else {
                assert(mid.observed[i]);
                assert(carried(before, i));
                let k = choose|k: int|
                    0 <= k < before.len() && (#[trigger] before[k]).param_index == i;
                assert(msgs[k].param_index == i);
            }
        }
    } else {
        assert(table.received_all(before) == table);
        assert forall|i: int| 0 <= i < count && #[trigger] end.observed[i] implies carried(
            msgs,
            i,
        ) by {
            assert(msgs[0].param_index == i);
        }
    }
}

} // verus!
