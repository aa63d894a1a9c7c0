//! Watchers: one-shot predicates over the inbound messages, each with the
//! handle of the completion that it stands for.

use crate::bits::{all_set, flags, flags_all, flags_from_elem, flags_len, flags_set};
use crate::connection::{mavlink_string, parse_mavlink_string};
use crate::mavlink::DkMessage;
use crate::wire::{ieee32_eq, spec_ieee32_eq, Ieee32};
use bit_vec::BitVec;
use vstd::prelude::*;

verus! {

/// The command number of arming, in `COMMAND_LONG` and `COMMAND_ACK`.
pub const CMD_COMPONENT_ARM_DISARM: u16 = 400;

/// The command number of take-off.
pub const CMD_NAV_TAKEOFF: u16 = 22;

/// The flag of `base_mode` that says the custom mode is in force.
pub const MODE_FLAG_CUSTOM_MODE_ENABLED: u8 = 1;

/// The flag of `base_mode` that says the vehicle is armed.
pub const MODE_FLAG_SAFETY_ARMED: u8 = 128;

/// The `system_status` of a vehicle that is active.
pub const STATE_ACTIVE: u8 = 4;

/// What a watcher waits for, with what it has seen so far.
#[derive(Debug)]
pub enum Predicate {
    /// A heartbeat that shows the custom mode in force.
    Mode { custom_mode: u32 },
    /// The acknowledgement of the arming command and a heartbeat that shows
    /// the vehicle armed, in either order.
    Armed { ack: bool, armed: bool },
    /// The acknowledgement of the take-off command and a heartbeat that
    /// shows the vehicle active, in either order.
    Airborne { ack: bool, active: bool },
    /// The echo of a parameter under this name with this value.
    ParamEcho { name: String, value: Ieee32 },
    /// Every index of the parameter table observed since the vehicle last
    /// declared another count.
    ParamsComplete { missing: BitVec },
}

/// A predicate as a value.
pub enum PredicateView {
    Mode { custom_mode: u32 },
    Armed { ack: bool, armed: bool },
    Airborne { ack: bool, active: bool },
    ParamEcho { name: Seq<char>, value: Ieee32 },
    ParamsComplete { missing: Seq<bool> },
}

impl View for Predicate {
    type V = PredicateView;

    open spec fn view(&self) -> PredicateView {
        match self {
            Predicate::Mode { custom_mode } => PredicateView::Mode { custom_mode: *custom_mode },
            Predicate::Armed { ack, armed } => PredicateView::Armed { ack: *ack, armed: *armed },
            Predicate::Airborne { ack, active } => PredicateView::Airborne {
                ack: *ack,
                active: *active,
            },
            Predicate::ParamEcho { name, value } => PredicateView::ParamEcho {
                name: name@,
                value: *value,
            },
            Predicate::ParamsComplete { missing } => PredicateView::ParamsComplete {
                missing: flags(*missing),
            },
        }
    }
}

/// The observed flags after a `PARAM_VALUE` that declares `count`
/// parameters and carries the one at `index`: a count other than the number
/// of flags resets them, and the flag at `index` is set where there is one.
pub open spec fn observe(missing: Seq<bool>, count: u16, index: u16) -> Seq<bool> {
    let sized = if count as nat != missing.len() {
        Seq::new(count as nat, |i: int| false)
    } else {
        missing
    };
    if (index as int) < sized.len() {
        sized.update(index as int, true)
    } else {
        sized
    }
}

impl PredicateView {
    /// The predicate after it has seen `msg`.
    pub open spec fn step(self, msg: DkMessage) -> PredicateView {
        match (self, msg) {
            (PredicateView::Armed { ack, armed }, DkMessage::COMMAND_ACK(data)) => {
                PredicateView::Armed { ack: ack || data.command == CMD_COMPONENT_ARM_DISARM, armed }
            },
            (PredicateView::Armed { ack, armed }, DkMessage::HEARTBEAT(data)) => {
                PredicateView::Armed {
                    ack,
                    armed: armed || data.base_mode & MODE_FLAG_SAFETY_ARMED != 0,
                }
            },
            (PredicateView::Airborne { ack, active }, DkMessage::COMMAND_ACK(data)) => {
                PredicateView::Airborne { ack: ack || data.command == CMD_NAV_TAKEOFF, active }
            },
            (PredicateView::Airborne { ack, active }, DkMessage::HEARTBEAT(data)) => {
                PredicateView::Airborne {
                    ack,
                    active: active || data.system_status == STATE_ACTIVE,
                }
            },
            (PredicateView::ParamsComplete { missing }, DkMessage::PARAM_VALUE(data)) => {
                PredicateView::ParamsComplete {
                    missing: observe(missing, data.param_count, data.param_index),
                }
            },
            _ => self,
        }
    }

    /// Whether the predicate holds of what it has seen. One that looks at a
    /// single message holds of none seen before.
    pub open spec fn holds(self) -> bool {
        match self {
            PredicateView::Armed { ack, armed } => ack && armed,
            PredicateView::Airborne { ack, active } => ack && active,
            PredicateView::ParamsComplete { missing } => missing.len() > 0 && all_set(missing),
            _ => false,
        }
    }

    /// Whether `msg` makes the predicate true: the watcher fires on it.
    pub open spec fn fires(self, msg: DkMessage) -> bool {
        match self {
            PredicateView::Mode { custom_mode } => match msg {
                DkMessage::HEARTBEAT(data) => data.base_mode & MODE_FLAG_CUSTOM_MODE_ENABLED != 0
                    && data.custom_mode == custom_mode,
                _ => false,
            },
            PredicateView::ParamEcho { name, value } => match msg {
                DkMessage::PARAM_VALUE(data) => mavlink_string(data.param_id@) == name
                    && spec_ieee32_eq(data.param_value, value),
                _ => false,
            },
            PredicateView::ParamsComplete { missing } => match msg {
                DkMessage::PARAM_VALUE(_) => self.step(msg).holds(),
                _ => false,
            },
            PredicateView::Armed { .. } | PredicateView::Airborne { .. } => self.step(msg).holds(),
        }
    }
}

impl Predicate {
    /// Shows `msg` to the predicate. Returns whether it is now true.
    pub fn offer(&mut self, msg: &DkMessage) -> (fired: bool)
        ensures
            final(self)@ == old(self)@.step(*msg),
            fired == old(self)@.fires(*msg),
    {
        match self {
            Predicate::Mode { custom_mode } => {
                match msg {
                    DkMessage::HEARTBEAT(data) => {
                        data.base_mode & MODE_FLAG_CUSTOM_MODE_ENABLED != 0 && data.custom_mode
                            == *custom_mode
                    },
                    _ => false,
                }
            },
            Predicate::Armed { ack, armed } => {
                match msg {
                    DkMessage::COMMAND_ACK(data) => {
                        *ack = *ack || data.command == CMD_COMPONENT_ARM_DISARM;
                    },
                    DkMessage::HEARTBEAT(data) => {
                        *armed = *armed || data.base_mode & MODE_FLAG_SAFETY_ARMED != 0;
                    },
                    _ => {},
                }
                *ack && *armed
            },
            Predicate::Airborne { ack, active } => {
                match msg {
                    DkMessage::COMMAND_ACK(data) => {
                        *ack = *ack || data.command == CMD_NAV_TAKEOFF;
                    },
                    DkMessage::HEARTBEAT(data) => {
                        *active = *active || data.system_status == STATE_ACTIVE;
                    },
                    _ => {},
                }
                *ack && *active
            },
            Predicate::ParamEcho { name, value } => {
                match msg {
                    DkMessage::PARAM_VALUE(data) => {
                        let id = parse_mavlink_string(data.param_id.as_slice());
                        id == *name && ieee32_eq(data.param_value, *value)
                    },
                    _ => false,
                }
            },
            Predicate::ParamsComplete { missing } => {
                match msg {
                    DkMessage::PARAM_VALUE(data) => {
                        if data.param_count as usize != flags_len(missing) {
                            *missing = flags_from_elem(data.param_count as usize, false);
                        }
                        let n = flags_len(missing);
                        if (data.param_index as usize) < n {
                            flags_set(missing, data.param_index as usize, true);
                        }
                        n > 0 && flags_all(missing)
                    },
                    _ => false,
                }
            },
        }
    }
}

/// A predicate with the handle of what it completes. A watcher is offered
/// every inbound message until its predicate is true; then the handle is
/// reported, once, and the watcher is gone.
#[derive(Debug)]
pub struct Watcher {
    pub handle: u64,
    pub predicate: Predicate,
}

/// A watcher as a value.
pub struct WatcherView {
    pub handle: u64,
    pub predicate: PredicateView,
}

impl View for Watcher {
    type V = WatcherView;

    open spec fn view(&self) -> WatcherView {
        WatcherView { handle: self.handle, predicate: self.predicate@ }
    }
}

/// The watchers that a sequence of watchers stands for.
pub open spec fn watchers_of(v: Seq<Watcher>) -> Seq<WatcherView> {
    v.map_values(|w: Watcher| w@)
}

/// What is left of a list of watchers after a message, and the handles
/// that it completed.
pub struct Swept {
    pub kept: Seq<WatcherView>,
    pub fired: Seq<u64>,
}

/// Offers `msg` to each watcher in the order of registration. One whose
/// predicate is now true leaves the list and has its handle reported; the
/// others stay, in their order, with what they have seen.
pub open spec fn sweep(ws: Seq<WatcherView>, msg: DkMessage) -> Swept
    decreases ws.len(),
{
    if ws.len() == 0 {
        Swept { kept: Seq::empty(), fired: Seq::empty() }
    } else {
        let before = sweep(ws.drop_last(), msg);
        let w = ws.last();
        if w.predicate.fires(msg) {
            Swept { kept: before.kept, fired: before.fired.push(w.handle) }
        } else {
            Swept {
                kept: before.kept.push(
                    WatcherView { handle: w.handle, predicate: w.predicate.step(msg) },
                ),
                fired: before.fired,
            }
        }
    }
}

/// Offers each message of `msgs` in turn to what the ones before it left.
pub open spec fn sweep_all(ws: Seq<WatcherView>, msgs: Seq<DkMessage>) -> Swept
    decreases msgs.len(),
{
    if msgs.len() == 0 {
        Swept { kept: ws, fired: Seq::empty() }
    } else {
        let before = sweep_all(ws, msgs.drop_last());
        let last = sweep(before.kept, msgs.last());
        Swept { kept: last.kept, fired: before.fired + last.fired }
    }
}

} // verus!
