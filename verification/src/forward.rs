//! Decisions of the layer that forwards service log events to the broker.
use vstd::prelude::*;

use crate::flood::{flood_allow, flood_next, FloodGuard};
use crate::logging::{is_off_value, parse_level, rank, spec_is_off, spec_parse_level, Level, LogType};

verus! {

/// The broker that events are forwarded to, set once.
pub struct ForwarderSlot<T> {
    pub target: Option<T>,
}

impl<T> ForwarderSlot<T> {
    /// No broker yet.
    pub fn new() -> (r: ForwarderSlot<T>)
        ensures
            r.target is None,
    {
        ForwarderSlot { target: None }
    }
}

/// Installs the broker to forward to; only the first call takes effect.
/// Returns whether this call installed it.
pub fn set_log_forwarder<T>(slot: &mut ForwarderSlot<T>, api: T) -> (r: bool)
    ensures
        r == old(slot).target is None,
        final(slot).target == match old(slot).target {
            Some(t) => Some(t),
            None => Some(api),
        },
{
    if slot.target.is_none() {
        slot.target = Some(api);
        true
    } else {
        false
    }
}

/// Whether a broker has been installed.
pub fn is_forwarder_set<T>(slot: &ForwarderSlot<T>) -> (r: bool)
    ensures
        r == slot.target is Some,
{
    slot.target.is_some()
}

/// The layer that forwards events to the broker.
pub struct LogForwardLayer {
    /// Events at this level or more severe are forwarded.
    pub min_level: Level,
    /// Whether forwarding is on at all.
    pub enabled: bool,
}

impl LogForwardLayer {
    /// The layer for a component: only the service forwards, unless the
    /// `FORWARD_LOGS` value switches it off; the threshold is the
    /// `FORWARD_LEVEL` value when it names a level, else `Warn`.
    pub fn for_type(log_type: &LogType, forward_value: Option<&str>, level_value: Option<&str>) -> (r:
        LogForwardLayer)
        ensures
            r.enabled == (*log_type == LogType::Service && match forward_value {
                Some(v) => !spec_is_off(v@),
                None => true,
            }),
            r.min_level == match level_value {
                Some(v) => match spec_parse_level(v@) {
                    Some(l) => l,
                    None => Level::Warn,
                },
                None => Level::Warn,
            },
    {
        let type_allowed = match log_type {
            LogType::Service => true,
            _ => false,
        };
        let enabled = type_allowed && match forward_value {
            Some(v) => !is_off_value(v),
            None => true,
        };
        let min_level = match level_value {
            Some(v) => match parse_level(v) {
                Some(l) => l,
                None => Level::Warn,
            },
            None => Level::Warn,
        };
        LogForwardLayer { min_level, enabled }
    }

    /// Whether an event at `level` is forwarded: the layer must be on and
    /// the event at least as severe as the threshold.
    pub fn enabled(&self, level: Level) -> (r: bool)
        ensures
            r == (self.enabled && rank(level) <= rank(self.min_level)),
    {
        self.enabled && level.at_most(&self.min_level)
    }
}

/// Handles one event: nothing happens unless a broker is installed; then
/// the flood guard is consulted (and charged), and the event is forwarded
/// when the guard allows it and its message is not empty.
pub fn on_event(target_set: bool, guard: &mut FloodGuard, now: u64, message: &str) -> (r: bool)
    ensures
        !target_set ==> !r && *final(guard) == *old(guard),
        target_set ==> match flood_next(*old(guard), now) {
            Some(g) => *final(guard) == g && r == (message@.len() > 0),
            None => *final(guard) == *old(guard) && !r,
        },
{
    if !target_set {
        return false;
    }
    if !flood_allow(guard, now) {
        return false;
    }
    !message.is_empty()
}

} // verus!
