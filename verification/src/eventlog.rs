//! Decisions of the Windows event-log layer: which events are written, with
//! which report type, the UTF-16 text handed to the API, and the life cycle
//! of the registered event source.
use vstd::prelude::*;

use crate::logging::{is_on_value, parse_level, rank, spec_is_on, spec_parse_level, Level, LogType};
use crate::text::chars_of;

verus! {

/// `EVENTLOG_ERROR_TYPE`.
pub const EVENTLOG_ERROR_TYPE: u16 = 1;

/// `EVENTLOG_WARNING_TYPE`.
pub const EVENTLOG_WARNING_TYPE: u16 = 2;

/// `EVENTLOG_INFORMATION_TYPE`.
pub const EVENTLOG_INFORMATION_TYPE: u16 = 4;

/// The source name registered with the event log.
pub fn source_name() -> (r: &'static str)
    ensures
        r@ == "UDS Actor Service"@,
{
    "UDS Actor Service"
}

/// The report type of an event: error, warning, or information for the rest.
pub open spec fn spec_report_type(level: Level) -> u16 {
    match level {
        Level::Error => EVENTLOG_ERROR_TYPE,
        Level::Warn => EVENTLOG_WARNING_TYPE,
        _ => EVENTLOG_INFORMATION_TYPE,
    }
}

/// The event-log report type for a level.
pub fn report_type_for(level: Level) -> (r: u16)
    ensures
        r == spec_report_type(level),
{
    match level {
        Level::Error => EVENTLOG_ERROR_TYPE,
        Level::Warn => EVENTLOG_WARNING_TYPE,
        _ => EVENTLOG_INFORMATION_TYPE,
    }
}

/// The UTF-16 code units of one character: one unit inside the basic
/// multilingual plane, a surrogate pair above it.
pub open spec fn utf16_char(c: char) -> Seq<u16> {
    let u = c as u32;
    if u < 0x10000 {
        seq![u as u16]
    } else {
        let v = u - 0x10000;
        seq![(0xD800 + v / 0x400) as u16, (0xDC00 + v % 0x400) as u16]
    }
}

/// The UTF-16 encoding of a string, as `str::encode_utf16` yields it.
pub open spec fn utf16(s: Seq<char>) -> Seq<u16>
    decreases s.len(),
{
    if s.len() == 0 {
        Seq::empty()
    } else {
        utf16(s.drop_last()) + utf16_char(s.last())
    }
}

/// Text of the basic multilingual plane is encoded one unit per
/// character, each unit the character's code; a character above it takes
/// a surrogate pair that decodes back to it.
pub proof fn lemma_utf16_units(s: Seq<char>, i: int)
    ensures
        (forall|k: int| 0 <= k < s.len() ==> (#[trigger] s[k] as u32) < 0x10000) ==> utf16(s).len() == s.len() && (0
            <= i < s.len() ==> utf16(s)[i] == s[i] as u32),
        0 <= i < s.len() && utf16_char(s[i]).len() == 2 && (s[i] as u32) <= 0x10FFFF ==> 0xD800 <= utf16_char(s[i])[0] < 0xDC00 && 0xDC00
            <= utf16_char(s[i])[1] < 0xE000 && (utf16_char(s[i])[0] - 0xD800) * 0x400 + (utf16_char(s[i])[1]
            - 0xDC00) + 0x10000 == s[i] as u32,
    decreases s.len(),
{
    if forall|k: int| 0 <= k < s.len() ==> (#[trigger] s[k] as u32) < 0x10000 {
        lemma_utf16_bmp(s);
    }
    if 0 <= i < s.len() {
        let u = s[i] as u32;
        if 0x10000 <= u <= 0x10FFFF {
            let v = u - 0x10000;
            let hi = 0xD800 + v / 0x400;
            let lo = 0xDC00 + v % 0x400;
            assert(v / 0x400 < 0x400 && (v / 0x400) * 0x400 + v % 0x400 == v && 0 <= v % 0x400 < 0x400)
                by (nonlinear_arith)
                requires
                    0 <= v < 0x100000,
            ;
            assert(utf16_char(s[i])[0] == hi as u16);
            assert(utf16_char(s[i])[1] == lo as u16);
            assert(hi as u16 == hi && lo as u16 == lo);
        }
    }
}

proof fn lemma_utf16_bmp(s: Seq<char>)
    requires
        forall|k: int| 0 <= k < s.len() ==> (#[trigger] s[k] as u32) < 0x10000,
    ensures
        utf16(s).len() == s.len(),
        forall|k: int| 0 <= k < s.len() ==> #[trigger] utf16(s)[k] == s[k] as u32,
    decreases s.len(),
{
    if s.len() > 0 {
        let init = s.drop_last();
        assert forall|k: int| 0 <= k < init.len() implies (#[trigger] init[k] as u32) < 0x10000 by {
            assert(init[k] == s[k]);
        }
        lemma_utf16_bmp(init);
        assert(s.last() == s[s.len() - 1]);
        assert forall|k: int| 0 <= k < s.len() implies #[trigger] utf16(s)[k] == s[k] as u32 by {
            if k < s.len() - 1 {
                assert(init[k] == s[k]);
            }
        }
    }
}

/// Appends the UTF-16 code units of `c`.
fn push_utf16(out: &mut Vec<u16>, c: char)
    ensures
        final(out)@ == old(out)@ + utf16_char(c),
{
    let u = c as u32;
    if u < 0x10000 {
        out.push(u as u16);
    } else {
        let v = u - 0x10000;
        out.push((0xD800 + v / 0x400) as u16);
        out.push((0xDC00 + v % 0x400) as u16);
    }
    assert(final(out)@ =~= old(out)@ + utf16_char(c));
}

/// The UTF-16 encoding of `s` followed by a terminating zero unit.
pub fn encode_wide(s: &str) -> (r: Vec<u16>)
    ensures
        r@ == utf16(s@).push(0u16),
{
    let v = chars_of(s);
    let mut r: Vec<u16> = Vec::new();
    let mut i: usize = 0;
    while i < v.len()
        invariant
            i <= v.len(),
            r@ == utf16(v@.subrange(0, i as int)),
        decreases v.len() - i,
    {
        push_utf16(&mut r, v[i]);
        assert(v@.subrange(0, i + 1).drop_last() =~= v@.subrange(0, i as int));
        i = i + 1;
    }
    assert(v@.subrange(0, v.len() as int) =~= v@);
    r.push(0u16);
    r
}

/// Encodes `s` as a zero-terminated UTF-16 string; `None` when `s` holds a
/// NUL character, which would cut the string short.
pub fn encode_wide_with_nul(s: &str) -> (r: Option<Vec<u16>>)
    ensures
        r is None <==> s@.contains('\0'),
        r is Some ==> r->0@ == utf16(s@).push(0u16),
{
    let v = chars_of(s);
    let mut i: usize = 0;
    while i < v.len()
        invariant
            i <= v.len(),
            v@ == s@,
            forall|j: int| 0 <= j < i ==> v@[j] != '\0',
        decreases v.len() - i,
    {
        if v[i] == '\0' {
            return None;
        }
        i = i + 1;
    }
    Some(encode_wide(s))
}

/// The layer that writes events to the event log.
pub struct EventLogLayer {
    /// Events at this level or more severe are written.
    pub min_level: Level,
    /// Whether the layer writes at all.
    pub enabled: bool,
}

impl EventLogLayer {
    /// The layer for a component: on only for the service, and only unless
    /// the `EVENTLOG_DISABLE` value switches it off; the threshold is the
    /// `EVENTLOG_LEVEL` value when it names a level, else `Info`.
    pub fn for_type(log_type: &LogType, disable_value: Option<&str>, level_value: Option<&str>) -> (r:
        EventLogLayer)
        ensures
            r.enabled == (*log_type == LogType::Service && match disable_value {
                Some(v) => !spec_is_on(v@),
                None => true,
            }),
            r.min_level == match level_value {
                Some(v) => match spec_parse_level(v@) {
                    Some(l) => l,
                    None => Level::Info,
                },
                None => Level::Info,
            },
    {
        let type_allowed = match log_type {
            LogType::Service => true,
            _ => false,
        };
        let enabled = type_allowed && match disable_value {
            Some(v) => !is_on_value(v),
            None => true,
        };
        let min_level = match level_value {
            Some(v) => match parse_level(v) {
                Some(l) => l,
                None => Level::Info,
            },
            None => Level::Info,
        };
        EventLogLayer { min_level, enabled }
    }

    /// Whether an event at `level` is written: the layer must be on and the
    /// event no more verbose than the layer's threshold.
    pub fn enabled(&self, level: Level) -> (r: bool)
        ensures
            r == (self.enabled && rank(level) <= rank(self.min_level)),
    {
        self.enabled && level.at_most(&self.min_level)
    }
}

/// What to report for an event: its report type and zero-terminated UTF-16
/// text; nothing for an empty message.
pub fn event_report(level: Level, message: &str) -> (r: Option<(u16, Vec<u16>)>)
    ensures
        r is Some <==> message@.len() > 0,
        r is Some ==> (r->0).0 == spec_report_type(level) && (r->0).1@ == utf16(message@).push(0u16),
{
    if message.is_empty() {
        None
    } else {
        Some((report_type_for(level), encode_wide(message)))
    }
}

/// What to do to obtain the event source handle.
#[derive(Clone, Copy, Debug, PartialEq, Eq, Structural)]
pub enum HandleLookup {
    /// Registration failed earlier: skip events.
    Disabled,
    /// Use this handle.
    Cached(u64),
    /// Register the source now.
    Register,
}

/// The registered event source: its handle once registered, and whether a
/// registration has failed.
pub struct EventSourceRegistry {
    pub handle: Option<u64>,
    pub failed: bool,
}

/// The step before writing an event: skip after a failure, else use the
/// cached handle, else register.
pub open spec fn lookup_spec(reg: EventSourceRegistry) -> HandleLookup {
    if reg.failed {
        HandleLookup::Disabled
    } else {
        match reg.handle {
            Some(h) => HandleLookup::Cached(h),
            None => HandleLookup::Register,
        }
    }
}

/// The registry after a registration outcome (`None` for a failure), the
/// handle to use, and whether to print the one-time warning: the first
/// registered handle is kept; a failure is remembered, and only the first
/// failure warns.
pub open spec fn record_spec(reg: EventSourceRegistry, outcome: Option<u64>) -> (
    EventSourceRegistry,
    Option<u64>,
    bool,
) {
    match outcome {
        Some(h) => {
            let handle = match reg.handle {
                Some(k) => Some(k),
                None => Some(h),
            };
            (EventSourceRegistry { handle, failed: reg.failed }, handle, false)
        },
        None => (EventSourceRegistry { handle: reg.handle, failed: true }, None, !reg.failed),
    }
}

impl EventSourceRegistry {
    /// Nothing registered yet.
    pub fn new() -> (r: EventSourceRegistry)
        ensures
            r.handle is None,
            !r.failed,
    {
        EventSourceRegistry { handle: None, failed: false }
    }

    /// The step before writing an event: skip after a failure, else use the
    /// cached handle, else register.
    pub fn get_or_register_handle(&self) -> (r: HandleLookup)
        ensures
            r == lookup_spec(*self),
    {
        if self.failed {
            return HandleLookup::Disabled;
        }
        match self.handle {
            Some(h) => HandleLookup::Cached(h),
            None => HandleLookup::Register,
        }
    }

    /// Records the outcome of a registration (`None` for a failure) and
    /// returns the handle to use and whether to print the one-time warning.
    /// The first registered handle is kept; a failure is remembered, and
    /// only the first failure warns.
    pub fn record_registration(&mut self, outcome: Option<u64>) -> (r: (Option<u64>, bool))
        ensures
            (*final(self), r.0, r.1) == record_spec(*old(self), outcome),
    {
        match outcome {
            Some(h) => {
                if self.handle.is_none() {
                    self.handle = Some(h);
                }
                (self.handle, false)
            },
            None => {
                let warn = !self.failed;
                self.failed = true;
                (None, warn)
            },
        }
    }
}

/// What writing one event does with the registry, given the outcome that a
/// registration would have (used only when the lookup asks to register):
/// the new registry, the lookup, the handle written with, and whether the
/// warning is printed.
pub open spec fn event_step(reg: EventSourceRegistry, outcome: Option<u64>) -> (
    EventSourceRegistry,
    HandleLookup,
    Option<u64>,
    bool,
) {
    match lookup_spec(reg) {
        HandleLookup::Disabled => (reg, HandleLookup::Disabled, None, false),
        HandleLookup::Cached(h) => (reg, HandleLookup::Cached(h), Some(h), false),
        HandleLookup::Register => {
            let (n, h, w) = record_spec(reg, outcome);
            (n, HandleLookup::Register, h, w)
        },
    }
}

/// The lookups, handles and warnings of a series of events, one per
/// registration outcome.
pub open spec fn event_run(reg: EventSourceRegistry, outcomes: Seq<Option<u64>>) -> Seq<
    (HandleLookup, Option<u64>, bool),
>
    decreases outcomes.len(),
{
    if outcomes.len() == 0 {
        Seq::empty()
    } else {
        let (n, l, h, w) = event_step(reg, outcomes[0]);
        seq![(l, h, w)] + event_run(n, outcomes.drop_first())
    }
}

proof fn lemma_event_run_len(reg: EventSourceRegistry, outcomes: Seq<Option<u64>>)
    ensures
        event_run(reg, outcomes).len() == outcomes.len(),
    decreases outcomes.len(),
{
    if outcomes.len() > 0 {
        lemma_event_run_len(event_step(reg, outcomes[0]).0, outcomes.drop_first());
    }
}

/// A registry that holds a handle, or that remembers a failure, answers
/// every event the same way and never changes.
proof fn lemma_event_run_settled(reg: EventSourceRegistry, outcomes: Seq<Option<u64>>, j: int)
    requires
        reg.failed || reg.handle is Some,
        0 <= j < outcomes.len(),
    ensures
        event_run(reg, outcomes)[j] == (lookup_spec(reg), if reg.failed {
            None
        } else {
            reg.handle
        }, false),
    decreases outcomes.len(),
{
    lemma_event_run_len(reg, outcomes.drop_first());
    if j > 0 {
        lemma_event_run_settled(reg, outcomes.drop_first(), j - 1);
    }
}

/// After any event, the registration is settled: a handle that an event
/// was written with is used by every later event, without registering
/// again; after an event that got no handle (a failed registration, or one
/// failed before), every later event is skipped without registering. No
/// later event prints the warning, so it is printed at most once.
pub proof fn lemma_registration_settles(reg: EventSourceRegistry, outcomes: Seq<Option<u64>>, i: int, j: int)
    requires
        0 <= i < j < outcomes.len(),
    ensures
        event_run(reg, outcomes)[i].1 is Some ==> event_run(reg, outcomes)[j] == (
            HandleLookup::Cached(event_run(reg, outcomes)[i].1->0),
            event_run(reg, outcomes)[i].1,
            false,
        ),
        event_run(reg, outcomes)[i].1 is None ==> event_run(reg, outcomes)[j] == (
            HandleLookup::Disabled,
            None::<u64>,
            false,
        ),
    decreases i,
{
    let rest = outcomes.drop_first();
    let (n, l, h, w) = event_step(reg, outcomes[0]);
    lemma_event_run_len(n, rest);
    assert(event_run(reg, outcomes)[j] == event_run(n, rest)[j - 1]);
    if i == 0 {
        lemma_event_run_settled(n, rest, j - 1);
    } else {
        assert(event_run(reg, outcomes)[i] == event_run(n, rest)[i - 1]);
        lemma_registration_settles(n, rest, i - 1, j - 1);
    }
}

/// The first event on a fresh registry registers the source: a
/// registered handle is used, and a failed registration gets no handle and
/// prints the warning.
pub proof fn lemma_first_event_registers(outcome: Option<u64>)
    ensures
        ({
            let fresh = EventSourceRegistry { handle: None, failed: false };
            let (n, l, h, w) = event_step(fresh, outcome);
            &&& l == HandleLookup::Register
            &&& h == outcome
            &&& w == (outcome is None)
            &&& n.handle == outcome
            &&& n.failed == (outcome is None)
        }),
{
}

/// The handle to release at shutdown, if one was registered and not yet
/// released; the registry forgets it.
pub open spec fn shutdown_spec(reg: EventSourceRegistry) -> (EventSourceRegistry, Option<u64>) {
    (EventSourceRegistry { handle: None, failed: reg.failed }, reg.handle)
}

/// The handle to release at shutdown, if one was registered and not yet
/// released. The registry forgets the handle, so the handle is released at
/// most once however often this is called.
pub fn shutdown(registry: &mut EventSourceRegistry) -> (r: Option<u64>)
    ensures
        (*final(registry), r) == shutdown_spec(*old(registry)),
{
    registry.handle.take()
}

/// Shutting down releases the registered handle, keeps the memory of a
/// failed registration, and a second shutdown releases nothing.
pub proof fn lemma_shutdown_releases_once(reg: EventSourceRegistry)
    ensures
        shutdown_spec(reg).1 == reg.handle,
        shutdown_spec(reg).0.failed == reg.failed,
        shutdown_spec(shutdown_spec(reg).0).1 is None,
{
}

/// The characters of `s` before its first NUL character (all of `s` when
/// it has none).
pub open spec fn until_nul(s: Seq<char>) -> Seq<char>
    decreases s.len(),
{
    if s.len() == 0 || s[0] == '\0' {
        Seq::empty()
    } else {
        seq![s[0]] + until_nul(s.drop_first())
    }
}

/// Calls `widestring::U16CString::from_str_truncate` and takes its units
/// with the terminator: the UTF-16 encoding of `s` up to its first NUL,
/// followed by one zero unit.
#[verifier::external_body]
fn wide_c_string(s: &str) -> (r: Vec<u16>)
    ensures
        r@ == utf16(until_nul(s@)).push(0u16),
{
    widestring::U16CString::from_str_truncate(s).into_vec_with_nul()
}

/// The little-endian bytes of UTF-16 units.
pub open spec fn le_bytes(units: Seq<u16>) -> Seq<u8>
    decreases units.len(),
{
    if units.len() == 0 {
        Seq::empty()
    } else {
        le_bytes(units.drop_last()) + seq![(units.last() % 256) as u8, (units.last() / 256) as u8]
    }
}

/// The little-endian bytes hold two bytes per unit, low byte first, and
/// decode back to the units.
pub proof fn lemma_le_bytes_decode(units: Seq<u16>, i: int)
    requires
        0 <= i < units.len(),
    ensures
        le_bytes(units).len() == 2 * units.len(),
        le_bytes(units)[2 * i] + 256 * le_bytes(units)[2 * i + 1] == units[i],
    decreases units.len(),
{
    lemma_le_bytes_len(units);
    let init = units.drop_last();
    lemma_le_bytes_len(init);
    if i < units.len() - 1 {
        lemma_le_bytes_decode(init, i);
        assert(le_bytes(units)[2 * i] == le_bytes(init)[2 * i]);
        assert(le_bytes(units)[2 * i + 1] == le_bytes(init)[2 * i + 1]);
    } else {
        let u = units.last();
        assert(le_bytes(units)[2 * i] == (u % 256) as u8);
        assert(le_bytes(units)[2 * i + 1] == (u / 256) as u8);
    }
}

proof fn lemma_le_bytes_len(units: Seq<u16>)
    ensures
        le_bytes(units).len() == 2 * units.len(),
    decreases units.len(),
{
    if units.len() > 0 {
        lemma_le_bytes_len(units.drop_last());
    }
}

/// The bytes of a registry string value: the wide C string of `s`, two
/// little-endian bytes per unit, terminator included.
pub fn registry_string_bytes(s: &str) -> (r: Vec<u8>)
    ensures
        r@ == le_bytes(utf16(until_nul(s@)).push(0u16)),
{
    let w = wide_c_string(s);
    let mut r: Vec<u8> = Vec::new();
    let mut i: usize = 0;
    while i < w.len()
        invariant
            i <= w.len(),
            r@ == le_bytes(w@.subrange(0, i as int)),
        decreases w.len() - i,
    {
        let u = w[i];
        r.push((u % 256) as u8);
        r.push((u / 256) as u8);
        assert(w@.subrange(0, i + 1).drop_last() =~= w@.subrange(0, i as int));
        assert(r@ =~= le_bytes(w@.subrange(0, i + 1)));
        i = i + 1;
    }
    assert(w@.subrange(0, w@.len() as int) =~= w@);
    r
}

/// The registry key under which the event source is described.
pub fn event_source_key() -> (r: &'static str)
    ensures
        r@ == "SYSTEM\\CurrentControlSet\\Services\\EventLog\\Application\\UDS Actor Service"@,
{
    "SYSTEM\\CurrentControlSet\\Services\\EventLog\\Application\\UDS Actor Service"
}

/// The `EventMessageFile` value: the message file, as a registry string.
pub fn event_message_file_bytes() -> (r: Vec<u8>)
    ensures
        r@ == le_bytes(utf16(until_nul("%SystemRoot%\\System32\\EventCreate.exe"@)).push(0u16)),
{
    registry_string_bytes("%SystemRoot%\\System32\\EventCreate.exe")
}

/// The `TypesSupported` value: error, warning and information (7), as a
/// little-endian 32-bit value.
pub fn types_supported_bytes() -> (r: Vec<u8>)
    ensures
        r@ == seq![7u8, 0u8, 0u8, 0u8],
{
    let r: Vec<u8> = vec![7u8, 0u8, 0u8, 0u8];
    assert(r@ =~= seq![7u8, 0u8, 0u8, 0u8]);
    r
}

} // verus!
