//! Log levels, component kinds and the decisions taken when logging is set up.
use vstd::prelude::*;

use crate::text::{
    ascii_lowercase, chars_of, is_ascii_text, concat2, concat3, spec_to_lowercase, str_eq, strip_prefixes, strip_suffixes, to_lowercase,
    trim_end_matches, trim_start_matches,
};

verus! {

/// Severity of a log event, from the most severe to the most verbose.
#[derive(Clone, Copy, Debug, PartialEq, Eq, Structural)]
pub enum Level {
    Error,
    Warn,
    Info,
    Debug,
    Trace,
}

/// Position of a level in the order `Error < Warn < Info < Debug < Trace`.
pub open spec fn rank(l: Level) -> int {
    match l {
        Level::Error => 1,
        Level::Warn => 2,
        Level::Info => 3,
        Level::Debug => 4,
        Level::Trace => 5,
    }
}

impl Level {
    /// The level's position in the order, `1` for `Error` up to `5` for `Trace`.
    pub fn rank(&self) -> (r: u8)
        ensures
            r == rank(*self),
    {
        match self {
            Level::Error => 1,
            Level::Warn => 2,
            Level::Info => 3,
            Level::Debug => 4,
            Level::Trace => 5,
        }
    }

    /// Whether `self` comes no later than `other` in the order
    /// (`Error` first, `Trace` last).
    pub fn at_most(&self, other: &Level) -> (r: bool)
        ensures
            r == (rank(*self) <= rank(*other)),
    {
        self.rank() <= other.rank()
    }
}

/// The component whose logs are configured.
#[derive(Clone, Copy, Debug, PartialEq, Eq, Structural)]
pub enum LogType {
    Client,
    Service,
    Config,
    Tests,
}

/// The lower-case name of a component.
pub open spec fn log_type_name(t: LogType) -> Seq<char> {
    match t {
        LogType::Client => "client"@,
        LogType::Service => "service"@,
        LogType::Config => "config"@,
        LogType::Tests => "tests"@,
    }
}

/// The upper-case name of a component, as used in environment variable names.
pub open spec fn log_type_upper(t: LogType) -> Seq<char> {
    match t {
        LogType::Client => "CLIENT"@,
        LogType::Service => "SERVICE"@,
        LogType::Config => "CONFIG"@,
        LogType::Tests => "TESTS"@,
    }
}

impl LogType {
    /// The lower-case name (`client`, `service`, `config`, `tests`).
    pub fn name(&self) -> (r: &'static str)
        ensures
            r@ == log_type_name(*self),
    {
        match self {
            LogType::Client => "client",
            LogType::Service => "service",
            LogType::Config => "config",
            LogType::Tests => "tests",
        }
    }

    /// The upper-case name (`CLIENT`, `SERVICE`, `CONFIG`, `TESTS`).
    pub fn upper_name(&self) -> (r: &'static str)
        ensures
            r@ == log_type_upper(*self),
    {
        match self {
            LogType::Client => "CLIENT",
            LogType::Service => "SERVICE",
            LogType::Config => "CONFIG",
            LogType::Tests => "TESTS",
        }
    }
}

/// The level named by `s`, compared after Unicode lower-casing.
pub open spec fn spec_parse_level(s: Seq<char>) -> Option<Level> {
    let l = spec_to_lowercase(s);
    if l == "trace"@ {
        Some(Level::Trace)
    } else if l == "debug"@ {
        Some(Level::Debug)
    } else if l == "info"@ {
        Some(Level::Info)
    } else if l == "warn"@ || l == "warning"@ {
        Some(Level::Warn)
    } else if l == "error"@ {
        Some(Level::Error)
    } else {
        None
    }
}

/// Each level name parses to its level, whatever its case (`warning` too
/// for `Warn`), and a text whose lower-case form is not one of these names
/// is no level.
pub proof fn lemma_level_names(s: Seq<char>)
    ensures
        spec_to_lowercase(s) == "trace"@ ==> spec_parse_level(s) == Some(Level::Trace),
        spec_to_lowercase(s) == "debug"@ ==> spec_parse_level(s) == Some(Level::Debug),
        spec_to_lowercase(s) == "info"@ ==> spec_parse_level(s) == Some(Level::Info),
        spec_to_lowercase(s) == "warn"@ ==> spec_parse_level(s) == Some(Level::Warn),
        spec_to_lowercase(s) == "warning"@ ==> spec_parse_level(s) == Some(Level::Warn),
        spec_to_lowercase(s) == "error"@ ==> spec_parse_level(s) == Some(Level::Error),
        spec_parse_level(s) is Some ==> (spec_to_lowercase(s) == "trace"@ || spec_to_lowercase(s) == "debug"@
            || spec_to_lowercase(s) == "info"@ || spec_to_lowercase(s) == "warn"@ || spec_to_lowercase(s)
            == "warning"@ || spec_to_lowercase(s) == "error"@),
{
    reveal_strlit("trace");
    reveal_strlit("debug");
    reveal_strlit("info");
    reveal_strlit("warn");
    reveal_strlit("warning");
    reveal_strlit("error");
    assert("debug"@[0] != "trace"@[0]);
    assert("warn"@[0] != "info"@[0]);
    assert("error"@[0] != "trace"@[0]);
    assert("error"@[0] != "debug"@[0]);
}

/// Parses a level name, ignoring case; `warning` is accepted for `Warn`.
pub fn parse_level(s: &str) -> (r: Option<Level>)
    ensures
        r == spec_parse_level(s@),
        is_ascii_text(s@) ==> spec_to_lowercase(s@) == ascii_lowercase(s@),
{
    let l = to_lowercase(s);
    let l = l.as_str();
    if str_eq(l, "trace") {
        Some(Level::Trace)
    } else if str_eq(l, "debug") {
        Some(Level::Debug)
    } else if str_eq(l, "info") {
        Some(Level::Info)
    } else if str_eq(l, "warn") || str_eq(l, "warning") {
        Some(Level::Warn)
    } else if str_eq(l, "error") {
        Some(Level::Error)
    } else {
        None
    }
}


/// The level held by a stored numeric code; codes outside `1..=5` mean `Info`.
pub open spec fn level_of_code(code: u8) -> Level {
    if code == 1 {
        Level::Error
    } else if code == 2 {
        Level::Warn
    } else if code == 4 {
        Level::Debug
    } else if code == 5 {
        Level::Trace
    } else {
        Level::Info
    }
}

/// The code stored for a level name: the rank of the parsed level, `3` (info)
/// for a name that is not a level.
pub open spec fn level_code(s: Seq<char>) -> u8 {
    match spec_parse_level(s) {
        Some(l) => rank(l) as u8,
        None => 3,
    }
}

/// Converts a stored code back into a level.
pub fn level_from_code(code: u8) -> (r: Level)
    ensures
        r == level_of_code(code),
{
    match code {
        1 => Level::Error,
        2 => Level::Warn,
        4 => Level::Debug,
        5 => Level::Trace,
        _ => Level::Info,
    }
}

/// The code to store for a level name.
pub fn level_code_for(level: &str) -> (r: u8)
    ensures
        r == level_code(level@),
{
    match parse_level(level) {
        Some(l) => l.rank(),
        None => 3,
    }
}

/// The process-wide active log level, kept as its numeric code.
pub struct ActiveLogLevel {
    pub code: u8,
}

impl ActiveLogLevel {
    /// The initial state: `Info`.
    pub fn new() -> (r: ActiveLogLevel)
        ensures
            r.code == 3,
            level_of_code(r.code) == Level::Info,
    {
        ActiveLogLevel { code: 3 }
    }
}

/// The active log level.
pub fn get_active_log_level(active: &ActiveLogLevel) -> (r: Level)
    ensures
        r == level_of_code(active.code),
{
    level_from_code(active.code)
}

/// Records `level` as the active log level; a name that is not a level
/// records `Info`.
pub fn set_active_level_from_str(active: &mut ActiveLogLevel, level: &str)
    ensures
        final(active).code == level_code(level@),
        level_of_code(final(active).code) == match spec_parse_level(level@) {
            Some(l) => l,
            None => Level::Info,
        },
{
    active.code = level_code_for(level);
}

/// Storing a level name and reading it back gives the parsed level, or
/// `Info` when the name is not a level.
pub proof fn lemma_stored_level_round_trip(s: Seq<char>)
    ensures
        level_of_code(level_code(s)) == match spec_parse_level(s) {
            Some(l) => l,
            None => Level::Info,
        },
{
}

/// Every level survives being stored as its code.
pub proof fn lemma_level_code_injective(l: Level)
    ensures
        level_of_code(rank(l) as u8) == l,
        1 <= rank(l) <= 5,
{
}


/// Whether an environment value switches something on: `true`, `1`, `yes`
/// or `on`, ignoring case.
pub open spec fn spec_is_on(v: Seq<char>) -> bool {
    let l = spec_to_lowercase(v);
    l == "true"@ || l == "1"@ || l == "yes"@ || l == "on"@
}

/// Whether an environment value switches something off: `false`, `0`, `no`
/// or `off`, ignoring case.
pub open spec fn spec_is_off(v: Seq<char>) -> bool {
    let l = spec_to_lowercase(v);
    l == "false"@ || l == "0"@ || l == "no"@ || l == "off"@
}

/// Whether `v` is one of `true`, `1`, `yes`, `on` (any case).
pub fn is_on_value(v: &str) -> (r: bool)
    ensures
        r == spec_is_on(v@),
        is_ascii_text(v@) ==> spec_to_lowercase(v@) == ascii_lowercase(v@),
{
    let l = to_lowercase(v);
    let l = l.as_str();
    str_eq(l, "true") || str_eq(l, "1") || str_eq(l, "yes") || str_eq(l, "on")
}

/// Whether `v` is one of `false`, `0`, `no`, `off` (any case).
pub fn is_off_value(v: &str) -> (r: bool)
    ensures
        r == spec_is_off(v@),
        is_ascii_text(v@) ==> spec_to_lowercase(v@) == ascii_lowercase(v@),
{
    let l = to_lowercase(v);
    let l = l.as_str();
    str_eq(l, "false") || str_eq(l, "0") || str_eq(l, "no") || str_eq(l, "off")
}

/// The environment variable `UDSACTOR_<TYPE>_<suffix>` for a component.
pub fn env_key(log_type: LogType, suffix: &str) -> (r: String)
    ensures
        r@ == "UDSACTOR_"@ + log_type_upper(log_type) + "_"@ + suffix@,
{
    let mut r = concat3("UDSACTOR_", log_type.upper_name(), "_");
    r.append(suffix);
    r
}

/// The level to log at: the environment's value when set, else the caller's.
pub fn effective_level(level: &str, env_level: Option<&str>) -> (r: String)
    ensures
        r@ == match env_level {
            Some(e) => e@,
            None => level@,
        },
{
    match env_level {
        Some(e) => String::from_str(e),
        None => String::from_str(level),
    }
}

/// Whether log file names carry the computer name and a time stamp: only
/// when the environment value reads `true` once lower-cased.
pub fn use_datetime_flag(env_value: Option<&str>) -> (r: bool)
    ensures
        r == match env_value {
            Some(v) => spec_to_lowercase(v@) == "true"@,
            None => false,
        },
        match env_value {
            Some(v) => is_ascii_text(v@) ==> spec_to_lowercase(v@) == ascii_lowercase(v@),
            None => true,
        },
{
    match env_value {
        Some(v) => {
            let l = to_lowercase(v);
            str_eq(l.as_str(), "true")
        },
        None => false,
    }
}

/// The log file name: `udsactor-<type>.log`, or
/// `udsactor-<type>-<computer>-<stamp>.log` when a stamp is given.
pub fn log_file_name(log_type: LogType, stamp: Option<(&str, &str)>) -> (r: String)
    ensures
        r@ == match stamp {
            Some((computer, time)) => "udsactor-"@ + log_type_name(log_type) + "-"@ + computer@ + "-"@
                + time@ + ".log"@,
            None => "udsactor-"@ + log_type_name(log_type) + ".log"@,
        },
{
    let mut r = concat2("udsactor-", log_type.name());
    match stamp {
        Some((computer, time)) => {
            r.append("-");
            r.append(computer);
            r.append("-");
            r.append(time);
        },
        None => {},
    }
    r.append(".log");
    r
}

/// Whether `c` separates path components: `/`, and on Windows also `\\`.
pub open spec fn is_path_sep(c: char, windows: bool) -> bool {
    c == '/' || (windows && c == '\\')
}

/// Whether `dir` is a bare Windows drive such as `C:`.
pub open spec fn is_bare_drive(dir: Seq<char>) -> bool {
    dir.len() == 2 && dir[1] == ':' && (('a' <= dir[0] <= 'z') || ('A' <= dir[0] <= 'Z'))
}

/// A relative file name placed in a directory, as `Path::join` places it:
/// a separator (`/`, or `\\` on Windows) goes between them unless the
/// directory is empty, already ends with a separator, or is a bare Windows
/// drive.
pub open spec fn join_path(dir: Seq<char>, name: Seq<char>, windows: bool) -> Seq<char> {
    if dir.len() == 0 || is_path_sep(dir.last(), windows) || (windows && is_bare_drive(dir)) {
        dir + name
    } else {
        dir + (if windows {
            "\\"@
        } else {
            "/"@
        }) + name
    }
}

/// A joined path starts with the directory and ends with the file name,
/// with at most one separator put between them, and one exactly when the
/// directory neither is empty nor ends with a separator (nor is a bare
/// Windows drive).
pub proof fn lemma_join_path_parts(dir: Seq<char>, name: Seq<char>, windows: bool)
    ensures
        join_path(dir, name, windows).subrange(0, dir.len() as int) == dir,
        join_path(dir, name, windows).subrange(
            join_path(dir, name, windows).len() - name.len(),
            join_path(dir, name, windows).len() as int,
        ) == name,
        join_path(dir, name, windows).len() == dir.len() + name.len() + if dir.len() == 0 || is_path_sep(
            dir.last(),
            windows,
        ) || (windows && is_bare_drive(dir)) {
            0int
        } else {
            1int
        },
        !(dir.len() == 0 || is_path_sep(dir.last(), windows) || (windows && is_bare_drive(dir))) ==> is_path_sep(
            join_path(dir, name, windows)[dir.len() as int],
            windows,
        ),
{
    let j = join_path(dir, name, windows);
    if dir.len() == 0 || is_path_sep(dir.last(), windows) || (windows && is_bare_drive(dir)) {
        assert(j.subrange(0, dir.len() as int) =~= dir);
        assert(j.subrange(j.len() - name.len(), j.len() as int) =~= name);
    } else {
        let sep = if windows {
            "\\"@
        } else {
            "/"@
        };
        reveal_strlit("\\");
        reveal_strlit("/");
        assert(j == dir + sep + name);
        assert(j.subrange(0, dir.len() as int) =~= dir);
        assert(j.subrange(j.len() - name.len(), j.len() as int) =~= name);
        assert(j[dir.len() as int] == sep[0]);
    }
}

/// Places the relative file name `name` in the directory `dir`.
pub fn join_log_path(dir: &str, name: &str, windows: bool) -> (r: String)
    ensures
        r@ == join_path(dir@, name@, windows),
{
    let v = chars_of(dir);
    let n = v.len();
    let no_sep = if n == 0 {
        true
    } else {
        let last = v[n - 1];
        if last == '/' || (windows && last == '\\') {
            true
        } else if windows && n == 2 && v[1] == ':' && (('a' <= v[0] && v[0] <= 'z') || ('A' <= v[0] && v[0]
            <= 'Z')) {
            true
        } else {
            false
        }
    };
    proof {
        if n > 0 {
            assert(dir@.last() == v@[n - 1]);
        }
    }
    if no_sep {
        concat2(dir, name)
    } else if windows {
        concat3(dir, "\\", name)
    } else {
        concat3(dir, "/", name)
    }
}

/// The file a component logs to: the file name (with the computer name and
/// stamp when the `LOG_USE_DATETIME` value reads `true`) placed in the
/// `LOG_PATH` directory, or in the default directory when that is unset.
pub fn log_file_path(
    log_type: LogType,
    env_path: Option<&str>,
    default_dir: &str,
    env_use_datetime: Option<&str>,
    computer: &str,
    stamp: &str,
    windows: bool,
) -> (r: String)
    ensures
        r@ == join_path(
            match env_path {
                Some(p) => p@,
                None => default_dir@,
            },
            if match env_use_datetime {
                Some(v) => spec_to_lowercase(v@) == "true"@,
                None => false,
            } {
                "udsactor-"@ + log_type_name(log_type) + "-"@ + computer@ + "-"@ + stamp@ + ".log"@
            } else {
                "udsactor-"@ + log_type_name(log_type) + ".log"@
            },
            windows,
        ),
{
    let dir = match env_path {
        Some(p) => p,
        None => default_dir,
    };
    let name = if use_datetime_flag(env_use_datetime) {
        log_file_name(log_type, Some((computer, stamp)))
    } else {
        log_file_name(log_type, None)
    };
    join_log_path(dir, name.as_str(), windows)
}

/// Whether the file log shows thread ids: only at `debug` or `trace`.
pub fn thread_ids_for(level: &str) -> (r: bool)
    ensures
        r == (level@ == "debug"@ || level@ == "trace"@),
{
    str_eq(level, "debug") || str_eq(level, "trace")
}

/// Whether the stderr log is on: for the service and the client, unless the
/// `STDERR_DISABLE` value switches it off.
pub fn stderr_enabled(log_type: LogType, disable_value: Option<&str>) -> (r: bool)
    ensures
        r == ((log_type == LogType::Service || log_type == LogType::Client) && match disable_value {
            Some(v) => !spec_is_on(v@),
            None => true,
        }),
{
    let type_ok = match log_type {
        LogType::Service | LogType::Client => true,
        _ => false,
    };
    type_ok && match disable_value {
        Some(v) => !is_on_value(v),
        None => true,
    }
}

/// The filter of the stderr log: `off` when disabled, `debug` in debug
/// builds, else the file log's level.
pub fn stderr_filter(enabled: bool, debug_build: bool, level: &str) -> (r: String)
    ensures
        r@ == if !enabled {
            "off"@
        } else if debug_build {
            "debug"@
        } else {
            level@
        },
{
    if !enabled {
        String::from_str("off")
    } else if debug_build {
        String::from_str("debug")
    } else {
        String::from_str(level)
    }
}

/// The directory for logs when no path is configured: the process's temp
/// directory on Windows and for the client and tests; for the service and
/// the config tool on Unix, `/var/log/udsactor` when it is writable, else
/// `/tmp`.
pub fn default_log_dir(log_type: LogType, windows: bool, var_log_writable: bool, temp_dir: &str) -> (r:
    String)
    ensures
        r@ == if windows {
            temp_dir@
        } else if log_type == LogType::Service || log_type == LogType::Config {
            if var_log_writable {
                "/var/log/udsactor"@
            } else {
                "/tmp"@
            }
        } else {
            temp_dir@
        },
{
    if windows {
        return String::from_str(temp_dir);
    }
    match log_type {
        LogType::Service | LogType::Config => {
            if var_log_writable {
                String::from_str("/var/log/udsactor")
            } else {
                String::from_str("/tmp")
            }
        },
        _ => String::from_str(temp_dir),
    }
}

/// Whether panics are hooked into the log: for every component but tests.
pub fn hooks_panics(log_type: LogType) -> (r: bool)
    ensures
        r == (log_type != LogType::Tests),
{
    match log_type {
        LogType::Tests => false,
        _ => true,
    }
}

/// The logging setup of a process: whether it has run, the active level it
/// recorded, and whether it hooked panics into the log.
pub struct LoggingSetup {
    pub initialized: bool,
    pub active: ActiveLogLevel,
    pub panic_hook: bool,
}

impl LoggingSetup {
    /// Before any setup: the active level is `Info` and panics are not hooked.
    pub fn new() -> (r: LoggingSetup)
        ensures
            !r.initialized,
            r.active.code == 3,
            !r.panic_hook,
    {
        LoggingSetup { initialized: false, active: ActiveLogLevel::new(), panic_hook: false }
    }
}

/// The text of an optional string.
pub open spec fn opt_str_view(o: Option<&str>) -> Option<Seq<char>> {
    match o {
        Some(v) => Some(v@),
        None => None,
    }
}

/// The setup after one call with the caller's level and the environment's
/// `LOG_LEVEL` value: the first call records the effective level (the
/// environment's when set) as active and hooks panics for every component
/// but tests; once set up, nothing changes.
pub open spec fn setup_spec(s: LoggingSetup, level: Seq<char>, env_level: Option<Seq<char>>, log_type: LogType) -> LoggingSetup {
    if s.initialized {
        s
    } else {
        let eff = match env_level {
            Some(e) => e,
            None => level,
        };
        LoggingSetup {
            initialized: true,
            active: ActiveLogLevel { code: level_code(eff) },
            panic_hook: log_type != LogType::Tests,
        }
    }
}

/// One call of the logging setup. Only the first call sets logging up: it
/// records the effective level as active and hooks panics for every
/// component but tests, and returns `true` (the caller then installs the
/// subscriber); every later call changes nothing and returns `false`.
pub fn setup_logging(state: &mut LoggingSetup, level: &str, env_level: Option<&str>, log_type: LogType) -> (r:
    bool)
    ensures
        r == !old(state).initialized,
        *final(state) == setup_spec(*old(state), level@, opt_str_view(env_level), log_type),
{
    if state.initialized {
        return false;
    }
    let eff = effective_level(level, env_level);
    let mut active = ActiveLogLevel::new();
    set_active_level_from_str(&mut active, eff.as_str());
    state.active = active;
    state.panic_hook = hooks_panics(log_type);
    state.initialized = true;
    true
}

/// What the first setup call does: it sets logging up, hooks panics into
/// the log for the service, the client and the configuration tool but not
/// for tests, and makes active the level named by the environment's value
/// when set, else by the caller's (`Info` when the name is not a level).
pub proof fn lemma_first_setup(s: LoggingSetup, level: Seq<char>, env_level: Option<Seq<char>>, log_type: LogType)
    requires
        !s.initialized,
    ensures
        setup_spec(s, level, env_level, log_type).initialized,
        setup_spec(s, level, env_level, log_type).panic_hook == (log_type != LogType::Tests),
        log_type == LogType::Service ==> setup_spec(s, level, env_level, log_type).panic_hook,
        log_type == LogType::Client ==> setup_spec(s, level, env_level, log_type).panic_hook,
        log_type == LogType::Config ==> setup_spec(s, level, env_level, log_type).panic_hook,
        log_type == LogType::Tests ==> !setup_spec(s, level, env_level, log_type).panic_hook,
        level_of_code(setup_spec(s, level, env_level, log_type).active.code) == match spec_parse_level(
            match env_level {
                Some(e) => e,
                None => level,
            },
        ) {
            Some(l) => l,
            None => Level::Info,
        },
{
}

/// The setup after a series of calls, each with its level, environment
/// value and component.
pub open spec fn setup_run(s: LoggingSetup, calls: Seq<(Seq<char>, Option<Seq<char>>, LogType)>) -> LoggingSetup
    decreases calls.len(),
{
    if calls.len() == 0 {
        s
    } else {
        setup_run(setup_spec(s, calls[0].0, calls[0].1, calls[0].2), calls.drop_first())
    }
}

proof fn lemma_setup_run_settled(s: LoggingSetup, calls: Seq<(Seq<char>, Option<Seq<char>>, LogType)>)
    requires
        s.initialized,
    ensures
        setup_run(s, calls) == s,
    decreases calls.len(),
{
    if calls.len() > 0 {
        lemma_setup_run_settled(s, calls.drop_first());
    }
}

/// Logging is set up once: after any series of calls, the active level,
/// the initialisation and the panic hook are what the first call made of
/// them; every later call leaves them unchanged.
pub proof fn lemma_setup_once(s: LoggingSetup, calls: Seq<(Seq<char>, Option<Seq<char>>, LogType)>)
    requires
        calls.len() > 0,
    ensures
        setup_run(s, calls) == setup_spec(s, calls[0].0, calls[0].1, calls[0].2),
{
    let first = setup_spec(s, calls[0].0, calls[0].1, calls[0].2);
    lemma_setup_run_settled(first, calls.drop_first());
}

/// Applies a runtime level change unless an environment variable fixes the
/// level; returns whether the log filter must be reloaded.
pub fn set_log_level(active: &mut ActiveLogLevel, level: &str, fixed_by_env: bool) -> (r: bool)
    ensures
        r == !fixed_by_env,
        fixed_by_env ==> final(active).code == old(active).code,
        !fixed_by_env ==> final(active).code == level_code(level@),
{
    if fixed_by_env {
        return false;
    }
    set_active_level_from_str(active, level);
    true
}

/// One file operation of a log rotation. Index `k >= 1` names the rotated
/// file `<log>.k`; the current file is the log itself.
#[derive(Clone, Copy, Debug, PartialEq, Eq, Structural)]
pub enum RotationStep {
    /// Remove `<log>.k`.
    RemoveRotated(usize),
    /// Rename `<log>.k` to `<log>.(k + 1)`.
    ShiftRotated(usize),
    /// Rename the current log to `<log>.1`.
    RotateCurrent,
    /// Remove the current log.
    RemoveCurrent,
}

/// The operations of a rotation: nothing unless the current size is known
/// and at least `max_size`; then, keeping `max_files > 1` files, remove the
/// oldest, shift the others up by one from the highest index down, and move
/// the current log to index 1; keeping one file, remove the current log.
pub open spec fn rotation_steps(size: Option<u64>, max_size: u64, max_files: usize) -> Seq<RotationStep> {
    match size {
        Some(n) => if n >= max_size {
            if max_files > 1 {
                seq![RotationStep::RemoveRotated(max_files)] + Seq::new(
                    (max_files - 1) as nat,
                    |i: int| RotationStep::ShiftRotated((max_files - 1 - i) as usize),
                ) + seq![RotationStep::RotateCurrent]
            } else {
                seq![RotationStep::RemoveCurrent]
            }
        } else {
            Seq::empty()
        },
        None => Seq::empty(),
    }
}

/// Plans a rotation of the log file whose size is `size` (`None` when it
/// cannot be read).
pub fn rotation_plan(size: Option<u64>, max_size: u64, max_files: usize) -> (r: Vec<RotationStep>)
    ensures
        r@ == rotation_steps(size, max_size, max_files),
{
    let mut r: Vec<RotationStep> = Vec::new();
    match size {
        Some(n) => {
            if n >= max_size {
                if max_files > 1 {
                    r.push(RotationStep::RemoveRotated(max_files));
                    let mut i = max_files - 1;
                    while i >= 1
                        invariant
                            0 <= i < max_files,
                            r@ == seq![RotationStep::RemoveRotated(max_files)] + Seq::new(
                                (max_files - 1 - i) as nat,
                                |j: int| RotationStep::ShiftRotated((max_files - 1 - j) as usize),
                            ),
                        decreases i,
                    {
                        r.push(RotationStep::ShiftRotated(i));
                        i = i - 1;
                    }
                    r.push(RotationStep::RotateCurrent);
                } else {
                    r.push(RotationStep::RemoveCurrent);
                }
            }
        },
        None => {},
    }
    r
}

/// Every shift of a rotation moves a file to an index that no later step
/// reads and that the removal or an earlier shift has freed: the shifts go
/// strictly downwards from `max_files - 1` to `1`.
pub proof fn lemma_rotation_shifts_descend(size: Option<u64>, max_size: u64, max_files: usize, a: int, b: int)
    requires
        0 <= a < b < rotation_steps(size, max_size, max_files).len(),
        rotation_steps(size, max_size, max_files)[a] is ShiftRotated,
        rotation_steps(size, max_size, max_files)[b] is ShiftRotated,
    ensures
        rotation_steps(size, max_size, max_files)[a]->ShiftRotated_0
            > rotation_steps(size, max_size, max_files)[b]->ShiftRotated_0 >= 1,
{
}

/// A log message being assembled from an event's fields.
pub struct MessageVisitor {
    pub text: String,
}

impl MessageVisitor {
    /// An empty message.
    pub fn new() -> (r: MessageVisitor)
        ensures
            r.text@ == Seq::<char>::empty(),
    {
        MessageVisitor { text: String::new() }
    }

    /// Adds a string field: the `message` field is appended as it is, any
    /// other field as ` name=value`.
    pub fn record_str(&mut self, field: &str, value: &str)
        ensures
            final(self).text@ == if field@ == "message"@ {
                old(self).text@ + value@
            } else {
                old(self).text@ + " "@ + field@ + "="@ + value@
            },
    {
        if str_eq(field, "message") {
            self.text.append(value);
        } else {
            self.text.append(" ");
            self.text.append(field);
            self.text.append("=");
            self.text.append(value);
        }
    }

    /// Adds a field given by its `Debug` rendering: for the `message` field
    /// the rendering loses its surrounding double quotes, other fields are
    /// appended as ` name=rendering`.
    pub fn record_debug(&mut self, field: &str, rendering: &str)
        ensures
            final(self).text@ == if field@ == "message"@ {
                old(self).text@ + strip_suffixes(strip_prefixes(rendering@, "\""@), "\""@)
            } else {
                old(self).text@ + " "@ + field@ + "="@ + rendering@
            },
    {
        if str_eq(field, "message") {
            let inner = trim_start_matches(rendering, "\"");
            let inner = trim_end_matches(inner.as_str(), "\"");
            self.text.append(inner.as_str());
        } else {
            self.text.append(" ");
            self.text.append(field);
            self.text.append("=");
            self.text.append(rendering);
        }
    }
}

/// The text of a panic's payload: the payload when it is a string,
/// `Non-string panic payload` otherwise.
pub fn panic_message(payload: Option<&str>) -> (r: String)
    ensures
        r@ == match payload {
            Some(p) => p@,
            None => "Non-string panic payload"@,
        },
{
    match payload {
        Some(p) => String::from_str(p),
        None => String::from_str("Non-string panic payload"),
    }
}

/// Where a panic happened: `file:line`, or `unknown location`.
pub fn panic_location(location: Option<(&str, u32)>) -> (r: String)
    ensures
        r@ == match location {
            Some((file, line)) => file@ + ":"@ + crate::text::decimal(line as nat),
            None => "unknown location"@,
        },
{
    match location {
        Some((file, line)) => {
            let mut r = String::from_str(file);
            r.append(":");
            crate::text::push_decimal(&mut r, line as u64);
            r
        },
        None => String::from_str("unknown location"),
    }
}

} // verus!
