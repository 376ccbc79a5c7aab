//! Decisions of the service's workers and command-line entry points:
//! pre-connect handling, retries with back-off, and argument parsing.
use vstd::prelude::*;

use crate::config::ActorType;
use crate::text::{ascii_lowercase, is_ascii_text, spec_to_lowercase, str_eq, to_lowercase};

verus! {

/// A pre-connect notification from the broker.
#[derive(Debug)]
pub struct PreConnect {
    pub user: String,
    pub protocol: String,
    pub ip: Option<String>,
    pub hostname: Option<String>,
    pub udsuser: Option<String>,
}

/// Whether the user must be granted remote desktop access first: when the
/// protocol is `rdp`, in any case.
pub fn needs_rdp_access(protocol: &str) -> (r: bool)
    ensures
        r == (spec_to_lowercase(protocol@) == "rdp"@),
        is_ascii_text(protocol@) ==> spec_to_lowercase(protocol@) == ascii_lowercase(protocol@),
{
    let l = to_lowercase(protocol);
    str_eq(l.as_str(), "rdp")
}

/// An optional value, or `unknown`.
pub open spec fn or_unknown(o: Option<String>) -> Seq<char> {
    match o {
        Some(s) => s@,
        None => "unknown"@,
    }
}

fn value_or_unknown(o: &Option<String>) -> (r: String)
    ensures
        r@ == or_unknown(*o),
{
    match o {
        Some(s) => s.clone(),
        None => String::from_str("unknown"),
    }
}

/// The positional arguments of the pre-connect command: user, protocol, IP,
/// host name and broker user, with `unknown` for what is missing.
pub fn preconnect_args(msg: &PreConnect) -> (r: Vec<String>)
    ensures
        r@.len() == 5,
        r@[0]@ == msg.user@,
        r@[1]@ == msg.protocol@,
        r@[2]@ == or_unknown(msg.ip),
        r@[3]@ == or_unknown(msg.hostname),
        r@[4]@ == or_unknown(msg.udsuser),
{
    let mut r: Vec<String> = Vec::new();
    r.push(msg.user.clone());
    r.push(msg.protocol.clone());
    r.push(value_or_unknown(&msg.ip));
    r.push(value_or_unknown(&msg.hostname));
    r.push(value_or_unknown(&msg.udsuser));
    r
}

/// Longest pause between two attempts, in milliseconds.
pub const MAX_BACKOFF_MS: u64 = 8000;

/// Pause before the first retry, in milliseconds.
pub const FIRST_BACKOFF_MS: u64 = 500;

/// Retries of an operation with exponential back-off.
pub struct RetryState {
    /// Attempts allowed (at least one is always made).
    pub retries: usize,
    /// Failed attempts so far.
    pub attempts: usize,
    /// Pause before the next attempt, in milliseconds.
    pub backoff_ms: u64,
}

/// What to do after an attempt.
#[derive(Clone, Copy, Debug, PartialEq, Eq, Structural)]
pub enum RetryAction {
    /// Return the attempt's success.
    ReturnOk,
    /// Return the attempt's error.
    ReturnErr,
    /// Sleep this many milliseconds and try again.
    Sleep(u64),
}

impl RetryState {
    /// A state from which another attempt can be made.
    pub open spec fn wf(&self) -> bool {
        &&& (self.attempts == 0 || self.attempts < self.retries)
        &&& (self.backoff_ms == 500 || self.backoff_ms == 1000 || self.backoff_ms == 2000
            || self.backoff_ms == 4000 || self.backoff_ms == 8000)
    }

    /// Before the first attempt.
    pub fn new(retries: usize) -> (r: RetryState)
        ensures
            r.retries == retries,
            r.attempts == 0,
            r.backoff_ms == FIRST_BACKOFF_MS,
            r.wf(),
    {
        RetryState { retries, attempts: 0, backoff_ms: FIRST_BACKOFF_MS }
    }

    /// Takes an attempt's outcome. A success is returned. A failure is
    /// counted; once the count reaches the allowed attempts it is returned,
    /// else the caller sleeps the current pause, which then doubles while it
    /// is under `MAX_BACKOFF_MS`.
    pub fn on_attempt(&mut self, ok: bool) -> (r: RetryAction)
        requires
            old(self).wf(),
        ensures
            ok ==> r == RetryAction::ReturnOk && *final(self) == *old(self),
            !ok ==> (*final(self), r) == retry_on_failure(*old(self)),
            !ok ==> final(self).attempts == old(self).attempts + 1 && final(self).retries == old(self).retries,
            !ok && old(self).attempts + 1 >= old(self).retries ==> r == RetryAction::ReturnErr
                && final(self).backoff_ms == old(self).backoff_ms,
            !ok && old(self).attempts + 1 < old(self).retries ==> r == RetryAction::Sleep(old(self).backoff_ms)
                && final(self).backoff_ms == if old(self).backoff_ms < MAX_BACKOFF_MS {
                    old(self).backoff_ms * 2
                } else {
                    old(self).backoff_ms as int
                } && final(self).wf(),
    {
        if ok {
            return RetryAction::ReturnOk;
        }
        self.attempts = self.attempts + 1;
        if self.attempts >= self.retries {
            return RetryAction::ReturnErr;
        }
        let pause = self.backoff_ms;
        if self.backoff_ms < MAX_BACKOFF_MS {
            self.backoff_ms = self.backoff_ms * 2;
        }
        RetryAction::Sleep(pause)
    }
}

/// The state and answer after a failed attempt.
pub open spec fn retry_on_failure(s: RetryState) -> (RetryState, RetryAction) {
    let attempts = (s.attempts + 1) as usize;
    if attempts >= s.retries {
        (RetryState { attempts, ..s }, RetryAction::ReturnErr)
    } else {
        let backoff_ms = if s.backoff_ms < MAX_BACKOFF_MS {
            (s.backoff_ms * 2) as u64
        } else {
            s.backoff_ms
        };
        (RetryState { attempts, backoff_ms, ..s }, RetryAction::Sleep(s.backoff_ms))
    }
}

/// The answers to `k` failed attempts in a row.
pub open spec fn failures_run(s: RetryState, k: nat) -> Seq<RetryAction>
    decreases k,
{
    if k == 0 {
        Seq::empty()
    } else {
        let (next, a) = retry_on_failure(s);
        seq![a] + failures_run(next, (k - 1) as nat)
    }
}

/// The pause before the retry that follows `k` earlier retries: 500 ms,
/// doubling up to 8 s.
pub open spec fn pause_after(k: nat) -> u64
    decreases k,
{
    if k == 0 {
        FIRST_BACKOFF_MS
    } else {
        let p = pause_after((k - 1) as nat);
        if p < MAX_BACKOFF_MS {
            (p * 2) as u64
        } else {
            p
        }
    }
}

/// When every attempt fails, an operation allowed `n >= 1` attempts sleeps
/// `n - 1` times, the `j`-th pause being `pause_after(j)` (500 ms doubling
/// up to 8 s), and the `n`-th failure returns the error.
pub proof fn lemma_all_failures(s: RetryState, k: nat)
    requires
        s.retries >= 1,
        s.attempts < s.retries,
        s.backoff_ms == pause_after(s.attempts as nat),
        k == s.retries - s.attempts,
    ensures
        failures_run(s, k).len() == k,
        failures_run(s, k)[k - 1] == RetryAction::ReturnErr,
        forall|j: int| 0 <= j < k - 1 ==> #[trigger] failures_run(s, k)[j] == RetryAction::Sleep(
            pause_after((s.attempts + j) as nat),
        ),
    decreases k,
{
    let (next, a) = retry_on_failure(s);
    if k == 1 {
        assert(failures_run(next, 0) =~= Seq::<RetryAction>::empty());
    } else {
        assert(next.backoff_ms == pause_after(next.attempts as nat));
        lemma_all_failures(next, (k - 1) as nat);
        let run = failures_run(s, k);
        let rest = failures_run(next, (k - 1) as nat);
        assert(run == seq![a] + rest);
        assert forall|j: int| 0 <= j < k - 1 implies #[trigger] failures_run(s, k)[j] == RetryAction::Sleep(
            pause_after((s.attempts + j) as nat),
        ) by {
            if j > 0 {
                assert(run[j] == rest[j - 1]);
            }
        }
    }
}

/// Pauses stay between `FIRST_BACKOFF_MS` and `MAX_BACKOFF_MS`.
pub proof fn lemma_backoff_bounded(s: RetryState)
    requires
        s.wf(),
    ensures
        FIRST_BACKOFF_MS <= s.backoff_ms <= MAX_BACKOFF_MS,
{
}

/// What the service binary was asked to do.
#[derive(Clone, Copy, Debug, PartialEq, Eq, Structural)]
pub enum ServiceCommand {
    /// Run the service.
    Run,
    /// Install the service.
    Install,
    /// Uninstall the service.
    Uninstall,
    /// An option that is not known.
    Unknown,
}

/// The command given by the process arguments (program name first).
pub fn parse_service_command(args: &Vec<String>) -> (r: ServiceCommand)
    ensures
        args@.len() <= 1 ==> r == ServiceCommand::Run,
        args@.len() > 1 ==> r == if args@[1]@ == "--install"@ {
            ServiceCommand::Install
        } else if args@[1]@ == "--uninstall"@ {
            ServiceCommand::Uninstall
        } else {
            ServiceCommand::Unknown
        },
{
    if args.len() <= 1 {
        return ServiceCommand::Run;
    }
    let a = args[1].as_str();
    if str_eq(a, "--install") {
        ServiceCommand::Install
    } else if str_eq(a, "--uninstall") {
        ServiceCommand::Uninstall
    } else {
        ServiceCommand::Unknown
    }
}

/// The exit code after an installer command.
pub fn installer_exit_code(failed: bool) -> (r: i32)
    ensures
        r == if failed {
            1i32
        } else {
            0i32
        },
{
    if failed {
        1
    } else {
        0
    }
}

/// The exit code when the service stops: `1` when it asked to be restarted.
pub fn service_exit_code(restart_requested: bool) -> (r: Option<i32>)
    ensures
        r == if restart_requested {
            Some(1i32)
        } else {
            None::<i32>
        },
{
    if restart_requested {
        Some(1)
    } else {
        None
    }
}

/// Why the service cannot start.
#[derive(Clone, Copy, Debug, PartialEq, Eq, Structural)]
pub enum ServiceStartError {
    /// The configuration is not valid.
    InvalidConfiguration,
}

/// Which actor the service runs: none without a valid configuration, else
/// the one matching the configured actor type.
pub fn service_mode(config_valid: bool, actor_type: ActorType) -> (r: Result<ActorType, ServiceStartError>)
    ensures
        !config_valid ==> r == Err::<ActorType, ServiceStartError>(ServiceStartError::InvalidConfiguration),
        config_valid ==> r == Ok::<ActorType, ServiceStartError>(actor_type),
{
    if !config_valid {
        Err(ServiceStartError::InvalidConfiguration)
    } else {
        Ok(actor_type)
    }
}

/// Registers the service with the system's service manager. On macOS this
/// is not implemented and succeeds without doing anything.
pub fn register(_name: &str, _display_name: &str, _description: &str) -> (r: Result<(), ()>)
    ensures
        r is Ok,
{
    Ok(())
}

/// Removes the service from the system's service manager. On macOS this is
/// not implemented and succeeds without doing anything.
pub fn unregister(_name: &str) -> (r: Result<(), ()>)
    ensures
        r is Ok,
{
    Ok(())
}

/// Why the GUI helper's arguments are refused.
#[derive(Clone, Copy, Debug, PartialEq, Eq, Structural)]
pub enum GuiArgsError {
    /// Not exactly a command, a title and a message.
    Usage,
    /// A command other than `message-dialog`.
    UnknownCommand,
}

/// The title and message of the GUI helper's `message-dialog` command
/// (arguments given with the program name first).
pub fn parse_gui_args(args: &Vec<String>) -> (r: Result<(String, String), GuiArgsError>)
    ensures
        args@.len() != 4 ==> r == Err::<(String, String), GuiArgsError>(GuiArgsError::Usage),
        args@.len() == 4 && args@[1]@ != "message-dialog"@ ==> r == Err::<(String, String), GuiArgsError>(
            GuiArgsError::UnknownCommand,
        ),
        args@.len() == 4 && args@[1]@ == "message-dialog"@ ==> r is Ok && (r->Ok_0).0@ == args@[2]@ && (
        r->Ok_0).1@ == args@[3]@,
{
    if args.len() != 4 {
        return Err(GuiArgsError::Usage);
    }
    if !str_eq(args[1].as_str(), "message-dialog") {
        return Err(GuiArgsError::UnknownCommand);
    }
    Ok((args[2].clone(), args[3].clone()))
}

} // verus!
