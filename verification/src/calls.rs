//! A record of calls, and recording stand-ins for the platform services
//! (session manager, broker API, user actions, system operations) that
//! report fixed results and log every call.
use vstd::prelude::*;

use crate::text::{has_prefix, starts_with, to_decimal, decimal};

verus! {

/// The characters of each recorded call.
pub open spec fn call_views(v: Seq<String>) -> Seq<Seq<char>> {
    v.map_values(|s: String| s@)
}

/// How many of the first `n` calls start with `prefix`.
pub open spec fn count_prefix(v: Seq<Seq<char>>, prefix: Seq<char>, n: int) -> nat
    decreases n,
{
    if n <= 0 {
        0
    } else {
        count_prefix(v, prefix, n - 1) + if has_prefix(v[n - 1], prefix) {
            1nat
        } else {
            0nat
        }
    }
}

/// The calls made so far, in order.
pub struct Calls {
    pub inner: Vec<String>,
}

impl Calls {
    /// No calls.
    pub fn new() -> (r: Calls)
        ensures
            r.inner@.len() == 0,
    {
        Calls { inner: Vec::new() }
    }

    /// Records a call.
    pub fn push(&mut self, call: &str)
        ensures
            call_views(final(self).inner@) == call_views(old(self).inner@).push(call@),
    {
        let ghost before = call_views(self.inner@);
        self.inner.push(String::from_str(call));
        assert(call_views(self.inner@) =~= before.push(call@));
    }

    /// Whether some recorded call starts with `prefix`.
    pub open spec fn called_with(&self, prefix: Seq<char>) -> bool {
        exists|i: int| 0 <= i < self.inner@.len() && has_prefix(#[trigger] self.inner@[i]@, prefix)
    }

    /// Whether some recorded call starts with `prefix`.
    pub fn contains_prefix(&self, prefix: &str) -> (r: bool)
        ensures
            r == self.called_with(prefix@),
    {
        let mut i: usize = 0;
        while i < self.inner.len()
            invariant
                i <= self.inner.len(),
                forall|j: int| 0 <= j < i ==> !has_prefix(#[trigger] self.inner@[j]@, prefix@),
            decreases self.inner.len() - i,
        {
            if starts_with(self.inner[i].as_str(), prefix) {
                return true;
            }
            i = i + 1;
        }
        false
    }

    /// Checks that some call starts with `prefix`; callers guarantee it (a
    /// failed check is a failed test).
    pub fn assert_called(&self, prefix: &str)
        requires
            self.called_with(prefix@),
    {
        let found = self.contains_prefix(prefix);
        assert(found);
    }

    /// Checks that no call starts with `prefix`; callers guarantee it (a
    /// failed check is a failed test).
    pub fn assert_not_called(&self, prefix: &str)
        requires
            !self.called_with(prefix@),
    {
        let found = self.contains_prefix(prefix);
        assert(!found);
    }

    /// How many recorded calls start with `prefix`.
    pub fn count_calls(&self, prefix: &str) -> (r: usize)
        ensures
            r == count_prefix(call_views(self.inner@), prefix@, self.inner@.len() as int),
    {
        let mut n: usize = 0;
        let mut i: usize = 0;
        while i < self.inner.len()
            invariant
                i <= self.inner.len(),
                n <= i,
                n == count_prefix(call_views(self.inner@), prefix@, i as int),
            decreases self.inner.len() - i,
        {
            if starts_with(self.inner[i].as_str(), prefix) {
                n = n + 1;
            }
            i = i + 1;
        }
        n
    }

    /// A copy of the recorded calls.
    pub fn dump(&self) -> (r: Vec<String>)
        ensures
            call_views(r@) == call_views(self.inner@),
    {
        let mut r: Vec<String> = Vec::new();
        let mut i: usize = 0;
        while i < self.inner.len()
            invariant
                i <= self.inner.len(),
                r@.len() == i,
                forall|j: int| 0 <= j < i ==> #[trigger] r@[j]@ == self.inner@[j]@,
            decreases self.inner.len() - i,
        {
            let c = self.inner[i].clone();
            r.push(c);
            i = i + 1;
        }
        assert(call_views(r@) =~= call_views(self.inner@));
        r
    }
}

/// What `Debug` prints for a string: the quoted, escaped text. Escaping
/// follows Unicode printability tables, so it is named here.
pub uninterp spec fn spec_debug_str(s: Seq<char>) -> Seq<char>;

/// Calls `<str as Debug>::fmt` through `format!`; the result is claimed to
/// be the named `Debug` rendering of `s`, a function of `s` alone.
#[verifier::external_body]
fn debug_str(s: &str) -> (r: String)
    ensures
        r@ == spec_debug_str(s@),
{
    format!("{:?}", s)
}

/// What `Debug` prints for an optional string.
pub open spec fn debug_opt_str(o: Option<&str>) -> Seq<char> {
    match o {
        Some(s) => "Some("@ + spec_debug_str(s@) + ")"@,
        None => "None"@,
    }
}

fn debug_option(o: Option<&str>) -> (r: String)
    ensures
        r@ == debug_opt_str(o),
{
    match o {
        Some(s) => {
            let mut r = String::from_str("Some(");
            let d = debug_str(s);
            r.append(d.as_str());
            r.append(")");
            r
        },
        None => String::from_str("None"),
    }
}

/// `open` (a call's name and opening parenthesis), `arg`, then `)`.
fn call_with(open: &str, arg: &str) -> (r: String)
    ensures
        r@ == open@ + arg@ + ")"@,
{
    let mut r = String::from_str(open);
    r.append(arg);
    r.append(")");
    r
}

/// A stand-in session manager.
pub struct FakeSessionManager {
    pub stopped: bool,
}

impl FakeSessionManager {
    /// A running session.
    pub fn new() -> (r: FakeSessionManager)
        ensures
            !r.stopped,
    {
        FakeSessionManager { stopped: false }
    }

    /// Whether the session runs; records `session::is_running()`.
    pub fn is_running(&mut self, calls: &mut Calls) -> (r: bool)
        ensures
            r == !old(self).stopped,
            final(self).stopped == old(self).stopped,
            call_views(final(calls).inner@) == call_views(old(calls).inner@).push(
                "session::is_running()"@,
            ),
    {
        calls.push("session::is_running()");
        !self.stopped
    }

    /// Stops the session; records `session::stop()`.
    pub fn stop(&mut self, calls: &mut Calls)
        ensures
            final(self).stopped,
            call_views(final(calls).inner@) == call_views(old(calls).inner@).push("session::stop()"@),
    {
        calls.push("session::stop()");
        self.stopped = true;
    }
}

/// The answer of the stand-in broker API to `login`.
#[derive(Debug)]
pub struct FakeLoginResponse {
    pub ip: String,
    pub hostname: String,
    pub deadline: Option<u32>,
    pub max_idle: Option<u32>,
    pub session_id: String,
}

/// A stand-in broker API.
pub struct FakeApi {}

impl FakeApi {
    /// An API that records into the log it is given at each call.
    pub fn new() -> (r: FakeApi) {
        FakeApi {  }
    }

    /// Records `api::register()` and succeeds.
    pub fn register(&self, calls: &mut Calls, _callback_url: &str) -> (r: Result<(), ()>)
        ensures
            r is Ok,
            call_views(final(calls).inner@) == call_views(old(calls).inner@).push("api::register()"@),
    {
        calls.push("api::register()");
        Ok(())
    }

    /// Records `api::unregister()` and succeeds.
    pub fn unregister(&self, calls: &mut Calls) -> (r: Result<(), ()>)
        ensures
            r is Ok,
            call_views(final(calls).inner@) == call_views(old(calls).inner@).push("api::unregister()"@),
    {
        calls.push("api::unregister()");
        Ok(())
    }

    /// Records `api::login(<user>,<session type>)` and answers a fixed
    /// session on `127.0.0.1`.
    pub fn login(&self, calls: &mut Calls, username: &str, session_type: Option<&str>) -> (r: Result<FakeLoginResponse, ()>)
        ensures
            call_views(final(calls).inner@) == call_views(old(calls).inner@).push(
                "api::login("@ + username@ + ","@ + debug_opt_str(session_type) + ")"@,
            ),
            r is Ok,
            r->Ok_0.ip@ == "127.0.0.1"@,
            r->Ok_0.hostname@ == "localhost"@,
            r->Ok_0.deadline == Some(10000u32),
            r->Ok_0.max_idle == Some(350u32),
            r->Ok_0.session_id@ == "sessid"@,
    {
        let mut c = String::from_str("api::login(");
        c.append(username);
        c.append(",");
        let d = debug_option(session_type);
        c.append(d.as_str());
        c.append(")");
        calls.push(c.as_str());
        Ok(
            FakeLoginResponse {
                ip: String::from_str("127.0.0.1"),
                hostname: String::from_str("localhost"),
                deadline: Some(10000),
                max_idle: Some(350),
                session_id: String::from_str("sessid"),
            },
        )
    }

    /// Records `api::logout(<reason>)` and succeeds.
    pub fn logout(&self, calls: &mut Calls, reason: Option<&str>) -> (r: Result<(), ()>)
        ensures
            r is Ok,
            call_views(final(calls).inner@) == call_views(old(calls).inner@).push(
                "api::logout("@ + debug_opt_str(reason) + ")"@,
            ),
    {
        let d = debug_option(reason);
        let c = call_with("api::logout(", d.as_str());
        calls.push(c.as_str());
        Ok(())
    }

    /// Records `api::ping()` and answers that the server is there.
    pub fn ping(&self, calls: &mut Calls) -> (r: Result<bool, ()>)
        ensures
            r == Ok::<bool, ()>(true),
            call_views(final(calls).inner@) == call_views(old(calls).inner@).push("api::ping()"@),
    {
        calls.push("api::ping()");
        Ok(true)
    }
}

/// The stand-in screenshot: a transparent 1x1 PNG image.
pub open spec fn png_1x1() -> Seq<u8> {
    seq![
        0x89u8, 0x50, 0x4E, 0x47, 0x0D, 0x0A, 0x1A, 0x0A, 0x00, 0x00, 0x00, 0x0D, 0x49, 0x48,
        0x44, 0x52, 0x00, 0x00, 0x00, 0x01, 0x00, 0x00, 0x00, 0x01, 0x08, 0x06, 0x00, 0x00,
        0x00, 0x1F, 0x15, 0xC4, 0x89, 0x00, 0x00, 0x00, 0x0A, 0x49, 0x44, 0x41, 0x54, 0x78,
        0x9C, 0x63, 0x00, 0x01, 0x00, 0x00, 0x05, 0x00, 0x01, 0x0D, 0x0A, 0x2D, 0xB4, 0x00,
        0x00, 0x00, 0x00, 0x49, 0x45, 0x4E, 0x44, 0xAE, 0x42, 0x60, 0x82,
    ]
}

/// Stand-in user actions.
pub struct FakeActions {}

impl FakeActions {
    /// Actions that record into the log they are given at each call.
    pub fn new() -> (r: FakeActions) {
        FakeActions {  }
    }

    /// Records `actions::screenshot()` and returns the 1x1 PNG image.
    pub fn screenshot(&self, calls: &mut Calls) -> (r: Result<Vec<u8>, ()>)
        ensures
            r is Ok && r->Ok_0@ == png_1x1(),
            call_views(final(calls).inner@) == call_views(old(calls).inner@).push(
                "actions::screenshot()"@,
            ),
    {
        calls.push("actions::screenshot()");
        let v: Vec<u8> = vec![
            0x89u8, 0x50, 0x4E, 0x47, 0x0D, 0x0A, 0x1A, 0x0A, 0x00, 0x00, 0x00, 0x0D, 0x49, 0x48,
            0x44, 0x52, 0x00, 0x00, 0x00, 0x01, 0x00, 0x00, 0x00, 0x01, 0x08, 0x06, 0x00, 0x00,
            0x00, 0x1F, 0x15, 0xC4, 0x89, 0x00, 0x00, 0x00, 0x0A, 0x49, 0x44, 0x41, 0x54, 0x78,
            0x9C, 0x63, 0x00, 0x01, 0x00, 0x00, 0x05, 0x00, 0x01, 0x0D, 0x0A, 0x2D, 0xB4, 0x00,
            0x00, 0x00, 0x00, 0x49, 0x45, 0x4E, 0x44, 0xAE, 0x42, 0x60, 0x82,
        ];
        assert(v@ =~= png_1x1());
        Ok(v)
    }

    /// Records `actions::run_script(<script>)` and answers `Executed: <script>`.
    pub fn run_script(&self, calls: &mut Calls, script: &str) -> (r: Result<String, ()>)
        ensures
            r is Ok && r->Ok_0@ == "Executed: "@ + script@,
            call_views(final(calls).inner@) == call_views(old(calls).inner@).push(
                "actions::run_script("@ + script@ + ")"@,
            ),
    {
        let c = call_with("actions::run_script(", script);
        calls.push(c.as_str());
        let mut r = String::from_str("Executed: ");
        r.append(script);
        Ok(r)
    }

    /// Records `actions::notify_user(<message, quoted>)` and succeeds.
    pub fn notify_user(&self, calls: &mut Calls, message: &str) -> (r: Result<(), ()>)
        ensures
            r is Ok,
            call_views(final(calls).inner@) == call_views(old(calls).inner@).push(
                "actions::notify_user("@ + spec_debug_str(message@) + ")"@,
            ),
    {
        let d = debug_str(message);
        let c = call_with("actions::notify_user(", d.as_str());
        calls.push(c.as_str());
        Ok(())
    }
}

/// A network interface as the operations report it.
#[derive(Debug)]
pub struct NetworkInterface {
    pub name: String,
    pub ip_addr: String,
    pub mac: String,
}

/// Stand-in system operations.
pub struct FakeOperations {}

impl FakeOperations {
    /// Operations that record into the log they are given at each call.
    pub fn new() -> (r: FakeOperations) {
        FakeOperations {  }
    }

    /// Records the call and reports sufficient permissions.
    pub fn check_permissions(&self, calls: &mut Calls) -> (r: Result<bool, ()>)
        ensures
            r == Ok::<bool, ()>(true),
            call_views(final(calls).inner@) == call_views(old(calls).inner@).push(
                "operations::check_permissions()"@,
            ),
    {
        calls.push("operations::check_permissions()");
        Ok(true)
    }

    /// Records the call and reports `FakeComputer`.
    pub fn get_computer_name(&self, calls: &mut Calls) -> (r: Result<String, ()>)
        ensures
            r is Ok && r->Ok_0@ == "FakeComputer"@,
            call_views(final(calls).inner@) == call_views(old(calls).inner@).push(
                "operations::get_computer_name()"@,
            ),
    {
        calls.push("operations::get_computer_name()");
        Ok(String::from_str("FakeComputer"))
    }

    /// Records the call and reports the domain `FakeDomain`.
    pub fn get_domain_name(&self, calls: &mut Calls) -> (r: Result<Option<String>, ()>)
        ensures
            r is Ok && r->Ok_0 is Some && r->Ok_0->0@ == "FakeDomain"@,
            call_views(final(calls).inner@) == call_views(old(calls).inner@).push(
                "operations::get_domain_name()"@,
            ),
    {
        calls.push("operations::get_domain_name()");
        Ok(Some(String::from_str("FakeDomain")))
    }

    /// Records `operations::rename_computer(<name>)` and succeeds.
    pub fn rename_computer(&self, calls: &mut Calls, new_name: &str) -> (r: Result<(), ()>)
        ensures
            r is Ok,
            call_views(final(calls).inner@) == call_views(old(calls).inner@).push(
                "operations::rename_computer("@ + new_name@ + ")"@,
            ),
    {
        let c = call_with("operations::rename_computer(", new_name);
        calls.push(c.as_str());
        Ok(())
    }

    /// Records `operations::change_user_password(<user>,<old>,<new>)` and succeeds.
    pub fn change_user_password(&self, calls: &mut Calls, user: &str, old_password: &str, new_password: &str) -> (r: Result<
        (),
        (),
    >)
        ensures
            r is Ok,
            call_views(final(calls).inner@) == call_views(old(calls).inner@).push(
                "operations::change_user_password("@ + user@ + ","@ + old_password@ + ","@ + new_password@
                    + ")"@,
            ),
    {
        let mut c = String::from_str("operations::change_user_password(");
        c.append(user);
        c.append(",");
        c.append(old_password);
        c.append(",");
        c.append(new_password);
        c.append(")");
        calls.push(c.as_str());
        Ok(())
    }

    /// Records the call and reports a fixed OS version.
    pub fn get_os_version(&self, calls: &mut Calls) -> (r: Result<String, ()>)
        ensures
            r is Ok && r->Ok_0@ == "Linux Debian Moscarda Edition 36.11.32"@,
            call_views(final(calls).inner@) == call_views(old(calls).inner@).push(
                "operations::get_os_version()"@,
            ),
    {
        calls.push("operations::get_os_version()");
        Ok(String::from_str("Linux Debian Moscarda Edition 36.11.32"))
    }

    /// Records `operations::reboot(<flags>)` and succeeds.
    pub fn reboot(&self, calls: &mut Calls, flags: Option<u32>) -> (r: Result<(), ()>)
        ensures
            r is Ok,
            call_views(final(calls).inner@) == call_views(old(calls).inner@).push(
                "operations::reboot("@ + match flags {
                    Some(f) => "Some("@ + decimal(f as nat) + ")"@,
                    None => "None"@,
                } + ")"@,
            ),
    {
        let d = match flags {
            Some(f) => {
                let mut s = String::from_str("Some(");
                let n = to_decimal(f as u64);
                s.append(n.as_str());
                s.append(")");
                s
            },
            None => String::from_str("None"),
        };
        let c = call_with("operations::reboot(", d.as_str());
        calls.push(c.as_str());
        Ok(())
    }

    /// Records the call and succeeds.
    pub fn logoff(&self, calls: &mut Calls) -> (r: Result<(), ()>)
        ensures
            r is Ok,
            call_views(final(calls).inner@) == call_views(old(calls).inner@).push(
                "operations::logoff()"@,
            ),
    {
        calls.push("operations::logoff()");
        Ok(())
    }

    /// Records the call and succeeds.
    pub fn init_idle_timer(&self, calls: &mut Calls) -> (r: Result<(), ()>)
        ensures
            r is Ok,
            call_views(final(calls).inner@) == call_views(old(calls).inner@).push(
                "operations::init_idle_timer()"@,
            ),
    {
        calls.push("operations::init_idle_timer()");
        Ok(())
    }

    /// Records the call and reports one interface, `eth0`.
    pub fn get_network_info(&self, calls: &mut Calls) -> (r: Result<Vec<NetworkInterface>, ()>)
        ensures
            r is Ok && r->Ok_0@.len() == 1,
            r is Ok ==> r->Ok_0@[0].name@ == "eth0"@ && r->Ok_0@[0].ip_addr@ == "192.168.1.100"@
                && r->Ok_0@[0].mac@ == "00:1A:2B:3C:4D:5E"@,
            call_views(final(calls).inner@) == call_views(old(calls).inner@).push(
                "operations::get_network_info()"@,
            ),
    {
        calls.push("operations::get_network_info()");
        let mut v: Vec<NetworkInterface> = Vec::new();
        v.push(
            NetworkInterface {
                name: String::from_str("eth0"),
                ip_addr: String::from_str("192.168.1.100"),
                mac: String::from_str("00:1A:2B:3C:4D:5E"),
            },
        );
        Ok(v)
    }

    /// Records the call and reports ten minutes of idle time (in seconds).
    pub fn get_idle_duration(&self, calls: &mut Calls) -> (r: Result<u64, ()>)
        ensures
            r == Ok::<u64, ()>(600),
            call_views(final(calls).inner@) == call_views(old(calls).inner@).push(
                "operations::get_idle_duration()"@,
            ),
    {
        calls.push("operations::get_idle_duration()");
        Ok(600)
    }

    /// Records the call and reports the user `FakeUser`.
    pub fn get_current_user(&self, calls: &mut Calls) -> (r: Result<String, ()>)
        ensures
            r is Ok && r->Ok_0@ == "FakeUser"@,
            call_views(final(calls).inner@) == call_views(old(calls).inner@).push(
                "operations::get_current_user()"@,
            ),
    {
        calls.push("operations::get_current_user()");
        Ok(String::from_str("FakeUser"))
    }

    /// Records the call and reports an `Interactive` session.
    pub fn get_session_type(&self, calls: &mut Calls) -> (r: Result<String, ()>)
        ensures
            r is Ok && r->Ok_0@ == "Interactive"@,
            call_views(final(calls).inner@) == call_views(old(calls).inner@).push(
                "operations::get_session_type()"@,
            ),
    {
        calls.push("operations::get_session_type()");
        Ok(String::from_str("Interactive"))
    }

    /// Records the call and succeeds.
    pub fn force_time_sync(&self, calls: &mut Calls) -> (r: Result<(), ()>)
        ensures
            r is Ok,
            call_views(final(calls).inner@) == call_views(old(calls).inner@).push(
                "operations::force_time_sync()"@,
            ),
    {
        calls.push("operations::force_time_sync()");
        Ok(())
    }

    /// Records `operations::protect_file_for_owner_only(<path>)` and succeeds.
    pub fn protect_file_for_owner_only(&self, calls: &mut Calls, path: &str) -> (r: Result<(), ()>)
        ensures
            r is Ok,
            call_views(final(calls).inner@) == call_views(old(calls).inner@).push(
                "operations::protect_file_for_owner_only("@ + path@ + ")"@,
            ),
    {
        let c = call_with("operations::protect_file_for_owner_only(", path);
        calls.push(c.as_str());
        Ok(())
    }
}

/// The stand-in platform: the session manager, broker API, user actions and
/// system operations stand-ins, all recording into one log, in the order of
/// the calls.
pub struct FakePlatform {
    pub calls: Calls,
    pub session_manager: FakeSessionManager,
    pub api: FakeApi,
    pub actions: FakeActions,
    pub operations: FakeOperations,
}

/// A stand-in platform with an empty log and a running session.
pub fn create_platform() -> (r: FakePlatform)
    ensures
        r.calls.inner@.len() == 0,
        !r.session_manager.stopped,
{
    FakePlatform {
        calls: Calls::new(),
        session_manager: FakeSessionManager::new(),
        api: FakeApi::new(),
        actions: FakeActions::new(),
        operations: FakeOperations::new(),
    }
}

/// For one log and one prefix, exactly one of the two checks passes:
/// `assert_called` when some call starts with the prefix, `assert_not_called`
/// otherwise.
pub proof fn lemma_exactly_one_check_passes(calls: Calls, prefix: Seq<char>)
    ensures
        calls.called_with(prefix) != !calls.called_with(prefix),
{
}

/// Recording a call makes it visible to `contains_prefix` for any of its
/// prefixes, and adds one to the count of every prefix it starts with.
pub proof fn lemma_push_then_contains(before: Seq<String>, after: Seq<String>, call: Seq<char>, prefix: Seq<char>)
    requires
        call_views(after) == call_views(before).push(call),
    ensures
        has_prefix(call, prefix) ==> exists|i: int| 0 <= i < after.len() && has_prefix(#[trigger] after[i]@, prefix),
        count_prefix(call_views(after), prefix, after.len() as int) == count_prefix(
            call_views(before),
            prefix,
            before.len() as int,
        ) + if has_prefix(call, prefix) {
            1nat
        } else {
            0nat
        },
{
    assert(call_views(after).len() == after.len());
    assert(call_views(before).len() == before.len());
    let n = before.len() as int;
    assert(after[n]@ == call_views(after)[n]);
    assert forall|k: int| 0 <= k <= n implies count_prefix(call_views(after), prefix, k) == count_prefix(
        call_views(before),
        prefix,
        k,
    ) by {
        lemma_count_prefix_agree(call_views(after), call_views(before), prefix, k);
    }
}

proof fn lemma_count_prefix_agree(a: Seq<Seq<char>>, b: Seq<Seq<char>>, prefix: Seq<char>, k: int)
    requires
        0 <= k <= b.len(),
        b.len() <= a.len(),
        forall|j: int| 0 <= j < b.len() ==> a[j] == b[j],
    ensures
        count_prefix(a, prefix, k) == count_prefix(b, prefix, k),
    decreases k,
{
    if k > 0 {
        lemma_count_prefix_agree(a, b, prefix, k - 1);
    }
}

} // verus!
