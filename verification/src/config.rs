//! The actor configuration and the decisions of the configuration tools:
//! building the stored configuration, reading it back into the form, and
//! validating what the user typed.
use vstd::prelude::*;

use crate::text::{chars_of, has_prefix, is_whitespace, is_ws, strip_prefixes, strip_suffixes, trim, trim_end_matches,
    trim_start_matches, trimmed};

verus! {

/// How the actor is managed by the broker.
#[derive(Clone, Copy, Debug, PartialEq, Eq, Structural)]
pub enum ActorType {
    Managed,
    Unmanaged,
}

/// Data-level settings of the configuration.
#[derive(Clone, Debug)]
pub struct ActorDataConfiguration {
    pub ssl_ciphers: Option<String>,
}

/// The stored configuration of the actor.
#[derive(Clone, Debug)]
pub struct ActorConfiguration {
    pub broker_url: String,
    pub verify_ssl: bool,
    pub actor_type: ActorType,
    pub master_token: Option<String>,
    pub own_token: Option<String>,
    pub restrict_net: Option<String>,
    pub pre_command: Option<String>,
    pub runonce_command: Option<String>,
    pub post_command: Option<String>,
    pub log_level: u32,
    pub config: ActorDataConfiguration,
}

/// The characters of an optional string, empty when absent.
pub open spec fn opt_view(o: Option<String>) -> Seq<char> {
    match o {
        Some(s) => s@,
        None => Seq::empty(),
    }
}

/// `None` for an empty string, else the string.
pub open spec fn none_if_empty_spec(s: Seq<char>, o: Option<String>) -> bool {
    if s.len() == 0 {
        o is None
    } else {
        o is Some && o->0@ == s
    }
}

/// `None` for an empty string, else a copy of it.
pub fn none_if_empty(s: &str) -> (r: Option<String>)
    ensures
        none_if_empty_spec(s@, r),
{
    if s.is_empty() {
        None
    } else {
        Some(String::from_str(s))
    }
}

/// The broker URL for a host: `https://<host>/uds/rest/`.
pub open spec fn broker_url_spec(host: Seq<char>) -> Seq<char> {
    "https://"@ + host + "/uds/rest/"@
}

/// Builds the broker URL for a host.
pub fn broker_url_for(host: &str) -> (r: String)
    ensures
        r@ == broker_url_spec(host@),
{
    let mut r = String::from_str("https://");
    r.append(host);
    r.append("/uds/rest/");
    r
}

impl ActorConfiguration {
    /// The token the actor authenticates with: its own token when it has
    /// one, else the master token, else empty.
    pub fn token(&self) -> (r: String)
        ensures
            r@ == match self.own_token {
                Some(t) => t@,
                None => opt_view(self.master_token),
            },
    {
        match &self.own_token {
            Some(t) => t.clone(),
            None => match &self.master_token {
                Some(t) => t.clone(),
                None => String::new(),
            },
        }
    }
}

/// A managed configuration for `hostname` with nothing else set.
pub fn create_config(hostname: &str, verify_ssl: bool) -> (r: ActorConfiguration)
    ensures
        r.broker_url@ == broker_url_spec(hostname@),
        r.verify_ssl == verify_ssl,
        r.actor_type == ActorType::Managed,
        r.master_token is None && r.own_token is None && r.restrict_net is None,
        r.pre_command is None && r.runonce_command is None && r.post_command is None,
        r.log_level == 0,
        r.config.ssl_ciphers is None,
{
    ActorConfiguration {
        broker_url: broker_url_for(hostname),
        verify_ssl,
        actor_type: ActorType::Managed,
        master_token: None,
        own_token: None,
        restrict_net: None,
        pre_command: None,
        runonce_command: None,
        post_command: None,
        log_level: 0,
        config: ActorDataConfiguration { ssl_ciphers: None },
    }
}

/// The configuration used to talk to the broker before registration:
/// managed, for `hostname`, with the cipher list when one is given.
pub fn broker_api_config(hostname: &str, verify_ssl: bool, ciphers: &str) -> (r: ActorConfiguration)
    ensures
        r.broker_url@ == broker_url_spec(hostname@),
        r.verify_ssl == verify_ssl,
        r.actor_type == ActorType::Managed,
        r.master_token is None && r.own_token is None && r.restrict_net is None,
        r.pre_command is None && r.runonce_command is None && r.post_command is None,
        r.log_level == 0,
        none_if_empty_spec(ciphers@, r.config.ssl_ciphers),
{
    ActorConfiguration {
        broker_url: broker_url_for(hostname),
        verify_ssl,
        actor_type: ActorType::Managed,
        master_token: None,
        own_token: None,
        restrict_net: None,
        pre_command: None,
        runonce_command: None,
        post_command: None,
        log_level: 0,
        config: ActorDataConfiguration { ssl_ciphers: none_if_empty(ciphers) },
    }
}

/// The host shown for a stored broker URL: the URL without its leading
/// `https://` and trailing `/uds/rest/` (every repetition of either).
pub open spec fn host_of_url_spec(url: Seq<char>) -> Seq<char> {
    strip_suffixes(strip_prefixes(url, "https://"@), "/uds/rest/"@)
}

/// Extracts the host from a stored broker URL.
pub fn host_of_url(url: &str) -> (r: String)
    ensures
        r@ == host_of_url_spec(url@),
{
    let a = trim_start_matches(url, "https://");
    trim_end_matches(a.as_str(), "/uds/rest/")
}

/// The log level index kept from a form's choice: the choice truncated to a
/// byte, then capped at 4.
pub open spec fn clamp_level_spec(idx: i32) -> u8 {
    let b = (idx as int) % 256;
    if b < 4 {
        b as u8
    } else {
        4
    }
}

/// Caps a form's log level choice at 4, as `(idx as u8).min(4)` does.
pub fn clamp_log_level(idx: i32) -> (r: u8)
    ensures
        r == clamp_level_spec(idx),
{
    let b = #[verifier::truncate] (idx as u8);
    assert(b == (idx as int) % 256) by (bit_vector)
        requires
            b == #[verifier::truncate] (idx as u8),
    ;
    if b < 4 {
        b
    } else {
        4
    }
}

/// A level choice of the form (0 to 4) is kept as it is, so a saved
/// configuration selects the same choice when the form is filled again;
/// any other choice is kept as one of them.
pub proof fn lemma_level_choice_round_trip(idx: i32)
    ensures
        0 <= idx <= 4 ==> clamp_level_spec(idx) == idx,
        clamp_level_spec(idx) <= 4,
{
}

/// Whether `s[lo..hi]` is one of the `c`-separated parts of `s`.
pub open spec fn is_part(s: Seq<char>, c: char, lo: int, hi: int) -> bool {
    &&& 0 <= lo <= hi <= s.len()
    &&& (lo == 0 || s[lo - 1] == c)
    &&& (hi == s.len() || s[hi] == c)
    &&& forall|k: int| lo <= k < hi ==> s[k] != c
}

/// Whether `s[lo..hi]` holds only white space.
pub open spec fn is_blank(s: Seq<char>, lo: int, hi: int) -> bool {
    forall|k: int| lo <= k < hi ==> is_ws(s[k])
}

/// A cipher list is valid when empty, or when none of its `:`-separated
/// parts is blank.
pub open spec fn ciphers_valid_spec(s: Seq<char>) -> bool {
    s.len() == 0 || !exists|lo: int, hi: int| is_part(s, ':', lo, hi) && is_blank(s, lo, hi)
}

/// Checks a cipher list as the configuration form does.
pub fn validate_ciphers(ciphers: &str) -> (r: bool)
    ensures
        r == ciphers_valid_spec(ciphers@),
{
    let v = chars_of(ciphers);
    if v.len() == 0 {
        return true;
    }
    let ghost s = v@;
    let mut start: usize = 0;
    let mut seen: bool = false;
    let mut i: usize = 0;
    while i < v.len()
        invariant
            s == v@,
            s == ciphers@,
            s.len() > 0,
            start <= i <= v.len(),
            start == 0 || s[start - 1] == ':',
            forall|k: int| start <= k < i ==> s[k] != ':',
            seen == !is_blank(s, start as int, i as int),
            forall|lo: int, hi: int| is_part(s, ':', lo, hi) && hi < i ==> !is_blank(s, lo, hi),
        decreases v.len() - i,
    {
        if v[i] == ':' {
            if !seen {
                assert(is_part(s, ':', start as int, i as int) && is_blank(s, start as int, i as int));
                return false;
            }
            assert forall|lo: int, hi: int| is_part(s, ':', lo, hi) && hi < i + 1 implies !is_blank(s, lo, hi) by {
                if hi == i {
                    if lo < start {
                        assert(s[start - 1] == ':');
                    } else if lo > start {
                        assert(s[lo - 1] != ':');
                    }
                }
            }
            start = i + 1;
            seen = false;
        } else {
            if !is_whitespace(v[i]) {
                seen = true;
            }
            assert forall|lo: int, hi: int| is_part(s, ':', lo, hi) && hi < i + 1 implies !is_blank(s, lo, hi) by {
                if hi == i {
                    assert(s[hi] == ':');
                }
            }
        }
        i = i + 1;
    }
    if !seen {
        assert(is_part(s, ':', start as int, i as int) && is_blank(s, start as int, i as int));
        return false;
    }
    assert forall|lo: int, hi: int| is_part(s, ':', lo, hi) implies !is_blank(s, lo, hi) by {
        if hi == s.len() {
            if lo < start {
                assert(s[start - 1] == ':');
            } else if lo > start {
                assert(s[lo - 1] != ':');
            }
        }
    }
    true
}


/// What the managed configuration form shows for a stored configuration.
pub struct ManagedForm {
    pub test_enabled: bool,
    pub verify_ssl: bool,
    pub server_host: Option<String>,
    pub preconnect_cmd: Option<String>,
    pub runonce_cmd: Option<String>,
    pub postconfig_cmd: Option<String>,
    pub ssl_ciphers: Option<String>,
    /// The stored log level, selected in the form's level choice.
    pub log_level: u32,
}

/// Fills the managed form from a stored configuration: the test button is
/// on when there is a token, the host is shown when there is a broker URL,
/// the commands and ciphers that are set are shown, and the stored log
/// level is selected.
pub fn fill_window_fields(cfg: &ActorConfiguration) -> (r: ManagedForm)
    ensures
        r.test_enabled == (match cfg.own_token {
            Some(t) => t@,
            None => opt_view(cfg.master_token),
        }.len() > 0),
        r.verify_ssl == cfg.verify_ssl,
        cfg.broker_url@.len() == 0 ==> r.server_host is None,
        cfg.broker_url@.len() > 0 ==> r.server_host is Some && r.server_host->0@ == host_of_url_spec(
            cfg.broker_url@,
        ),
        r.preconnect_cmd == cfg.pre_command,
        r.runonce_cmd == cfg.runonce_command,
        r.postconfig_cmd == cfg.post_command,
        r.ssl_ciphers == cfg.config.ssl_ciphers,
        r.log_level == cfg.log_level,
{
    let token = cfg.token();
    let server_host = if cfg.broker_url.as_str().is_empty() {
        None
    } else {
        Some(host_of_url(cfg.broker_url.as_str()))
    };
    ManagedForm {
        test_enabled: !token.as_str().is_empty(),
        verify_ssl: cfg.verify_ssl,
        server_host,
        preconnect_cmd: cfg.pre_command.clone(),
        runonce_cmd: cfg.runonce_command.clone(),
        postconfig_cmd: cfg.post_command.clone(),
        ssl_ciphers: cfg.config.ssl_ciphers.clone(),
        log_level: cfg.log_level,
    }
}

/// What the unmanaged configuration form shows for a stored configuration.
pub struct UnmanagedForm {
    pub verify_ssl: bool,
    pub server_host: Option<String>,
    pub service_token: String,
    pub net_restriction: String,
    pub test_enabled: bool,
    pub ssl_ciphers: Option<String>,
    /// The stored log level, selected in the form's level choice.
    pub log_level: u32,
}

/// Fills the unmanaged form: as the managed one (the stored log level
/// selected), plus the master token and the network restriction (empty when
/// unset).
pub fn fill_unmanaged_fields(cfg: &ActorConfiguration) -> (r: UnmanagedForm)
    ensures
        r.verify_ssl == cfg.verify_ssl,
        cfg.broker_url@.len() == 0 ==> r.server_host is None,
        cfg.broker_url@.len() > 0 ==> r.server_host is Some && r.server_host->0@ == host_of_url_spec(
            cfg.broker_url@,
        ),
        r.service_token@ == opt_view(cfg.master_token),
        r.net_restriction@ == opt_view(cfg.restrict_net),
        r.test_enabled == (match cfg.own_token {
            Some(t) => t@,
            None => opt_view(cfg.master_token),
        }.len() > 0),
        r.ssl_ciphers == cfg.config.ssl_ciphers,
        r.log_level == cfg.log_level,
{
    let token = cfg.token();
    let server_host = if cfg.broker_url.as_str().is_empty() {
        None
    } else {
        Some(host_of_url(cfg.broker_url.as_str()))
    };
    let service_token = match &cfg.master_token {
        Some(t) => t.clone(),
        None => String::new(),
    };
    let net_restriction = match &cfg.restrict_net {
        Some(t) => t.clone(),
        None => String::new(),
    };
    UnmanagedForm {
        verify_ssl: cfg.verify_ssl,
        server_host,
        service_token,
        net_restriction,
        test_enabled: !token.as_str().is_empty(),
        ssl_ciphers: cfg.config.ssl_ciphers.clone(),
        log_level: cfg.log_level,
    }
}

/// Why a form's values cannot be saved.
#[derive(Clone, Copy, Debug, PartialEq, Eq, Structural)]
pub enum FormError {
    /// The host is blank.
    HostRequired,
    /// The host or the token is blank.
    HostAndTokenRequired,
    /// The host, user name or password is blank.
    CredentialsRequired,
}

/// The unmanaged configuration saved from the form: the host must not be
/// blank; token, network restriction and ciphers are kept trimmed, and
/// dropped when blank.
pub fn unmanaged_config(
    host: &str,
    token: &str,
    net: &str,
    log_level_idx: i32,
    ciphers: &str,
    verify_ssl: bool,
) -> (r: Result<ActorConfiguration, FormError>)
    ensures
        r is Err <==> trim(host@).len() == 0,
        r is Err ==> r->Err_0 == FormError::HostRequired,
        r is Ok ==> ({
            let c = r->Ok_0;
            &&& c.broker_url@ == broker_url_spec(trim(host@))
            &&& c.verify_ssl == verify_ssl
            &&& c.actor_type == ActorType::Unmanaged
            &&& none_if_empty_spec(trim(token@), c.master_token)
            &&& c.own_token is None
            &&& none_if_empty_spec(trim(net@), c.restrict_net)
            &&& c.pre_command is None && c.runonce_command is None && c.post_command is None
            &&& c.log_level == clamp_level_spec(log_level_idx) as u32
            &&& none_if_empty_spec(trim(ciphers@), c.config.ssl_ciphers)
        }),
{
    let host = trimmed(host);
    let token = trimmed(token);
    let net = trimmed(net);
    let ciphers = trimmed(ciphers);
    if host.as_str().is_empty() {
        return Err(FormError::HostRequired);
    }
    Ok(ActorConfiguration {
        broker_url: broker_url_for(host.as_str()),
        verify_ssl,
        actor_type: ActorType::Unmanaged,
        master_token: none_if_empty(token.as_str()),
        own_token: None,
        restrict_net: none_if_empty(net.as_str()),
        pre_command: None,
        runonce_command: None,
        post_command: None,
        log_level: clamp_log_level(log_level_idx) as u32,
        config: ActorDataConfiguration { ssl_ciphers: none_if_empty(ciphers.as_str()) },
    })
}

/// The unmanaged configuration saved by the older form: host and token are
/// both required; the network restriction is kept even when empty and
/// certificates are verified when the second choice is selected.
pub fn unmanaged_config_legacy(
    host: &str,
    token: &str,
    net: &str,
    log_level_idx: i32,
    ssl_choice: i32,
) -> (r: Result<ActorConfiguration, FormError>)
    ensures
        r is Err <==> (trim(host@).len() == 0 || trim(token@).len() == 0),
        r is Err ==> r->Err_0 == FormError::HostAndTokenRequired,
        r is Ok ==> ({
            let c = r->Ok_0;
            &&& c.broker_url@ == broker_url_spec(trim(host@))
            &&& c.verify_ssl == (ssl_choice == 1)
            &&& c.actor_type == ActorType::Unmanaged
            &&& c.master_token is Some && c.master_token->0@ == trim(token@)
            &&& c.own_token is None
            &&& c.restrict_net is Some && c.restrict_net->0@ == trim(net@)
            &&& c.pre_command is None && c.runonce_command is None && c.post_command is None
            &&& c.log_level == clamp_level_spec(log_level_idx) as u32
            &&& c.config.ssl_ciphers is None
        }),
{
    let host = trimmed(host);
    let token = trimmed(token);
    let net = trimmed(net);
    if host.as_str().is_empty() || token.as_str().is_empty() {
        return Err(FormError::HostAndTokenRequired);
    }
    Ok(ActorConfiguration {
        broker_url: broker_url_for(host.as_str()),
        verify_ssl: ssl_choice == 1,
        actor_type: ActorType::Unmanaged,
        master_token: Some(token),
        own_token: None,
        restrict_net: Some(net),
        pre_command: None,
        runonce_command: None,
        post_command: None,
        log_level: clamp_log_level(log_level_idx) as u32,
        config: ActorDataConfiguration { ssl_ciphers: None },
    })
}

/// Whether a stored configuration can be tested: it needs a broker URL and
/// a token.
pub fn can_test(cfg: &ActorConfiguration) -> (r: bool)
    ensures
        r == (cfg.broker_url@.len() > 0 && match cfg.own_token {
            Some(t) => t@,
            None => opt_view(cfg.master_token),
        }.len() > 0),
{
    let token = cfg.token();
    !cfg.broker_url.as_str().is_empty() && !token.as_str().is_empty()
}

/// The authenticator picked in the registration form: entry 0 is the
/// administration login (`admin`); entry `i` is the `i`-th listed name, and
/// an entry out of range falls back to `admin`.
pub open spec fn selected_authenticator_spec(idx: i32, names: Seq<String>) -> Seq<char> {
    if 1 <= idx <= names.len() {
        names[idx - 1]@
    } else {
        "admin"@
    }
}

/// Picks the authenticator chosen in the registration form.
pub fn selected_authenticator(idx: i32, names: &Vec<String>) -> (r: String)
    ensures
        r@ == selected_authenticator_spec(idx, names@),
{
    if idx >= 1 && (idx as usize) <= names.len() {
        names[(idx - 1) as usize].clone()
    } else {
        String::from_str("admin")
    }
}

/// Picking entry `idx` of the authenticator choices logs in with what that
/// entry shows: for `1 <= idx <= n` (n names listed) the `idx`-th listed
/// name, which is entry `idx` of the list built from the names; entry 0, a
/// negative entry, or one past the list logs in to the administration
/// authenticator `admin`.
pub proof fn lemma_selected_authenticator_is_the_shown_entry(idx: i32, names: Seq<String>)
    ensures
        1 <= idx <= names.len() ==> selected_authenticator_spec(idx, names) == names[idx - 1]@,
        1 <= idx <= names.len() ==> selected_authenticator_spec(idx, names) == seq!["Administration"@].add(
            names.map_values(|n: String| n@),
        )[idx as int],
        (idx < 1 || idx > names.len()) ==> selected_authenticator_spec(idx, names) == "admin"@,
{
    if 1 <= idx <= names.len() {
        let shown = seq!["Administration"@].add(names.map_values(|n: String| n@));
        assert(shown[idx as int] == names.map_values(|n: String| n@)[idx - 1]);
    }
}

/// The choices of the authenticator list: `Administration`, then the
/// authenticators' names in the order given.
pub fn authenticator_choices(names: &Vec<String>) -> (r: Vec<String>)
    ensures
        r@.len() == names@.len() + 1,
        r@[0]@ == "Administration"@,
        forall|i: int| 0 <= i < names@.len() ==> #[trigger] r@[i + 1]@ == names@[i]@,
{
    let mut r: Vec<String> = Vec::new();
    r.push(String::from_str("Administration"));
    let mut i: usize = 0;
    while i < names.len()
        invariant
            i <= names.len(),
            r@.len() == i + 1,
            r@[0]@ == "Administration"@,
            forall|j: int| 0 <= j < i ==> #[trigger] r@[j + 1]@ == names@[j]@,
        decreases names.len() - i,
    {
        r.push(names[i].clone());
        i = i + 1;
    }
    r
}

/// Whether the registration form may be submitted: host and user name must
/// not be blank and the password must not be empty.
pub fn registration_inputs_valid(host: &str, username: &str, password: &str) -> (r: Result<(), FormError>)
    ensures
        r is Ok <==> (trim(host@).len() > 0 && trim(username@).len() > 0 && password@.len() > 0),
        r is Err ==> r->Err_0 == FormError::CredentialsRequired,
{
    let h = trimmed(host);
    let u = trimmed(username);
    if h.as_str().is_empty() || u.as_str().is_empty() || password.is_empty() {
        Err(FormError::CredentialsRequired)
    } else {
        Ok(())
    }
}

/// The user name sent at registration: `<user>@<authenticator>`.
pub fn full_username(username: &str, authenticator: &str) -> (r: String)
    ensures
        r@ == username@ + "@"@ + authenticator@,
{
    let mut r = String::from_str(username);
    r.append("@");
    r.append(authenticator);
    r
}

/// The commands registered with the broker.
#[derive(Clone, Debug)]
pub struct RegisterCommands {
    pub pre_command: Option<String>,
    pub runonce_command: Option<String>,
    pub post_command: Option<String>,
}

/// The commands from the form: each one trimmed, and dropped when blank.
pub fn register_commands(pre: &str, runonce: &str, post: &str) -> (r: RegisterCommands)
    ensures
        none_if_empty_spec(trim(pre@), r.pre_command),
        none_if_empty_spec(trim(runonce@), r.runonce_command),
        none_if_empty_spec(trim(post@), r.post_command),
{
    let pre = trimmed(pre);
    let runonce = trimmed(runonce);
    let post = trimmed(post);
    RegisterCommands {
        pre_command: none_if_empty(pre.as_str()),
        runonce_command: none_if_empty(runonce.as_str()),
        post_command: none_if_empty(post.as_str()),
    }
}

/// The configuration stored after a successful registration: managed, with
/// the master token the broker returned, the registered commands, the log
/// level and the cipher list (dropped when blank).
pub fn registered_config(
    host: &str,
    verify_ssl: bool,
    master_token: &str,
    commands: &RegisterCommands,
    log_level: u32,
    ciphers: &str,
) -> (r: ActorConfiguration)
    ensures
        r.broker_url@ == broker_url_spec(host@),
        r.verify_ssl == verify_ssl,
        r.actor_type == ActorType::Managed,
        r.master_token is Some && r.master_token->0@ == master_token@,
        r.own_token is None && r.restrict_net is None,
        r.pre_command == commands.pre_command,
        r.runonce_command == commands.runonce_command,
        r.post_command == commands.post_command,
        r.log_level == log_level,
        none_if_empty_spec(ciphers@, r.config.ssl_ciphers),
{
    ActorConfiguration {
        broker_url: broker_url_for(host),
        verify_ssl,
        actor_type: ActorType::Managed,
        master_token: Some(String::from_str(master_token)),
        own_token: None,
        restrict_net: None,
        pre_command: commands.pre_command.clone(),
        runonce_command: commands.runonce_command.clone(),
        post_command: commands.post_command.clone(),
        log_level,
        config: ActorDataConfiguration { ssl_ciphers: none_if_empty(ciphers) },
    }
}

/// A stored configuration read back into the form shows the host it was
/// saved for, unless the saved URL still starts with `https://` once its own
/// `https://` is removed, or the host itself ends with `/uds/rest/` (then the
/// form strips those repetitions too).
pub proof fn lemma_host_round_trip(host: Seq<char>)
    requires
        !has_prefix(host + "/uds/rest/"@, "https://"@),
        !(host.len() >= 10 && host.subrange(host.len() - 10, host.len() as int) == "/uds/rest/"@),
    ensures
        host_of_url_spec(broker_url_spec(host)) == host,
{
    let p = "https://"@;
    let q = "/uds/rest/"@;
    let u = p + host + q;
    reveal_strlit("https://");
    reveal_strlit("/uds/rest/");
    assert(p.len() == 8);
    assert(q.len() == 10);
    assert(u.subrange(0, 8) =~= p);
    let r = host + q;
    assert(u.subrange(8, u.len() as int) =~= r);
    assert(strip_prefixes(r, p) == r);
    assert(strip_prefixes(u, p) == r);
    assert(r.subrange(r.len() - 10, r.len() as int) =~= q);
    assert(r.subrange(0, r.len() - 10) =~= host);
    assert(strip_suffixes(host, q) == host);
}

/// Order of names: lexicographic by character code, a proper prefix first
/// (the order of `String`'s comparison, since UTF-8 preserves code order).
pub open spec fn lex_le(a: Seq<char>, b: Seq<char>) -> bool
    decreases a.len(),
{
    if a.len() == 0 {
        true
    } else if b.len() == 0 {
        false
    } else if a[0] != b[0] {
        a[0] < b[0]
    } else {
        lex_le(a.drop_first(), b.drop_first())
    }
}

/// Any two names are ordered one way or the other.
pub proof fn lemma_lex_total(a: Seq<char>, b: Seq<char>)
    ensures
        lex_le(a, b) || lex_le(b, a),
    decreases a.len(),
{
    if a.len() > 0 && b.len() > 0 && a[0] == b[0] {
        lemma_lex_total(a.drop_first(), b.drop_first());
    }
}

/// The order is transitive.
pub proof fn lemma_lex_trans(a: Seq<char>, b: Seq<char>, c: Seq<char>)
    requires
        lex_le(a, b),
        lex_le(b, c),
    ensures
        lex_le(a, c),
    decreases a.len(),
{
    if a.len() > 0 && b.len() > 0 && c.len() > 0 && a[0] == b[0] && b[0] == c[0] {
        lemma_lex_trans(a.drop_first(), b.drop_first(), c.drop_first());
    }
}

/// Compares two names in the order above.
pub fn names_le(a: &str, b: &str) -> (r: bool)
    ensures
        r == lex_le(a@, b@),
{
    let va = chars_of(a);
    let vb = chars_of(b);
    let mut i: usize = 0;
    assert(va@.subrange(0, va.len() as int) =~= va@);
    assert(vb@.subrange(0, vb.len() as int) =~= vb@);
    while i < va.len() && i < vb.len() && va[i] == vb[i]
        invariant
            va@ == a@,
            vb@ == b@,
            i <= va.len(),
            i <= vb.len(),
            lex_le(a@, b@) == lex_le(va@.subrange(i as int, va.len() as int), vb@.subrange(i as int, vb.len() as int)),
        decreases va.len() - i,
    {
        let ghost x = va@.subrange(i as int, va.len() as int);
        let ghost y = vb@.subrange(i as int, vb.len() as int);
        assert(x.drop_first() =~= va@.subrange(i + 1, va.len() as int));
        assert(y.drop_first() =~= vb@.subrange(i + 1, vb.len() as int));
        i = i + 1;
    }
    assert(va@.subrange(0, va.len() as int) =~= va@);
    assert(vb@.subrange(0, vb.len() as int) =~= vb@);
    if i == va.len() {
        true
    } else if i == vb.len() {
        false
    } else {
        va[i] < vb[i]
    }
}

/// The characters of each name of a list.
pub open spec fn name_views(v: Seq<String>) -> Seq<Seq<char>> {
    v.map_values(|s: String| s@)
}

/// Whether names are in order.
pub open spec fn names_sorted(v: Seq<Seq<char>>) -> bool {
    forall|i: int, j: int| 0 <= i < j < v.len() ==> lex_le(#[trigger] v[i], #[trigger] v[j])
}

/// Sorts names in the order above; equal names keep their order.
pub fn sort_names(names: &Vec<String>) -> (r: Vec<String>)
    ensures
        names_sorted(name_views(r@)),
        name_views(r@).to_multiset() == name_views(names@).to_multiset(),
{
    broadcast use vstd::seq_lib::group_to_multiset_ensures;

    let mut r: Vec<String> = Vec::new();
    let mut i: usize = 0;
    assert(name_views(names@).subrange(0, 0) =~= Seq::<Seq<char>>::empty());
    assert(name_views(r@) =~= Seq::<Seq<char>>::empty());
    while i < names.len()
        invariant
            i <= names.len(),
            names_sorted(name_views(r@)),
            name_views(r@).to_multiset() == name_views(names@).subrange(0, i as int).to_multiset(),
        decreases names.len() - i,
    {
        let x = names[i].clone();
        let ghost xv = x@;
        let mut p: usize = 0;
        while p < r.len() && names_le(r[p].as_str(), x.as_str())
            invariant
                p <= r.len(),
                x@ == xv,
                forall|k: int| 0 <= k < p ==> lex_le(#[trigger] r@[k]@, xv),
            decreases r.len() - p,
        {
            p = p + 1;
        }
        let ghost before = name_views(r@);
        proof {
            if p < r.len() {
                assert(!lex_le(r@[p as int]@, xv));
                lemma_lex_total(r@[p as int]@, xv);
                assert forall|k: int| p <= k < r@.len() implies !lex_le(#[trigger] r@[k]@, xv) && lex_le(xv, r@[k]@) by {
                    if k > p {
                        assert(lex_le(before[p as int], before[k]));
                        if lex_le(r@[k]@, xv) {
                            lemma_lex_trans(r@[p as int]@, r@[k]@, xv);
                        }
                        lemma_lex_trans(xv, r@[p as int]@, r@[k]@);
                    }
                }
            }
        }
        r.insert(p, x);
        assert(name_views(r@) =~= before.insert(p as int, xv));
        assert(names_sorted(name_views(r@))) by {
            assert forall|a: int, b: int| 0 <= a < b < name_views(r@).len() implies lex_le(
                #[trigger] name_views(r@)[a],
                #[trigger] name_views(r@)[b],
            ) by {
                let v = name_views(r@);
                if b < p {
                    assert(v[a] == before[a] && v[b] == before[b]);
                } else if b == p {
                    assert(v[a] == before[a]);
                } else if a == p {
                    assert(v[b] == before[b - 1]);
                } else if a < p {
                    assert(v[a] == before[a] && v[b] == before[b - 1]);
                    lemma_lex_total(before[b - 1], xv);
                    lemma_lex_trans(before[a], xv, before[b - 1]);
                } else {
                    assert(v[a] == before[a - 1] && v[b] == before[b - 1]);
                }
            }
        }
        assert(name_views(names@).subrange(0, i + 1) =~= name_views(names@).subrange(0, i as int).push(xv));
        proof {
            vstd::seq_lib::to_multiset_insert(before, p as int, xv);
            vstd::seq_lib::to_multiset_build(name_views(names@).subrange(0, i as int), xv);
        }
        i = i + 1;
    }
    assert(name_views(names@).subrange(0, names@.len() as int) =~= name_views(names@));
    r
}

/// The authenticators offered by the registration form for the names the
/// broker listed: the names in order (kept for picking by index), and the
/// choices shown, `Administration` first.
pub fn authenticator_list(names: &Vec<String>) -> (r: (Vec<String>, Vec<String>))
    ensures
        names_sorted(name_views(r.0@)),
        name_views(r.0@).to_multiset() == name_views(names@).to_multiset(),
        r.1@.len() == r.0@.len() + 1,
        r.1@[0]@ == "Administration"@,
        forall|i: int| 0 <= i < r.0@.len() ==> #[trigger] r.1@[i + 1]@ == r.0@[i]@,
{
    let sorted = sort_names(names);
    let choices = authenticator_choices(&sorted);
    (sorted, choices)
}

/// The registration sent to the broker.
#[derive(Debug)]
pub struct RegisterRequest {
    pub version: String,
    pub build: String,
    pub hostname: String,
    pub username: String,
    pub ip: String,
    pub mac: String,
    pub commands: RegisterCommands,
    pub log_level: u32,
    pub os: String,
}

/// Builds the registration for a host: the user is sent as
/// `<user>@<authenticator>`.
pub fn register_request(
    version: &str,
    build: &str,
    hostname: &str,
    username: &str,
    authenticator: &str,
    ip: &str,
    mac: &str,
    commands: RegisterCommands,
    log_level: u32,
    os: &str,
) -> (r: RegisterRequest)
    ensures
        r.version@ == version@,
        r.build@ == build@,
        r.hostname@ == hostname@,
        r.username@ == username@ + "@"@ + authenticator@,
        r.ip@ == ip@,
        r.mac@ == mac@,
        r.commands == commands,
        r.log_level == log_level,
        r.os@ == os@,
{
    RegisterRequest {
        version: String::from_str(version),
        build: String::from_str(build),
        hostname: String::from_str(hostname),
        username: full_username(username, authenticator),
        ip: String::from_str(ip),
        mac: String::from_str(mac),
        commands,
        log_level,
        os: String::from_str(os),
    }
}

/// How a registration attempt ended.
#[derive(Debug)]
pub enum RegistrationOutcome {
    /// Logging in to the broker failed with this message.
    LoginFailed(String),
    /// The broker refused the registration with this message.
    RegisterFailed(String),
    /// The configuration could not be saved, with this message.
    SaveFailed(String),
    /// Registered and saved.
    Saved,
}

/// Where a registration stands.
#[derive(Clone, Copy, Debug, PartialEq, Eq, Structural)]
pub enum RegistrationState {
    /// The form has not been checked yet.
    Idle,
    /// Waiting for the broker login.
    AwaitingLogin,
    /// Waiting for the broker registration.
    AwaitingRegister,
    /// Waiting for the configuration to be saved.
    AwaitingSave,
    /// Over.
    Finished,
}

/// What happened, as reported to the registration.
pub enum RegistrationEvent {
    /// The form was submitted; whether its inputs are valid.
    Submitted { inputs_valid: bool },
    /// The broker login answered: a token, or an error message.
    LoggedIn(Result<String, String>),
    /// The broker registration answered: the master token, or an error.
    Registered(Result<String, String>),
    /// Saving the configuration ended: success, or an error message.
    Saved(Result<(), String>),
}

/// What the registration asks its caller to do next.
#[derive(Debug)]
pub enum RegistrationAction {
    /// Stop without a status line.
    Stop,
    /// Log in to the broker.
    Login,
    /// Register with the broker, authenticated by this token.
    Register(String),
    /// Save the configuration with this master token.
    Save(String),
    /// Show the status line of this outcome.
    Report(RegistrationOutcome),
}

/// The state after an event: each stage is left for the next one only on
/// success (valid inputs, a login token, a master token), and any failure,
/// the end of saving, or an event that does not belong to the state ends
/// the registration.
pub open spec fn registration_next(state: RegistrationState, event: RegistrationEvent) -> RegistrationState {
    match (state, event) {
        (RegistrationState::Idle, RegistrationEvent::Submitted { inputs_valid }) => if inputs_valid {
            RegistrationState::AwaitingLogin
        } else {
            RegistrationState::Finished
        },
        (RegistrationState::AwaitingLogin, RegistrationEvent::LoggedIn(Ok(_))) => RegistrationState::AwaitingRegister,
        (RegistrationState::AwaitingRegister, RegistrationEvent::Registered(Ok(_))) => RegistrationState::AwaitingSave,
        _ => RegistrationState::Finished,
    }
}

/// One step of the registration: the next state and what to do. Invalid
/// inputs stop before any broker call; a login token leads to the
/// registration with it; a master token leads to saving with it; a failed
/// login, registration or save reports its message; a completed save
/// reports success; an event that does not belong to the state stops.
pub fn registration_step(state: RegistrationState, event: RegistrationEvent) -> (r: (
    RegistrationState,
    RegistrationAction,
))
    ensures
        r.0 == registration_next(state, event),
        match (state, event) {
            (RegistrationState::Idle, RegistrationEvent::Submitted { inputs_valid }) => if inputs_valid {
                r.1 is Login
            } else {
                r.1 is Stop
            },
            (RegistrationState::AwaitingLogin, RegistrationEvent::LoggedIn(res)) => match res {
                Ok(token) => r.1 matches RegistrationAction::Register(t) && t@ == token@,
                Err(e) => r.1 matches RegistrationAction::Report(RegistrationOutcome::LoginFailed(m)) && m@ == e@,
            },
            (RegistrationState::AwaitingRegister, RegistrationEvent::Registered(res)) => match res {
                Ok(token) => r.1 matches RegistrationAction::Save(t) && t@ == token@,
                Err(e) => r.1 matches RegistrationAction::Report(RegistrationOutcome::RegisterFailed(m)) && m@ == e@,
            },
            (RegistrationState::AwaitingSave, RegistrationEvent::Saved(res)) => match res {
                Ok(_) => r.1 matches RegistrationAction::Report(RegistrationOutcome::Saved),
                Err(e) => r.1 matches RegistrationAction::Report(RegistrationOutcome::SaveFailed(m)) && m@ == e@,
            },
            _ => r.1 is Stop,
        },
{
    match (state, event) {
        (RegistrationState::Idle, RegistrationEvent::Submitted { inputs_valid }) => if inputs_valid {
            (RegistrationState::AwaitingLogin, RegistrationAction::Login)
        } else {
            (RegistrationState::Finished, RegistrationAction::Stop)
        },
        (RegistrationState::AwaitingLogin, RegistrationEvent::LoggedIn(res)) => match res {
            Ok(token) => (RegistrationState::AwaitingRegister, RegistrationAction::Register(token)),
            Err(e) => (RegistrationState::Finished, RegistrationAction::Report(RegistrationOutcome::LoginFailed(e))),
        },
        (RegistrationState::AwaitingRegister, RegistrationEvent::Registered(res)) => match res {
            Ok(token) => (RegistrationState::AwaitingSave, RegistrationAction::Save(token)),
            Err(e) => (
                RegistrationState::Finished,
                RegistrationAction::Report(RegistrationOutcome::RegisterFailed(e)),
            ),
        },
        (RegistrationState::AwaitingSave, RegistrationEvent::Saved(res)) => match res {
            Ok(_) => (RegistrationState::Finished, RegistrationAction::Report(RegistrationOutcome::Saved)),
            Err(e) => (RegistrationState::Finished, RegistrationAction::Report(RegistrationOutcome::SaveFailed(e))),
        },
        _ => (RegistrationState::Finished, RegistrationAction::Stop),
    }
}

/// The configuration is saved only at the end of a successful chain: the
/// save stage is entered only from the registration stage on a master
/// token, the registration stage only from the login stage on a login
/// token, and the login stage only from a submitted form with valid
/// inputs; once finished, a registration stays finished.
pub proof fn lemma_registration_chain(state: RegistrationState, event: RegistrationEvent)
    ensures
        registration_next(state, event) == RegistrationState::AwaitingSave ==> state
            == RegistrationState::AwaitingRegister && event matches RegistrationEvent::Registered(Ok(_)),
        registration_next(state, event) == RegistrationState::AwaitingRegister ==> state
            == RegistrationState::AwaitingLogin && event matches RegistrationEvent::LoggedIn(Ok(_)),
        registration_next(state, event) == RegistrationState::AwaitingLogin ==> state == RegistrationState::Idle
            && event == (RegistrationEvent::Submitted { inputs_valid: true }),
        state == RegistrationState::Finished ==> registration_next(state, event) == RegistrationState::Finished,
        registration_next(state, event) != RegistrationState::Idle,
{
}

/// Each stage moves on exactly on its success: valid inputs lead to the
/// login, a login token to the registration, a master token to saving; an
/// invalid form, a failed login or registration, and the end of saving
/// (whatever its result) finish the registration.
pub proof fn lemma_registration_advances(t: String, e: String)
    ensures
        registration_next(RegistrationState::Idle, RegistrationEvent::Submitted { inputs_valid: true })
            == RegistrationState::AwaitingLogin,
        registration_next(RegistrationState::Idle, RegistrationEvent::Submitted { inputs_valid: false })
            == RegistrationState::Finished,
        registration_next(RegistrationState::AwaitingLogin, RegistrationEvent::LoggedIn(Ok(t)))
            == RegistrationState::AwaitingRegister,
        registration_next(RegistrationState::AwaitingLogin, RegistrationEvent::LoggedIn(Err(e)))
            == RegistrationState::Finished,
        registration_next(RegistrationState::AwaitingRegister, RegistrationEvent::Registered(Ok(t)))
            == RegistrationState::AwaitingSave,
        registration_next(RegistrationState::AwaitingRegister, RegistrationEvent::Registered(Err(e)))
            == RegistrationState::Finished,
        registration_next(RegistrationState::AwaitingSave, RegistrationEvent::Saved(Ok(())))
            == RegistrationState::Finished,
        registration_next(RegistrationState::AwaitingSave, RegistrationEvent::Saved(Err(e)))
            == RegistrationState::Finished,
{
}

/// The status line shown for a registration outcome.
pub fn registration_status(outcome: &RegistrationOutcome) -> (r: String)
    ensures
        r@ == match outcome {
            RegistrationOutcome::LoginFailed(e) => "Login failed: "@ + e@,
            RegistrationOutcome::RegisterFailed(e) => "Registration failed: "@ + e@,
            RegistrationOutcome::SaveFailed(e) => "Failed to save config: "@ + e@,
            RegistrationOutcome::Saved => "Registration successful"@,
        },
{
    match outcome {
        RegistrationOutcome::LoginFailed(e) => {
            let mut r = String::from_str("Login failed: ");
            r.append(e.as_str());
            r
        },
        RegistrationOutcome::RegisterFailed(e) => {
            let mut r = String::from_str("Registration failed: ");
            r.append(e.as_str());
            r
        },
        RegistrationOutcome::SaveFailed(e) => {
            let mut r = String::from_str("Failed to save config: ");
            r.append(e.as_str());
            r
        },
        RegistrationOutcome::Saved => String::from_str("Registration successful"),
    }
}

/// The status line after a connection test: the managed tool shows only
/// success, the unmanaged one also the broker's message; a failure shows
/// the error.
pub fn test_status(result: Result<&str, &str>, with_message: bool) -> (r: String)
    ensures
        r@ == match result {
            Ok(m) => if with_message {
                "Connection successful: "@ + m@
            } else {
                "Connection successful"@
            },
            Err(e) => "Connection failed: "@ + e@,
        },
{
    match result {
        Ok(m) => if with_message {
            let mut r = String::from_str("Connection successful: ");
            r.append(m);
            r
        } else {
            String::from_str("Connection successful")
        },
        Err(e) => {
            let mut r = String::from_str("Connection failed: ");
            r.append(e);
            r
        },
    }
}

} // verus!
