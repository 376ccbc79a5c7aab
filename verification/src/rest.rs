//! The client's REST session with the local service: which URL each call
//! goes to, which body it sends, and how the session state follows the
//! answers.
use vstd::prelude::*;

use crate::text::{str_eq, strip_suffixes, trim_end_matches};

verus! {

/// Body of `register`.
#[derive(Debug)]
pub struct RegisterPayload {
    pub callback_url: String,
}

/// Body of `unregister`.
#[derive(Debug)]
pub struct UnregisterPayload {
    pub callback_url: String,
}

/// Body of `login`.
#[derive(Debug)]
pub struct LoginPayload {
    pub username: String,
    pub session_type: String,
    pub callback_url: String,
}

/// Body of `logout`.
#[derive(Debug)]
pub struct LogoutPayload {
    pub username: String,
    pub session_type: String,
    pub callback_url: String,
    pub session_id: String,
}

/// Answer to `login`.
#[derive(Debug)]
pub struct LoginResult {
    pub ip: String,
    pub hostname: String,
    pub deadline: String,
    pub max_idle: u32,
    pub session_id: String,
}

/// Body of `ping`.
#[derive(Debug)]
pub struct PingPayload {}

/// Answer to `ping`.
#[derive(Debug)]
pub struct PongResponse(pub String);

/// The state of a REST session.
#[derive(Debug)]
pub struct ClientRestSession {
    pub base_url: String,
    pub session_id: String,
    pub callback_url: String,
    pub username: String,
    pub session_type: String,
}

/// The API root for a server URL: the URL without trailing slashes,
/// followed by `/ui/`.
pub open spec fn api_base(base_url: Seq<char>) -> Seq<char> {
    strip_suffixes(base_url, "/"@) + "/ui/"@
}

/// The API root always ends with `/ui/`, and a server URL given without
/// trailing slashes is kept whole in front of it.
pub proof fn lemma_api_base_ends_with_ui(base_url: Seq<char>)
    ensures
        api_base(base_url).len() >= 4,
        api_base(base_url).subrange(api_base(base_url).len() - 4, api_base(base_url).len() as int) == "/ui/"@,
        (base_url.len() == 0 || base_url.last() != '/') ==> api_base(base_url) == base_url + "/ui/"@,
{
    reveal_strlit("/ui/");
    reveal_strlit("/");
    let b = api_base(base_url);
    assert(b.subrange(b.len() - 4, b.len() as int) =~= "/ui/"@);
    if base_url.len() == 0 || base_url.last() != '/' {
        if base_url.len() > 0 {
            assert(base_url.subrange(base_url.len() - 1, base_url.len() as int)[0] == base_url.last());
        }
        assert(strip_suffixes(base_url, "/"@) == base_url);
    }
}

/// The session type sent when none is known.
pub open spec fn session_type_or_unknown(session_type: Option<&str>) -> Seq<char> {
    match session_type {
        Some(t) => t@,
        None => "UNKNOWN"@,
    }
}

impl ClientRestSession {
    /// A session with the server at `base_url` (given without `/ui`), with
    /// no callback, user or session yet.
    pub fn new(base_url: &str) -> (r: ClientRestSession)
        ensures
            r.base_url@ == api_base(base_url@),
            r.session_id@.len() == 0,
            r.callback_url@.len() == 0,
            r.username@.len() == 0,
            r.session_type@.len() == 0,
    {
        let mut b = trim_end_matches(base_url, "/");
        b.append("/ui/");
        ClientRestSession {
            base_url: b,
            session_id: String::new(),
            callback_url: String::new(),
            username: String::new(),
            session_type: String::new(),
        }
    }

    /// The URL of an API method.
    pub fn api_url(&self, method: &str) -> (r: String)
        ensures
            r@ == self.base_url@ + method@,
    {
        let mut r = self.base_url.clone();
        r.append(method);
        r
    }

    /// Sets the callback URL.
    pub fn set_callback_url(&mut self, url: &str)
        ensures
            final(self).callback_url@ == url@,
            final(self).base_url == old(self).base_url,
            final(self).session_id == old(self).session_id,
            final(self).username == old(self).username,
            final(self).session_type == old(self).session_type,
    {
        self.callback_url = String::from_str(url);
    }

    /// Sets the session id.
    pub fn set_session_id(&mut self, id: &str)
        ensures
            final(self).session_id@ == id@,
            final(self).base_url == old(self).base_url,
            final(self).callback_url == old(self).callback_url,
            final(self).username == old(self).username,
            final(self).session_type == old(self).session_type,
    {
        self.session_id = String::from_str(id);
    }

    /// Sets the user name.
    pub fn set_username(&mut self, username: &str)
        ensures
            final(self).username@ == username@,
            final(self).base_url == old(self).base_url,
            final(self).callback_url == old(self).callback_url,
            final(self).session_id == old(self).session_id,
            final(self).session_type == old(self).session_type,
    {
        self.username = String::from_str(username);
    }

    /// Sets the session type.
    pub fn set_session_type(&mut self, session_type: &str)
        ensures
            final(self).session_type@ == session_type@,
            final(self).base_url == old(self).base_url,
            final(self).callback_url == old(self).callback_url,
            final(self).session_id == old(self).session_id,
            final(self).username == old(self).username,
    {
        self.session_type = String::from_str(session_type);
    }

    /// Starts `register`: remembers the callback URL and returns the body.
    pub fn register(&mut self, callback_url: &str) -> (r: RegisterPayload)
        ensures
            final(self)@ == registered_state(old(self)@, callback_url@),
            final(self).callback_url@ == callback_url@,
            r.callback_url@ == callback_url@,
            final(self).base_url == old(self).base_url,
            final(self).session_id == old(self).session_id,
            final(self).username == old(self).username,
            final(self).session_type == old(self).session_type,
    {
        self.set_callback_url(callback_url);
        RegisterPayload { callback_url: self.callback_url.clone() }
    }

    /// The body of `unregister`: the current callback URL.
    pub fn unregister(&self) -> (r: UnregisterPayload)
        ensures
            r.callback_url@ == self.callback_url@,
    {
        UnregisterPayload { callback_url: self.callback_url.clone() }
    }

    /// After a successful `unregister`: the callback URL is forgotten.
    pub fn unregistered(&mut self)
        ensures
            final(self).callback_url@.len() == 0,
            final(self).base_url == old(self).base_url,
            final(self).session_id == old(self).session_id,
            final(self).username == old(self).username,
            final(self).session_type == old(self).session_type,
    {
        self.callback_url = String::new();
    }

    /// The body of `login` for a user; the session type defaults to `UNKNOWN`.
    pub fn login(&self, username: &str, session_type: Option<&str>) -> (r: LoginPayload)
        ensures
            r.username@ == username@,
            r.session_type@ == session_type_or_unknown(session_type),
            r.callback_url@ == self.callback_url@,
    {
        let st = match session_type {
            Some(t) => String::from_str(t),
            None => String::from_str("UNKNOWN"),
        };
        LoginPayload {
            username: String::from_str(username),
            session_type: st,
            callback_url: self.callback_url.clone(),
        }
    }

    /// After a successful `login`: the session id the server returned, the
    /// user and the session type (`UNKNOWN` when none was given) are kept.
    pub fn logged_in(&mut self, result: &LoginResult, username: &str, session_type: Option<&str>)
        ensures
            final(self)@ == logged_in_state(
                old(self)@,
                result.session_id@,
                username@,
                session_type_or_unknown(session_type),
            ),
            final(self).session_id@ == result.session_id@,
            final(self).username@ == username@,
            final(self).session_type@ == session_type_or_unknown(session_type),
            final(self).base_url == old(self).base_url,
            final(self).callback_url == old(self).callback_url,
    {
        self.set_session_id(result.session_id.as_str());
        self.set_username(username);
        match session_type {
            Some(t) => self.set_session_type(t),
            None => self.set_session_type("UNKNOWN"),
        }
    }

    /// The body of `logout` for a user: that user, the session type
    /// (`UNKNOWN` when none is given), and the session's callback URL and
    /// session id.
    pub fn logout(&self, username: &str, session_type: Option<&str>) -> (r: LogoutPayload)
        ensures
            r.username@ == username@,
            r.session_type@ == session_type_or_unknown(session_type),
            r.callback_url@ == self.callback_url@,
            r.session_id@ == self.session_id@,
    {
        let st = match session_type {
            Some(t) => String::from_str(t),
            None => String::from_str("UNKNOWN"),
        };
        LogoutPayload {
            username: String::from_str(username),
            session_type: st,
            callback_url: self.callback_url.clone(),
            session_id: self.session_id.clone(),
        }
    }

    /// The body of `ping`.
    pub fn ping(&self) -> (r: PingPayload) {
        PingPayload {  }
    }
}

/// Whether a `ping` answer confirms the server: it must read `pong`.
pub fn ping_ok(answer: &PongResponse) -> (r: bool)
    ensures
        r == (answer.0@ == "pong"@),
{
    str_eq(answer.0.as_str(), "pong")
}

/// The session's state as plain character sequences.
pub struct SessionView {
    pub base_url: Seq<char>,
    pub session_id: Seq<char>,
    pub callback_url: Seq<char>,
    pub username: Seq<char>,
    pub session_type: Seq<char>,
}

impl View for ClientRestSession {
    type V = SessionView;

    open spec fn view(&self) -> SessionView {
        SessionView {
            base_url: self.base_url@,
            session_id: self.session_id@,
            callback_url: self.callback_url@,
            username: self.username@,
            session_type: self.session_type@,
        }
    }
}

/// The state after `register(callback_url)`.
pub open spec fn registered_state(s: SessionView, callback_url: Seq<char>) -> SessionView {
    SessionView { callback_url, ..s }
}

/// The state after a successful `login`.
pub open spec fn logged_in_state(s: SessionView, session_id: Seq<char>, username: Seq<char>, session_type: Seq<
    char,
>) -> SessionView {
    SessionView { session_id, username, session_type, ..s }
}

/// After registering with a callback URL and logging in, the logout body
/// carries that callback URL, the user, the session type used at login and
/// the session id the server returned; and unregistering names the same
/// callback URL.
pub proof fn lemma_logout_after_register_and_login(
    s: SessionView,
    callback_url: Seq<char>,
    session_id: Seq<char>,
    username: Seq<char>,
    session_type: Seq<char>,
)
    ensures
        ({
            let t = logged_in_state(registered_state(s, callback_url), session_id, username, session_type);
            &&& t.callback_url == callback_url
            &&& t.username == username
            &&& t.session_type == session_type
            &&& t.session_id == session_id
            &&& t.base_url == s.base_url
        }),
{
}

/// The login message sent to the service over the websocket.
#[derive(Debug)]
pub struct LoginRequest {
    pub username: String,
    pub session_type: String,
}

/// The logout message sent to the service over the websocket.
#[derive(Debug)]
pub struct LogoutRequest {
    pub username: String,
    pub session_type: String,
    pub session_id: String,
}

/// The login message for the current user and session type.
pub fn login_request(username: &str, session_type: &str) -> (r: LoginRequest)
    ensures
        r.username@ == username@,
        r.session_type@ == session_type@,
{
    LoginRequest { username: String::from_str(username), session_type: String::from_str(session_type) }
}

/// The logout message; the session id is empty when none is known.
pub fn logout_request(username: &str, session_type: &str, session_id: Option<&str>) -> (r: LogoutRequest)
    ensures
        r.username@ == username@,
        r.session_type@ == session_type@,
        r.session_id@ == match session_id {
            Some(s) => s@,
            None => Seq::empty(),
        },
{
    LogoutRequest {
        username: String::from_str(username),
        session_type: String::from_str(session_type),
        session_id: match session_id {
            Some(s) => String::from_str(s),
            None => String::new(),
        },
    }
}

} // verus!
