//! The bundle of services a client runs with: the session manager, the host
//! operations, the websocket client and the stop signal.
use vstd::prelude::*;

verus! {

/// The client's services, shared by its tasks.
pub struct Platform<S, O, W, T> {
    session_manager: S,
    operations: O,
    ws_client: W,
    stop: T,
}

impl<S: Clone, O: Clone, W: Clone, T: Clone> Platform<S, O, W, T> {
    /// The session manager held.
    pub closed spec fn spec_session_manager(&self) -> S {
        self.session_manager
    }

    /// The host operations held.
    pub closed spec fn spec_operations(&self) -> O {
        self.operations
    }

    /// The websocket client held.
    pub closed spec fn spec_ws_client(&self) -> W {
        self.ws_client
    }

    /// The stop signal held.
    pub closed spec fn spec_stop(&self) -> T {
        self.stop
    }

    /// Bundles the services.
    pub fn from_parts(session_manager: S, operations: O, ws_client: W, stop: T) -> (r: Self)
        ensures
            r.spec_session_manager() == session_manager,
            r.spec_operations() == operations,
            r.spec_ws_client() == ws_client,
            r.spec_stop() == stop,
    {
        Platform { session_manager, operations, ws_client, stop }
    }

    /// A handle on the session manager.
    pub fn session_manager(&self) -> (r: S)
        ensures
            cloned::<S>(self.spec_session_manager(), r),
    {
        self.session_manager.clone()
    }

    /// A handle on the host operations.
    pub fn operations(&self) -> (r: O)
        ensures
            cloned::<O>(self.spec_operations(), r),
    {
        self.operations.clone()
    }

    /// A handle on the websocket client.
    pub fn ws_client(&self) -> (r: W)
        ensures
            cloned::<W>(self.spec_ws_client(), r),
    {
        self.ws_client.clone()
    }

    /// A handle on the stop signal.
    pub fn get_stop(&self) -> (r: T)
        ensures
            cloned::<T>(self.spec_stop(), r),
    {
        self.stop.clone()
    }

    /// Releases nothing: the platform holds no resource of its own.
    pub fn shutdown(&self) {
    }
}

} // verus!
