//! Verified core of the UDS actor: log-level handling, the broker log flood
//! guard, event-log helpers, configuration building and the decision logic of
//! the client and service workers.
use vstd::prelude::*;

pub mod calls;
pub mod config;
pub mod domain;
pub mod eventlog;
pub mod flood;
pub mod forward;
pub mod http;
pub mod platform;
pub mod rest;
pub mod logging;
pub mod tasks;
pub mod text;
pub mod version;
pub mod workers;

verus! {
} // verus!
