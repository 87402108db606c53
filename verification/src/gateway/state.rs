//! State shared between the Gateway task and the client.

use vstd::prelude::*;
use crate::activity::opt_view;
use crate::status::ActivityStatus;

verus! {

/// Shared state between the Gateway task and the client.
#[derive(Debug)]
pub struct GatewayState {
    pub status: ActivityStatus,
    pub session_id: Option<String>,
    pub last_seq: u64,
    pub ready: bool,
    pub resume_url: Option<String>,
    pub user_name: Option<String>,
    /// A stop was requested.
    pub stopped: bool,
    pub heartbeat_interval_ms: u64,
    /// The number of stops requested so far (wrapping); a Gateway loop
    /// started before the last stop sees it move on.
    pub stop_count: u64,
}

/// The mathematical form of the shared state.
pub struct GatewayStateView {
    pub status: ActivityStatus,
    pub session_id: Option<Seq<char>>,
    pub last_seq: u64,
    pub ready: bool,
    pub resume_url: Option<Seq<char>>,
    pub user_name: Option<Seq<char>>,
    pub stopped: bool,
    pub heartbeat_interval_ms: u64,
    pub stop_count: u64,
}

impl View for GatewayState {
    type V = GatewayStateView;

    open spec fn view(&self) -> GatewayStateView {
        GatewayStateView {
            status: self.status,
            session_id: opt_view(self.session_id),
            last_seq: self.last_seq,
            ready: self.ready,
            resume_url: opt_view(self.resume_url),
            user_name: opt_view(self.user_name),
            stopped: self.stopped,
            heartbeat_interval_ms: self.heartbeat_interval_ms,
            stop_count: self.stop_count,
        }
    }
}

/// The heartbeat interval assumed until the Gateway announces one.
pub open spec fn default_heartbeat_interval() -> u64 {
    41_250
}

/// The stop count after one more stop (wrapping at the end of `u64`).
pub open spec fn next_stop_count(c: u64) -> u64 {
    if c == u64::MAX {
        0
    } else {
        (c + 1) as u64
    }
}

/// The state of a client that has not connected yet.
pub open spec fn initial_state() -> GatewayStateView {
    GatewayStateView {
        status: ActivityStatus::NotStarted,
        session_id: None,
        last_seq: 0,
        ready: false,
        resume_url: None,
        user_name: None,
        stopped: false,
        heartbeat_interval_ms: default_heartbeat_interval(),
        stop_count: 0,
    }
}

impl GatewayState {
    pub fn new() -> (s: Self)
        ensures
            s@ == initial_state(),
    {
        GatewayState {
            status: ActivityStatus::NotStarted,
            session_id: None,
            last_seq: 0,
            ready: false,
            resume_url: None,
            user_name: None,
            stopped: false,
            heartbeat_interval_ms: 41_250,
            stop_count: 0,
        }
    }

    /// Publish a new status (from the client's side).
    pub fn set_sync(&mut self, status: ActivityStatus)
        ensures
            final(self)@ == (GatewayStateView { status, ..old(self)@ }),
    {
        self.status = status;
    }

    /// Publish a new status (from the Gateway task's side).
    pub fn set_async(&mut self, status: ActivityStatus)
        ensures
            final(self)@ == (GatewayStateView { status, ..old(self)@ }),
    {
        self.status = status;
    }

    /// Ask the Gateway loop to stop, and count the stop.
    pub fn request_stop(&mut self)
        ensures
            final(self)@ == (GatewayStateView {
                stopped: true,
                stop_count: next_stop_count(old(self)@.stop_count),
                ..old(self)@
            }),
    {
        self.stopped = true;
        if self.stop_count < u64::MAX {
            self.stop_count = self.stop_count + 1;
        } else {
            self.stop_count = 0;
        }
    }

    /// Whether a stop was requested.
    pub fn is_stopped(&self) -> (b: bool)
        ensures
            b == self.stopped,
    {
        self.stopped
    }
}

} // verus!
