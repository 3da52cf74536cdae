//! Read-mostly runtime state shared by the request handlers and updated by
//! the node-connection task. Times are whole seconds on a clock the caller
//! chooses.

use vstd::prelude::*;

verus! {

/// Process start time and what is known of the node connection.
#[derive(Clone, Copy, Debug, PartialEq, Eq, Structural)]
pub struct RuntimeState {
    pub started_at: u64,
    pub connected: bool,
    /// Last known virtual DAA score of the node (its chain tip score).
    pub virtual_daa_score: u64,
    /// When the score was last updated; 0 if never.
    pub daa_updated_ts: u64,
    /// When the last connection error happened; 0 if never.
    pub last_error_ts: u64,
}

impl RuntimeState {
    /// A state for a process started at `started_at`, not yet connected.
    pub fn new(started_at: u64) -> (r: Self)
        ensures
            r.started_at == started_at,
            !r.connected,
            r.virtual_daa_score == 0,
            r.daa_updated_ts == 0,
            r.last_error_ts == 0,
    {
        RuntimeState { started_at, connected: false, virtual_daa_score: 0, daa_updated_ts: 0, last_error_ts: 0 }
    }

    pub fn is_connected(&self) -> (r: bool)
        ensures
            r == self.connected,
    {
        self.connected
    }

    pub fn daa(&self) -> (r: u64)
        ensures
            r == self.virtual_daa_score,
    {
        self.virtual_daa_score
    }

    pub fn daa_updated_ts(&self) -> (r: u64)
        ensures
            r == self.daa_updated_ts,
    {
        self.daa_updated_ts
    }

    pub fn last_error_ts(&self) -> (r: u64)
        ensures
            r == self.last_error_ts,
    {
        self.last_error_ts
    }

    /// Ready to serve: connected, and a chain tip score has been seen.
    pub fn is_ready(&self) -> (r: bool)
        ensures
            r == (self.connected && self.daa_updated_ts > 0),
    {
        self.connected && self.daa_updated_ts > 0
    }

    /// Seconds since start; zero if `now` lies before the start.
    pub fn uptime_secs(&self, now: u64) -> (r: u64)
        ensures
            r == if now >= self.started_at { now - self.started_at } else { 0 },
    {
        if now >= self.started_at {
            now - self.started_at
        } else {
            0
        }
    }

    /// The link came up or went down.
    pub fn set_connected(&mut self, connected: bool)
        ensures
            *final(self) == (RuntimeState { connected, ..*old(self) }),
    {
        self.connected = connected;
    }

    /// A new chain tip score was seen at time `ts`.
    pub fn record_daa(&mut self, score: u64, ts: u64)
        ensures
            *final(self) == (RuntimeState { virtual_daa_score: score, daa_updated_ts: ts, ..*old(self) }),
    {
        self.virtual_daa_score = score;
        self.daa_updated_ts = ts;
    }

    /// A connection error happened at time `ts`; the link is down.
    pub fn record_error(&mut self, ts: u64)
        ensures
            *final(self) == (RuntimeState { connected: false, last_error_ts: ts, ..*old(self) }),
    {
        self.connected = false;
        self.last_error_ts = ts;
    }
}

} // verus!
