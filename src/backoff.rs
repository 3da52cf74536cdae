//! Reconnection policy of the node-connection task.
//!
//! The task starts disconnected, tries to connect, and after every failure
//! sleeps for the current delay before trying again. The delay starts at one
//! second, doubles after each failure and is capped at sixty seconds. The task
//! never gives up.

use vstd::prelude::*;
use vstd::arithmetic::power2::{pow2, lemma_pow2_unfold, lemma_pow2_pos};

verus! {

/// Delay before the first retry, in seconds.
pub const INITIAL_DELAY_SECS: u64 = 1;

/// Largest delay between two attempts, in seconds.
pub const MAX_DELAY_SECS: u64 = 60;

/// The delay that follows `d`: twice `d`, capped.
pub open spec fn spec_next_delay(d: int) -> int {
    if 2 * d < MAX_DELAY_SECS { 2 * d } else { MAX_DELAY_SECS as int }
}

/// The delay slept after the `n`-th consecutive failure (counting from zero).
pub open spec fn delay_after(n: nat) -> int
    decreases n,
{
    if n == 0 {
        INITIAL_DELAY_SECS as int
    } else {
        spec_next_delay(delay_after((n - 1) as nat))
    }
}

/// Doubles a delay, capped at [`MAX_DELAY_SECS`].
pub fn next_delay(d: u64) -> (r: u64)
    ensures
        r == spec_next_delay(d as int),
{
    if d >= MAX_DELAY_SECS / 2 {
        MAX_DELAY_SECS
    } else {
        d * 2
    }
}

/// Where the connection task stands.
#[derive(Clone, Copy, Debug, PartialEq, Eq, Structural)]
pub enum LinkPhase {
    Disconnected,
    Connecting,
    Connected,
}

/// What the connection task must do next.
#[derive(Clone, Copy, Debug, PartialEq, Eq, Structural)]
pub enum LinkAction {
    /// Open a connection to the node.
    Connect,
    /// Wait this many seconds, then connect again.
    SleepSecs(u64),
    /// The link is up; nothing to do.
    Idle,
}

/// State of the connection task: its phase and the delay it will sleep after
/// the next failure.
pub struct Reconnector {
    pub phase: LinkPhase,
    pub delay_secs: u64,
    /// Consecutive failures since the last success.
    pub failures: Ghost<nat>,
}

impl Reconnector {
    /// The delay always follows the schedule of consecutive failures.
    pub open spec fn wf(&self) -> bool {
        &&& self.delay_secs == delay_after(self.failures@)
    }

    /// A fresh task: disconnected, with the initial delay.
    pub fn new() -> (r: Self)
        ensures
            r.wf(),
            r.phase == LinkPhase::Disconnected,
            r.delay_secs == INITIAL_DELAY_SECS,
            r.failures@ == 0,
    {
        Reconnector { phase: LinkPhase::Disconnected, delay_secs: INITIAL_DELAY_SECS, failures: Ghost(0) }
    }

    /// Starts an attempt: the task asks to connect.
    pub fn begin_attempt(&mut self) -> (a: LinkAction)
        ensures
            a == LinkAction::Connect,
            final(self).phase == LinkPhase::Connecting,
            final(self).delay_secs == old(self).delay_secs,
            final(self).failures == old(self).failures,
    {
        self.phase = LinkPhase::Connecting;
        LinkAction::Connect
    }

    /// Records the outcome of an attempt. A success resets the schedule; a
    /// failure asks to sleep for the current delay and doubles it, capped.
    pub fn on_attempt_result(&mut self, connected: bool) -> (a: LinkAction)
        requires
            old(self).wf(),
        ensures
            final(self).wf(),
            connected ==> a == LinkAction::Idle && final(self).phase == LinkPhase::Connected
                && final(self).failures@ == 0,
            !connected ==> a == LinkAction::SleepSecs(old(self).delay_secs)
                && final(self).phase == LinkPhase::Disconnected
                && final(self).failures@ == old(self).failures@ + 1,
    {
        if connected {
            self.phase = LinkPhase::Connected;
            self.delay_secs = INITIAL_DELAY_SECS;
            self.failures = Ghost(0);
            LinkAction::Idle
        } else {
            let slept = self.delay_secs;
            self.phase = LinkPhase::Disconnected;
            self.delay_secs = next_delay(slept);
            self.failures = Ghost(self.failures@ + 1);
            LinkAction::SleepSecs(slept)
        }
    }
}

/// After `n` consecutive failures the task sleeps `min(2^n, 60)` seconds: one,
/// two, four and so on up to the cap, and always a positive time, so it keeps
/// retrying forever.
pub proof fn lemma_backoff_schedule(n: nat)
    ensures
        delay_after(n) == if pow2(n) < MAX_DELAY_SECS { pow2(n) as int } else { MAX_DELAY_SECS as int },
        1 <= delay_after(n) <= MAX_DELAY_SECS,
    decreases n,
{
    lemma_pow2_pos(n);
    if n > 0 {
        lemma_backoff_schedule((n - 1) as nat);
        lemma_pow2_unfold(n);
    } else {
        assert(pow2(0) == 1) by { vstd::arithmetic::power2::lemma2_to64(); }
    }
}

} // verus!
