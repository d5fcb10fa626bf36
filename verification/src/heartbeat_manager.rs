//! Bookkeeping of the heartbeat that a plant waits to have answered.

use vstd::prelude::*;
use std::time::Duration;
use tokio::time::Instant;
use crate::text::str_equals;

verus! {

#[verifier::external_type_specification]
#[verifier::external_body]
pub struct ExInstant(Instant);

/// The current instant, `tokio::time::Instant::now()`.
///
/// Nothing is claimed of it: it depends on the clock.
#[verifier::external_body]
fn instant_now() -> Instant {
    Instant::now()
}

/// The time elapsed since `at`, by `tokio::time::Instant::elapsed`, as whole
/// seconds and the nanoseconds beyond them.
///
/// Nothing is claimed of it: it depends on the clock.
#[verifier::external_body]
fn elapsed_parts(at: &Instant) -> (u64, u32) {
    let elapsed = at.elapsed();
    (elapsed.as_secs(), elapsed.subsec_nanos())
}

/// Whether a heartbeat that was sent `elapsed_secs` seconds and
/// `elapsed_nanos` nanoseconds ago has timed out: the elapsed time is
/// strictly longer than `timeout_secs` seconds.
pub open spec fn spec_timed_out(elapsed_secs: u64, elapsed_nanos: u32, timeout_secs: u64) -> bool {
    elapsed_secs > timeout_secs || (elapsed_secs == timeout_secs && elapsed_nanos > 0)
}

/// Whether the elapsed time `elapsed_secs` seconds and `elapsed_nanos`
/// nanoseconds is strictly longer than `timeout_secs` seconds.
pub fn timed_out(elapsed_secs: u64, elapsed_nanos: u32, timeout_secs: u64) -> (r: bool)
    ensures
        r == spec_timed_out(elapsed_secs, elapsed_nanos, timeout_secs),
{
    elapsed_secs > timeout_secs || (elapsed_secs == timeout_secs && elapsed_nanos > 0)
}

/// The instant `secs` seconds after `at`, by `tokio::time::Instant::checked_add`.
///
/// Nothing is claimed of it: it is `None` where the sum cannot be represented,
/// which depends on how the machine's clock represents instants.
#[verifier::external_body]
fn instant_after(at: &Instant, secs: u64) -> Option<Instant> {
    at.checked_add(Duration::from_secs(secs))
}

/// A heartbeat that was sent and waits for its answer.
#[derive(Debug)]
struct PendingHeartbeat {
    sent_at: Instant,
    request_id: String,
}

/// Manages heartbeat timeout detection for plant actors.
///
/// This manager tracks pending heartbeat requests and detects when responses
/// do not arrive within the configured timeout period.
///
/// - Tracks at most one pending heartbeat at a time
/// - If a new heartbeat is sent before the previous one times out or responds,
///   the previous pending heartbeat is replaced
/// - When a timeout occurs, the pending heartbeat is given up
#[derive(Debug)]
pub struct HeartbeatManager {
    pending: Option<PendingHeartbeat>,
    timeout_secs: u64,
}

/// The value of a [`HeartbeatManager`]: the request id of the heartbeat that
/// waits for its answer, and the timeout.
pub struct HeartbeatView {
    pub pending: Option<Seq<char>>,
    pub timeout_secs: u64,
}

/// The manager after a heartbeat with request id `id` was sent.
pub open spec fn after_sent(v: HeartbeatView, id: Seq<char>) -> HeartbeatView {
    HeartbeatView { pending: Some(id), ..v }
}

/// Whether an answer with request id `id` answers the pending heartbeat.
pub open spec fn answers_pending(v: HeartbeatView, id: Seq<char>) -> bool {
    v.pending == Some(id)
}

/// The manager after an answer with request id `id` arrived.
pub open spec fn after_answer(v: HeartbeatView, id: Seq<char>) -> HeartbeatView {
    if answers_pending(v, id) {
        HeartbeatView { pending: None, ..v }
    } else {
        v
    }
}

/// The manager after the pending heartbeat was given up.
pub open spec fn after_give_up(v: HeartbeatView) -> HeartbeatView {
    HeartbeatView { pending: None, ..v }
}

impl View for HeartbeatManager {
    type V = HeartbeatView;

    closed spec fn view(&self) -> HeartbeatView {
        HeartbeatView {
            pending: match self.pending {
                Some(p) => Some(p.request_id@),
                None => None,
            },
            timeout_secs: self.timeout_secs,
        }
    }
}

impl HeartbeatManager {
    /// Create a new manager with the given timeout in seconds
    pub fn new(timeout_secs: u64) -> (r: Self)
        ensures
            r@.pending is None,
            r@.timeout_secs == timeout_secs,
    {
        HeartbeatManager { pending: None, timeout_secs }
    }

    /// Register that we sent a heartbeat expecting a response.
    ///
    /// A heartbeat that was still waiting for its answer is replaced.
    pub fn sent(&mut self, request_id: String)
        ensures
            final(self)@ == after_sent(old(self)@, request_id@),
    {
        let sent_at = instant_now();
        self.pending = Some(PendingHeartbeat { sent_at, request_id });
    }

    /// Mark that we received a response for a heartbeat.
    ///
    /// Returns `true` if the response matches the pending heartbeat's request ID
    /// and clears the pending state. Returns `false` if there is no pending
    /// heartbeat or the IDs don't match.
    pub fn received(&mut self, response_id: &str) -> (r: bool)
        ensures
            r == answers_pending(old(self)@, response_id@),
            final(self)@ == after_answer(old(self)@, response_id@),
            !r ==> *final(self) == *old(self),
    {
        let matches = match &self.pending {
            Some(p) => str_equals(p.request_id.as_str(), response_id),
            None => false,
        };
        if matches {
            self.pending = None;
        }
        matches
    }

    /// Gives up the pending heartbeat when `timed_out` holds: returns its
    /// request id and clears the pending state. Returns `None` and changes
    /// nothing when nothing is pending or `timed_out` does not hold.
    pub fn give_up_if(&mut self, timed_out: bool) -> (r: Option<String>)
        ensures
            r matches Some(id) ==> timed_out && old(self)@.pending == Some(id@),
            r is None ==> !timed_out || old(self)@.pending is None,
            final(self)@ == (if r is Some { after_give_up(old(self)@) } else { old(self)@ }),
            r is None ==> *final(self) == *old(self),
    {
        if timed_out {
            match self.pending.take() {
                Some(p) => Some(p.request_id),
                None => None,
            }
        } else {
            None
        }
    }

    /// Gives up the pending heartbeat when it has timed out, given how long
    /// ago it was sent: returns its request id and clears the pending state
    /// when the elapsed time is strictly longer than the timeout. Returns
    /// `None` and changes nothing otherwise, or when nothing is pending.
    pub fn check_timeout_at(&mut self, elapsed_secs: u64, elapsed_nanos: u32) -> (r: Option<String>)
        ensures
            r is Some <==> (old(self)@.pending is Some && spec_timed_out(
                elapsed_secs,
                elapsed_nanos,
                old(self)@.timeout_secs,
            )),
            r matches Some(id) ==> old(self)@.pending == Some(id@),
            r is Some ==> final(self)@ == after_give_up(old(self)@),
            r is None ==> *final(self) == *old(self),
    {
        let t = timed_out(elapsed_secs, elapsed_nanos, self.timeout_secs);
        self.give_up_if(t)
    }

    /// Check if the pending heartbeat has timed out.
    ///
    /// Returns `Some(request_id)` if the time elapsed since the pending
    /// heartbeat was sent is strictly longer than the timeout, and clears the
    /// pending state. Returns `None` if there is no pending heartbeat or it
    /// has not yet timed out. The elapsed time is read from the clock and
    /// judged by [`HeartbeatManager::check_timeout_at`].
    pub fn check_timeout(&mut self) -> (r: Option<String>)
        ensures
            old(self)@.pending is None ==> r is None,
            r matches Some(id) ==> old(self)@.pending == Some(id@),
            r is Some ==> final(self)@ == after_give_up(old(self)@),
            r is None ==> *final(self) == *old(self),
    {
        let elapsed = match &self.pending {
            Some(p) => Some(elapsed_parts(&p.sent_at)),
            None => None,
        };
        match elapsed {
            Some((secs, nanos)) => self.check_timeout_at(secs, nanos),
            None => None,
        }
    }

    /// Get the next timeout instant for use in tokio select! loop.
    ///
    /// Returns `Some(Instant)` if there is a pending heartbeat, representing
    /// when the timeout will occur. Returns `None` if there is no pending
    /// heartbeat.
    pub fn next_timeout_at(&self) -> (r: Option<Instant>)
        ensures
            r is Some ==> self@.pending is Some,
    {
        match &self.pending {
            Some(p) => instant_after(&p.sent_at, self.timeout_secs),
            None => None,
        }
    }
}

/// The answer to the heartbeat that was sent last is recognized, and clears
/// the pending heartbeat.
pub proof fn lemma_answer_clears_pending(v: HeartbeatView, id: Seq<char>)
    ensures
        answers_pending(after_sent(v, id), id),
        after_answer(after_sent(v, id), id).pending is None,
{
}

/// A heartbeat sent while another waits replaces it: only the newer one is
/// waited for, and a late answer to the older one is not recognized.
pub proof fn lemma_newer_heartbeat_replaces(v: HeartbeatView, older: Seq<char>, newer: Seq<char>)
    ensures
        after_sent(after_sent(v, older), newer) == after_sent(v, newer),
        older != newer ==> !answers_pending(after_sent(after_sent(v, older), newer), older),
        older != newer ==> after_answer(after_sent(after_sent(v, older), newer), older)
            == after_sent(v, newer),
{
}

/// An answer that does not match the pending heartbeat changes nothing.
pub proof fn lemma_unmatched_answer_changes_nothing(v: HeartbeatView, id: Seq<char>)
    requires
        !answers_pending(v, id),
    ensures
        after_answer(v, id) == v,
{
}

} // verus!
