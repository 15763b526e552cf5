//! The handler that reconnects a connection on which nothing was read for too
//! long. Times are nanoseconds on a monotonic clock.
use vstd::prelude::*;
use crate::ws_mgr::handlers::connection_event_handler::{reconnects, ReconnectRequest};

verus! {

/// The nanoseconds in a second.
pub const NANOS_PER_SEC: u128 = 1_000_000_000;

/// How often the handler checks for a timeout unless told otherwise, in
/// seconds.
pub const DEFAULT_CHECK_INTERVAL_SECS: u64 = 10;

/// The time that has passed from `from` to `now`; none when `now` is earlier,
/// as `Instant::elapsed` answers.
pub open spec fn elapsed_nanos(from: u128, now: u128) -> u128 {
    if now >= from { (now - from) as u128 } else { 0 }
}

/// Watches one connection: every message read resets the timer, and a check
/// that finds the timer older than the timeout asks for a reconnect.
#[derive(Debug, Clone)]
pub struct ReadTimeoutHandler {
    pub connection_name: String,
    pub last_message_time: u128,
    pub timeout_duration: u128,
    pub check_interval: u128,
}

impl ReadTimeoutHandler {
    /// A handler with a timeout of `timeout_seconds`, checking every ten
    /// seconds, whose timer starts at `now`.
    pub fn new(connection_name: String, timeout_seconds: u64, now: u128) -> (r: Self)
        ensures
            r.connection_name == connection_name,
            r.last_message_time == now,
            r.timeout_duration == timeout_seconds as u128 * NANOS_PER_SEC,
            r.check_interval == DEFAULT_CHECK_INTERVAL_SECS as u128 * NANOS_PER_SEC,
    {
        ReadTimeoutHandler {
            connection_name,
            last_message_time: now,
            timeout_duration: timeout_seconds as u128 * NANOS_PER_SEC,
            check_interval: DEFAULT_CHECK_INTERVAL_SECS as u128 * NANOS_PER_SEC,
        }
    }

    /// A handler with the given timeout and check interval, both in seconds.
    pub fn with_check_interval(connection_name: String, timeout_seconds: u64, check_interval_seconds: u64, now: u128) -> (r: Self)
        ensures
            r.connection_name == connection_name,
            r.last_message_time == now,
            r.timeout_duration == timeout_seconds as u128 * NANOS_PER_SEC,
            r.check_interval == check_interval_seconds as u128 * NANOS_PER_SEC,
    {
        ReadTimeoutHandler {
            connection_name,
            last_message_time: now,
            timeout_duration: timeout_seconds as u128 * NANOS_PER_SEC,
            check_interval: check_interval_seconds as u128 * NANOS_PER_SEC,
        }
    }

    /// The time since the last message (or since the start), at `now`.
    pub fn elapsed_since_last_message(&self, now: u128) -> (r: u128)
        ensures
            r == elapsed_nanos(self.last_message_time, now),
    {
        if now >= self.last_message_time { now - self.last_message_time } else { 0 }
    }

    /// Any message read at `now` resets the timer.
    pub fn on_message(&mut self, now: u128)
        ensures
            final(self).last_message_time == now,
            final(self).connection_name == old(self).connection_name,
            final(self).timeout_duration == old(self).timeout_duration,
            final(self).check_interval == old(self).check_interval,
    {
        self.last_message_time = now;
    }

    /// The periodic check at `now`: a reconnect is due when more than the
    /// timeout has passed since the last message.
    pub fn is_timed_out(&self, now: u128) -> (r: bool)
        ensures
            r == (elapsed_nanos(self.last_message_time, now) > self.timeout_duration),
    {
        self.elapsed_since_last_message(now) > self.timeout_duration
    }

    /// The periodic check at `now`: when timed out, a reconnection of the
    /// connection through the manager's `reconnect` (close frame first).
    pub fn on_check(&self, now: u128) -> (r: Option<ReconnectRequest>)
        ensures
            elapsed_nanos(self.last_message_time, now) > self.timeout_duration ==> reconnects(r, self.connection_name@),
            elapsed_nanos(self.last_message_time, now) <= self.timeout_duration ==> r is None,
    {
        if self.is_timed_out(now) {
            Some(ReconnectRequest { connection: self.connection_name.clone(), send_close: true })
        } else {
            None
        }
    }

    /// After a reconnect was asked for at `now`, the timer starts again.
    pub fn on_reconnect_triggered(&mut self, now: u128)
        ensures
            final(self).last_message_time == now,
            final(self).connection_name == old(self).connection_name,
            final(self).timeout_duration == old(self).timeout_duration,
            final(self).check_interval == old(self).check_interval,
    {
        self.last_message_time = now;
    }
}

/// A message read at any time keeps the connection from timing out for the
/// whole timeout that follows.
pub proof fn lemma_message_defers_timeout(timeout: u128, now: u128, later: u128)
    requires
        now <= later,
        later - now <= timeout,
    ensures
        !(elapsed_nanos(now, later) > timeout),
{
}

} // verus!
