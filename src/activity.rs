//! Idle arbitration: the record of the operator's last keystroke and the
//! decision whether the queue may be serviced at a given instant.

use vstd::prelude::*;

verus! {

/// Milliseconds in one second.
pub const MILLIS_PER_SECOND: u64 = 1000;

/// Milliseconds elapsed from `last` to `now`, zero when `now` lies before `last`.
pub open spec fn elapsed_ms(last: u64, now: u64) -> nat {
    if now >= last {
        (now - last) as nat
    } else {
        0
    }
}

/// Activity state of one bridge: when the operator last typed, how long the
/// queue waits after that, and whether the pause has been logged already.
#[derive(Clone, Copy, Debug, PartialEq, Eq, Structural)]
pub struct ActivityTracker {
    pub last_input_ms: u64,
    pub timeout_ms: u64,
    pub pause_logged: bool,
}

impl ActivityTracker {
    /// True when the operator counts as typing at `now`.
    pub open spec fn typing_at(self, now: u64) -> bool {
        elapsed_ms(self.last_input_ms, now) <= self.timeout_ms
    }

    /// Records a keystroke (or a line of input) at `now_ms`.
    pub fn update_user_input(&mut self, now_ms: u64)
        ensures
            final(self).last_input_ms == now_ms,
            final(self).timeout_ms == old(self).timeout_ms,
            final(self).pause_logged == old(self).pause_logged,
    {
        self.last_input_ms = now_ms;
    }

    /// Whether the operator counts as typing at `now_ms`: no more than the
    /// timeout has passed since the last recorded input.
    pub fn is_user_typing(&self, now_ms: u64) -> (r: bool)
        ensures
            r == self.typing_at(now_ms),
    {
        let since = now_ms.saturating_sub(self.last_input_ms);
        since <= self.timeout_ms
    }
}

/// A tracker configured with a timeout of `timeout_secs` seconds.
pub fn set_input_timeout(timeout_secs: u64) -> (r: ActivityTracker)
    requires
        timeout_secs <= u64::MAX / 1000,
    ensures
        r.timeout_ms == timeout_secs * 1000,
        r.last_input_ms == 0,
        !r.pause_logged,
{
    ActivityTracker {
        last_input_ms: 0,
        timeout_ms: timeout_secs * MILLIS_PER_SECOND,
        pause_logged: false,
    }
}

/// A keystroke at `t` (in milliseconds) with an idle timeout of `s` seconds
/// keeps the operator typing, and so the queue paused, from `t` until `s`
/// seconds later.
pub proof fn lemma_keystroke_pauses_queue(tracker: ActivityTracker, t: u64, s: u64, now: u64)
    requires
        tracker.last_input_ms == t,
        tracker.timeout_ms == s * 1000,
        t <= now,
        now < t + s * 1000,
    ensures
        tracker.typing_at(now),
{
}

} // verus!
