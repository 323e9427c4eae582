//! The queue-drain step of the interactive bridge: when to look at the queue,
//! which file to take, and how the write of its command is retried.

use vstd::prelude::*;
use crate::activity::{lemma_keystroke_pauses_queue, ActivityTracker, MILLIS_PER_SECOND};

verus! {

/// Audit line written when draining pauses because the operator types.
pub const PAUSED_MESSAGE: &'static str = "⏸️ Queue processing paused - user is typing";

/// Audit line written when draining resumes after the idle timeout.
pub const RESUMED_MESSAGE: &'static str = "▶️ Queue processing resumed - user input timeout expired";

/// A regular file of the queue directory: its name and its modification time.
#[derive(Clone, Debug)]
pub struct QueueEntry {
    pub name: String,
    pub modified: u128,
}

/// True when `i` is the first entry of `entries` with the least modification
/// time, the entry that a stable sort by modification time puts first.
pub open spec fn is_oldest(entries: Seq<QueueEntry>, i: int) -> bool {
    &&& 0 <= i < entries.len()
    &&& forall|j: int| 0 <= j < entries.len() ==> entries[i].modified <= #[trigger] entries[j].modified
    &&& forall|j: int| 0 <= j < i ==> entries[i].modified < #[trigger] entries[j].modified
}

/// The index of the oldest entry, `None` for an empty directory.
pub fn select_oldest(entries: &Vec<QueueEntry>) -> (r: Option<usize>)
    ensures
        r is None <==> entries@.len() == 0,
        r matches Some(i) ==> is_oldest(entries@, i as int),
{
    if entries.len() == 0 {
        return None;
    }
    let mut best: usize = 0;
    let mut i: usize = 1;
    while i < entries.len()
        invariant
            1 <= i <= entries@.len(),
            best < i,
            forall|j: int| 0 <= j < i ==> entries@[best as int].modified <= #[trigger] entries@[j].modified,
            forall|j: int| 0 <= j < best ==> entries@[best as int].modified < #[trigger] entries@[j].modified,
        decreases entries@.len() - i,
    {
        if entries[i].modified < entries[best].modified {
            best = i;
        }
        i += 1;
    }
    Some(best)
}

/// The one-second gate between two looks at the queue.
#[derive(Clone, Copy, Debug, PartialEq, Eq, Structural)]
pub struct QueueClock {
    pub last_check_ms: u64,
}

impl QueueClock {
    /// True when a check window has passed since the last look at `last`.
    pub open spec fn due_at(self, now: u64) -> bool {
        now >= self.last_check_ms && now - self.last_check_ms >= 1000
    }

    /// A clock whose window starts at `now_ms`.
    pub fn new(now_ms: u64) -> (r: QueueClock)
        ensures
            r.last_check_ms == now_ms,
    {
        QueueClock { last_check_ms: now_ms }
    }

    /// Whether the queue is due at `now_ms`; when it is, a new window starts.
    pub fn check_due(&mut self, now_ms: u64) -> (r: bool)
        ensures
            r == old(self).due_at(now_ms),
            r ==> final(self).last_check_ms == now_ms,
            !r ==> *final(self) == *old(self),
    {
        if now_ms >= self.last_check_ms && now_ms - self.last_check_ms >= MILLIS_PER_SECOND {
            self.last_check_ms = now_ms;
            true
        } else {
            false
        }
    }
}

/// What one queue check decides.
#[derive(Clone, Copy, Debug, PartialEq, Eq, Structural)]
pub enum TickPlan {
    /// The operator is typing: nothing is drained; `log_pause` asks for the
    /// pause line, written once per pause.
    Paused { log_pause: bool },
    /// The operator is idle: `log_resume` asks for the resume line, and
    /// `target` is the entry to drain, if any.
    Idle { log_resume: bool, target: Option<usize> },
}

/// Number of files that a plan drains.
pub open spec fn drained(plan: TickPlan) -> nat {
    match plan {
        TickPlan::Idle { target: Some(_), .. } => 1,
        _ => 0,
    }
}

/// Number of files that a run of checks drains.
pub open spec fn drained_total(plans: Seq<TickPlan>) -> nat
    decreases plans.len(),
{
    if plans.len() == 0 {
        0
    } else {
        drained_total(plans.drop_last()) + drained(plans.last())
    }
}

/// What a check at `now` decides for `tracker` and the listing `entries`:
/// while the operator types, a pause, logged once; otherwise the resume line
/// if a pause was logged, and the oldest entry, if any.
pub open spec fn tick_outcome(tracker: ActivityTracker, now: u64, entries: Seq<QueueEntry>, plan: TickPlan) -> bool {
    if tracker.typing_at(now) {
        plan == (TickPlan::Paused { log_pause: !tracker.pause_logged })
    } else {
        plan matches TickPlan::Idle { log_resume, target } && log_resume == tracker.pause_logged && (target is None
            <==> entries.len() == 0) && (target matches Some(i) ==> is_oldest(entries, i as int))
    }
}

/// Idle arbitration and selection for one queue check at `now_ms`.
pub fn plan_tick(tracker: &mut ActivityTracker, now_ms: u64, entries: &Vec<QueueEntry>) -> (r: TickPlan)
    ensures
        tick_outcome(*old(tracker), now_ms, entries@, r),
        final(tracker).last_input_ms == old(tracker).last_input_ms,
        final(tracker).timeout_ms == old(tracker).timeout_ms,
        final(tracker).pause_logged == old(tracker).typing_at(now_ms),
{
    if tracker.is_user_typing(now_ms) {
        let log_pause = !tracker.pause_logged;
        tracker.pause_logged = true;
        TickPlan::Paused { log_pause }
    } else {
        let log_resume = tracker.pause_logged;
        tracker.pause_logged = false;
        TickPlan::Idle { log_resume, target: select_oldest(entries) }
    }
}

/// Each check drains at most one file, so `n` files need at least `n` checks.
pub proof fn lemma_one_file_per_window(plans: Seq<TickPlan>)
    ensures
        drained_total(plans) <= plans.len(),
    decreases plans.len(),
{
    if plans.len() > 0 {
        lemma_one_file_per_window(plans.drop_last());
    }
}

/// A keystroke at `t` (in milliseconds) with an idle timeout of `s` seconds:
/// no check made from `t` until `s` seconds later drains a file, whatever the
/// queue holds.
pub proof fn lemma_keystroke_blocks_draining(
    tracker: ActivityTracker,
    t: u64,
    s: u64,
    now: u64,
    entries: Seq<QueueEntry>,
    plan: TickPlan,
)
    requires
        tracker.last_input_ms == t,
        tracker.timeout_ms == s * 1000,
        t <= now,
        now < t + s * 1000,
        tick_outcome(tracker, now, entries, plan),
    ensures
        drained(plan) == 0,
        plan is Paused,
{
    lemma_keystroke_pauses_queue(tracker, t, s, now);
}

} // verus!
