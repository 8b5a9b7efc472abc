//! Per-event-class debounce coalescer.
//!
//! The coalescer owns a single slot for the one timer of its event class
//! that may be live. The host runs the timers; the coalescer decides which
//! timer to cancel, which to start, and whether a timer that fires may run
//! the handler.

use vstd::prelude::*;

verus! {

/// Delay, in milliseconds, between the last trigger of a burst and the
/// handler run it causes.
pub const DEBOUNCE_MS: u64 = 10;

/// The abstract state of a coalescer: the timer that owns the slot, if any,
/// and the identifier the next timer will get.
pub struct DebounceState {
    pub pending: Option<u64>,
    pub next: u64,
}

/// The identifier after `n`, wrapping at the top of the range.
pub open spec fn next_id(n: u64) -> u64 {
    if n == u64::MAX {
        0
    } else {
        (n + 1) as u64
    }
}

/// State after one raw trigger: the pending timer is replaced by a new one.
pub open spec fn trigger_state(s: DebounceState) -> DebounceState {
    DebounceState { pending: Some(s.next), next: next_id(s.next) }
}

/// Whether timer `t` firing in state `s` runs the handler.
pub open spec fn fires(s: DebounceState, t: u64) -> bool {
    s.pending == Some(t)
}

/// State after timer `t` fired, or after starting timer `t` failed: the
/// slot is emptied if `t` owned it, and left alone otherwise.
pub open spec fn release_state(s: DebounceState, t: u64) -> DebounceState {
    if s.pending == Some(t) {
        DebounceState { pending: None, next: s.next }
    } else {
        s
    }
}

/// State after `k` raw triggers in a row.
pub open spec fn after_triggers(s: DebounceState, k: nat) -> DebounceState
    decreases k,
{
    if k == 0 {
        s
    } else {
        trigger_state(after_triggers(s, (k - 1) as nat))
    }
}

/// The identifier of the timer that the trigger numbered `i` (from zero)
/// of a burst starting in state `s` schedules.
pub open spec fn scheduled_at(s: DebounceState, i: nat) -> u64 {
    after_triggers(s, i).next
}

/// What the host must do on a raw trigger: stop the timer `cancel`, if
/// any, then start timer `schedule` to fire once after `delay_ms`.
pub struct TriggerAction {
    pub cancel: Option<u64>,
    pub schedule: u64,
    pub delay_ms: u64,
}

/// Coalescer of one event class.
pub struct Debouncer {
    pending: Option<u64>,
    next: u64,
}

impl View for Debouncer {
    type V = DebounceState;

    closed spec fn view(&self) -> DebounceState {
        DebounceState { pending: self.pending, next: self.next }
    }
}

impl Debouncer {
    /// A coalescer with no timer pending.
    pub fn new() -> (d: Debouncer)
        ensures
            d@.pending is None,
    {
        Debouncer { pending: None, next: 0 }
    }

    /// The timer that owns the slot, if any.
    pub fn pending(&self) -> (r: Option<u64>)
        ensures
            r == self@.pending,
    {
        self.pending
    }

    /// Handles one raw trigger: the pending timer, if any, is to be
    /// cancelled, and a new one takes its place in the slot.
    pub fn on_trigger(&mut self) -> (a: TriggerAction)
        ensures
            a.cancel == old(self)@.pending,
            a.schedule == old(self)@.next,
            a.delay_ms == DEBOUNCE_MS,
            final(self)@ == trigger_state(old(self)@),
    {
        let cancel = self.pending;
        let t = self.next;
        self.pending = Some(t);
        self.next = if t == u64::MAX {
            0
        } else {
            t + 1
        };
        TriggerAction { cancel, schedule: t, delay_ms: DEBOUNCE_MS }
    }

    /// Starting timer `t` failed: the trigger is dropped and the slot freed.
    pub fn on_schedule_failed(&mut self, t: u64)
        ensures
            final(self)@ == release_state(old(self)@, t),
    {
        if self.pending == Some(t) {
            self.pending = None;
        }
    }

    /// Timer `t` fired. Returns whether the handler must run now, which is
    /// so exactly when `t` still owns the slot; the slot is then freed.
    pub fn on_fire(&mut self, t: u64) -> (run: bool)
        ensures
            run == fires(old(self)@, t),
            final(self)@ == release_state(old(self)@, t),
    {
        if self.pending == Some(t) {
            self.pending = None;
            true
        } else {
            false
        }
    }
}

/// A burst of `k` raw triggers leads to exactly one handler run: each
/// trigger after the first cancels the timer its predecessor started, only
/// the timer of the last trigger is left pending, it runs the handler when
/// it fires, and afterwards no timer owns the slot, so no
/// later firing runs it again.
pub proof fn lemma_burst_runs_once(s: DebounceState, k: nat)
    requires
        k >= 1,
    ensures
        forall|i: nat|
            1 <= i < k ==> #[trigger] after_triggers(s, i).pending == Some(
                scheduled_at(s, (i - 1) as nat),
            ),
        after_triggers(s, k).pending == Some(scheduled_at(s, (k - 1) as nat)),
        fires(after_triggers(s, k), scheduled_at(s, (k - 1) as nat)),
        release_state(after_triggers(s, k), scheduled_at(s, (k - 1) as nat)).pending is None,
{
    assert forall|i: nat| 1 <= i < k implies #[trigger] after_triggers(s, i).pending == Some(
        scheduled_at(s, (i - 1) as nat),
    ) by {
        assert(after_triggers(s, i) == trigger_state(after_triggers(s, (i - 1) as nat)));
    }
    assert(after_triggers(s, k) == trigger_state(after_triggers(s, (k - 1) as nat)));
}

/// The timer scheduled by trigger `i` of a burst has the identifier `i`
/// places after the first, wrapping at the top of the range.
pub proof fn lemma_scheduled_at(s: DebounceState, i: nat)
    ensures
        scheduled_at(s, i) as int == (s.next as int + i) % 0x1_0000_0000_0000_0000,
    decreases i,
{
    if i > 0 {
        lemma_scheduled_at(s, (i - 1) as nat);
        assert(after_triggers(s, i) == trigger_state(after_triggers(s, (i - 1) as nat)));
    }
}

/// Within a burst of at most 2^64 triggers, a timer started by any trigger
/// but the last runs nothing even if it fires despite its cancellation: the
/// handler runs only for the timer of the last trigger.
pub proof fn lemma_stale_timer_runs_nothing(s: DebounceState, k: nat, i: nat)
    requires
        i + 1 < k,
        k <= 0x1_0000_0000_0000_0000,
    ensures
        !fires(after_triggers(s, k), scheduled_at(s, i)),
{
    lemma_burst_runs_once(s, k);
    lemma_scheduled_at(s, i);
    lemma_scheduled_at(s, (k - 1) as nat);
}

} // verus!
