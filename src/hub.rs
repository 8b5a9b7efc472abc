//! Fan-out of notifications to the connected subscribers.
//!
//! The hub keeps the identities of the subscribers; the sinks themselves
//! belong to the transport. A publish is a [`Broadcast`]: the transport asks
//! it for each target in turn, attempts delivery, and records the outcome.
//! A failed delivery is recorded and the broadcast moves on to the next
//! subscriber, so one broken sink never keeps the others from receiving.

use vstd::prelude::*;

verus! {

/// The set of connected subscribers, in order of connection.
pub struct Hub {
    subscribers: Vec<u64>,
}

impl View for Hub {
    type V = Seq<u64>;

    closed spec fn view(&self) -> Seq<u64> {
        self.subscribers@
    }
}

/// The abstract state of a broadcast: the payload, the subscribers present
/// when it began, and the outcome of each delivery attempted so far, in
/// order.
pub struct BroadcastState {
    pub payload: Seq<char>,
    pub targets: Seq<u64>,
    pub outcomes: Seq<bool>,
}

/// The targets whose delivery succeeded, among the first `outcomes.len()`.
pub open spec fn delivered_of(targets: Seq<u64>, outcomes: Seq<bool>) -> Seq<u64>
    decreases outcomes.len(),
{
    if outcomes.len() == 0 {
        Seq::empty()
    } else {
        let prev = delivered_of(targets, outcomes.drop_last());
        if outcomes.last() {
            prev.push(targets[outcomes.len() - 1])
        } else {
            prev
        }
    }
}

/// One publish in progress.
pub struct Broadcast {
    payload: String,
    targets: Vec<u64>,
    outcomes: Vec<bool>,
}

impl View for Broadcast {
    type V = BroadcastState;

    closed spec fn view(&self) -> BroadcastState {
        BroadcastState { payload: self.payload@, targets: self.targets@, outcomes: self.outcomes@ }
    }
}

impl Broadcast {
    /// Attempted deliveries never outnumber the targets.
    pub open spec fn wf(&self) -> bool {
        self@.outcomes.len() <= self@.targets.len()
    }

    /// Whether every target has been attempted.
    pub open spec fn done(&self) -> bool {
        self@.outcomes.len() == self@.targets.len()
    }

    /// The serialized notification, the same for every subscriber.
    pub fn payload(&self) -> (r: &String)
        ensures
            r@ == self@.payload,
    {
        &self.payload
    }

    /// Whether every target has been attempted.
    pub fn is_done(&self) -> (r: bool)
        requires
            self.wf(),
        ensures
            r == self.done(),
    {
        self.outcomes.len() == self.targets.len()
    }

    /// The subscriber to attempt next, or `None` once all were attempted.
    pub fn next_target(&self) -> (r: Option<u64>)
        requires
            self.wf(),
        ensures
            self.done() ==> r is None,
            !self.done() ==> r == Some(self@.targets[self@.outcomes.len() as int]),
    {
        if self.outcomes.len() < self.targets.len() {
            Some(self.targets[self.outcomes.len()])
        } else {
            None
        }
    }

    /// Records the outcome of the delivery to the current target and moves
    /// on to the next one, whatever the outcome.
    pub fn record(&mut self, delivered: bool)
        requires
            old(self).wf(),
            !old(self).done(),
        ensures
            final(self).wf(),
            final(self)@.payload == old(self)@.payload,
            final(self)@.targets == old(self)@.targets,
            final(self)@.outcomes == old(self)@.outcomes.push(delivered),
    {
        self.outcomes.push(delivered);
    }

    /// Attempts delivery to every target not yet attempted, in order,
    /// through `send`, which reports whether the subscriber received the
    /// payload. A failure is recorded and the next target is attempted.
    pub fn deliver_all<F: Fn(u64) -> bool>(&mut self, send: F)
        requires
            old(self).wf(),
            forall|id: u64| send.requires((id,)),
        ensures
            final(self).wf(),
            final(self).done(),
            final(self)@.payload == old(self)@.payload,
            final(self)@.targets == old(self)@.targets,
            final(self)@.outcomes.subrange(0, old(self)@.outcomes.len() as int)
                == old(self)@.outcomes,
            forall|i: int|
                old(self)@.outcomes.len() <= i < final(self)@.targets.len() ==> send.ensures(
                    (final(self)@.targets[i],),
                    #[trigger] final(self)@.outcomes[i],
                ),
    {
        let ghost start = self@.outcomes;
        while self.outcomes.len() < self.targets.len()
            invariant
                self.wf(),
                forall|id: u64| send.requires((id,)),
                self@.payload == old(self)@.payload,
                self@.targets == old(self)@.targets,
                start == old(self)@.outcomes,
                start.len() <= self@.outcomes.len(),
                self@.outcomes.subrange(0, start.len() as int) == start,
                forall|i: int|
                    start.len() <= i < self@.outcomes.len() ==> send.ensures(
                        (self@.targets[i],),
                        #[trigger] self@.outcomes[i],
                    ),
            decreases self.targets.len() - self.outcomes.len(),
        {
            let id = self.targets[self.outcomes.len()];
            let ok = send(id);
            let ghost before = self@.outcomes;
            self.outcomes.push(ok);
            assert(self@.outcomes.subrange(0, start.len() as int) =~= before.subrange(
                0,
                start.len() as int,
            ));
        }
    }

    /// The subscribers that received the payload so far.
    pub fn delivered(&self) -> (r: Vec<u64>)
        requires
            self.wf(),
        ensures
            r@ == delivered_of(self@.targets, self@.outcomes),
    {
        let mut r: Vec<u64> = Vec::new();
        let mut i: usize = 0;
        while i < self.outcomes.len()
            invariant
                i <= self.outcomes.len() <= self.targets.len(),
                r@ == delivered_of(self@.targets, self@.outcomes.subrange(0, i as int)),
            decreases self.outcomes.len() - i,
        {
            proof {
                let o = self@.outcomes.subrange(0, i as int + 1);
                assert(o.drop_last() =~= self@.outcomes.subrange(0, i as int));
                assert(o.last() == self@.outcomes[i as int]);
            }
            if self.outcomes[i] {
                r.push(self.targets[i]);
            }
            i = i + 1;
        }
        assert(self@.outcomes.subrange(0, i as int) =~= self@.outcomes);
        r
    }
}

impl Hub {
    /// A subscriber is present at most once.
    pub open spec fn wf(&self) -> bool {
        self@.no_duplicates()
    }

    /// A hub with no subscribers.
    pub fn new() -> (h: Hub)
        ensures
            h.wf(),
            h@ == Seq::<u64>::empty(),
    {
        Hub { subscribers: Vec::new() }
    }

    /// The connected subscribers, in order of connection.
    pub fn subscribers(&self) -> (r: Vec<u64>)
        ensures
            r@ == self@,
    {
        self.subscribers.clone()
    }

    /// Whether subscriber `id` is connected.
    pub fn contains(&self, id: u64) -> (r: bool)
        ensures
            r == self@.contains(id),
    {
        let mut i: usize = 0;
        while i < self.subscribers.len()
            invariant
                i <= self.subscribers.len(),
                forall|j: int| 0 <= j < i ==> self@[j] != id,
            decreases self.subscribers.len() - i,
        {
            if self.subscribers[i] == id {
                assert(self@[i as int] == id);
                return true;
            }
            i = i + 1;
        }
        false
    }

    /// Adds subscriber `id` when a connection opens. Returns whether it was
    /// added, which is so exactly when it was not present yet.
    pub fn add(&mut self, id: u64) -> (added: bool)
        requires
            old(self).wf(),
        ensures
            final(self).wf(),
            added == !old(self)@.contains(id),
            added ==> final(self)@ == old(self)@.push(id),
            !added ==> final(self)@ == old(self)@,
    {
        if self.contains(id) {
            false
        } else {
            self.subscribers.push(id);
            assert forall|a: int, b: int|
                0 <= a < b < self@.len() implies self@[a] != self@[b] by {
                if b == self@.len() - 1 {
                    assert(old(self)@.contains(self@[a]) || a == b);
                }
            }
            true
        }
    }

    /// Removes subscriber `id` when its connection closes. Returns whether
    /// it was present.
    pub fn remove(&mut self, id: u64) -> (removed: bool)
        requires
            old(self).wf(),
        ensures
            final(self).wf(),
            removed == old(self)@.contains(id),
            removed ==> exists|k: int|
                0 <= k < old(self)@.len() && old(self)@[k] == id && final(self)@ == old(
                    self,
                )@.remove(k),
            !removed ==> final(self)@ == old(self)@,
            !final(self)@.contains(id),
    {
        let mut i: usize = 0;
        while i < self.subscribers.len() && self.subscribers[i] != id
            invariant
                self@ == old(self)@,
                i <= self.subscribers.len(),
                forall|j: int| 0 <= j < i ==> self@[j] != id,
            decreases self.subscribers.len() - i,
        {
            i = i + 1;
        }
        if i < self.subscribers.len() {
            let ghost s = self@;
            assert(s[i as int] == id);
            self.subscribers.remove(i);
            assert(self@ == s.remove(i as int));
            assert forall|a: int, b: int|
                0 <= a < b < self@.len() implies self@[a] != self@[b] by {
                let a0 = if a < i { a } else { a + 1 };
                let b0 = if b < i { b } else { b + 1 };
                assert(self@[a] == s[a0] && self@[b] == s[b0]);
            }
            assert forall|a: int| 0 <= a < self@.len() implies self@[a] != id by {
                let a0 = if a < i { a } else { a + 1 };
                assert(self@[a] == s[a0]);
            }
            true
        } else {
            false
        }
    }

    /// Starts publishing `payload` to every subscriber connected now.
    pub fn begin_publish(&self, payload: String) -> (b: Broadcast)
        ensures
            b.wf(),
            b@.payload == payload@,
            b@.targets == self@,
            b@.outcomes.len() == 0,
    {
        Broadcast { payload, targets: self.subscribers.clone(), outcomes: Vec::new() }
    }
}

/// Every attempted target whose delivery succeeded is among the delivered.
pub proof fn lemma_delivered_contains(targets: Seq<u64>, outcomes: Seq<bool>, i: int)
    requires
        outcomes.len() <= targets.len(),
        0 <= i < outcomes.len(),
        outcomes[i],
    ensures
        delivered_of(targets, outcomes).contains(targets[i]),
    decreases outcomes.len(),
{
    let prev = delivered_of(targets, outcomes.drop_last());
    if i < outcomes.len() - 1 {
        lemma_delivered_contains(targets, outcomes.drop_last(), i);
        let k = choose|k: int| 0 <= k < prev.len() && prev[k] == targets[i];
        if outcomes.last() {
            assert(prev.push(targets[outcomes.len() - 1])[k] == targets[i]);
        }
    } else {
        assert(prev.push(targets[i])[prev.len() as int] == targets[i]);
    }
}

/// Publishing with no subscriber connected is complete at once, with no
/// failure.
pub proof fn lemma_publish_without_subscribers(b: Broadcast)
    requires
        b.wf(),
        b@.targets.len() == 0,
    ensures
        b.done(),
        delivered_of(b@.targets, b@.outcomes).len() == 0,
{
}

/// Once a broadcast is done (as `deliver_all` leaves it), when every
/// delivery but the one to target `j` succeeded, every other subscriber
/// present at the start of the publish received the payload.
pub proof fn lemma_failure_isolated(b: Broadcast, j: int)
    requires
        b.wf(),
        b.done(),
        0 <= j < b@.targets.len(),
        forall|i: int| 0 <= i < b@.outcomes.len() && i != j ==> b@.outcomes[i],
    ensures
        forall|i: int|
            0 <= i < b@.targets.len() && i != j ==> delivered_of(b@.targets, b@.outcomes).contains(
                #[trigger] b@.targets[i],
            ),
{
    assert forall|i: int| 0 <= i < b@.targets.len() && i != j implies delivered_of(
        b@.targets,
        b@.outcomes,
    ).contains(#[trigger] b@.targets[i]) by {
        lemma_delivered_contains(b@.targets, b@.outcomes, i);
    }
}

} // verus!
