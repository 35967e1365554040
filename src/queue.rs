//! Traffic classes and the weighted round-robin queues that the reactor drains.
use std::collections::VecDeque;
use vstd::prelude::*;

verus! {

/// Number of slots in one scheduling round.
pub const ROUND: usize = 7;

/// Classification of pending work by urgency.
#[derive(Clone, Copy, Debug, PartialEq, Eq, Structural)]
pub enum QueueKind {
    /// Peer traffic: latency sensitive.
    Network,
    /// Regular background work.
    Regular,
    /// Traffic from the public API: best effort.
    Api,
}

/// The kind that owns slot `i` of a round: four network slots, two regular
/// slots and one API slot, interleaved.
pub open spec fn slot_kind(i: int) -> QueueKind {
    if i == 1 || i == 5 {
        QueueKind::Regular
    } else if i == 3 {
        QueueKind::Api
    } else {
        QueueKind::Network
    }
}

/// How many slots lie between slot `c` and the next slot of `k` (zero when
/// slot `c` is one of `k`'s).
pub open spec fn wait(c: int, k: QueueKind) -> nat {
    match k {
        QueueKind::Network => if c % 2 == 0 { 0 } else { 1 },
        QueueKind::Regular => if c == 1 || c == 5 {
            0
        } else if c == 0 || c == 4 {
            1
        } else if c == 6 {
            2
        } else if c == 3 {
            2
        } else {
            3
        },
        QueueKind::Api => if c <= 3 { (3 - c) as nat } else { (10 - c) as nat },
    }
}

/// The longest `wait` that kind `k` can see: one pop for network traffic, three
/// for regular work, six for the API.
pub open spec fn max_wait(k: QueueKind) -> nat {
    match k {
        QueueKind::Network => 1,
        QueueKind::Regular => 3,
        QueueKind::Api => 6,
    }
}

fn slot_at(i: usize) -> (k: QueueKind)
    requires
        i < ROUND,
    ensures
        k == slot_kind(i as int),
{
    if i == 1 || i == 5 {
        QueueKind::Regular
    } else if i == 3 {
        QueueKind::Api
    } else {
        QueueKind::Network
    }
}

/// Abstract state of the queues: one FIFO sequence per kind and the slot of
/// the round that is looked at first.
pub struct QueuesModel<E> {
    pub network: Seq<E>,
    pub regular: Seq<E>,
    pub api: Seq<E>,
    pub cursor: int,
}

impl<E> QueuesModel<E> {
    pub open spec fn queue(self, k: QueueKind) -> Seq<E> {
        match k {
            QueueKind::Network => self.network,
            QueueKind::Regular => self.regular,
            QueueKind::Api => self.api,
        }
    }

    pub open spec fn wf(self) -> bool {
        0 <= self.cursor < ROUND
    }

    pub open spec fn with_queue(self, k: QueueKind, q: Seq<E>) -> Self {
        match k {
            QueueKind::Network => QueuesModel { network: q, ..self },
            QueueKind::Regular => QueuesModel { regular: q, ..self },
            QueueKind::Api => QueuesModel { api: q, ..self },
        }
    }

    pub open spec fn is_empty(self) -> bool {
        self.network.len() == 0 && self.regular.len() == 0 && self.api.len() == 0
    }

    /// Whether the slot `d` places after the cursor belongs to a kind with
    /// pending work.
    pub open spec fn ready_at(self, d: nat) -> bool {
        self.queue(slot_kind((self.cursor + d) % ROUND as int)).len() > 0
    }

    /// The first offset `d` at or after `from` such that the slot `d` places
    /// after the cursor belongs to a kind with pending work.
    pub open spec fn ready_offset(self, from: nat) -> Option<nat>
        decreases ROUND - from,
    {
        if from >= ROUND {
            None
        } else if self.ready_at(from) {
            Some(from)
        } else {
            self.ready_offset(from + 1)
        }
    }

    /// Enqueueing appends to the end of the kind's queue.
    pub open spec fn push(self, k: QueueKind, e: E) -> Self {
        self.with_queue(k, self.queue(k).push(e))
    }

    /// Dispatching serves the front of the first ready slot's queue and moves
    /// the cursor just past that slot.
    pub open spec fn pop(self) -> (Option<(QueueKind, E)>, Self) {
        match self.ready_offset(0) {
            None => (None, self),
            Some(d) => {
                let k = slot_kind((self.cursor + d) % ROUND as int);
                let q = self.queue(k);
                (
                    Some((k, q[0])),
                    QueuesModel {
                        cursor: (self.cursor + d + 1) % ROUND as int,
                        ..self.with_queue(k, q.drop_first())
                    },
                )
            },
        }
    }
}

/// Pending events, one FIFO queue per kind, served in weighted round-robin
/// order.
pub struct EventQueues<E> {
    network: VecDeque<E>,
    regular: VecDeque<E>,
    api: VecDeque<E>,
    cursor: usize,
}

impl<E> View for EventQueues<E> {
    type V = QueuesModel<E>;

    closed spec fn view(&self) -> QueuesModel<E> {
        QueuesModel {
            network: self.network@,
            regular: self.regular@,
            api: self.api@,
            cursor: self.cursor as int,
        }
    }
}

impl<E> EventQueues<E> {
    pub open spec fn wf(&self) -> bool {
        self@.wf()
    }

    /// Empty queues, with the round starting at its first slot.
    pub fn new() -> (r: Self)
        ensures
            r.wf(),
            r@.is_empty(),
            r@.cursor == 0,
    {
        EventQueues {
            network: VecDeque::new(),
            regular: VecDeque::new(),
            api: VecDeque::new(),
            cursor: 0,
        }
    }

    /// Number of events waiting in the queue of `kind`.
    pub fn len_of(&self, kind: QueueKind) -> (n: usize)
        ensures
            n == self@.queue(kind).len(),
    {
        match kind {
            QueueKind::Network => self.network.len(),
            QueueKind::Regular => self.regular.len(),
            QueueKind::Api => self.api.len(),
        }
    }

    /// Number of events waiting in all queues.
    pub fn total_len(&self) -> (n: u128)
        ensures
            n == self@.network.len() + self@.regular.len() + self@.api.len(),
    {
        self.network.len() as u128 + self.regular.len() as u128 + self.api.len() as u128
    }

    /// Enqueues `event` at the back of the queue of `kind`.
    pub fn push(&mut self, kind: QueueKind, event: E)
        requires
            old(self).wf(),
        ensures
            final(self).wf(),
            final(self)@ == old(self)@.push(kind, event),
    {
        match kind {
            QueueKind::Network => self.network.push_back(event),
            QueueKind::Regular => self.regular.push_back(event),
            QueueKind::Api => self.api.push_back(event),
        }
    }

    /// Takes the next event to dispatch, with the kind it was queued under;
    /// `None` when every queue is empty.
    pub fn pop(&mut self) -> (r: Option<(QueueKind, E)>)
        requires
            old(self).wf(),
        ensures
            final(self).wf(),
            (r, final(self)@) == old(self)@.pop(),
            r is None <==> old(self)@.is_empty(),
    {
        proof {
            lemma_ready_offset_some(self@, 0);
        }
        let mut d: usize = 0;
        while d < ROUND
            invariant
                self.wf(),
                self@ == old(self)@,
                d <= ROUND,
                self@.ready_offset(0) == self@.ready_offset(d as nat),
            decreases ROUND - d,
        {
            let k = slot_at((self.cursor + d) % ROUND);
            assert(self@.ready_at(d as nat) == (self@.queue(k).len() > 0));
            if self.len_of(k) > 0 {
                let ghost before = self@;
                assert(before.ready_offset(d as nat) == Some(d as nat));
                let e = match k {
                    QueueKind::Network => self.network.pop_front(),
                    QueueKind::Regular => self.regular.pop_front(),
                    QueueKind::Api => self.api.pop_front(),
                };
                self.cursor = (self.cursor + d + 1) % ROUND;
                match e {
                    Some(e) => {
                        assert(self@ =~= before.pop().1);
                        return Some((k, e));
                    },
                    None => {
                        assert(false);
                        return None;
                    },
                }
            }
            assert(self@.ready_offset(d as nat) == self@.ready_offset((d + 1) as nat));
            d = d + 1;
        }
        assert(self@.ready_offset(ROUND as nat) is None);
        None
    }
}

proof fn lemma_ready_offset_some<E>(m: QueuesModel<E>, from: nat)
    requires
        m.wf(),
        from <= ROUND,
    ensures
        m.ready_offset(from) is Some ==> from <= m.ready_offset(from)->0 < ROUND,
        m.ready_offset(from) is Some ==> m.ready_at(m.ready_offset(from)->0),
        m.ready_offset(from) is Some ==> (forall|d: nat|
            from <= d < m.ready_offset(from)->0 ==> !#[trigger] m.ready_at(d)),
        from == 0 ==> (m.ready_offset(from) is None <==> m.is_empty()),
        m.ready_offset(from) is None <==> (forall|d: nat|
            from <= d < ROUND ==> !#[trigger] m.ready_at(d)),
    decreases ROUND - from,
{
    if from < ROUND {
        lemma_ready_offset_some(m, from + 1);
    }
    if from == 0 {
        if m.ready_offset(0) is None {
            let c = m.cursor;
            let n = if c % 2 == 0 { 0nat } else { 1nat };
            let r = if c <= 1 { (1 - c) as nat } else if c <= 5 { (5 - c) as nat } else { 2nat };
            let a = wait(c, QueueKind::Api);
            assert(slot_kind((c + n) % 7) == QueueKind::Network);
            assert(slot_kind((c + r) % 7) == QueueKind::Regular);
            assert(slot_kind((c + a) % 7) == QueueKind::Api);
            assert(!m.ready_at(n) && !m.ready_at(r) && !m.ready_at(a));
        }
    }
}

proof fn lemma_wait_facts(c: int, k: QueueKind)
    requires
        0 <= c < ROUND,
    ensures
        wait(c, k) <= max_wait(k),
        slot_kind((c + wait(c, k)) % ROUND as int) == k,
        forall|e: int|
            0 <= e < wait(c, k) ==> slot_kind((c + e) % ROUND as int) != k
                && #[trigger] wait((c + e + 1) % ROUND as int, k) == wait(c, k) - e - 1,
{
}

/// Whether `k` is served by one of the next `n + 1` dispatches of `m`, when
/// nothing is dispatched by anyone else in between.
pub open spec fn served_within<E>(m: QueuesModel<E>, k: QueueKind, n: nat) -> bool
    decreases n,
{
    match m.pop() {
        (Some((served, _)), next) => served == k || (n > 0 && served_within(next, k, (n - 1) as nat)),
        (None, _) => false,
    }
}

proof fn lemma_served_within_grows<E>(m: QueuesModel<E>, k: QueueKind, a: nat, b: nat)
    requires
        a <= b,
        served_within(m, k, a),
    ensures
        served_within(m, k, b),
    decreases a,
{
    if let (Some((served, _)), next) = m.pop() {
        if served != k {
            lemma_served_within_grows(next, k, (a - 1) as nat, (b - 1) as nat);
        }
    }
}

/// Dispatch within one kind is first in, first out: a dispatch takes the
/// front of its kind's queue, and any two events waiting in one queue keep
/// their order, so the later one is never dispatched while the earlier waits.
pub proof fn lemma_fifo_within_kind<E>(m: QueuesModel<E>, k: QueueKind, i: int, j: int)
    requires
        m.wf(),
        0 <= i < j < m.queue(k).len(),
    ensures
        ({
            let (r, next) = m.pop();
            match r {
                Some((served, e)) if served == k => {
                    &&& e == m.queue(k)[0]
                    &&& next.queue(k)[j - 1] == m.queue(k)[j]
                    &&& i > 0 ==> next.queue(k)[i - 1] == m.queue(k)[i]
                },
                _ => {
                    &&& next.queue(k)[i] == m.queue(k)[i]
                    &&& next.queue(k)[j] == m.queue(k)[j]
                },
            }
        }),
        m.push(k, m.queue(k)[i]).queue(k)[i] == m.queue(k)[i],
        m.push(k, m.queue(k)[i]).queue(k)[j] == m.queue(k)[j],
{
    lemma_ready_offset_some(m, 0);
}

/// Weighted priority without starvation. While the queue of `k` holds work,
/// every dispatch either serves `k` or brings the next slot of `k` strictly
/// closer, and that slot is never further than `max_wait(k)` dispatches away:
/// one for network traffic, three for regular work, six for the API. So `k`
/// is served within `max_wait(k) + 1` dispatches, and a higher class never
/// waits longer than a lower one. Enqueueing elsewhere does not move the slot.
pub proof fn lemma_no_starvation<E>(m: QueuesModel<E>, k: QueueKind)
    requires
        m.wf(),
        m.queue(k).len() > 0,
    ensures
        wait(m.cursor, k) <= max_wait(k),
        max_wait(QueueKind::Network) < max_wait(QueueKind::Regular) < max_wait(QueueKind::Api),
        m.pop().0 is Some,
        m.pop().1.wf(),
        ({
            let (r, next) = m.pop();
            let (served, _) = r->0;
            served == k || (next.queue(k) == m.queue(k) && wait(next.cursor, k) < wait(m.cursor, k))
        }),
        served_within(m, k, wait(m.cursor, k)),
        forall|k2: QueueKind, e: E| #[trigger] m.push(k2, e).cursor == m.cursor,
    decreases wait(m.cursor, k),
{
    lemma_ready_offset_some(m, 0);
    lemma_wait_facts(m.cursor, k);
    let w = wait(m.cursor, k);
    assert(m.ready_at(w));
    let d = m.ready_offset(0)->0;
    let next = m.pop().1;
    if slot_kind((m.cursor + d) % ROUND as int) != k {
        assert(d != w);
        assert(d < w);
        assert(wait((m.cursor + d + 1) % ROUND as int, k) == w - d - 1);
        lemma_no_starvation(next, k);
        lemma_served_within_grows(next, k, (w - d - 1) as nat, (w - 1) as nat);
    }
    assert forall|k2: QueueKind, e: E| #[trigger] m.push(k2, e).cursor == m.cursor by {
        match k2 {
            QueueKind::Network => {},
            QueueKind::Regular => {},
            QueueKind::Api => {},
        }
    }
}

} // verus!
