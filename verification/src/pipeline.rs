//! The two-stage polling pipeline: EAN discovery feeding report
//! downloads through a bounded queue.
//!
//! The stages run concurrently around network calls and sleeps, so the
//! loops themselves live with the caller that owns the transport; what
//! stands here is every decision those loops take, as a state machine
//! stepped with the outcome of each attempt. The discovery stage walks
//! the seed EANs once, in order, retrying each until its (EAN, ID) pair
//! survives the reverse-resolution check; the download stage cycles
//! round-robin over the pairs it has received, forever.

use vstd::prelude::*;

use crate::backoff::Backoff;
use crate::ean::Ean;
use crate::id::Id;

verus! {

/// A resolved (EAN, internal ID) pair, in transit from discovery to
/// download.
pub struct Pair {
    pub ean: Ean,
    pub id: Id,
}

/// The mathematical shadow of a `Pair`.
pub struct PairModel {
    pub ean: Seq<char>,
    pub id: Id,
}

impl DeepView for Pair {
    type V = PairModel;

    open spec fn deep_view(&self) -> PairModel {
        PairModel { ean: self.ean@, id: self.id }
    }
}

impl Pair {
    /// An owned copy with the same value.
    pub fn duplicate(&self) -> (r: Pair)
        ensures
            r.deep_view() == self.deep_view(),
    {
        Pair { ean: self.ean.duplicate(), id: self.id }
    }
}

/// The outcome of one resolution attempt for the current EAN: both
/// lookups done, or any failure along the way.
pub enum ResolveEvent {
    /// Either lookup failed (transport, scrape, or parse).
    Failed,
    /// Forward resolution yielded `id`; reverse resolution of `id`
    /// yielded `reverse_ean`.
    Resolved { id: Id, reverse_ean: Ean },
}

/// The discovery stage: walks the seed EANs once, in order. Each EAN is
/// retried until forward and reverse resolution agree; only then is the
/// pair emitted and the cursor advanced.
pub struct Discovery {
    /// The seed EANs, in input order.
    pub eans: Vec<Ean>,
    /// The next seed to resolve.
    pub index: usize,
    /// The retry delay policy.
    pub backoff: Backoff,
    /// Every pair emitted so far, oldest first.
    pub emitted: Ghost<Seq<PairModel>>,
}

impl Discovery {
    pub open spec fn wf(self) -> bool {
        &&& self.index <= self.eans@.len()
        &&& self.backoff.wf()
        &&& self.emitted@.len() == self.index
        &&& forall|i: int|
            0 <= i < self.index ==> (#[trigger] self.emitted@[i]).ean == self.eans@[i]@
    }

    /// All seeds resolved and emitted.
    pub open spec fn done(self) -> bool {
        self.index == self.eans@.len()
    }

    /// Does this event let the current seed through? Only a completed
    /// round trip whose reverse-resolved EAN is exactly the seed does.
    pub open spec fn event_accepted(self, event: ResolveEvent) -> bool {
        event matches ResolveEvent::Resolved { id, reverse_ean } && reverse_ean@
            == self.eans@[self.index as int]@
    }

    pub fn new(eans: Vec<Ean>, backoff: Backoff) -> (r: Discovery)
        requires
            backoff.wf(),
        ensures
            r.wf(),
            r.eans@ == eans@,
            r.index == 0,
            r.backoff == backoff,
            r.emitted@ == Seq::<PairModel>::empty(),
    {
        Discovery { eans, index: 0, backoff, emitted: Ghost(Seq::empty()) }
    }

    pub fn is_done(&self) -> (r: bool)
        ensures
            r == self.done(),
    {
        self.index == self.eans.len()
    }

    /// The EAN to resolve next.
    pub fn current_ean(&self) -> (r: Ean)
        requires
            self.wf(),
            !self.done(),
        ensures
            r@ == self.eans@[self.index as int]@,
    {
        self.eans[self.index].duplicate()
    }

    /// Feed the outcome of one resolution attempt. A pair is handed on
    /// only when reverse resolution returned the very EAN that was
    /// requested: a mismatch is rejected and the seed retried, it is
    /// never emitted. Emission advances to the next seed and shrinks
    /// the delay; every failure doubles it.
    pub fn step(&mut self, event: ResolveEvent) -> (r: Option<Pair>)
        requires
            old(self).wf(),
            !old(self).done(),
        ensures
            final(self).wf(),
            final(self).eans@ == old(self).eans@,
            final(self).backoff.floor == old(self).backoff.floor,
            final(self).backoff.ceiling == old(self).backoff.ceiling,
            match r {
                Some(p) => {
                    &&& old(self).event_accepted(event)
                    &&& event matches ResolveEvent::Resolved { id, reverse_ean } && p.id == id
                    &&& p.ean@ == old(self).eans@[old(self).index as int]@
                    &&& final(self).index == old(self).index + 1
                    &&& final(self).backoff.current == old(self).backoff.quartered()
                    &&& final(self).emitted@ == old(self).emitted@.push(p.deep_view())
                },
                None => {
                    &&& !old(self).event_accepted(event)
                    &&& final(self).index == old(self).index
                    &&& final(self).backoff.current == old(self).backoff.doubled()
                    &&& final(self).emitted@ == old(self).emitted@
                },
            },
    {
        match event {
            ResolveEvent::Failed => {
                self.backoff.on_failure();
                None
            },
            ResolveEvent::Resolved { id, reverse_ean } => {
                // the length call bounds the index by usize::MAX for
                // the increment below
                let _n = self.eans.len();
                if reverse_ean.same_as(&self.eans[self.index]) {
                    let p = Pair { ean: self.eans[self.index].duplicate(), id };
                    self.backoff.on_success();
                    self.index = self.index + 1;
                    proof {
                        self.emitted@ = self.emitted@.push(p.deep_view());
                    }
                    Some(p)
                } else {
                    self.backoff.on_failure();
                    None
                }
            },
        }
    }
}

/// Law: the pairs a discovery state has emitted mirror its seed list in
/// order: there is one emission per resolved seed, and the i-th emitted
/// pair carries the i-th seed EAN.
pub proof fn lemma_emitted_in_order(s: Discovery)
    requires
        s.wf(),
    ensures
        s.emitted@.len() == s.index,
        forall|i: int| 0 <= i < s.emitted@.len() ==> (#[trigger] s.emitted@[i]).ean == s.eans@[i]@,
{
}

/// Law: the round-trip check is a gate, not a preference. An event
/// whose reverse-resolved EAN differs from the seed under resolution is
/// never accepted, so `step` never emits a pair for it: a stale or
/// wrong mapping is rejected and retried.
pub proof fn lemma_mismatch_rejected(s: Discovery, id: Id, reverse_ean: Ean)
    requires
        !s.done(),
        reverse_ean@ != s.eans@[s.index as int]@,
    ensures
        !s.event_accepted(ResolveEvent::Resolved { id, reverse_ean }),
        !s.event_accepted(ResolveEvent::Failed),
{
}

/// One non-blocking look at the discovery-to-download queue.
pub enum RecvPoll<T> {
    /// An item was waiting.
    Item(T),
    /// Nothing waiting, sender still alive.
    Empty,
    /// The sender is gone; nothing will arrive any more.
    Disconnected,
}

/// Interpret one queue poll, tracking whether the sender has closed:
/// once closed, nothing is ever received again; a `Disconnected` poll
/// closes it.
pub fn receive_id<T>(rx_poll: RecvPoll<T>, sender_closed: &mut bool) -> (r: Option<T>)
    ensures
        *old(sender_closed) ==> r is None && *final(sender_closed),
        !*old(sender_closed) ==> match rx_poll {
            RecvPoll::Item(v) => r == Some(v) && !*final(sender_closed),
            RecvPoll::Empty => r is None && !*final(sender_closed),
            RecvPoll::Disconnected => r is None && *final(sender_closed),
        },
{
    if *sender_closed {
        return None;
    }
    match rx_poll {
        RecvPoll::Item(v) => Some(v),
        RecvPoll::Empty => None,
        RecvPoll::Disconnected => {
            *sender_closed = true;
            None
        },
    }
}

/// The download stage: keeps every pair received so far and cycles over
/// them round-robin, refreshing each meter's hourly report in turn.
pub struct Downloader {
    /// Every pair received so far, in arrival order.
    pub pairs: Vec<Pair>,
    /// The position of the next download.
    pub cursor: usize,
    /// The retry delay policy.
    pub backoff: Backoff,
    /// Whether the discovery stage has closed the queue.
    pub sender_closed: bool,
}

impl Downloader {
    pub open spec fn wf(self) -> bool {
        self.cursor <= self.pairs@.len() && self.backoff.wf()
    }

    pub fn new(backoff: Backoff) -> (r: Downloader)
        requires
            backoff.wf(),
        ensures
            r.wf(),
            r.pairs@ == Seq::<Pair>::empty(),
            r.cursor == 0,
            r.backoff == backoff,
            !r.sender_closed,
    {
        Downloader { pairs: Vec::new(), cursor: 0, backoff, sender_closed: false }
    }

    /// Start one cycle: take the pairs drained from the queue, double
    /// the delay, and pick the download target. `None` means wait:
    /// either the cursor has caught up with the list while the producer
    /// is still running, or there is nothing to download at all. With
    /// the producer closed, a cursor past the end wraps to the front,
    /// which is what makes the visiting order round-robin.
    pub fn begin_cycle(&mut self, arrivals: Vec<Pair>, sender_closed: bool) -> (r: Option<Pair>)
        requires
            old(self).wf(),
        ensures
            final(self).wf(),
            final(self).pairs@ == old(self).pairs@ + arrivals@,
            final(self).sender_closed == sender_closed,
            final(self).backoff.current == old(self).backoff.doubled(),
            final(self).backoff.floor == old(self).backoff.floor,
            final(self).backoff.ceiling == old(self).backoff.ceiling,
            ({
                let n = old(self).pairs@.len() + arrivals@.len();
                if old(self).cursor >= n && !sender_closed {
                    r is None && final(self).cursor == old(self).cursor
                } else if old(self).cursor >= n && n == 0 {
                    r is None && final(self).cursor == 0
                } else {
                    let c = if old(self).cursor >= n {
                        0
                    } else {
                        old(self).cursor as int
                    };
                    &&& final(self).cursor == c
                    &&& r matches Some(p) && p.deep_view() == final(self).pairs@[c].deep_view()
                }
            }),
    {
        let mut arrivals = arrivals;
        self.pairs.append(&mut arrivals);
        self.sender_closed = sender_closed;
        self.backoff.on_failure();
        let n = self.pairs.len();
        if self.cursor >= n && !self.sender_closed {
            return None;
        }
        if self.cursor >= n {
            self.cursor = 0;
            if n == 0 {
                return None;
            }
        }
        Some(self.pairs[self.cursor].duplicate())
    }

    /// Finish one cycle whose target was downloaded: success advances
    /// the cursor and shrinks the delay; failure leaves both alone, so
    /// the same pair is retried after the caller has re-authenticated.
    pub fn finish_cycle(&mut self, success: bool)
        requires
            old(self).wf(),
            old(self).cursor < old(self).pairs@.len(),
        ensures
            final(self).wf(),
            final(self).pairs@ == old(self).pairs@,
            final(self).sender_closed == old(self).sender_closed,
            final(self).backoff.floor == old(self).backoff.floor,
            final(self).backoff.ceiling == old(self).backoff.ceiling,
            if success {
                final(self).cursor == old(self).cursor + 1 && final(self).backoff.current == old(
                    self,
                ).backoff.quartered()
            } else {
                final(self).cursor == old(self).cursor && final(self).backoff.current == old(
                    self,
                ).backoff.current
            },
    {
        if success {
            // the length call bounds the cursor by usize::MAX for the
            // increment below
            let _n = self.pairs.len();
            self.cursor = self.cursor + 1;
            self.backoff.on_success();
        }
    }
}

/// The position a steady cycle downloads: a cycle in which nothing
/// arrives, the producer is closed, and the download succeeds. Per
/// `begin_cycle`'s contract, a cursor past the end wraps to the front.
pub open spec fn steady_cycle_visit(cursor: int, n: int) -> int {
    if cursor >= n {
        0
    } else {
        cursor
    }
}

/// The cursor after that cycle: one past the visited position, per
/// `finish_cycle`'s contract for a successful download.
pub open spec fn steady_cycle_cursor(cursor: int, n: int) -> int {
    steady_cycle_visit(cursor, n) + 1
}

/// The positions `k` consecutive steady cycles download, starting from
/// `cursor` over a list of `n` pairs.
pub open spec fn steady_visits(cursor: int, n: int, k: nat) -> Seq<int>
    decreases k,
{
    if k == 0 {
        Seq::empty()
    } else {
        seq![steady_cycle_visit(cursor, n)] + steady_visits(
            steady_cycle_cursor(cursor, n),
            n,
            (k - 1) as nat,
        )
    }
}

/// Law: once discovery has closed the queue, the download stage visits
/// its pairs round-robin indefinitely: over any number of steady
/// cycles, the i-th download hits position `(first + i) % n`, so every
/// pair is refreshed in turn, wrapping forever.
pub proof fn lemma_round_robin(cursor: int, n: int, k: nat)
    requires
        0 <= cursor <= n,
        n > 0,
    ensures
        steady_visits(cursor, n, k).len() == k,
        forall|i: int|
            0 <= i < k ==> steady_visits(cursor, n, k)[i] == (steady_cycle_visit(cursor, n) + i)
                % n,
    decreases k,
{
    if k > 0 {
        let first = steady_cycle_visit(cursor, n);
        let c1 = steady_cycle_cursor(cursor, n);
        let tail = steady_visits(c1, n, (k - 1) as nat);
        lemma_round_robin(c1, n, (k - 1) as nat);
        let first1 = steady_cycle_visit(c1, n);
        assert forall|i: int|
            0 <= i < k implies steady_visits(cursor, n, k)[i] == (first + i) % n by {
            if i == 0 {
                vstd::arithmetic::div_mod::lemma_small_mod(first as nat, n as nat);
            } else {
                assert(steady_visits(cursor, n, k)[i] == tail[i - 1]);
                assert(tail[i - 1] == (first1 + (i - 1)) % n);
                assert(first1 == (first + 1) % n) by {
                    if first + 1 < n {
                        vstd::arithmetic::div_mod::lemma_small_mod((first + 1) as nat, n as nat);
                    } else {
                        vstd::arithmetic::div_mod::lemma_mod_self_0(n);
                    }
                }
                vstd::arithmetic::div_mod::lemma_add_mod_noop_right(i - 1, first + 1, n);
                assert(((first + 1) % n + (i - 1)) % n == (first + 1 + (i - 1)) % n);
            }
        }
    }
}

} // verus!
