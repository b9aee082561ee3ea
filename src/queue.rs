use vstd::prelude::*;

use crate::event::{VirtioInputEvent, EVENT_SIZE};

verus! {

/// One buffer of a descriptor chain, as the guest described it.
#[derive(Clone, Copy, Debug, PartialEq, Eq, Structural)]
pub struct DescSegment {
    pub addr: u64,
    pub len: u32,
    pub writable: bool,
}

/// A descriptor chain the guest made available, identified by its head.
#[derive(Debug)]
pub struct DescChain {
    pub head: u16,
    pub segments: Vec<DescSegment>,
}

/// An event record to be written into guest memory at `addr`, through the
/// memory map of generation `generation`.
#[derive(Clone, Copy, Debug, PartialEq, Eq, Structural)]
pub struct EventWrite {
    pub addr: u64,
    pub generation: u64,
    pub event: VirtioInputEvent,
}

/// A consumed chain: its head, and the record written into it, if it had
/// room for one. It is published as used with `used_len` bytes.
#[derive(Clone, Copy, Debug, PartialEq, Eq, Structural)]
pub struct Completion {
    pub head: u16,
    pub write: Option<EventWrite>,
}

impl Completion {
    pub open spec fn used_len_spec(&self) -> u32 {
        if self.write is Some { EVENT_SIZE } else { 0 }
    }

    /// Bytes written into the chain, as the used ring reports them.
    pub fn used_len(&self) -> (r: u32)
        ensures
            r == self.used_len_spec(),
    {
        if self.write.is_some() { EVENT_SIZE } else { 0 }
    }
}

/// The outcome of one pass over the available chains: the consumed chains
/// in the order they were taken, and how many events were delivered.
#[derive(Debug)]
pub struct DrainPass {
    pub completions: Vec<Completion>,
    pub delivered: usize,
}

/// A segment that can hold a whole event record.
pub open spec fn seg_fits(s: DescSegment) -> bool {
    s.writable && s.len >= EVENT_SIZE
}

/// The address of the first segment that can hold an event record.
pub open spec fn first_slot(segs: Seq<DescSegment>) -> Option<u64>
    decreases segs.len(),
{
    if segs.len() == 0 {
        None
    } else {
        match first_slot(segs.drop_last()) {
            Some(a) => Some(a),
            None => if seg_fits(segs.last()) { Some(segs.last().addr) } else { None },
        }
    }
}

pub open spec fn chain_fits(c: DescChain) -> bool {
    first_slot(c.segments@) is Some
}

/// How many of the first `k` chains can hold an event record.
pub open spec fn fit_count(chains: Seq<DescChain>, k: int) -> nat
    decreases k,
{
    if k <= 0 {
        0
    } else {
        fit_count(chains, k - 1) + if chains.len() >= k && chain_fits(chains[k - 1]) { 1nat } else { 0nat }
    }
}

/// A pass over `chains` with `m` events pending consumes `k` chains and
/// delivers `d` events: it takes chains in order while events remain, so it
/// stops when the chains or the events run out, and not before.
pub open spec fn pass_shape(chains: Seq<DescChain>, m: nat, k: nat, d: nat) -> bool {
    &&& k <= chains.len()
    &&& d == fit_count(chains, k as int)
    &&& d <= m
    &&& (k == chains.len() || d == m)
    &&& (k == 0 || fit_count(chains, k - 1) < m)
}

/// What the pass does with the `j`-th consumed chain: the `i`-th chain with
/// room receives the `i`-th pending event, a chain without room is skipped.
pub open spec fn completion_of(
    chains: Seq<DescChain>,
    events: Seq<VirtioInputEvent>,
    generation: u64,
    j: int,
) -> Completion {
    Completion {
        head: chains[j].head,
        write: match first_slot(chains[j].segments@) {
            Some(a) => Some(
                EventWrite { addr: a, generation, event: events[fit_count(chains, j) as int] },
            ),
            None => None,
        },
    }
}

/// Adds `n` to a counter that stays at its top value once reached.
pub open spec fn saturated_add(c: u64, n: nat) -> u64 {
    if c + n > u64::MAX { u64::MAX } else { (c + n) as u64 }
}

/// Whether a worker that has just published used buffers makes another pass
/// in the same kick: with event index on it checks again, so that a chain
/// made available meanwhile is not left waiting for a kick. A pass that
/// consumed no chain published nothing and ends the kick, so a kick makes at
/// most one pass more than the chains it consumes.
pub open spec fn rechecks(event_idx: bool, consumed: nat, more_available: bool) -> bool {
    event_idx && consumed > 0 && more_available
}

/// The number of chains consumed over a sequence of passes.
pub open spec fn total_consumed(ks: Seq<nat>) -> nat
    decreases ks.len(),
{
    if ks.len() == 0 { 0 } else { total_consumed(ks.drop_last()) + ks.last() }
}

fn find_slot(segs: &Vec<DescSegment>) -> (r: Option<u64>)
    ensures
        r == first_slot(segs@),
{
    let mut i: usize = 0;
    while i < segs.len()
        invariant
            i <= segs@.len(),
            first_slot(segs@.take(i as int)) is None,
        decreases segs@.len() - i,
    {
        assert(segs@.take(i as int + 1).drop_last() =~= segs@.take(i as int));
        if segs[i].writable && segs[i].len >= EVENT_SIZE {
            proof { lemma_first_slot_prefix(segs@, i as int + 1); }
            return Some(segs[i].addr);
        }
        i = i + 1;
    }
    assert(segs@.take(i as int) =~= segs@);
    None
}

proof fn lemma_first_slot_prefix(s: Seq<DescSegment>, k: int)
    requires
        0 < k <= s.len(),
        first_slot(s.take(k)) is Some,
    ensures
        first_slot(s) == first_slot(s.take(k)),
    decreases s.len(),
{
    if k < s.len() {
        assert(s.drop_last().take(k) =~= s.take(k));
        lemma_first_slot_prefix(s.drop_last(), k);
    } else {
        assert(s.take(k) =~= s);
    }
}

proof fn lemma_fit_count_step(chains: Seq<DescChain>, k: int)
    requires
        0 <= k,
    ensures
        fit_count(chains, k) <= fit_count(chains, k + 1) <= fit_count(chains, k) + 1,
        fit_count(chains, k) <= k,
    decreases k,
{
    if k > 0 {
        lemma_fit_count_step(chains, k - 1);
    }
}

/// The per-queue worker: the event index switch, a count of chains it had
/// to skip, and whether shutdown was signalled.
#[derive(Clone, Copy, Debug, PartialEq, Eq, Structural)]
pub struct QueueWorker {
    pub queue_index: u16,
    pub event_idx: bool,
    pub violations: u64,
    pub shut_down: bool,
}

impl QueueWorker {
    pub fn new(queue_index: u16) -> (r: Self)
        ensures
            r.queue_index == queue_index,
            !r.event_idx,
            r.violations == 0,
            !r.shut_down,
    {
        QueueWorker { queue_index, event_idx: false, violations: 0, shut_down: false }
    }

    /// One pass over the chains available at this moment, in order. Each
    /// chain with a writable segment of at least eight bytes receives the
    /// next pending event in its first such segment; a chain without one is
    /// consumed without a write and counted as a violation. The pass stops
    /// when the chains or the pending events run out. Delivered events leave
    /// `pending`; every write goes through memory map `generation`.
    pub fn drain(
        &mut self,
        generation: u64,
        chains: &Vec<DescChain>,
        pending: &mut Vec<VirtioInputEvent>,
    ) -> (r: DrainPass)
        ensures
            pass_shape(chains@, old(pending)@.len(), r.completions@.len(), r.delivered as nat),
            forall|j: int|
                0 <= j < r.completions@.len() ==> r.completions@[j] == completion_of(
                    chains@,
                    old(pending)@,
                    generation,
                    j,
                ),
            final(pending)@ == old(pending)@.skip(r.delivered as int),
            final(self).violations == saturated_add(
                old(self).violations,
                (r.completions@.len() - r.delivered) as nat,
            ),
            final(self).queue_index == old(self).queue_index,
            final(self).event_idx == old(self).event_idx,
            final(self).shut_down == old(self).shut_down,
    {
        let ghost events = pending@;
        let m = pending.len();
        let mut completions: Vec<Completion> = Vec::new();
        let mut delivered: usize = 0;
        let mut i: usize = 0;
        while i < chains.len() && delivered < m
            invariant
                i <= chains@.len(),
                m == events.len(),
                *pending == *old(pending),
                events == old(pending)@,
                delivered == fit_count(chains@, i as int),
                delivered <= m,
                i == 0 || fit_count(chains@, i - 1) < m,
                completions@.len() == i,
                forall|j: int|
                    0 <= j < i ==> completions@[j] == completion_of(chains@, events, generation, j),
                self.violations == saturated_add(old(self).violations, (i - delivered) as nat),
                self.queue_index == old(self).queue_index,
                self.event_idx == old(self).event_idx,
                self.shut_down == old(self).shut_down,
            decreases chains@.len() - i,
        {
            proof { lemma_fit_count_step(chains@, i as int); }
            let c = &chains[i];
            match find_slot(&c.segments) {
                Some(addr) => {
                    let w = EventWrite { addr, generation, event: pending[delivered] };
                    completions.push(Completion { head: c.head, write: Some(w) });
                    delivered = delivered + 1;
                },
                None => {
                    completions.push(Completion { head: c.head, write: None });
                    self.violations = self.violations.saturating_add(1);
                },
            }
            i = i + 1;
        }
        let mut rest: Vec<VirtioInputEvent> = Vec::new();
        let mut j: usize = delivered;
        while j < m
            invariant
                delivered <= j <= m,
                m == pending@.len(),
                rest@ == pending@.subrange(delivered as int, j as int),
            decreases m - j,
        {
            rest.push(pending[j]);
            assert(rest@ =~= pending@.subrange(delivered as int, j + 1));
            j = j + 1;
        }
        assert(rest@ =~= events.skip(delivered as int));
        *pending = rest;
        DrainPass { completions, delivered }
    }

    /// Whether to make another pass after a pass that consumed `consumed`
    /// chains, given whether the re-check found chains available.
    pub fn recheck_after_publish(&self, consumed: usize, more_available: bool) -> (r: bool)
        ensures
            r == rechecks(self.event_idx, consumed as nat, more_available),
    {
        self.event_idx && consumed > 0 && more_available
    }
}

proof fn lemma_fit_count_all(chains: Seq<DescChain>, k: int)
    requires
        0 <= k <= chains.len(),
        forall|j: int| 0 <= j < k ==> chain_fits(#[trigger] chains[j]),
    ensures
        fit_count(chains, k) == k,
    decreases k,
{
    if k > 0 {
        lemma_fit_count_all(chains, k - 1);
    }
}

/// With `n` chains that all have room and at least `n` events pending, a
/// pass delivers exactly `n` events and consumes exactly `n` chains, so the
/// other `m - n` events stay pending.
pub proof fn lemma_drain_fills_every_chain(chains: Seq<DescChain>, m: nat, k: nat, d: nat)
    requires
        forall|j: int| 0 <= j < chains.len() ==> chain_fits(#[trigger] chains[j]),
        m >= chains.len(),
        pass_shape(chains, m, k, d),
    ensures
        k == chains.len(),
        d == chains.len(),
{
    lemma_fit_count_all(chains, k as int);
    lemma_fit_count_all(chains, chains.len() as int);
}

/// With at least as many events as chains, a pass consumes every chain; a
/// chain without room is skipped alone, the chains with room each get an
/// event, and the violation count grows by the number of skipped chains.
pub proof fn lemma_drain_skips_small_chains(
    chains: Seq<DescChain>,
    events: Seq<VirtioInputEvent>,
    generation: u64,
    violations: u64,
    k: nat,
    d: nat,
)
    requires
        events.len() >= chains.len(),
        pass_shape(chains, events.len(), k, d),
    ensures
        k == chains.len(),
        d == fit_count(chains, chains.len() as int),
        forall|j: int|
            0 <= j < k ==> ((#[trigger] completion_of(chains, events, generation, j)).write is Some
                <==> chain_fits(chains[j])),
        saturated_add(violations, (k - d) as nat) == saturated_add(
            violations,
            (chains.len() - fit_count(chains, chains.len() as int)) as nat,
        ),
{
    lemma_fit_count_step(chains, k as int);
}

/// A chain that becomes available after the last check of a pass that
/// consumed chains, and is seen by the check that follows the publish of
/// their used buffers, is taken in the same kick when event index is on and
/// an event is still pending (another pass runs and consumes it first); with
/// event index off no pass follows and it waits for the next kick.
pub proof fn lemma_recheck_takes_late_chain(
    event_idx: bool,
    consumed: nat,
    late: Seq<DescChain>,
    m: nat,
    k: nat,
    d: nat,
)
    requires
        consumed > 0,
        late.len() > 0,
        m > 0,
        pass_shape(late, m, k, d),
    ensures
        event_idx ==> rechecks(event_idx, consumed, true) && k >= 1,
        !event_idx ==> !rechecks(event_idx, consumed, true),
{
}

/// The passes of one kick are bounded: where every pass but the last was
/// followed by a re-check, there are at most one more passes than chains
/// consumed over the kick, and a pass that consumes nothing is the last.
pub proof fn lemma_kick_passes_bounded(event_idx: bool, ks: Seq<nat>, more: Seq<bool>)
    requires
        ks.len() > 0,
        more.len() == ks.len(),
        forall|i: int| 0 <= i < ks.len() - 1 ==> #[trigger] rechecks(event_idx, ks[i], more[i]),
    ensures
        ks.len() <= total_consumed(ks) + 1,
        forall|i: int| 0 <= i < ks.len() && ks[i] == 0 ==> !rechecks(event_idx, ks[i], more[i]),
{
    let front = ks.drop_last();
    assert forall|i: int| 0 <= i < front.len() implies #[trigger] front[i] > 0 by {
        assert(rechecks(event_idx, ks[i], more[i]));
    }
    lemma_positive_passes(front);
}

proof fn lemma_positive_passes(ks: Seq<nat>)
    requires
        forall|i: int| 0 <= i < ks.len() ==> #[trigger] ks[i] > 0,
    ensures
        ks.len() <= total_consumed(ks),
    decreases ks.len(),
{
    if ks.len() > 0 {
        let front = ks.drop_last();
        assert forall|i: int| 0 <= i < front.len() implies #[trigger] front[i] > 0 by {
            assert(ks[i] > 0);
        }
        lemma_positive_passes(front);
        assert(ks.last() > 0);
    }
}

/// All the records of one pass are written through the memory map that the
/// pass was given; no chain mixes two maps.
pub proof fn lemma_pass_uses_one_map(
    chains: Seq<DescChain>,
    events: Seq<VirtioInputEvent>,
    generation: u64,
    j: int,
)
    requires
        0 <= j < chains.len(),
    ensures
        completion_of(chains, events, generation, j).write matches Some(w) ==> w.generation
            == generation,
{
}

} // verus!
