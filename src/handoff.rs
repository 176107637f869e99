//! Hand-off of drained batches to consumers, and the consumer's running
//! totals.
//!
//! Two policies are offered. Message passing sends each batch as an owned
//! message through an unbounded channel, so the producer never waits on the
//! consumer. The shared buffer is one record buffer that the producer appends
//! to and the consumer drains, each under the caller's lock (a mutex or a
//! reader/writer lock; both sides modify, so neither has an advantage). A
//! consumer that holds that lock for long stalls the producer's next append,
//! and with it the draining of the hardware FIFO: keep both critical sections
//! short.
use vstd::prelude::*;

use crate::acquisition::ReadBatch;
use crate::codec::{photon_special, special_bit};
use crate::simulation::SimulatedFifo;

verus! {

/// The receiving half of a flume channel, carried through unchanged.
#[verifier::external_type_specification]
#[verifier::external_body]
#[verifier::reject_recursive_types(T)]
pub struct ExReceiver<T>(flume::Receiver<T>);

/// Number of special (overflow or marker) records in `s`.
pub open spec fn special_count(s: Seq<u32>) -> nat
    decreases s.len(),
{
    if s.len() == 0 {
        0
    } else {
        special_count(s.drop_last()) + if special_bit(s.last()) {
            1nat
        } else {
            0nat
        }
    }
}

/// There are no more special records than records.
pub proof fn lemma_special_count_bound(s: Seq<u32>)
    ensures
        special_count(s) <= s.len(),
    decreases s.len(),
{
    if s.len() > 0 {
        lemma_special_count_bound(s.drop_last());
    }
}

/// Counts the special records of a slice of records.
pub fn count_special(records: &Vec<u32>) -> (r: u64)
    requires
        records@.len() <= u64::MAX,
    ensures
        r == special_count(records@),
{
    let mut total: u64 = 0;
    let mut i: usize = 0;
    while i < records.len()
        invariant
            i <= records@.len(),
            records@.len() <= u64::MAX,
            total == special_count(records@.subrange(0, i as int)),
        decreases records@.len() - i,
    {
        proof {
            lemma_special_count_bound(records@.subrange(0, i as int));
            assert(records@.subrange(0, i as int + 1).drop_last() =~= records@.subrange(0, i as int));
        }
        if photon_special(records[i]) {
            total = total + 1;
        }
        i = i + 1;
    }
    assert(records@.subrange(0, i as int) =~= records@);
    total
}

/// Running totals of a consumer: every record it processed, and how many of
/// them were special markers rather than photons.
#[derive(PartialEq, Eq, Structural, Debug, Clone, Copy)]
pub struct ConsumerStats {
    pub total_events: u64,
    pub special_markers: u64,
}

/// How a receive attempt ended.
#[derive(PartialEq, Eq, Structural, Debug, Clone, Copy)]
pub enum Received {
    /// A batch arrived and was added to the totals.
    Absorbed,
    /// The channel is closed: every sender is gone and nothing is left.
    Closed,
    /// A batch arrived but its count would overflow the totals; it was not added.
    TotalsFull,
}

impl ConsumerStats {
    /// Markers never outnumber the events that hold them.
    pub open spec fn wf(&self) -> bool {
        self.special_markers <= self.total_events
    }

    /// Totals of a consumer that has processed nothing.
    pub fn new() -> (r: ConsumerStats)
        ensures
            r.wf(),
            r.total_events == 0,
            r.special_markers == 0,
    {
        ConsumerStats { total_events: 0, special_markers: 0 }
    }

    /// Adds one batch to the totals.
    pub fn absorb(&mut self, batch: &ReadBatch)
        requires
            old(self).wf(),
            old(self).total_events + batch.records@.len() <= u64::MAX,
        ensures
            final(self).wf(),
            final(self).total_events == old(self).total_events + batch.records@.len(),
            final(self).special_markers == old(self).special_markers + special_count(
                batch.records@,
            ),
    {
        let specials = count_special(&batch.records);
        proof {
            lemma_special_count_bound(batch.records@);
        }
        self.total_events = self.total_events + batch.records.len() as u64;
        self.special_markers = self.special_markers + specials;
    }

    /// Whether a batch of `count` records still fits in the totals.
    pub fn has_room_for(&self, count: usize) -> (r: bool)
        ensures
            r == (self.total_events + count <= u64::MAX),
    {
        (count as u128) + (self.total_events as u128) <= u64::MAX as u128
    }

    /// Number of photons processed: the events that are not special markers.
    pub fn photons(&self) -> (r: u64)
        requires
            self.wf(),
        ensures
            r == self.total_events - self.special_markers,
    {
        self.total_events - self.special_markers
    }
}

/// Relies on flume::Receiver::recv: it blocks until a message arrives, and
/// fails only once every sender is gone and the channel is empty.
#[verifier::external_body]
fn receive_batch(receiver: &flume::Receiver<ReadBatch>) -> (r: Option<ReadBatch>) {
    receiver.recv().ok()
}

/// Acts on the outcome of one receive: `None` means the channel is closed;
/// a batch is added to the totals when it fits, and otherwise left out with
/// `TotalsFull`. Only an absorbed batch changes the totals.
pub fn absorb_received(stats: &mut ConsumerStats, received: Option<ReadBatch>) -> (r: Received)
    requires
        old(stats).wf(),
    ensures
        final(stats).wf(),
        match received {
            None => r == Received::Closed && *final(stats) == *old(stats),
            Some(b) => if old(stats).total_events + b.records@.len() <= u64::MAX {
                &&& r == Received::Absorbed
                &&& final(stats).total_events == old(stats).total_events + b.records@.len()
                &&& final(stats).special_markers == old(stats).special_markers + special_count(
                    b.records@,
                )
            } else {
                r == Received::TotalsFull && *final(stats) == *old(stats)
            },
        },
{
    match received {
        None => Received::Closed,
        Some(batch) => {
            if stats.has_room_for(batch.count()) {
                stats.absorb(&batch);
                Received::Absorbed
            } else {
                Received::TotalsFull
            }
        },
    }
}

/// Receives one batch through the message channel, blocking until one
/// arrives or the channel closes, and adds it to the totals when it fits
/// (see `absorb_received`). Zero-count batches change nothing.
pub fn receive_step(stats: &mut ConsumerStats, receiver: &flume::Receiver<ReadBatch>) -> (r:
    Received)
    requires
        old(stats).wf(),
    ensures
        final(stats).wf(),
        r != Received::Absorbed ==> *final(stats) == *old(stats),
        r == Received::Absorbed ==> exists|b: Seq<u32>|
            {
                &&& final(stats).total_events == old(stats).total_events + b.len()
                &&& #[trigger] special_count(b) + old(stats).special_markers
                    == final(stats).special_markers
            },
{
    let received = receive_batch(receiver);
    let ghost batch = received;
    let r = absorb_received(stats, received);
    proof {
        if r == Received::Absorbed {
            let b = batch->Some_0.records@;
            assert(special_count(b) + old(stats).special_markers == final(stats).special_markers);
        }
    }
    r
}

/// The shared record buffer of the lock-guarded policies. The count of the
/// buffer+count pair is the length of `records`.
#[derive(Debug, Clone, PartialEq)]
pub struct SharedBuffer {
    pub records: Vec<u32>,
}

impl SharedBuffer {
    /// An empty shared buffer.
    pub fn new() -> (r: SharedBuffer)
        ensures
            r.records@.len() == 0,
    {
        SharedBuffer { records: Vec::new() }
    }

    /// Number of records waiting for the consumer.
    pub fn count(&self) -> (r: usize)
        ensures
            r == self.records@.len(),
    {
        self.records.len()
    }

    /// Producer side: appends the first `count` records of the scratch
    /// buffer after those already waiting.
    pub fn append_read(&mut self, scratch: &Vec<u32>, count: usize)
        requires
            count <= scratch@.len(),
        ensures
            final(self).records@ == old(self).records@ + scratch@.subrange(0, count as int),
    {
        let ghost start = self.records@;
        let mut i: usize = 0;
        while i < count
            invariant
                i <= count,
                count <= scratch@.len(),
                self.records@ == start + scratch@.subrange(0, i as int),
            decreases count - i,
        {
            self.records.push(scratch[i]);
            i = i + 1;
            assert(self.records@ =~= start + scratch@.subrange(0, i as int));
        }
    }

    /// Consumer side: takes everything present, in order, and leaves the
    /// buffer empty.
    pub fn drain(&mut self) -> (r: ReadBatch)
        ensures
            r.records@ == old(self).records@,
            final(self).records@.len() == 0,
    {
        let mut records: Vec<u32> = Vec::new();
        std::mem::swap(&mut records, &mut self.records);
        ReadBatch { records }
    }
}

/// Consumer side of the shared buffer: drains it and adds what it held to
/// the totals when it fits; otherwise leaves both as they were and returns
/// false.
pub fn drain_shared(stats: &mut ConsumerStats, buffer: &mut SharedBuffer) -> (r: bool)
    requires
        old(stats).wf(),
    ensures
        final(stats).wf(),
        r == (old(stats).total_events + old(buffer).records@.len() <= u64::MAX),
        r ==> final(buffer).records@.len() == 0,
        r ==> final(stats).total_events == old(stats).total_events + old(buffer).records@.len(),
        r ==> final(stats).special_markers == old(stats).special_markers + special_count(
            old(buffer).records@,
        ),
        !r ==> *final(stats) == *old(stats) && final(buffer).records@ == old(buffer).records@,
{
    if !stats.has_room_for(buffer.count()) {
        return false;
    }
    let batch = buffer.drain();
    stats.absorb(&batch);
    true
}

/// The records of a sequence of batches, one batch after another.
pub open spec fn concat_batches(batches: Seq<Seq<u32>>) -> Seq<u32>
    decreases batches.len(),
{
    if batches.len() == 0 {
        Seq::empty()
    } else {
        concat_batches(batches.drop_last()) + batches.last()
    }
}

/// Where batch `i` starts among the records of `batches`.
pub open spec fn batch_offset(batches: Seq<Seq<u32>>, i: int) -> nat {
    concat_batches(batches.subrange(0, i)).len()
}

/// The records of a prefix of the batches are a prefix of all the records.
pub proof fn lemma_concat_prefix(batches: Seq<Seq<u32>>, k: int)
    requires
        0 <= k <= batches.len(),
    ensures
        concat_batches(batches.subrange(0, k)).len() <= concat_batches(batches).len(),
        concat_batches(batches) == concat_batches(batches.subrange(0, k)) + concat_batches(
            batches,
        ).subrange(concat_batches(batches.subrange(0, k)).len() as int, concat_batches(batches).len() as int),
    decreases batches.len() - k,
{
    if k == batches.len() {
        assert(batches.subrange(0, k) =~= batches);
        assert(concat_batches(batches).subrange(
            concat_batches(batches).len() as int,
            concat_batches(batches).len() as int,
        ) =~= Seq::<u32>::empty());
        assert(concat_batches(batches) =~= concat_batches(batches) + Seq::<u32>::empty());
    } else {
        lemma_concat_prefix(batches, k + 1);
        let p = batches.subrange(0, k);
        let q = batches.subrange(0, k + 1);
        assert(q.drop_last() =~= p);
        assert(q.last() == batches[k]);
        let all = concat_batches(batches);
        let cp = concat_batches(p);
        let cq = concat_batches(q);
        assert(cq == cp + batches[k]);
        assert(all =~= cp + all.subrange(cp.len() as int, all.len() as int));
    }
}

/// Order is kept across the hand-off: when batches are appended one after
/// another and then drained, each batch comes out intact, and every batch
/// comes out before the batches that were appended after it.
pub proof fn lemma_batches_in_order(batches: Seq<Seq<u32>>, i: int, j: int)
    requires
        0 <= i < j < batches.len(),
    ensures
        batch_offset(batches, i) + batches[i].len() <= batch_offset(batches, j),
        batch_offset(batches, j) + batches[j].len() <= concat_batches(batches).len(),
        concat_batches(batches).subrange(
            batch_offset(batches, i) as int,
            (batch_offset(batches, i) + batches[i].len()) as int,
        ) == batches[i],
{
    let all = concat_batches(batches);
    let pi = batches.subrange(0, i);
    let pi1 = batches.subrange(0, i + 1);
    let pj = batches.subrange(0, j);
    let pj1 = batches.subrange(0, j + 1);
    assert(pi1.drop_last() =~= pi);
    assert(pj1.drop_last() =~= pj);
    let ci = concat_batches(pi);
    let ci1 = concat_batches(pi1);
    assert(ci1 == ci + batches[i]);
    // the first i + 1 batches are a prefix of the first j batches
    lemma_concat_prefix(pj, i + 1);
    assert(pj.subrange(0, i + 1) =~= pi1);
    // the first j + 1 batches are a prefix of all of them
    lemma_concat_prefix(batches, j + 1);
    assert(concat_batches(pj1) == concat_batches(pj) + batches[j]);
    // the first i + 1 batches are a prefix of all of them
    lemma_concat_prefix(batches, i + 1);
    assert(all.subrange(0, ci1.len() as int) =~= ci1);
    assert(all.subrange(ci.len() as int, (ci.len() + batches[i].len()) as int) =~= ci1.subrange(
        ci.len() as int,
        ci1.len() as int,
    ));
    assert(ci1.subrange(ci.len() as int, ci1.len() as int) =~= batches[i]);
}

/// No event is lost on the way from the simulated device to a consumer.
/// Suppose the consumer had absorbed every record drained so far; the device
/// is then drained (`read_fifo` succeeding), the drained records are handed
/// over as one batch (`read_step` emitting the first `count` records of the
/// scratch buffer, which are the pending ones) and absorbed. If nothing is
/// pending afterwards, the consumer has absorbed every record generated.
pub proof fn lemma_no_event_loss(
    before: SimulatedFifo,
    after: SimulatedFifo,
    absorbed_before: nat,
    batch: Seq<u32>,
    absorbed_after: nat,
)
    requires
        before.wf(),
        after.wf(),
        absorbed_before == before.total_drained,
        after.total_generated == before.total_generated,
        after.total_drained == before.total_drained + before.pending@.len(),
        batch == before.pending@,
        absorbed_after == absorbed_before + batch.len(),
        after.pending@.len() == 0,
    ensures
        absorbed_after == after.total_drained,
        absorbed_after == after.total_generated,
{
}

} // verus!
