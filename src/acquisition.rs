//! Decisions of the acquisition loop, which polls the device and drains its
//! FIFO into a reusable scratch buffer.
//!
//! The loop itself runs on a dedicated thread owned by the caller: each turn
//! it asks `poll_step` whether to read, performs the read, and hands the
//! result to `forward_read`, which emits the batch downstream or says why
//! the loop ends.
use vstd::prelude::*;

use crate::error::{MultiHarpError, PatinaError};

verus! {

/// The sending half of a flume channel, carried through unchanged.
#[verifier::external_type_specification]
#[verifier::external_body]
#[verifier::reject_recursive_types(T)]
pub struct ExSender<T>(flume::Sender<T>);

/// The unit moved across the hand-off boundary: the valid records of one
/// FIFO drain, in arrival order.
#[derive(Debug, Clone, PartialEq)]
pub struct ReadBatch {
    pub records: Vec<u32>,
}

impl ReadBatch {
    /// The first `count` records of a scratch buffer.
    pub fn from_scratch(scratch: &Vec<u32>, count: usize) -> (r: ReadBatch)
        requires
            count <= scratch@.len(),
        ensures
            r.records@ == scratch@.subrange(0, count as int),
    {
        let mut records: Vec<u32> = Vec::with_capacity(count);
        let mut i: usize = 0;
        while i < count
            invariant
                i <= count,
                count <= scratch@.len(),
                records@ == scratch@.subrange(0, i as int),
            decreases count - i,
        {
            records.push(scratch[i]);
            i = i + 1;
            assert(records@ =~= scratch@.subrange(0, i as int));
        }
        ReadBatch { records }
    }

    /// Number of records in the batch.
    pub fn count(&self) -> (r: usize)
        ensures
            r == self.records@.len(),
    {
        self.records.len()
    }
}

/// Why the acquisition loop ended. Each is a normal end of the session.
#[derive(Debug, Clone, PartialEq)]
pub enum StopReason {
    /// The device reports that the measurement is no longer active.
    DeviceInactive,
    /// The cancellation flag was set.
    Cancelled,
    /// The status query failed.
    StatusFailed(MultiHarpError),
    /// The FIFO read failed; a failed read is not retried.
    ReadFailed(PatinaError<u32>),
    /// The read reported a count outside the scratch buffer.
    CountOutOfRange(i32),
    /// Every consumer has gone, so nothing can be handed over any more.
    ConsumerGone,
}

/// What the loop does on one turn, before reading.
#[derive(Debug, Clone, PartialEq)]
pub enum PollStep {
    /// Read the FIFO once.
    ReadFifo,
    /// Leave the loop.
    Stop(StopReason),
}

/// What a FIFO read leads to.
#[derive(Debug, Clone, PartialEq)]
pub enum ReadStep {
    /// Hand this batch downstream and poll again.
    Emit(ReadBatch),
    /// Nothing arrived since the last poll: poll again at once.
    Continue,
    /// Leave the loop.
    Stop(StopReason),
}

/// The decision of one poll, from the device status and the cancellation flag.
pub open spec fn poll_decision(status: Result<bool, MultiHarpError>, cancelled: bool) -> PollStep {
    match status {
        Err(e) => PollStep::Stop(StopReason::StatusFailed(e)),
        Ok(active) => if !active {
            PollStep::Stop(StopReason::DeviceInactive)
        } else if cancelled {
            PollStep::Stop(StopReason::Cancelled)
        } else {
            PollStep::ReadFifo
        },
    }
}

/// Decides one turn of the loop: read only while the device reports an
/// active measurement and no cancellation was requested. The flag is
/// honoured at the first poll after it is set, so at most the read already
/// under way completes after a cancellation.
pub fn poll_step(status: &Result<bool, MultiHarpError>, cancelled: bool) -> (r: PollStep)
    ensures
        r == poll_decision(*status, cancelled),
        cancelled ==> r is Stop,
        r is ReadFifo <==> (*status == Ok::<bool, MultiHarpError>(true) && !cancelled),
{
    match status {
        Err(e) => PollStep::Stop(StopReason::StatusFailed(*e)),
        Ok(active) => {
            if !*active {
                PollStep::Stop(StopReason::DeviceInactive)
            } else if cancelled {
                PollStep::Stop(StopReason::Cancelled)
            } else {
                PollStep::ReadFifo
            }
        },
    }
}

/// Decides what a FIFO read leads to. A positive count within the scratch
/// buffer emits its first `count` records; a zero count polls again; a
/// failed read, or a count outside the buffer, ends the loop.
pub fn read_step(read: Result<i32, PatinaError<u32>>, scratch: &Vec<u32>) -> (r: ReadStep)
    ensures
        match read {
            Err(e) => r == ReadStep::Stop(StopReason::ReadFailed(e)),
            Ok(n) => if n == 0 {
                r == ReadStep::Continue
            } else if n < 0 || n > scratch@.len() {
                r == ReadStep::Stop(StopReason::CountOutOfRange(n))
            } else {
                (r matches ReadStep::Emit(b) && b.records@ == scratch@.subrange(0, n as int))
            },
        },
{
    match read {
        Err(e) => ReadStep::Stop(StopReason::ReadFailed(e)),
        Ok(n) => {
            if n == 0 {
                ReadStep::Continue
            } else if n < 0 || n as usize > scratch.len() {
                ReadStep::Stop(StopReason::CountOutOfRange(n))
            } else {
                ReadStep::Emit(ReadBatch::from_scratch(scratch, n as usize))
            }
        },
    }
}

/// Relies on flume::Sender::send: the message goes into the channel, and on
/// an unbounded channel the send fails only when every receiver is gone.
#[verifier::external_body]
fn send_batch(sender: &flume::Sender<ReadBatch>, batch: ReadBatch) -> (delivered: bool) {
    sender.send(batch).is_ok()
}

/// Acts on a FIFO read: emits the batch through `sender` and returns `None`
/// to keep polling, or the reason the loop ends. The acquisition loop hands
/// over the sending half of an unbounded channel, on which the send never
/// waits for the consumer; a bounded channel would make it wait when full.
pub fn forward_read(
    read: Result<i32, PatinaError<u32>>,
    scratch: &Vec<u32>,
    sender: &flume::Sender<ReadBatch>,
) -> (r: Option<StopReason>)
    ensures
        match read {
            Err(e) => r == Some(StopReason::ReadFailed(e)),
            Ok(n) => if n == 0 {
                r == None::<StopReason>
            } else if n < 0 || n > scratch@.len() {
                r == Some(StopReason::CountOutOfRange(n))
            } else {
                r == None::<StopReason> || r == Some(StopReason::ConsumerGone)
            },
        },
{
    match read_step(read, scratch) {
        ReadStep::Emit(batch) => {
            if send_batch(sender, batch) {
                None
            } else {
                Some(StopReason::ConsumerGone)
            }
        },
        ReadStep::Continue => None,
        ReadStep::Stop(reason) => Some(reason),
    }
}

} // verus!
