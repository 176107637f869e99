use multi_harp_patina::codec::encode_t3;
use multi_harp_patina::handoff::absorb_received;
use multi_harp_patina::{
    count_special, drain_shared, forward_read, photon_to_sync_counter, poll_step, read_step,
    receive_step, ConsumerStats, MultiHarpError, PatinaError, PollStep, ReadBatch, ReadStep,
    Received, SharedBuffer, SimulatedFifo, StopReason, SPECIAL, TTREADMAX,
};
use std::sync::atomic::{AtomicBool, Ordering};
use std::sync::{Arc, Mutex, RwLock};
use std::time::{Duration, Instant};

/// A scratch buffer as a read would leave it: `count` records whose sync
/// counters run from `first` upwards.
fn synthetic_read(first: u16, count: usize) -> Vec<u32> {
    let mut scratch = vec![0u32; TTREADMAX];
    for i in 0..count {
        scratch[i] = encode_t3(false, 0, 0, (first + i as u16) % 1024);
    }
    scratch
}

#[test]
fn message_channel_keeps_batch_order() {
    let (tx, rx) = flume::unbounded();
    let mut seen: Vec<u16> = Vec::new();
    let mut stats = ConsumerStats::new();
    for b in 0..50u16 {
        let scratch = synthetic_read(b * 3, 3);
        assert_eq!(forward_read(Ok(3), &scratch, &tx), None);
        if b % 7 == 0 {
            while let Ok(batch) = rx.try_recv() {
                seen.extend(batch.records.iter().map(|&r| photon_to_sync_counter(r)));
                stats.absorb(&batch);
            }
        }
    }
    drop(tx);
    while let Ok(batch) = rx.recv() {
        seen.extend(batch.records.iter().map(|&r| photon_to_sync_counter(r)));
        stats.absorb(&batch);
    }
    assert_eq!(seen, (0..150u16).collect::<Vec<_>>());
    assert_eq!(stats.total_events, 150);
}

#[test]
fn receive_step_until_closed() {
    let (tx, rx) = flume::unbounded();
    tx.send(ReadBatch { records: vec![SPECIAL, 1, 2] }).unwrap();
    tx.send(ReadBatch { records: vec![SPECIAL | 5] }).unwrap();
    drop(tx);
    let mut stats = ConsumerStats::new();
    assert_eq!(receive_step(&mut stats, &rx), Received::Absorbed);
    assert_eq!(receive_step(&mut stats, &rx), Received::Absorbed);
    assert_eq!(receive_step(&mut stats, &rx), Received::Closed);
    assert_eq!(stats.total_events, 4);
    assert_eq!(stats.special_markers, 2);
    assert_eq!(stats.photons(), 2);
}

#[test]
fn totals_that_would_overflow_are_not_added() {
    let (tx, rx) = flume::unbounded();
    tx.send(ReadBatch { records: vec![1, 2] }).unwrap();
    let mut stats = ConsumerStats { total_events: u64::MAX - 1, special_markers: 0 };
    assert_eq!(receive_step(&mut stats, &rx), Received::TotalsFull);
    assert_eq!(stats.total_events, u64::MAX - 1);
}

#[test]
fn mutex_shared_buffer_keeps_order() {
    let shared = Arc::new(Mutex::new(SharedBuffer::new()));
    let producer_side = Arc::clone(&shared);
    let mut seen: Vec<u16> = Vec::new();
    for b in 0..40u16 {
        let scratch = synthetic_read(b * 5, 5);
        producer_side.lock().unwrap().append_read(&scratch, 5);
        if b % 4 == 1 {
            let batch = shared.lock().unwrap().drain();
            seen.extend(batch.records.iter().map(|&r| photon_to_sync_counter(r)));
        }
    }
    let batch = shared.lock().unwrap().drain();
    seen.extend(batch.records.iter().map(|&r| photon_to_sync_counter(r)));
    assert_eq!(seen, (0..200u16).collect::<Vec<_>>());
    assert_eq!(shared.lock().unwrap().count(), 0);
}

#[test]
fn rwlock_shared_buffer_keeps_order() {
    let shared = Arc::new(RwLock::new(SharedBuffer::new()));
    let mut stats = ConsumerStats::new();
    for b in 0..10u16 {
        let scratch = synthetic_read(b * 2, 2);
        shared.write().unwrap().append_read(&scratch, 2);
        if b % 4 == 0 {
            assert!(drain_shared(&mut stats, &mut shared.write().unwrap()));
        }
    }
    assert_eq!(shared.read().unwrap().count(), 2);
    let rest = shared.write().unwrap().drain();
    let order: Vec<u16> = rest.records.iter().map(|&r| photon_to_sync_counter(r)).collect();
    assert_eq!(order, vec![18, 19]);
    assert_eq!(stats.total_events, 18);
}

#[test]
fn counts_special_markers() {
    assert_eq!(count_special(&vec![SPECIAL, 0, SPECIAL | 3, 7]), 2);
    assert_eq!(count_special(&Vec::new()), 0);
}

#[test]
fn poll_decisions() {
    assert_eq!(poll_step(&Ok(true), false), PollStep::ReadFifo);
    assert_eq!(poll_step(&Ok(true), true), PollStep::Stop(StopReason::Cancelled));
    assert_eq!(poll_step(&Ok(false), false), PollStep::Stop(StopReason::DeviceInactive));
    assert_eq!(
        poll_step(&Err(MultiHarpError::DeviceNotOpen), false),
        PollStep::Stop(StopReason::StatusFailed(MultiHarpError::DeviceNotOpen))
    );
}

#[test]
fn read_decisions() {
    let scratch = synthetic_read(10, 4);
    assert_eq!(read_step(Ok(0), &scratch), ReadStep::Continue);
    match read_step(Ok(4), &scratch) {
        ReadStep::Emit(b) => assert_eq!(b.records, scratch[..4].to_vec()),
        other => panic!("unexpected {:?}", other),
    }
    assert_eq!(read_step(Ok(-1), &scratch), ReadStep::Stop(StopReason::CountOutOfRange(-1)));
    let too_many = (TTREADMAX + 1) as i32;
    assert_eq!(
        read_step(Ok(too_many), &scratch),
        ReadStep::Stop(StopReason::CountOutOfRange(too_many))
    );
    let err: PatinaError<u32> = PatinaError::MultiHarpError(MultiHarpError::USBBulkReadFail);
    assert_eq!(read_step(Err(err.clone()), &scratch), ReadStep::Stop(StopReason::ReadFailed(err)));
}

/// Waits without sleeping, the way a read blocks inside the driver.
fn busy_wait(d: Duration) {
    let start = Instant::now();
    while start.elapsed() < d {}
}

#[test]
fn cancellation_stops_within_one_read() {
    let cancel = AtomicBool::new(false);
    let (tx, rx) = flume::unbounded();
    let mut fifo = SimulatedFifo::new();
    let mut scratch = vec![0u32; TTREADMAX];
    let mut turns = 0;
    let mut asked: Option<Instant> = None;
    let reason = loop {
        if let PollStep::Stop(reason) = poll_step(&Ok(true), cancel.load(Ordering::Relaxed)) {
            break reason;
        }
        turns += 1;
        if turns == 5 {
            // the stop request arrives just as a read begins
            cancel.store(true, Ordering::Relaxed);
            asked = Some(Instant::now());
        }
        fifo.tick(10, 4);
        busy_wait(Duration::from_millis(10));
        let read = fifo.read_fifo(&mut scratch);
        if let Some(reason) = forward_read(read, &scratch, &tx) {
            break reason;
        }
    };
    assert_eq!(reason, StopReason::Cancelled);
    assert_eq!(turns, 5);
    assert!(asked.unwrap().elapsed() < Duration::from_millis(50));
    assert_eq!(rx.try_iter().count(), 5);
}

#[test]
fn received_batches_are_counted_exactly() {
    let mut stats = ConsumerStats::new();
    let batch = ReadBatch { records: vec![SPECIAL, 4, SPECIAL | 9, 1, 2] };
    assert_eq!(absorb_received(&mut stats, Some(batch)), Received::Absorbed);
    assert_eq!(stats, ConsumerStats { total_events: 5, special_markers: 2 });
    assert_eq!(absorb_received(&mut stats, None), Received::Closed);
    assert_eq!(stats, ConsumerStats { total_events: 5, special_markers: 2 });
    let mut full = ConsumerStats { total_events: u64::MAX, special_markers: 0 };
    assert_eq!(absorb_received(&mut full, Some(ReadBatch { records: vec![1] })), Received::TotalsFull);
    assert_eq!(full.total_events, u64::MAX);
}
