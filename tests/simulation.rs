use multi_harp_patina::codec::encode_t3;
use multi_harp_patina::{
    forward_read, photon_special, photon_to_channel, read_step, ConsumerStats, MultiHarpError,
    PatinaError, ReadStep, SimSession, SimulatedFifo, TTREADMAX,
};
use rand_distr::{Distribution, Poisson};

#[test]
fn tick_appends_photon_records() {
    let mut fifo = SimulatedFifo::new();
    fifo.tick(500, 4);
    assert_eq!(fifo.pending_count(), 500);
    assert_eq!(fifo.total_generated, 500);
    for &r in fifo.pending.iter() {
        assert!(!photon_special(r));
        assert!(photon_to_channel(r) < 4);
    }
    let first = fifo.pending.clone();
    fifo.tick(0, 4);
    fifo.tick(20, 1);
    assert_eq!(&fifo.pending[..500], &first[..]);
    assert!(fifo.pending[500..].iter().all(|&r| photon_to_channel(r) == 0));
}

#[test]
fn read_fifo_drains_in_order() {
    let mut fifo = SimulatedFifo::new();
    fifo.tick(1000, 4);
    let expected = fifo.pending.clone();
    let mut buffer = vec![7u32; TTREADMAX];
    assert_eq!(fifo.read_fifo(&mut buffer), Ok(1000));
    assert_eq!(&buffer[..1000], &expected[..]);
    assert_eq!(buffer[1000], 7);
    assert_eq!(fifo.pending_count(), 0);
    assert_eq!(fifo.total_drained, 1000);
    assert_eq!(fifo.read_fifo(&mut buffer), Ok(0));
    fifo.tick(3, 4);
    let fresh = fifo.pending.clone();
    assert_eq!(fifo.read_fifo(&mut buffer), Ok(3));
    assert_eq!(&buffer[..3], &fresh[..]);
    assert_eq!(&buffer[3..1000], &expected[3..]);
}

#[test]
fn short_buffer_is_rejected_without_change() {
    let mut fifo = SimulatedFifo::new();
    fifo.tick(250, 4);
    let expected = fifo.pending.clone();
    let mut short = vec![0u32; TTREADMAX - 1];
    match fifo.read_fifo(&mut short) {
        Err(PatinaError::ArgumentError(name, len, text)) => {
            assert_eq!(name, "buffer");
            assert_eq!(len, (TTREADMAX - 1) as u32);
            assert_eq!(text, "Buffer must be at least 1048576 long");
        }
        other => panic!("unexpected {:?}", other),
    }
    assert!(short.iter().all(|&x| x == 0));
    assert_eq!(fifo.pending, expected);
    assert_eq!(fifo.total_drained, 0);
    let mut buffer = vec![0u32; TTREADMAX];
    assert_eq!(fifo.read_fifo(&mut buffer), Ok(250));
    assert_eq!(&buffer[..250], &expected[..]);
}

#[test]
fn overflowed_fifo_fails_to_read() {
    let mut fifo = SimulatedFifo::new();
    fifo.tick(TTREADMAX + 1, 4);
    let mut buffer = vec![0u32; TTREADMAX];
    assert_eq!(
        fifo.read_fifo(&mut buffer),
        Err(PatinaError::MultiHarpError(MultiHarpError::FIFOResetFail))
    );
    assert_eq!(fifo.pending_count(), TTREADMAX + 1);
}

#[test]
fn session_lifecycle() {
    let mut s = SimSession::new();
    assert_eq!(s.stop(), Err(MultiHarpError::NotInitialized));
    assert!(matches!(s.start(0), Err(PatinaError::ArgumentError(_, 0, _))));
    assert!(!s.ctc_status(0));
    assert_eq!(s.start(3000), Ok(()));
    assert!(s.ctc_status(0));
    assert!(s.ctc_status(2999));
    assert!(!s.ctc_status(3000));
    assert!(s.keeps_generating(true, 10));
    assert!(!s.keeps_generating(false, 10));
    assert!(!s.keeps_generating(true, 3001));
    assert_eq!(s.start(1000), Err(PatinaError::MultiHarpError(MultiHarpError::InstanceRunning)));
    assert_eq!(s.stop(), Ok(()));
    assert!(!s.ctc_status(0));
    assert_eq!(s.stop(), Err(MultiHarpError::NotInitialized));
}

#[test]
fn no_event_loss_when_polling_keeps_up() {
    let mut fifo = SimulatedFifo::new();
    let mut stats = ConsumerStats::new();
    let mut scratch = vec![0u32; TTREADMAX];
    let poisson = Poisson::new(50.0).unwrap();
    let mut generated: u64 = 0;
    for _ in 0..2000 {
        let n = poisson.sample(&mut rand::thread_rng()) as usize;
        fifo.tick(n, 4);
        generated += n as u64;
        let read = fifo.read_fifo(&mut scratch);
        match read_step(read, &scratch) {
            ReadStep::Emit(batch) => stats.absorb(&batch),
            ReadStep::Continue => {}
            ReadStep::Stop(r) => panic!("stopped: {:?}", r),
        }
    }
    assert_eq!(fifo.total_generated, generated);
    assert_eq!(stats.total_events, generated);
    assert_eq!(stats.special_markers, 0);
    assert_eq!(stats.photons(), generated);
}

#[test]
fn poisson_fidelity_of_tick_counts() {
    let rate_hz = 100_000.0f64;
    let tick_s = 0.001f64;
    let poisson = Poisson::new(rate_hz * tick_s).unwrap();
    let mut fifo = SimulatedFifo::new();
    let mut scratch = vec![0u32; TTREADMAX];
    let mut total: u64 = 0;
    let ticks = 10_000;
    for _ in 0..ticks {
        let n = poisson.sample(&mut rand::thread_rng()) as usize;
        fifo.tick(n, 4);
        total += fifo.read_fifo(&mut scratch).unwrap() as u64;
    }
    let mean = total as f64 / ticks as f64;
    assert!((mean - rate_hz * tick_s).abs() < 0.05 * rate_hz * tick_s);
}

#[test]
fn forwarding_reports_consumer_gone() {
    let (tx, rx) = flume::unbounded();
    drop(rx);
    let scratch = vec![encode_t3(false, 1, 2, 3); 4];
    assert_eq!(forward_read(Ok(2), &scratch, &tx), Some(multi_harp_patina::StopReason::ConsumerGone));
    assert_eq!(forward_read(Ok(0), &scratch, &tx), None);
}

/// Runs the simulated source for `run_ms` milliseconds of simulated time in
/// 1 ms ticks, as the generation thread would, and reads the FIFO once.
fn simulate_then_read(rate_hz: f64, acquisition_time: i32, run_ms: u64) -> i32 {
    let mut session = SimSession::new();
    session.start(acquisition_time).unwrap();
    let mut fifo = SimulatedFifo::new();
    let mut rng = rand::thread_rng();
    let mut elapsed_ms: u64 = 0;
    while elapsed_ms < run_ms && session.keeps_generating(true, elapsed_ms) {
        let n = Poisson::new(rate_hz * 0.001).unwrap().sample(&mut rng) as usize;
        fifo.tick(n, 4);
        elapsed_ms += 1;
    }
    let mut buffer = vec![0u32; TTREADMAX];
    let n = fifo.read_fifo(&mut buffer).unwrap();
    session.stop().unwrap();
    n
}

#[test]
fn test_basic_debug_multiharp() {
    // stopped by the caller after 2 s of a 3 s measurement
    let n_measurements = simulate_then_read(5e5, 3000, 2000);
    assert!((n_measurements as f64) < 11.0e5 && (n_measurements as f64) > 9e5);

    // stopped by the acquisition time of 1 s, read after 2 s
    let n_measurements = simulate_then_read(8000.0, 1000, 2000);
    assert!((n_measurements as f64) < 9000.0 && (n_measurements as f64) > 7000.0);
}
