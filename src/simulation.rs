//! The simulated device: its internal event buffer, drained by `read_fifo`,
//! and the state of its measurement session.
//!
//! The generation thread, the clock and the Poisson draw of each tick's
//! photon count stay with the caller; this module decides and records.
use vstd::prelude::*;

use crate::codec::{channel_bits, encode_t3, special_bit};
use crate::consts::{ACQTMAX, ACQTMIN, TTREADMAX};
use crate::error::{is_argument_error, CheckedResult, MultiHarpError, MultiHarpResult, PatinaError};
use crate::settings::{check_acquisition_time, check_fifo_buffer};

verus! {

/// Relies on rand::random: a value drawn from the thread-local generator.
/// Nothing is promised of the value.
pub assume_specification<T>[ rand::random::<T> ]() -> (r: T)
    where
        rand::distributions::Standard: rand::distributions::Distribution<T>,
;

/// A record that the simulated source may emit for a device with
/// `num_channels` channels: a photon (not special) on one of those channels.
/// Its T3 arrival tag and sync counter may take any value of their fields.
pub open spec fn is_generated_record(v: u32, num_channels: u32) -> bool {
    !special_bit(v) && channel_bits(v) < num_channels
}

/// The internal event buffer of the simulated device.
///
/// `pending` holds the records generated since the last drain, oldest first.
/// The two counters record how many were ever generated and drained, so that
/// `total_generated == total_drained + pending.len()` at all times.
pub struct SimulatedFifo {
    pub pending: Vec<u32>,
    pub total_generated: u64,
    pub total_drained: u64,
}

impl SimulatedFifo {
    /// Every generated record is either drained or still pending.
    pub open spec fn wf(&self) -> bool {
        self.total_generated as int == self.total_drained as int + self.pending@.len()
    }

    /// An empty buffer with nothing generated.
    pub fn new() -> (r: SimulatedFifo)
        ensures
            r.wf(),
            r.pending@.len() == 0,
            r.total_generated == 0,
            r.total_drained == 0,
    {
        SimulatedFifo { pending: Vec::new(), total_generated: 0, total_drained: 0 }
    }

    /// Number of records waiting to be drained.
    pub fn pending_count(&self) -> (r: usize)
        ensures
            r == self.pending@.len(),
    {
        self.pending.len()
    }

    /// Appends `n_photons` freshly encoded T3 photon records, one tick's worth
    /// of events. Each record's channel is drawn uniformly below
    /// `num_channels`; its arrival tag and sync counter are drawn over the
    /// full range of their fields.
    pub fn tick(&mut self, n_photons: usize, num_channels: u8)
        requires
            old(self).wf(),
            1 <= num_channels <= 64,
            old(self).total_generated + n_photons <= u64::MAX,
        ensures
            final(self).wf(),
            final(self).pending@.len() == old(self).pending@.len() + n_photons,
            final(self).pending@.subrange(0, old(self).pending@.len() as int) == old(self).pending@,
            forall|i: int|
                old(self).pending@.len() <= i < final(self).pending@.len() ==> is_generated_record(
                    #[trigger] final(self).pending@[i],
                    num_channels as u32,
                ),
            final(self).total_generated == old(self).total_generated + n_photons,
            final(self).total_drained == old(self).total_drained,
    {
        let ghost start = self.pending@;
        let mut k: usize = 0;
        while k < n_photons
            invariant
                k <= n_photons,
                1 <= num_channels <= 64,
                self.wf(),
                self.pending@.len() == start.len() + k,
                self.pending@.subrange(0, start.len() as int) == start,
                forall|i: int|
                    start.len() <= i < self.pending@.len() ==> is_generated_record(
                        #[trigger] self.pending@[i],
                        num_channels as u32,
                    ),
                self.total_generated == old(self).total_generated + k,
                self.total_drained == old(self).total_drained,
                old(self).total_generated + n_photons <= u64::MAX,
                start == old(self).pending@,
            decreases n_photons - k,
        {
            let channel: u32 = rand::random::<u32>() % (num_channels as u32);
            let arrival: u32 = rand::random::<u32>() % 0x8000;
            let sync: u32 = rand::random::<u32>() % 0x400;
            let record = encode_t3(false, channel as u8, arrival as u16, sync as u16);
            let ghost before = self.pending@;
            self.pending.push(record);
            self.total_generated = self.total_generated + 1;
            k = k + 1;
            assert(self.pending@.subrange(0, start.len() as int) =~= before.subrange(
                0,
                start.len() as int,
            ));
        }
    }

    /// Drains the buffer into the front of `buffer`, returning how many
    /// records were copied. `buffer` must hold at least `TTREADMAX` records.
    ///
    /// A short buffer is rejected with an `ArgumentError` and nothing changes.
    /// More than `TTREADMAX` pending records means the FIFO has overflowed:
    /// the read fails with `FIFOResetFail` and nothing changes. Otherwise the
    /// pending records are copied in order, the rest of `buffer` is left as it
    /// was, and the buffer is emptied.
    pub fn read_fifo(&mut self, buffer: &mut [u32]) -> (r: CheckedResult<i32, u32>)
        requires
            old(self).wf(),
        ensures
            final(self).wf(),
            old(buffer)@.len() < TTREADMAX ==> {
                &&& r matches Err(e) && is_argument_error(
                    e,
                    "buffer"@,
                    old(buffer)@.len() as u32,
                    "Buffer must be at least 1048576 long"@,
                )
                &&& *final(self) == *old(self)
                &&& final(buffer)@ == old(buffer)@
            },
            old(buffer)@.len() >= TTREADMAX && old(self).pending@.len() > TTREADMAX ==> {
                &&& r == Err::<i32, PatinaError<u32>>(
                    PatinaError::MultiHarpError(MultiHarpError::FIFOResetFail),
                )
                &&& *final(self) == *old(self)
                &&& final(buffer)@ == old(buffer)@
            },
            old(buffer)@.len() >= TTREADMAX && old(self).pending@.len() <= TTREADMAX ==> {
                &&& r == Ok::<i32, PatinaError<u32>>(old(self).pending@.len() as i32)
                &&& final(buffer)@.len() == old(buffer)@.len()
                &&& final(buffer)@.subrange(0, old(self).pending@.len() as int) == old(self).pending@
                &&& final(buffer)@.subrange(old(self).pending@.len() as int, old(buffer)@.len() as int)
                    == old(buffer)@.subrange(old(self).pending@.len() as int, old(buffer)@.len() as int)
                &&& final(self).pending@.len() == 0
                &&& final(self).total_generated == old(self).total_generated
                &&& final(self).total_drained == old(self).total_drained + old(self).pending@.len()
            },
    {
        let len = buffer.len();
        if let Err(e) = check_fifo_buffer(len) {
            return Err(e);
        }
        let n = self.pending.len();
        if n > TTREADMAX {
            return Err(PatinaError::MultiHarpError(MultiHarpError::FIFOResetFail));
        }
        let ghost old_buffer = buffer@;
        let mut i: usize = 0;
        while i < n
            invariant
                i <= n,
                n == self.pending@.len(),
                n <= len,
                buffer@.len() == len,
                len == old_buffer.len(),
                forall|j: int| 0 <= j < i ==> buffer@[j] == self.pending@[j],
                forall|j: int| i <= j < len ==> buffer@[j] == old_buffer[j],
            decreases n - i,
        {
            let v = self.pending[i];
            buffer[i] = v;
            i = i + 1;
        }
        assert(buffer@.subrange(0, n as int) =~= self.pending@);
        assert(buffer@.subrange(n as int, len as int) =~= old_buffer.subrange(n as int, len as int));
        self.pending = Vec::new();
        self.total_drained = self.total_drained + n as u64;
        Ok(n as i32)
    }
}

/// State of one measurement session of the simulated device.
///
/// `active` is cleared by `stop`; `generating` tells whether a generation
/// thread was started and must be joined on stop.
#[derive(PartialEq, Eq, Structural, Debug, Clone, Copy)]
pub struct SimSession {
    pub active: bool,
    pub acquisition_time_ms: i32,
    pub generating: bool,
}

impl SimSession {
    /// A session that was never started.
    pub fn new() -> (r: SimSession)
        ensures
            !r.active,
            !r.generating,
            r.acquisition_time_ms == 0,
    {
        SimSession { active: false, acquisition_time_ms: 0, generating: false }
    }

    /// Starts a measurement of `acquisition_time` milliseconds.
    ///
    /// The time must lie in `ACQTMIN..=ACQTMAX`, else an `ArgumentError`.
    /// A session whose generation thread still runs must be stopped first:
    /// starting it again fails with `InstanceRunning`. On failure nothing
    /// changes.
    pub fn start(&mut self, acquisition_time: i32) -> (r: CheckedResult<(), i32>)
        ensures
            (acquisition_time < ACQTMIN || acquisition_time > ACQTMAX) ==> {
                &&& r matches Err(e) && is_argument_error(
                    e,
                    "acquisition_time"@,
                    acquisition_time,
                    "Acquisition time must be between 1 and 360000000"@,
                )
                &&& *final(self) == *old(self)
            },
            ACQTMIN <= acquisition_time <= ACQTMAX && old(self).generating ==> {
                &&& r == Err::<(), PatinaError<i32>>(
                    PatinaError::MultiHarpError(MultiHarpError::InstanceRunning),
                )
                &&& *final(self) == *old(self)
            },
            ACQTMIN <= acquisition_time <= ACQTMAX && !old(self).generating ==> {
                &&& r is Ok
                &&& *final(self) == (SimSession {
                    active: true,
                    acquisition_time_ms: acquisition_time,
                    generating: true,
                })
            },
    {
        if let Err(e) = check_acquisition_time(acquisition_time) {
            return Err(e);
        }
        if self.generating {
            return Err(PatinaError::MultiHarpError(MultiHarpError::InstanceRunning));
        }
        self.active = true;
        self.acquisition_time_ms = acquisition_time;
        self.generating = true;
        Ok(())
    }

    /// Whether the measurement is logically active `elapsed_ms` milliseconds
    /// after its start: not stopped, and its acquisition time not yet over.
    pub fn ctc_status(&self, elapsed_ms: u64) -> (r: bool)
        ensures
            r == (self.active && elapsed_ms < self.acquisition_time_ms),
    {
        self.active && self.acquisition_time_ms >= 0 && elapsed_ms < self.acquisition_time_ms as u64
    }

    /// Whether the generation thread goes on for another tick: while it is
    /// asked to acquire and the acquisition time is not over.
    pub fn keeps_generating(&self, acquiring: bool, elapsed_ms: u64) -> (r: bool)
        ensures
            r == (acquiring && elapsed_ms < self.acquisition_time_ms),
    {
        acquiring && self.acquisition_time_ms >= 0 && elapsed_ms < self.acquisition_time_ms as u64
    }

    /// Stops the measurement. The session is inactive afterwards; stopping a
    /// session that was never started is the error `NotInitialized`.
    pub fn stop(&mut self) -> (r: MultiHarpResult<()>)
        ensures
            !final(self).active,
            !final(self).generating,
            final(self).acquisition_time_ms == old(self).acquisition_time_ms,
            old(self).generating ==> r is Ok,
            !old(self).generating ==> r == Err::<(), MultiHarpError>(MultiHarpError::NotInitialized),
    {
        let was_generating = self.generating;
        self.active = false;
        self.generating = false;
        if was_generating {
            Ok(())
        } else {
            Err(MultiHarpError::NotInitialized)
        }
    }
}

} // verus!
