//! Control layer for a time-correlated single-photon counting instrument:
//! the event-record codec, the simulated event source, the decisions of the
//! acquisition loop and the hand-off of drained batches to consumers.
use vstd::prelude::*;

pub mod acquisition;
pub mod codec;
pub mod consts;
pub mod discovery;
pub mod error;
pub mod handoff;
pub mod settings;
pub mod simulation;

pub use crate::codec::{
    photon_special, photon_to_arrival_t2, photon_to_arrival_t3, photon_to_channel,
    photon_to_sync_counter,
};
pub use crate::acquisition::{
    forward_read, poll_step, read_step, PollStep, ReadBatch, ReadStep, StopReason,
};
pub use crate::discovery::{
    available_devices, check_serial, list_devices_and_status, DeviceProbe, DeviceRegistry,
    MHDeviceIterator,
};
pub use crate::handoff::{count_special, drain_shared, receive_step, ConsumerStats, Received, SharedBuffer};
pub use crate::settings::MultiHarpConfig;
pub use crate::simulation::{SimSession, SimulatedFifo};
pub use crate::error::{mh_to_result, CheckedResult, MultiHarpError, MultiHarpResult, PatinaError};
pub use crate::consts::{
    ExtFpgaLoopback, ExtFpgaMode, FeatureMasks, Flags, MeasurementControlMode, MeasurementMode,
    ReferenceClock, TriggerEdge, WRMode,
};
pub use crate::consts::{ACQTMAX, ACQTMIN, BINSTEPSMAX, CHANNEL, CHANNEL_OFFS_MAX, CHANNEL_OFFS_MIN, DEBUGSTRLEN, EXTDEADMAX, EXTDEADMIN, HISTOTAG_T2, HISTOTAG_T3, HOLDOFFMAX, HOLDOFFMIN, HOLDTIMEMAX, HOLDTIMEMIN, HYSTCODEMAX, HYSTCODEMIN, INVERSEMAX, INVERSEMIN, MATCHCNTMAX, MATCHCNTMIN, MAXDEVNUM, MAXHISTLEN, MAXINPCHAN, MAXLENCODE, MINLENCODE, OFFSETMAX, OFFSETMIN, PASSCHANSMAX, PASSCHANSMIN, ROWIDXMAX, ROWIDXMIN, SPECIAL, STOPCNTMAX, STOPCNTMIN, SYNCDIVMAX, SYNCDIVMIN, SYNCTAG, TIMERANGEMAX, TIMERANGEMIN, TRGLVLMAX, TRGLVLMIN, TRIGOUTMAX, TRIGOUTMIN, TTREADMAX, USECHANSMAX, USECHANSMIN, WARNING_COUNTS_DROPPED, WARNING_DIVIDER_GREATER_ONE, WARNING_DIVIDER_TOO_SMALL, WARNING_INPT_RATE_RATIO, WARNING_INPT_RATE_TOO_HIGH, WARNING_INPT_RATE_ZERO, WARNING_OFFSET_UNNECESSARY, WARNING_SYNC_RATE_TOO_HIGH, WARNING_SYNC_RATE_VERY_LOW, WARNING_SYNC_RATE_ZERO, WARNING_TIME_SPAN_TOO_SMALL, WARNLEN, WR_MAC_LEN, WR_SCRIPT_LEN, WR_STATUS_IS_NEW, WR_STATUS_LINK_ON, WR_STATUS_LINK_UP, WR_STATUS_LOCKED_CALIBD, WR_STATUS_MAC_SET, WR_STATUS_MODE_BITMASK, WR_STATUS_MODE_GMASTER, WR_STATUS_MODE_MASTER, WR_STATUS_MODE_OFF, WR_STATUS_MODE_SLAVE, WR_STATUS_PTP_BITMASK, WR_STATUS_PTP_LISTENING, WR_STATUS_PTP_MASTER, WR_STATUS_PTP_MSTRWRMLCK, WR_STATUS_PTP_SLAVE, WR_STATUS_PTP_UNCLWRSLCK, WR_STATUS_SERVO_BITMASK, WR_STATUS_SERVO_SYNC_NSEC, WR_STATUS_SERVO_SYNC_PHASE, WR_STATUS_SERVO_SYNC_SEC, WR_STATUS_SERVO_TRCK_PHASE, WR_STATUS_SERVO_UNINITLZD, WR_STATUS_SERVO_WAIT_OFFST, WR_TERM_LEN};

verus! {

/// Asynchronous access to a device. No operation is offered yet.
pub trait AsyncMultiHarpDevice {

}

} // verus!
