//! Hardware constants of the instrument and its library.
use vstd::prelude::*;

verus! {

/// Max number of USB devices
pub const MAXDEVNUM: i32 = 8;

/// Number of records in the FIFO buffer
pub const TTREADMAX: usize = 1048576;

/// Special marker for TTTR mode: overflow and markers
pub const SPECIAL: u32 = 0x8000_0000;

/// Channel mask for TTTR mode (bits 25 to 30)
pub const CHANNEL: u32 = 0x7e00_0000;

/// Arrival time mask for T2 mode (bits 0 to 24)
pub const HISTOTAG_T2: u32 = 0x01ff_ffff;

/// Arrival time mask for T3 mode (bits 10 to 24)
pub const HISTOTAG_T3: u32 = 0x01ff_fc00;

/// Sync counter, the 10 lowest bits, for T3 only
pub const SYNCTAG: u32 = 0x0000_03ff;

/// Max number of physical input channels
pub const MAXINPCHAN: i32 = 64;

/// Debug string length
pub const DEBUGSTRLEN: usize = 65536;

/// Max number of binning steps, can get actual number with `MH_GetBaseResolution`
pub const BINSTEPSMAX: i32 = 24;

/// Max number of histogram bins
pub const MAXHISTLEN: usize = 65536;

/// Min sync divider value
pub const SYNCDIVMIN: i32 = 1;

/// Max sync divider value
pub const SYNCDIVMAX: i32 = 16;

/// Lowest trigger level, in millivolts
pub const TRGLVLMIN: i32 = -1200;

/// Highest trigger level, in millivolts
pub const TRGLVLMAX: i32 = 1200;

/// picoseconds
pub const CHANNEL_OFFS_MIN: i32 = -99999;

/// picoseconds
pub const CHANNEL_OFFS_MAX: i32 = 99999;

/// picoseconds
pub const EXTDEADMIN: i32 = 800;

/// picoseconds
pub const EXTDEADMAX: i32 = 160000;

/// Nanoseconds
pub const OFFSETMIN: i32 = 0;

/// Nanoseconds
pub const OFFSETMAX: i32 = 100000000;

/// Shortest acquisition time, in milliseconds
pub const ACQTMIN: i32 = 1;

/// Longest acquisition time, in milliseconds (100 hours)
pub const ACQTMAX: i32 = 360000000;

/// Lowest stop count
pub const STOPCNTMIN: u32 = 1;

/// Highest stop count: 32 bits of memory
pub const STOPCNTMAX: u32 = 4294967295;

/// Trigger output off
pub const TRIGOUTMIN: i32 = 0;

/// In units of 100 ns
pub const TRIGOUTMAX: i32 = 16777215;

/// 0 ns
pub const HOLDOFFMIN: i32 = 0;

/// 25.5 microseconds
pub const HOLDOFFMAX: i32 = 25500;

/// approx 3 mV
pub const HYSTCODEMIN: i32 = 0;

/// approx 35 mV
pub const HYSTCODEMAX: i32 = 1;

/// 0 ms
pub const HOLDTIMEMIN: i32 = 0;

/// 255 ms
pub const HOLDTIMEMAX: i32 = 255;

/// Shortest histogram length code
pub const MINLENCODE: i32 = 0;

/// Longest histogram length code, the default
pub const MAXLENCODE: i32 = 6;

/// length of warning string
pub const WARNLEN: usize = 16384;

// Bits of the warning word that the device reports.

pub const WARNING_SYNC_RATE_ZERO: i32 = 0x0001;

pub const WARNING_SYNC_RATE_VERY_LOW: i32 = 0x0002;

pub const WARNING_SYNC_RATE_TOO_HIGH: i32 = 0x0004;

pub const WARNING_INPT_RATE_ZERO: i32 = 0x0010;

pub const WARNING_INPT_RATE_TOO_HIGH: i32 = 0x0040;

pub const WARNING_INPT_RATE_RATIO: i32 = 0x0100;

pub const WARNING_DIVIDER_GREATER_ONE: i32 = 0x0200;

pub const WARNING_TIME_SPAN_TOO_SMALL: i32 = 0x0400;

pub const WARNING_OFFSET_UNNECESSARY: i32 = 0x0800;

pub const WARNING_DIVIDER_TOO_SMALL: i32 = 0x1000;

pub const WARNING_COUNTS_DROPPED: i32 = 0x2000;

// Limits of the event filter settings.

pub const ROWIDXMIN: i32 = 0;

pub const ROWIDXMAX: i32 = 8;

pub const MATCHCNTMIN: i32 = 1;

pub const MATCHCNTMAX: i32 = 6;

pub const INVERSEMIN: i32 = 0;

pub const INVERSEMAX: i32 = 1;

/// picoseconds
pub const TIMERANGEMIN: i32 = 0;

/// picoseconds
pub const TIMERANGEMAX: i32 = 160000;

pub const USECHANSMIN: i32 = 0x000;

pub const USECHANSMAX: i32 = 0x1FF;

pub const PASSCHANSMIN: i32 = 0x000;

pub const PASSCHANSMAX: i32 = 0x1FF;

/// White Rabbit link is switched on
pub const WR_STATUS_LINK_ON: i32 = 0x00000001;

/// WR link is established
pub const WR_STATUS_LINK_UP: i32 = 0x00000002;

/// White Rabbit mode bit mask
pub const WR_STATUS_MODE_BITMASK: i32 = 0x0000000C;

pub const WR_STATUS_MODE_OFF: i32 = 0x00000000;

pub const WR_STATUS_MODE_SLAVE: i32 = 0x00000004;

pub const WR_STATUS_MODE_MASTER: i32 = 0x00000008;

pub const WR_STATUS_MODE_GMASTER: i32 = 0x0000000C;

/// Locked and calibrated
pub const WR_STATUS_LOCKED_CALIBD: i32 = 0x00000010;

/// White Rabbit PTP bit mask
pub const WR_STATUS_PTP_BITMASK: i32 = 0x000000E0;

pub const WR_STATUS_PTP_LISTENING: i32 = 0x00000020;

pub const WR_STATUS_PTP_UNCLWRSLCK: i32 = 0x00000040;

pub const WR_STATUS_PTP_SLAVE: i32 = 0x00000060;

pub const WR_STATUS_PTP_MSTRWRMLCK: i32 = 0x00000080;

pub const WR_STATUS_PTP_MASTER: i32 = 0x000000A0;

/// White Rabbit servo bit mask
pub const WR_STATUS_SERVO_BITMASK: i32 = 0x00000700;

pub const WR_STATUS_SERVO_UNINITLZD: i32 = 0x00000100;

pub const WR_STATUS_SERVO_SYNC_SEC: i32 = 0x00000200;

pub const WR_STATUS_SERVO_SYNC_NSEC: i32 = 0x00000300;

pub const WR_STATUS_SERVO_SYNC_PHASE: i32 = 0x00000400;

pub const WR_STATUS_SERVO_WAIT_OFFST: i32 = 0x00000500;

pub const WR_STATUS_SERVO_TRCK_PHASE: i32 = 0x00000600;

pub const WR_MAC_LEN: usize = 6;

pub const WR_SCRIPT_LEN: usize = 256;

pub const WR_TERM_LEN: usize = 513;

/// User defined MAC address is set
pub const WR_STATUS_MAC_SET: i32 = 0x00000800;

/// Status updated since last check
pub const WR_STATUS_IS_NEW: u32 = 0x80000000;

/// Measurement modes of the instrument
#[derive(Debug, Clone, Copy, PartialEq, Eq, Structural)]
pub enum MeasurementMode {
    Histogramming,
    T2,
    T3,
}

impl MeasurementMode {
    /// The mode code that the instrument's library expects.
    pub open spec fn spec_code(self) -> i32 {
        match self {
            MeasurementMode::Histogramming => 0,
            MeasurementMode::T2 => 2,
            MeasurementMode::T3 => 3,
        }
    }

    /// The mode code that the instrument's library expects.
    pub fn code(&self) -> (r: i32)
        ensures
            r == self.spec_code(),
    {
        match self {
            MeasurementMode::Histogramming => 0,
            MeasurementMode::T2 => 2,
            MeasurementMode::T3 => 3,
        }
    }
}

/// Which clock the instrument is referenced to
#[derive(Debug, Clone, Copy, PartialEq, Eq, Structural)]
pub enum ReferenceClock {
    /// Internal oscillator
    Internal,
    /// 10 MHz external clock
    External,
    /// White Rabbit master with generic partner
    WRMaster,
    /// White Rabbit slave with generic partner
    WRSlave,
    /// White Rabbit grandmaster with generic partner
    WRGrandmaster,
    /// 10 MHz + PPS from GPS receiver
    PpsGps,
    /// 10 MHz + PPS + time via UART from GPS receiver
    PpsUart,
    /// White Rabbit master with MultiHarp partner
    WrMasterMH,
    /// White Rabbit slave with MultiHarp partner
    WrSlaveMH,
    /// White Rabbit grandmaster with MultiHarp partner
    WrGrandmasterMH,
}

impl ReferenceClock {
    /// The clock code that the instrument's library expects.
    pub open spec fn spec_code(self) -> i32 {
        match self {
            ReferenceClock::Internal => 0,
            ReferenceClock::External => 1,
            ReferenceClock::WRMaster => 2,
            ReferenceClock::WRSlave => 3,
            ReferenceClock::WRGrandmaster => 4,
            ReferenceClock::PpsGps => 5,
            ReferenceClock::PpsUart => 6,
            ReferenceClock::WrMasterMH => 7,
            ReferenceClock::WrSlaveMH => 8,
            ReferenceClock::WrGrandmasterMH => 9,
        }
    }

    /// The clock code that the instrument's library expects.
    pub fn code(&self) -> (r: i32)
        ensures
            r == self.spec_code(),
    {
        match self {
            ReferenceClock::Internal => 0,
            ReferenceClock::External => 1,
            ReferenceClock::WRMaster => 2,
            ReferenceClock::WRSlave => 3,
            ReferenceClock::WRGrandmaster => 4,
            ReferenceClock::PpsGps => 5,
            ReferenceClock::PpsUart => 6,
            ReferenceClock::WrMasterMH => 7,
            ReferenceClock::WrSlaveMH => 8,
            ReferenceClock::WrGrandmasterMH => 9,
        }
    }
}

/// Hardware triggered measurements through TTL vs.
/// software gating of the initiation of measurement.
#[derive(Debug, Clone, Copy, PartialEq, Eq, Structural)]
pub enum MeasurementControlMode {
    /// Runs until the `tacq` time passed at start elapses
    SingleShotCtc,
    /// Data collected only when C1 is active
    C1Gated,
    /// Data collected when C1 transitions, then stops when the CTC expires
    C1StartCtcStop,
    /// Data collected when C1 transitions, then stops when C2 transitions
    C1StartC2Stop,
    WrM2S,
    WrS2M,
    /// `tacq` is ignored; the measurement is controlled entirely by software
    SwStartSwStop,
}

impl MeasurementControlMode {
    /// The control-mode code that the instrument's library expects.
    pub open spec fn spec_code(self) -> i32 {
        match self {
            MeasurementControlMode::SingleShotCtc => 0,
            MeasurementControlMode::C1Gated => 1,
            MeasurementControlMode::C1StartCtcStop => 2,
            MeasurementControlMode::C1StartC2Stop => 3,
            MeasurementControlMode::WrM2S => 4,
            MeasurementControlMode::WrS2M => 5,
            MeasurementControlMode::SwStartSwStop => 6,
        }
    }

    /// The control-mode code that the instrument's library expects.
    pub fn code(&self) -> (r: i32)
        ensures
            r == self.spec_code(),
    {
        match self {
            MeasurementControlMode::SingleShotCtc => 0,
            MeasurementControlMode::C1Gated => 1,
            MeasurementControlMode::C1StartCtcStop => 2,
            MeasurementControlMode::C1StartC2Stop => 3,
            MeasurementControlMode::WrM2S => 4,
            MeasurementControlMode::WrS2M => 5,
            MeasurementControlMode::SwStartSwStop => 6,
        }
    }
}

/// Edge used to identify triggers
#[derive(Debug, Clone, Copy, PartialEq, Eq, Structural)]
pub enum TriggerEdge {
    Rising,
    Falling,
}

impl TriggerEdge {
    /// The edge code that the instrument's library expects.
    pub open spec fn spec_code(self) -> i32 {
        match self {
            TriggerEdge::Rising => 1,
            TriggerEdge::Falling => 0,
        }
    }

    /// The edge code that the instrument's library expects.
    pub fn code(&self) -> (r: i32)
        ensures
            r == self.spec_code(),
    {
        match self {
            TriggerEdge::Rising => 1,
            TriggerEdge::Falling => 0,
        }
    }
}

/// Masks of the features available in a device
#[derive(Debug, Clone, Copy, PartialEq, Eq, Structural)]
pub enum FeatureMasks {
    /// Dll license available
    Dll,
    /// TTTR mode available
    Tttr,
    /// Markers available
    Markers,
    /// Long range mode available
    LowRes,
    /// Trigger output available
    TrigOut,
    /// Programmable deadtime available
    ProgTd,
    /// Interface for external FPGA available
    ExtFpga,
    /// Programmable input hysteresis available
    ProgHyst,
    /// Coincidence filtering available
    EvntFilt,
}

impl FeatureMasks {
    /// The bit of this feature in the feature word.
    pub open spec fn spec_code(self) -> i32 {
        match self {
            FeatureMasks::Dll => 0x1,
            FeatureMasks::Tttr => 0x2,
            FeatureMasks::Markers => 0x4,
            FeatureMasks::LowRes => 0x8,
            FeatureMasks::TrigOut => 0x10,
            FeatureMasks::ProgTd => 0x20,
            FeatureMasks::ExtFpga => 0x40,
            FeatureMasks::ProgHyst => 0x80,
            FeatureMasks::EvntFilt => 0x100,
        }
    }

    /// The bit of this feature in the feature word.
    pub fn code(&self) -> (r: i32)
        ensures
            r == self.spec_code(),
    {
        match self {
            FeatureMasks::Dll => 0x1,
            FeatureMasks::Tttr => 0x2,
            FeatureMasks::Markers => 0x4,
            FeatureMasks::LowRes => 0x8,
            FeatureMasks::TrigOut => 0x10,
            FeatureMasks::ProgTd => 0x20,
            FeatureMasks::ExtFpga => 0x40,
            FeatureMasks::ProgHyst => 0x80,
            FeatureMasks::EvntFilt => 0x100,
        }
    }
}

/// Masks of the device's status flags
#[derive(Debug, Clone, Copy, PartialEq, Eq, Structural)]
pub enum Flags {
    /// Histogram mode only
    Overflow,
    /// TTTR mode only
    FifoFull,
    SyncLost,
    RefLost,
    /// Hardware error, must contact support
    SysError,
    /// Measurement is running
    Active,
    /// Counts were dropped
    CountsDropped,
}

impl Flags {
    /// The bit of this flag in the flag word.
    pub open spec fn spec_code(self) -> i32 {
        match self {
            Flags::Overflow => 0x1,
            Flags::FifoFull => 0x2,
            Flags::SyncLost => 0x4,
            Flags::RefLost => 0x8,
            Flags::SysError => 0x10,
            Flags::Active => 0x20,
            Flags::CountsDropped => 0x40,
        }
    }

    /// The bit of this flag in the flag word.
    pub fn code(&self) -> (r: i32)
        ensures
            r == self.spec_code(),
    {
        match self {
            Flags::Overflow => 0x1,
            Flags::FifoFull => 0x2,
            Flags::SyncLost => 0x4,
            Flags::RefLost => 0x8,
            Flags::SysError => 0x10,
            Flags::Active => 0x20,
            Flags::CountsDropped => 0x40,
        }
    }
}

/// White Rabbit modes
#[derive(Debug, Clone, Copy, PartialEq, Eq, Structural)]
pub enum WRMode {
    Off,
    Slave,
    Master,
    Grandmaster,
}

impl WRMode {
    /// The mode code that the instrument's library expects.
    pub open spec fn spec_code(self) -> i32 {
        match self {
            WRMode::Off => 0,
            WRMode::Slave => 1,
            WRMode::Master => 2,
            WRMode::Grandmaster => 3,
        }
    }

    /// The mode code that the instrument's library expects.
    pub fn code(&self) -> (r: i32)
        ensures
            r == self.spec_code(),
    {
        match self {
            WRMode::Off => 0,
            WRMode::Slave => 1,
            WRMode::Master => 2,
            WRMode::Grandmaster => 3,
        }
    }
}

/// Modes of an external FPGA, only usable with one connected
#[derive(Debug, Clone, Copy, PartialEq, Eq, Structural)]
pub enum ExtFpgaMode {
    Off,
    T2Raw,
    T2,
    T3,
}

impl ExtFpgaMode {
    /// The mode code that the instrument's library expects.
    pub open spec fn spec_code(self) -> i32 {
        match self {
            ExtFpgaMode::Off => 0,
            ExtFpgaMode::T2Raw => 1,
            ExtFpgaMode::T2 => 2,
            ExtFpgaMode::T3 => 3,
        }
    }

    /// The mode code that the instrument's library expects.
    pub fn code(&self) -> (r: i32)
        ensures
            r == self.spec_code(),
    {
        match self {
            ExtFpgaMode::Off => 0,
            ExtFpgaMode::T2Raw => 1,
            ExtFpgaMode::T2 => 2,
            ExtFpgaMode::T3 => 3,
        }
    }
}

/// Loopback modes of an external FPGA
#[derive(Debug, Clone, Copy, PartialEq, Eq, Structural)]
pub enum ExtFpgaLoopback {
    Off,
    Custom,
    T2,
    T3,
}

impl ExtFpgaLoopback {
    /// The loopback code that the instrument's library expects.
    pub open spec fn spec_code(self) -> i32 {
        match self {
            ExtFpgaLoopback::Off => 0,
            ExtFpgaLoopback::Custom => 1,
            ExtFpgaLoopback::T2 => 2,
            ExtFpgaLoopback::T3 => 3,
        }
    }

    /// The loopback code that the instrument's library expects.
    pub fn code(&self) -> (r: i32)
        ensures
            r == self.spec_code(),
    {
        match self {
            ExtFpgaLoopback::Off => 0,
            ExtFpgaLoopback::Custom => 1,
            ExtFpgaLoopback::T2 => 2,
            ExtFpgaLoopback::T3 => 3,
        }
    }
}
} // verus!
