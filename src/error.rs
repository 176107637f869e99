//! Error codes of the instrument's library and the library's own errors.
use vstd::prelude::*;

verus! {

/// Error codes of the instrument's control library.
#[derive(PartialEq, Eq, Structural, Debug, Copy, Clone)]
pub enum MultiHarpError {
    NoError,
    DeviceOpenFail,
    DeviceBusy,
    DeviceHEventFail,
    DeviceCallBSetFail,
    DeviceBarMapFail,
    DeviceCloseFail,
    DeviceResetFail,
    DeviceGetVersionFail,
    DeviceVersionMismatch,
    DeviceNotOpen,
    DeviceLocked,
    DeviceDriverVersionMismatch,

    InstanceRunning,
    InvalidArgument,
    InvalidMode,
    InvalidOption,
    InvalidMemory,
    InvalidRData,
    NotInitialized,
    NotCalibrated,
    DMAFail,
    XTDeviceFail,
    FPGAConfFail,
    IFConfFail,
    FIFOResetFail,
    ThreadStateFail,
    ThreadLockFail,

    USBGetDriverVersionFail,
    USBDriverVersionMismatch,
    USBGetIFInfoFail,
    USBHiSpeedFail,
    USBVCMDFail,
    USBBulkReadFail,
    USBResetFail,

    LaneupTimeout,
    DoneAllTimeout,
    MBAckTimeoint,
    MActiveTimeout,
    MemClearFail,
    MemTestFail,
    CalibFail,
    RefSelFail,
    StatusFail,
    ModNumberFail,
    DigMuxFail,
    ModMuxFail,
    ModFirmwarePCBMismatch,
    ModFirmwareVersionMismatch,
    ModPropertyMismatch,
    InvalidMagic,
    InvalidLength,
    RateFail,
    ModFirmwareVersionTooOld,
    ModFirmwareVersionTooNew,
    MBAckFail,

    EEPROMF01,
    EEPROMF02,
    EEPROMF03,
    EEPROMF04,
    EEPROMF05,
    EEPROMF06,
    EEPROMF07,
    EEPROMF08,
    EEPROMF09,
    EEPROMF10,
    EEPROMF11,
    EEPROMF12,
    EEPROMF13,
    EEPROMF14,
    EEPROMF15,

    InvalidError,
}

/// The numeric code of each error.
pub open spec fn error_code(e: MultiHarpError) -> i32 {
    match e {
        MultiHarpError::NoError => 0i32,
        MultiHarpError::DeviceOpenFail => -1i32,
        MultiHarpError::DeviceBusy => -2i32,
        MultiHarpError::DeviceHEventFail => -3i32,
        MultiHarpError::DeviceCallBSetFail => -4i32,
        MultiHarpError::DeviceBarMapFail => -5i32,
        MultiHarpError::DeviceCloseFail => -6i32,
        MultiHarpError::DeviceResetFail => -7i32,
        MultiHarpError::DeviceGetVersionFail => -8i32,
        MultiHarpError::DeviceVersionMismatch => -9i32,
        MultiHarpError::DeviceNotOpen => -10i32,
        MultiHarpError::DeviceLocked => -11i32,
        MultiHarpError::DeviceDriverVersionMismatch => -12i32,
        MultiHarpError::InstanceRunning => -16i32,
        MultiHarpError::InvalidArgument => -17i32,
        MultiHarpError::InvalidMode => -18i32,
        MultiHarpError::InvalidOption => -19i32,
        MultiHarpError::InvalidMemory => -20i32,
        MultiHarpError::InvalidRData => -21i32,
        MultiHarpError::NotInitialized => -22i32,
        MultiHarpError::NotCalibrated => -23i32,
        MultiHarpError::DMAFail => -24i32,
        MultiHarpError::XTDeviceFail => -25i32,
        MultiHarpError::FPGAConfFail => -26i32,
        MultiHarpError::IFConfFail => -27i32,
        MultiHarpError::FIFOResetFail => -28i32,
        MultiHarpError::ThreadStateFail => -29i32,
        MultiHarpError::ThreadLockFail => -30i32,
        MultiHarpError::USBGetDriverVersionFail => -32i32,
        MultiHarpError::USBDriverVersionMismatch => -33i32,
        MultiHarpError::USBGetIFInfoFail => -34i32,
        MultiHarpError::USBHiSpeedFail => -35i32,
        MultiHarpError::USBVCMDFail => -36i32,
        MultiHarpError::USBBulkReadFail => -37i32,
        MultiHarpError::USBResetFail => -38i32,
        MultiHarpError::LaneupTimeout => -40i32,
        MultiHarpError::DoneAllTimeout => -41i32,
        MultiHarpError::MBAckTimeoint => -42i32,
        MultiHarpError::MActiveTimeout => -43i32,
        MultiHarpError::MemClearFail => -44i32,
        MultiHarpError::MemTestFail => -45i32,
        MultiHarpError::CalibFail => -46i32,
        MultiHarpError::RefSelFail => -47i32,
        MultiHarpError::StatusFail => -48i32,
        MultiHarpError::ModNumberFail => -49i32,
        MultiHarpError::DigMuxFail => -50i32,
        MultiHarpError::ModMuxFail => -51i32,
        MultiHarpError::ModFirmwarePCBMismatch => -52i32,
        MultiHarpError::ModFirmwareVersionMismatch => -53i32,
        MultiHarpError::ModPropertyMismatch => -54i32,
        MultiHarpError::InvalidMagic => -55i32,
        MultiHarpError::InvalidLength => -56i32,
        MultiHarpError::RateFail => -57i32,
        MultiHarpError::ModFirmwareVersionTooOld => -58i32,
        MultiHarpError::ModFirmwareVersionTooNew => -59i32,
        MultiHarpError::MBAckFail => -60i32,
        MultiHarpError::EEPROMF01 => -64i32,
        MultiHarpError::EEPROMF02 => -65i32,
        MultiHarpError::EEPROMF03 => -66i32,
        MultiHarpError::EEPROMF04 => -67i32,
        MultiHarpError::EEPROMF05 => -68i32,
        MultiHarpError::EEPROMF06 => -69i32,
        MultiHarpError::EEPROMF07 => -70i32,
        MultiHarpError::EEPROMF08 => -71i32,
        MultiHarpError::EEPROMF09 => -72i32,
        MultiHarpError::EEPROMF10 => -73i32,
        MultiHarpError::EEPROMF11 => -74i32,
        MultiHarpError::EEPROMF12 => -75i32,
        MultiHarpError::EEPROMF13 => -76i32,
        MultiHarpError::EEPROMF14 => -77i32,
        MultiHarpError::EEPROMF15 => -78i32,
        MultiHarpError::InvalidError => -1000i32,
    }
}

/// The error that a numeric code stands for; unknown codes are `InvalidError`.
pub open spec fn error_of_code(code: i32) -> MultiHarpError {
    if code == 0i32 {
        MultiHarpError::NoError
    } else if code == -1i32 {
        MultiHarpError::DeviceOpenFail
    } else if code == -2i32 {
        MultiHarpError::DeviceBusy
    } else if code == -3i32 {
        MultiHarpError::DeviceHEventFail
    } else if code == -4i32 {
        MultiHarpError::DeviceCallBSetFail
    } else if code == -5i32 {
        MultiHarpError::DeviceBarMapFail
    } else if code == -6i32 {
        MultiHarpError::DeviceCloseFail
    } else if code == -7i32 {
        MultiHarpError::DeviceResetFail
    } else if code == -8i32 {
        MultiHarpError::DeviceGetVersionFail
    } else if code == -9i32 {
        MultiHarpError::DeviceVersionMismatch
    } else if code == -10i32 {
        MultiHarpError::DeviceNotOpen
    } else if code == -11i32 {
        MultiHarpError::DeviceLocked
    } else if code == -12i32 {
        MultiHarpError::DeviceDriverVersionMismatch
    } else if code == -16i32 {
        MultiHarpError::InstanceRunning
    } else if code == -17i32 {
        MultiHarpError::InvalidArgument
    } else if code == -18i32 {
        MultiHarpError::InvalidMode
    } else if code == -19i32 {
        MultiHarpError::InvalidOption
    } else if code == -20i32 {
        MultiHarpError::InvalidMemory
    } else if code == -21i32 {
        MultiHarpError::InvalidRData
    } else if code == -22i32 {
        MultiHarpError::NotInitialized
    } else if code == -23i32 {
        MultiHarpError::NotCalibrated
    } else if code == -24i32 {
        MultiHarpError::DMAFail
    } else if code == -25i32 {
        MultiHarpError::XTDeviceFail
    } else if code == -26i32 {
        MultiHarpError::FPGAConfFail
    } else if code == -27i32 {
        MultiHarpError::IFConfFail
    } else if code == -28i32 {
        MultiHarpError::FIFOResetFail
    } else if code == -29i32 {
        MultiHarpError::ThreadStateFail
    } else if code == -30i32 {
        MultiHarpError::ThreadLockFail
    } else if code == -32i32 {
        MultiHarpError::USBGetDriverVersionFail
    } else if code == -33i32 {
        MultiHarpError::USBDriverVersionMismatch
    } else if code == -34i32 {
        MultiHarpError::USBGetIFInfoFail
    } else if code == -35i32 {
        MultiHarpError::USBHiSpeedFail
    } else if code == -36i32 {
        MultiHarpError::USBVCMDFail
    } else if code == -37i32 {
        MultiHarpError::USBBulkReadFail
    } else if code == -38i32 {
        MultiHarpError::USBResetFail
    } else if code == -40i32 {
        MultiHarpError::LaneupTimeout
    } else if code == -41i32 {
        MultiHarpError::DoneAllTimeout
    } else if code == -42i32 {
        MultiHarpError::MBAckTimeoint
    } else if code == -43i32 {
        MultiHarpError::MActiveTimeout
    } else if code == -44i32 {
        MultiHarpError::MemClearFail
    } else if code == -45i32 {
        MultiHarpError::MemTestFail
    } else if code == -46i32 {
        MultiHarpError::CalibFail
    } else if code == -47i32 {
        MultiHarpError::RefSelFail
    } else if code == -48i32 {
        MultiHarpError::StatusFail
    } else if code == -49i32 {
        MultiHarpError::ModNumberFail
    } else if code == -50i32 {
        MultiHarpError::DigMuxFail
    } else if code == -51i32 {
        MultiHarpError::ModMuxFail
    } else if code == -52i32 {
        MultiHarpError::ModFirmwarePCBMismatch
    } else if code == -53i32 {
        MultiHarpError::ModFirmwareVersionMismatch
    } else if code == -54i32 {
        MultiHarpError::ModPropertyMismatch
    } else if code == -55i32 {
        MultiHarpError::InvalidMagic
    } else if code == -56i32 {
        MultiHarpError::InvalidLength
    } else if code == -57i32 {
        MultiHarpError::RateFail
    } else if code == -58i32 {
        MultiHarpError::ModFirmwareVersionTooOld
    } else if code == -59i32 {
        MultiHarpError::ModFirmwareVersionTooNew
    } else if code == -60i32 {
        MultiHarpError::MBAckFail
    } else if code == -64i32 {
        MultiHarpError::EEPROMF01
    } else if code == -65i32 {
        MultiHarpError::EEPROMF02
    } else if code == -66i32 {
        MultiHarpError::EEPROMF03
    } else if code == -67i32 {
        MultiHarpError::EEPROMF04
    } else if code == -68i32 {
        MultiHarpError::EEPROMF05
    } else if code == -69i32 {
        MultiHarpError::EEPROMF06
    } else if code == -70i32 {
        MultiHarpError::EEPROMF07
    } else if code == -71i32 {
        MultiHarpError::EEPROMF08
    } else if code == -72i32 {
        MultiHarpError::EEPROMF09
    } else if code == -73i32 {
        MultiHarpError::EEPROMF10
    } else if code == -74i32 {
        MultiHarpError::EEPROMF11
    } else if code == -75i32 {
        MultiHarpError::EEPROMF12
    } else if code == -76i32 {
        MultiHarpError::EEPROMF13
    } else if code == -77i32 {
        MultiHarpError::EEPROMF14
    } else if code == -78i32 {
        MultiHarpError::EEPROMF15
    } else {
        MultiHarpError::InvalidError
    }
}

/// The human-readable description of each error.
pub open spec fn error_description(e: MultiHarpError) -> Seq<char> {
    match e {
        MultiHarpError::NoError => "No error"@,
        MultiHarpError::DeviceOpenFail => "Device could not be opened"@,
        MultiHarpError::DeviceBusy => "Device busy -- may be used by another instance"@,
        MultiHarpError::DeviceHEventFail => "Device HEvent fail"@,
        MultiHarpError::DeviceCallBSetFail => "Device callback set fail"@,
        MultiHarpError::DeviceBarMapFail => "Device bar map fail"@,
        MultiHarpError::DeviceCloseFail => "Device could not be closed, may be in use"@,
        MultiHarpError::DeviceResetFail => "Device reset fail"@,
        MultiHarpError::DeviceGetVersionFail => "Could not retrieve version of device"@,
        MultiHarpError::DeviceVersionMismatch => "Device version mismatch"@,
        MultiHarpError::DeviceNotOpen => "Device not open -- try opening it first"@,
        MultiHarpError::DeviceLocked => "Device locked"@,
        MultiHarpError::DeviceDriverVersionMismatch => "Device driver version mismatch"@,
        MultiHarpError::InstanceRunning => "Instance running"@,
        MultiHarpError::InvalidArgument => "Invalid argument"@,
        MultiHarpError::InvalidMode => "Invalid mode"@,
        MultiHarpError::InvalidOption => "Invalid option"@,
        MultiHarpError::InvalidMemory => "Invalid memory"@,
        MultiHarpError::InvalidRData => "Invalid RData"@,
        MultiHarpError::NotInitialized => "Not initialized"@,
        MultiHarpError::NotCalibrated => "Not calibrated"@,
        MultiHarpError::DMAFail => "DMA fail"@,
        MultiHarpError::XTDeviceFail => "XT device fail"@,
        MultiHarpError::FPGAConfFail => "FPGA conf fail"@,
        MultiHarpError::IFConfFail => "IF conf fail"@,
        MultiHarpError::FIFOResetFail => "Failed to FIFO buffer"@,
        MultiHarpError::ThreadStateFail => "Thread state fail"@,
        MultiHarpError::ThreadLockFail => "Thread lock fail"@,
        MultiHarpError::USBGetDriverVersionFail => "Failed to get USB driver version"@,
        MultiHarpError::USBDriverVersionMismatch => "USB driver version mismatch"@,
        MultiHarpError::USBGetIFInfoFail => "Failed to get USB IF info"@,
        MultiHarpError::USBHiSpeedFail => "USB high speed fail"@,
        MultiHarpError::USBVCMDFail => "USB VCMD fail"@,
        MultiHarpError::USBBulkReadFail => "USB bulk read fail"@,
        MultiHarpError::USBResetFail => "USB reset fail"@,
        MultiHarpError::LaneupTimeout => "Laneup timeout"@,
        MultiHarpError::DoneAllTimeout => "Done all timeout"@,
        MultiHarpError::MBAckTimeoint => "MB ack timeout"@,
        MultiHarpError::MActiveTimeout => "M active timeout"@,
        MultiHarpError::MemClearFail => "Memory clear fail"@,
        MultiHarpError::MemTestFail => "Memory test fail"@,
        MultiHarpError::CalibFail => "Calibration fail"@,
        MultiHarpError::RefSelFail => "Reference select fail"@,
        MultiHarpError::StatusFail => "Status fail"@,
        MultiHarpError::ModNumberFail => "Module number fail"@,
        MultiHarpError::DigMuxFail => "Digital multiplexer fail"@,
        MultiHarpError::ModMuxFail => "Module multiplexer fail"@,
        MultiHarpError::ModFirmwarePCBMismatch => "Module firmware PCB mismatch"@,
        MultiHarpError::ModFirmwareVersionMismatch => "Module firmware version mismatch"@,
        MultiHarpError::ModPropertyMismatch => "Module property mismatch"@,
        MultiHarpError::InvalidMagic => "Invalid magic"@,
        MultiHarpError::InvalidLength => "Invalid length"@,
        MultiHarpError::RateFail => "Rate fail"@,
        MultiHarpError::ModFirmwareVersionTooOld => "Module firmware version too old"@,
        MultiHarpError::ModFirmwareVersionTooNew => "Module firmware version too new"@,
        MultiHarpError::MBAckFail => "MB ack fail"@,
        MultiHarpError::EEPROMF01 => "EEPROM F01"@,
        MultiHarpError::EEPROMF02 => "EEPROM F02"@,
        MultiHarpError::EEPROMF03 => "EEPROM F03"@,
        MultiHarpError::EEPROMF04 => "EEPROM F04"@,
        MultiHarpError::EEPROMF05 => "EEPROM F05"@,
        MultiHarpError::EEPROMF06 => "EEPROM F06"@,
        MultiHarpError::EEPROMF07 => "EEPROM F07"@,
        MultiHarpError::EEPROMF08 => "EEPROM F08"@,
        MultiHarpError::EEPROMF09 => "EEPROM F09"@,
        MultiHarpError::EEPROMF10 => "EEPROM F10"@,
        MultiHarpError::EEPROMF11 => "EEPROM F11"@,
        MultiHarpError::EEPROMF12 => "EEPROM F12"@,
        MultiHarpError::EEPROMF13 => "EEPROM F13"@,
        MultiHarpError::EEPROMF14 => "EEPROM F14"@,
        MultiHarpError::EEPROMF15 => "EEPROM F15"@,
        MultiHarpError::InvalidError => "Invalid error returned from MHLib -- problem with `Multi-Harp-Patina` library"@,
    }
}

impl MultiHarpError {
    /// The numeric code that the instrument's library uses for this error.
    pub fn code(&self) -> (r: i32)
        ensures
            r == error_code(*self),
    {
        match self {
            MultiHarpError::NoError => 0,
            MultiHarpError::DeviceOpenFail => -1,
            MultiHarpError::DeviceBusy => -2,
            MultiHarpError::DeviceHEventFail => -3,
            MultiHarpError::DeviceCallBSetFail => -4,
            MultiHarpError::DeviceBarMapFail => -5,
            MultiHarpError::DeviceCloseFail => -6,
            MultiHarpError::DeviceResetFail => -7,
            MultiHarpError::DeviceGetVersionFail => -8,
            MultiHarpError::DeviceVersionMismatch => -9,
            MultiHarpError::DeviceNotOpen => -10,
            MultiHarpError::DeviceLocked => -11,
            MultiHarpError::DeviceDriverVersionMismatch => -12,
            MultiHarpError::InstanceRunning => -16,
            MultiHarpError::InvalidArgument => -17,
            MultiHarpError::InvalidMode => -18,
            MultiHarpError::InvalidOption => -19,
            MultiHarpError::InvalidMemory => -20,
            MultiHarpError::InvalidRData => -21,
            MultiHarpError::NotInitialized => -22,
            MultiHarpError::NotCalibrated => -23,
            MultiHarpError::DMAFail => -24,
            MultiHarpError::XTDeviceFail => -25,
            MultiHarpError::FPGAConfFail => -26,
            MultiHarpError::IFConfFail => -27,
            MultiHarpError::FIFOResetFail => -28,
            MultiHarpError::ThreadStateFail => -29,
            MultiHarpError::ThreadLockFail => -30,
            MultiHarpError::USBGetDriverVersionFail => -32,
            MultiHarpError::USBDriverVersionMismatch => -33,
            MultiHarpError::USBGetIFInfoFail => -34,
            MultiHarpError::USBHiSpeedFail => -35,
            MultiHarpError::USBVCMDFail => -36,
            MultiHarpError::USBBulkReadFail => -37,
            MultiHarpError::USBResetFail => -38,
            MultiHarpError::LaneupTimeout => -40,
            MultiHarpError::DoneAllTimeout => -41,
            MultiHarpError::MBAckTimeoint => -42,
            MultiHarpError::MActiveTimeout => -43,
            MultiHarpError::MemClearFail => -44,
            MultiHarpError::MemTestFail => -45,
            MultiHarpError::CalibFail => -46,
            MultiHarpError::RefSelFail => -47,
            MultiHarpError::StatusFail => -48,
            MultiHarpError::ModNumberFail => -49,
            MultiHarpError::DigMuxFail => -50,
            MultiHarpError::ModMuxFail => -51,
            MultiHarpError::ModFirmwarePCBMismatch => -52,
            MultiHarpError::ModFirmwareVersionMismatch => -53,
            MultiHarpError::ModPropertyMismatch => -54,
            MultiHarpError::InvalidMagic => -55,
            MultiHarpError::InvalidLength => -56,
            MultiHarpError::RateFail => -57,
            MultiHarpError::ModFirmwareVersionTooOld => -58,
            MultiHarpError::ModFirmwareVersionTooNew => -59,
            MultiHarpError::MBAckFail => -60,
            MultiHarpError::EEPROMF01 => -64,
            MultiHarpError::EEPROMF02 => -65,
            MultiHarpError::EEPROMF03 => -66,
            MultiHarpError::EEPROMF04 => -67,
            MultiHarpError::EEPROMF05 => -68,
            MultiHarpError::EEPROMF06 => -69,
            MultiHarpError::EEPROMF07 => -70,
            MultiHarpError::EEPROMF08 => -71,
            MultiHarpError::EEPROMF09 => -72,
            MultiHarpError::EEPROMF10 => -73,
            MultiHarpError::EEPROMF11 => -74,
            MultiHarpError::EEPROMF12 => -75,
            MultiHarpError::EEPROMF13 => -76,
            MultiHarpError::EEPROMF14 => -77,
            MultiHarpError::EEPROMF15 => -78,
            MultiHarpError::InvalidError => -1000,
        }
    }

    /// The error that a numeric code stands for; unknown codes give `InvalidError`.
    pub fn from_code(code: i32) -> (r: MultiHarpError)
        ensures
            r == error_of_code(code),
    {
        match code {
            0 => MultiHarpError::NoError,
            -1 => MultiHarpError::DeviceOpenFail,
            -2 => MultiHarpError::DeviceBusy,
            -3 => MultiHarpError::DeviceHEventFail,
            -4 => MultiHarpError::DeviceCallBSetFail,
            -5 => MultiHarpError::DeviceBarMapFail,
            -6 => MultiHarpError::DeviceCloseFail,
            -7 => MultiHarpError::DeviceResetFail,
            -8 => MultiHarpError::DeviceGetVersionFail,
            -9 => MultiHarpError::DeviceVersionMismatch,
            -10 => MultiHarpError::DeviceNotOpen,
            -11 => MultiHarpError::DeviceLocked,
            -12 => MultiHarpError::DeviceDriverVersionMismatch,
            -16 => MultiHarpError::InstanceRunning,
            -17 => MultiHarpError::InvalidArgument,
            -18 => MultiHarpError::InvalidMode,
            -19 => MultiHarpError::InvalidOption,
            -20 => MultiHarpError::InvalidMemory,
            -21 => MultiHarpError::InvalidRData,
            -22 => MultiHarpError::NotInitialized,
            -23 => MultiHarpError::NotCalibrated,
            -24 => MultiHarpError::DMAFail,
            -25 => MultiHarpError::XTDeviceFail,
            -26 => MultiHarpError::FPGAConfFail,
            -27 => MultiHarpError::IFConfFail,
            -28 => MultiHarpError::FIFOResetFail,
            -29 => MultiHarpError::ThreadStateFail,
            -30 => MultiHarpError::ThreadLockFail,
            -32 => MultiHarpError::USBGetDriverVersionFail,
            -33 => MultiHarpError::USBDriverVersionMismatch,
            -34 => MultiHarpError::USBGetIFInfoFail,
            -35 => MultiHarpError::USBHiSpeedFail,
            -36 => MultiHarpError::USBVCMDFail,
            -37 => MultiHarpError::USBBulkReadFail,
            -38 => MultiHarpError::USBResetFail,
            -40 => MultiHarpError::LaneupTimeout,
            -41 => MultiHarpError::DoneAllTimeout,
            -42 => MultiHarpError::MBAckTimeoint,
            -43 => MultiHarpError::MActiveTimeout,
            -44 => MultiHarpError::MemClearFail,
            -45 => MultiHarpError::MemTestFail,
            -46 => MultiHarpError::CalibFail,
            -47 => MultiHarpError::RefSelFail,
            -48 => MultiHarpError::StatusFail,
            -49 => MultiHarpError::ModNumberFail,
            -50 => MultiHarpError::DigMuxFail,
            -51 => MultiHarpError::ModMuxFail,
            -52 => MultiHarpError::ModFirmwarePCBMismatch,
            -53 => MultiHarpError::ModFirmwareVersionMismatch,
            -54 => MultiHarpError::ModPropertyMismatch,
            -55 => MultiHarpError::InvalidMagic,
            -56 => MultiHarpError::InvalidLength,
            -57 => MultiHarpError::RateFail,
            -58 => MultiHarpError::ModFirmwareVersionTooOld,
            -59 => MultiHarpError::ModFirmwareVersionTooNew,
            -60 => MultiHarpError::MBAckFail,
            -64 => MultiHarpError::EEPROMF01,
            -65 => MultiHarpError::EEPROMF02,
            -66 => MultiHarpError::EEPROMF03,
            -67 => MultiHarpError::EEPROMF04,
            -68 => MultiHarpError::EEPROMF05,
            -69 => MultiHarpError::EEPROMF06,
            -70 => MultiHarpError::EEPROMF07,
            -71 => MultiHarpError::EEPROMF08,
            -72 => MultiHarpError::EEPROMF09,
            -73 => MultiHarpError::EEPROMF10,
            -74 => MultiHarpError::EEPROMF11,
            -75 => MultiHarpError::EEPROMF12,
            -76 => MultiHarpError::EEPROMF13,
            -77 => MultiHarpError::EEPROMF14,
            -78 => MultiHarpError::EEPROMF15,
            _ => MultiHarpError::InvalidError,
        }
    }

    /// A human-readable description of the error.
    pub fn description(&self) -> (r: &'static str)
        ensures
            r@ == error_description(*self),
    {
        match self {
            MultiHarpError::NoError => "No error",
            MultiHarpError::DeviceOpenFail => "Device could not be opened",
            MultiHarpError::DeviceBusy => "Device busy -- may be used by another instance",
            MultiHarpError::DeviceHEventFail => "Device HEvent fail",
            MultiHarpError::DeviceCallBSetFail => "Device callback set fail",
            MultiHarpError::DeviceBarMapFail => "Device bar map fail",
            MultiHarpError::DeviceCloseFail => "Device could not be closed, may be in use",
            MultiHarpError::DeviceResetFail => "Device reset fail",
            MultiHarpError::DeviceGetVersionFail => "Could not retrieve version of device",
            MultiHarpError::DeviceVersionMismatch => "Device version mismatch",
            MultiHarpError::DeviceNotOpen => "Device not open -- try opening it first",
            MultiHarpError::DeviceLocked => "Device locked",
            MultiHarpError::DeviceDriverVersionMismatch => "Device driver version mismatch",
            MultiHarpError::InstanceRunning => "Instance running",
            MultiHarpError::InvalidArgument => "Invalid argument",
            MultiHarpError::InvalidMode => "Invalid mode",
            MultiHarpError::InvalidOption => "Invalid option",
            MultiHarpError::InvalidMemory => "Invalid memory",
            MultiHarpError::InvalidRData => "Invalid RData",
            MultiHarpError::NotInitialized => "Not initialized",
            MultiHarpError::NotCalibrated => "Not calibrated",
            MultiHarpError::DMAFail => "DMA fail",
            MultiHarpError::XTDeviceFail => "XT device fail",
            MultiHarpError::FPGAConfFail => "FPGA conf fail",
            MultiHarpError::IFConfFail => "IF conf fail",
            MultiHarpError::FIFOResetFail => "Failed to FIFO buffer",
            MultiHarpError::ThreadStateFail => "Thread state fail",
            MultiHarpError::ThreadLockFail => "Thread lock fail",
            MultiHarpError::USBGetDriverVersionFail => "Failed to get USB driver version",
            MultiHarpError::USBDriverVersionMismatch => "USB driver version mismatch",
            MultiHarpError::USBGetIFInfoFail => "Failed to get USB IF info",
            MultiHarpError::USBHiSpeedFail => "USB high speed fail",
            MultiHarpError::USBVCMDFail => "USB VCMD fail",
            MultiHarpError::USBBulkReadFail => "USB bulk read fail",
            MultiHarpError::USBResetFail => "USB reset fail",
            MultiHarpError::LaneupTimeout => "Laneup timeout",
            MultiHarpError::DoneAllTimeout => "Done all timeout",
            MultiHarpError::MBAckTimeoint => "MB ack timeout",
            MultiHarpError::MActiveTimeout => "M active timeout",
            MultiHarpError::MemClearFail => "Memory clear fail",
            MultiHarpError::MemTestFail => "Memory test fail",
            MultiHarpError::CalibFail => "Calibration fail",
            MultiHarpError::RefSelFail => "Reference select fail",
            MultiHarpError::StatusFail => "Status fail",
            MultiHarpError::ModNumberFail => "Module number fail",
            MultiHarpError::DigMuxFail => "Digital multiplexer fail",
            MultiHarpError::ModMuxFail => "Module multiplexer fail",
            MultiHarpError::ModFirmwarePCBMismatch => "Module firmware PCB mismatch",
            MultiHarpError::ModFirmwareVersionMismatch => "Module firmware version mismatch",
            MultiHarpError::ModPropertyMismatch => "Module property mismatch",
            MultiHarpError::InvalidMagic => "Invalid magic",
            MultiHarpError::InvalidLength => "Invalid length",
            MultiHarpError::RateFail => "Rate fail",
            MultiHarpError::ModFirmwareVersionTooOld => "Module firmware version too old",
            MultiHarpError::ModFirmwareVersionTooNew => "Module firmware version too new",
            MultiHarpError::MBAckFail => "MB ack fail",
            MultiHarpError::EEPROMF01 => "EEPROM F01",
            MultiHarpError::EEPROMF02 => "EEPROM F02",
            MultiHarpError::EEPROMF03 => "EEPROM F03",
            MultiHarpError::EEPROMF04 => "EEPROM F04",
            MultiHarpError::EEPROMF05 => "EEPROM F05",
            MultiHarpError::EEPROMF06 => "EEPROM F06",
            MultiHarpError::EEPROMF07 => "EEPROM F07",
            MultiHarpError::EEPROMF08 => "EEPROM F08",
            MultiHarpError::EEPROMF09 => "EEPROM F09",
            MultiHarpError::EEPROMF10 => "EEPROM F10",
            MultiHarpError::EEPROMF11 => "EEPROM F11",
            MultiHarpError::EEPROMF12 => "EEPROM F12",
            MultiHarpError::EEPROMF13 => "EEPROM F13",
            MultiHarpError::EEPROMF14 => "EEPROM F14",
            MultiHarpError::EEPROMF15 => "EEPROM F15",
            MultiHarpError::InvalidError => "Invalid error returned from MHLib -- problem with `Multi-Harp-Patina` library",
        }
    }
}

impl From<i32> for MultiHarpError {
    fn from(error: i32) -> (r: MultiHarpError) {
        MultiHarpError::from_code(error)
    }
}

impl vstd::std_specs::convert::FromSpecImpl<i32> for MultiHarpError {
    open spec fn obeys_from_spec() -> bool {
        true
    }

    open spec fn from_spec(v: i32) -> MultiHarpError {
        error_of_code(v)
    }
}

/// Errors of the library: a failure reported by the instrument's library, or
/// a rejection made before any device interaction.
#[derive(Debug, Clone, PartialEq)]
pub enum PatinaError<T> {
    /// The instrument's library reported an error.
    MultiHarpError(MultiHarpError),
    /// An argument outside its valid range: its name, its value, and an explanation.
    ArgumentError(String, T, String),
    /// No device could be found or opened.
    NoDeviceAvailable,
    /// The feature is not available on this device or library version.
    FeatureNotAvailable(String),
    /// The functionality is not implemented.
    NotImplemented,
}

/// `e` rejects the argument `name` with the value `value`, explained by `text`.
pub open spec fn is_argument_error<T>(e: PatinaError<T>, name: Seq<char>, value: T, text: Seq<char>) -> bool {
    match e {
        PatinaError::ArgumentError(n, v, t) => n@ == name && v == value && t@ == text,
        _ => false,
    }
}

/// Result of an operation that may be rejected before reaching the device.
pub type CheckedResult<R, T> = Result<R, PatinaError<T>>;

/// Result of a call into the instrument's library.
pub type MultiHarpResult<R> = Result<R, MultiHarpError>;

impl<T> From<MultiHarpError> for PatinaError<T> {
    fn from(e: MultiHarpError) -> (r: PatinaError<T>) {
        PatinaError::MultiHarpError(e)
    }
}

impl<T> vstd::std_specs::convert::FromSpecImpl<MultiHarpError> for PatinaError<T> {
    open spec fn obeys_from_spec() -> bool {
        true
    }

    open spec fn from_spec(e: MultiHarpError) -> PatinaError<T> {
        PatinaError::MultiHarpError(e)
    }
}

/// The result of a call into the instrument's library: `value` when the call
/// returned 0, else the error that its code stands for.
pub fn mh_to_result<T>(code: i32, value: T) -> (r: MultiHarpResult<T>)
    ensures
        code == 0 ==> r == Ok::<T, MultiHarpError>(value),
        code != 0 ==> r == Err::<T, MultiHarpError>(error_of_code(code)),
{
    if code == 0 {
        Ok(value)
    } else {
        Err(MultiHarpError::from_code(code))
    }
}

/// Every error survives the trip through its numeric code.
pub proof fn lemma_code_round_trip(e: MultiHarpError)
    ensures
        error_of_code(error_code(e)) == e,
{
}

} // verus!
