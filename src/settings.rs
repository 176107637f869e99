//! Range checks made on settings before they reach the device, and the
//! configuration structure that sets many of them at once.
use vstd::prelude::*;

use crate::consts::{
    MeasurementControlMode, TriggerEdge, ACQTMAX, ACQTMIN, BINSTEPSMAX, CHANNEL_OFFS_MAX,
    CHANNEL_OFFS_MIN, EXTDEADMAX, EXTDEADMIN, HOLDOFFMAX, HOLDOFFMIN, HOLDTIMEMAX, HOLDTIMEMIN,
    MAXLENCODE, MINLENCODE, OFFSETMAX, OFFSETMIN, STOPCNTMIN, SYNCDIVMAX, SYNCDIVMIN, TRGLVLMAX,
    TRGLVLMIN, TRIGOUTMAX, TRIGOUTMIN, TTREADMAX,
};
use crate::error::{is_argument_error, CheckedResult, PatinaError};

verus! {

/// Accepts `value` when it lies in `min..=max`; otherwise rejects the
/// argument `name` with `explanation`.
fn check_range(name: &str, value: i32, min: i32, max: i32, explanation: &str) -> (r: CheckedResult<
    (),
    i32,
>)
    ensures
        min <= value <= max ==> r is Ok,
        !(min <= value <= max) ==> (r matches Err(e) && is_argument_error(e, name@, value, explanation@)),
{
    if value < min || value > max {
        return Err(PatinaError::ArgumentError(name.to_owned(), value, explanation.to_owned()));
    }
    Ok(())
}

/// Checks the sync divider: `SYNCDIVMIN..=SYNCDIVMAX`.
pub fn check_sync_div(value: i32) -> (r: CheckedResult<(), i32>)
    ensures
        SYNCDIVMIN <= value <= SYNCDIVMAX ==> r is Ok,
        !(SYNCDIVMIN <= value <= SYNCDIVMAX) ==> (r matches Err(e) && is_argument_error(
            e,
            "sync_div"@,
            value,
            "Sync divider must be between 1 and 16"@,
        )),
{
    check_range("sync_div", value, SYNCDIVMIN, SYNCDIVMAX, "Sync divider must be between 1 and 16")
}

/// Checks a trigger level in millivolts, of the sync or an input: `TRGLVLMIN..=TRGLVLMAX`.
pub fn check_trigger_level(value: i32) -> (r: CheckedResult<(), i32>)
    ensures
        TRGLVLMIN <= value <= TRGLVLMAX ==> r is Ok,
        !(TRGLVLMIN <= value <= TRGLVLMAX) ==> (r matches Err(e) && is_argument_error(
            e,
            "level"@,
            value,
            "Level must be between -1200 and 1200"@,
        )),
{
    check_range("level", value, TRGLVLMIN, TRGLVLMAX, "Level must be between -1200 and 1200")
}

/// Checks a channel timing offset in picoseconds, of the sync or an input: `CHANNEL_OFFS_MIN..=CHANNEL_OFFS_MAX`.
pub fn check_channel_offset(value: i32) -> (r: CheckedResult<(), i32>)
    ensures
        CHANNEL_OFFS_MIN <= value <= CHANNEL_OFFS_MAX ==> r is Ok,
        !(CHANNEL_OFFS_MIN <= value <= CHANNEL_OFFS_MAX) ==> (r matches Err(e) && is_argument_error(
            e,
            "offset"@,
            value,
            "Channel offset must be between -99999 and 99999"@,
        )),
{
    check_range("offset", value, CHANNEL_OFFS_MIN, CHANNEL_OFFS_MAX, "Channel offset must be between -99999 and 99999")
}

/// Checks a dead time in picoseconds, of the sync or an input: `EXTDEADMIN..=EXTDEADMAX`.
pub fn check_dead_time(value: i32) -> (r: CheckedResult<(), i32>)
    ensures
        EXTDEADMIN <= value <= EXTDEADMAX ==> r is Ok,
        !(EXTDEADMIN <= value <= EXTDEADMAX) ==> (r matches Err(e) && is_argument_error(
            e,
            "deadtime"@,
            value,
            "Dead time must be between 800 and 160000"@,
        )),
{
    check_range("deadtime", value, EXTDEADMIN, EXTDEADMAX, "Dead time must be between 800 and 160000")
}

/// Checks the binning code, pooling `2^binning` bins: `0..=BINSTEPSMAX`.
pub fn check_binning(value: i32) -> (r: CheckedResult<(), i32>)
    ensures
        0i32 <= value <= BINSTEPSMAX ==> r is Ok,
        !(0i32 <= value <= BINSTEPSMAX) ==> (r matches Err(e) && is_argument_error(
            e,
            "binning"@,
            value,
            "Binning must be between 0 and 24"@,
        )),
{
    check_range("binning", value, 0i32, BINSTEPSMAX, "Binning must be between 0 and 24")
}

/// Checks the histogram offset: `OFFSETMIN..=OFFSETMAX`.
pub fn check_offset(value: i32) -> (r: CheckedResult<(), i32>)
    ensures
        OFFSETMIN <= value <= OFFSETMAX ==> r is Ok,
        !(OFFSETMIN <= value <= OFFSETMAX) ==> (r matches Err(e) && is_argument_error(
            e,
            "offset"@,
            value,
            "Offset must be between 0 and 100000000"@,
        )),
{
    check_range("offset", value, OFFSETMIN, OFFSETMAX, "Offset must be between 0 and 100000000")
}

/// Checks the trigger output period in units of 100 ns, 0 switching it off: `TRIGOUTMIN..=TRIGOUTMAX`.
pub fn check_trigger_output(value: i32) -> (r: CheckedResult<(), i32>)
    ensures
        TRIGOUTMIN <= value <= TRIGOUTMAX ==> r is Ok,
        !(TRIGOUTMIN <= value <= TRIGOUTMAX) ==> (r matches Err(e) && is_argument_error(
            e,
            "period"@,
            value,
            "Period must be between 0 and 16777215"@,
        )),
{
    check_range("period", value, TRIGOUTMIN, TRIGOUTMAX, "Period must be between 0 and 16777215")
}

/// Checks the marker holdoff time in nanoseconds: `HOLDOFFMIN..=HOLDOFFMAX`.
pub fn check_marker_holdoff_time(value: i32) -> (r: CheckedResult<(), i32>)
    ensures
        HOLDOFFMIN <= value <= HOLDOFFMAX ==> r is Ok,
        !(HOLDOFFMIN <= value <= HOLDOFFMAX) ==> (r matches Err(e) && is_argument_error(
            e,
            "holdofftime"@,
            value,
            "Holdoff time must be between 0 and 25500"@,
        )),
{
    check_range("holdofftime", value, HOLDOFFMIN, HOLDOFFMAX, "Holdoff time must be between 0 and 25500")
}

/// Checks the overflow compression hold time in milliseconds: `HOLDTIMEMIN..=HOLDTIMEMAX`.
pub fn check_overflow_compression(value: i32) -> (r: CheckedResult<(), i32>)
    ensures
        HOLDTIMEMIN <= value <= HOLDTIMEMAX ==> r is Ok,
        !(HOLDTIMEMIN <= value <= HOLDTIMEMAX) ==> (r matches Err(e) && is_argument_error(
            e,
            "holdtime"@,
            value,
            "Hold time must be between 0 and 255"@,
        )),
{
    check_range("holdtime", value, HOLDTIMEMIN, HOLDTIMEMAX, "Hold time must be between 0 and 255")
}

/// Checks the acquisition time of a measurement in milliseconds: `ACQTMIN..=ACQTMAX`.
pub fn check_acquisition_time(value: i32) -> (r: CheckedResult<(), i32>)
    ensures
        ACQTMIN <= value <= ACQTMAX ==> r is Ok,
        !(ACQTMIN <= value <= ACQTMAX) ==> (r matches Err(e) && is_argument_error(
            e,
            "acquisition_time"@,
            value,
            "Acquisition time must be between 1 and 360000000"@,
        )),
{
    check_range("acquisition_time", value, ACQTMIN, ACQTMAX, "Acquisition time must be between 1 and 360000000")
}

/// Checks the count at which a measurement stops on overflow: at least `STOPCNTMIN`.
pub fn check_stop_count(stopcount: u32) -> (r: CheckedResult<(), u32>)
    ensures
        stopcount >= STOPCNTMIN ==> r is Ok,
        stopcount < STOPCNTMIN ==> (r matches Err(e) && is_argument_error(
            e,
            "stopcount"@,
            stopcount,
            "Stop count must be between 1 and 4294967295"@,
        )),
{
    if stopcount < STOPCNTMIN {
        let name = "stopcount".to_owned();
        let msg = "Stop count must be between 1 and 4294967295".to_owned();
        return Err(PatinaError::ArgumentError(name, stopcount, msg));
    }
    Ok(())
}

/// Checks the length of a buffer that a FIFO read fills: at least
/// `TTREADMAX` records, else an `ArgumentError` on `buffer` carrying the
/// length.
pub fn check_fifo_buffer(len: usize) -> (r: CheckedResult<(), u32>)
    ensures
        len >= TTREADMAX ==> r is Ok,
        len < TTREADMAX ==> (r matches Err(e) && is_argument_error(
            e,
            "buffer"@,
            len as u32,
            "Buffer must be at least 1048576 long"@,
        )),
{
    if len < TTREADMAX {
        let name = "buffer".to_owned();
        let msg = "Buffer must be at least 1048576 long".to_owned();
        return Err(PatinaError::ArgumentError(name, len as u32, msg));
    }
    Ok(())
}

/// Histogram length, in bins, that a length code selects: `1024 * 2^lencode`.
pub open spec fn histogram_len(lencode: int) -> int
    decreases lencode,
{
    if lencode <= 0 {
        1024
    } else {
        2 * histogram_len(lencode - 1)
    }
}

/// Checks a histogram length code (`MINLENCODE..=MAXLENCODE`) and returns
/// the histogram length it selects.
pub fn check_histogram_len(lencode: i32) -> (r: CheckedResult<i32, i32>)
    ensures
        MINLENCODE <= lencode <= MAXLENCODE ==> r == Ok::<i32, PatinaError<i32>>(
            histogram_len(lencode as int) as i32,
        ),
        !(MINLENCODE <= lencode <= MAXLENCODE) ==> (r matches Err(e) && is_argument_error(
            e,
            "lencode"@,
            lencode,
            "Length code must be between 0 and 6"@,
        )),
{
    if lencode < MINLENCODE || lencode > MAXLENCODE {
        let name = "lencode".to_owned();
        let msg = "Length code must be between 0 and 6".to_owned();
        return Err(PatinaError::ArgumentError(name, lencode, msg));
    }
    let mut len: i32 = 1024;
    let mut k: i32 = 0;
    while k < lencode
        invariant
            0 <= k <= lencode <= MAXLENCODE,
            len == histogram_len(k as int),
            1024 <= len <= 1024 * 64,
        decreases lencode - k,
    {
        proof {
            lemma_histogram_len_bound(k as int);
        }
        len = len * 2;
        k = k + 1;
    }
    Ok(len)
}

proof fn lemma_histogram_len_bound(k: int)
    requires
        0 <= k < MAXLENCODE,
    ensures
        histogram_len(k) <= 1024 * 32,
{
    reveal_with_fuel(histogram_len, 7);
    assert(histogram_len(5) == 1024 * 32);
    assert(k <= 5);
    assert(histogram_len(0) <= histogram_len(1) <= histogram_len(2) <= histogram_len(3)
        <= histogram_len(4) <= histogram_len(5));
}

/// Checks an input channel index against the device's `num_channels` inputs.
pub fn check_channel(channel: i32, num_channels: i32) -> (r: CheckedResult<(), i32>)
    ensures
        0 <= channel < num_channels ==> r is Ok,
        !(0 <= channel < num_channels) ==> (r matches Err(e) && is_argument_error(
            e,
            "channel"@,
            channel,
            "Channel must be one of the device's input channels"@,
        )),
{
    if channel < 0 || channel >= num_channels {
        let name = "channel".to_owned();
        let msg = "Channel must be one of the device's input channels".to_owned();
        return Err(PatinaError::ArgumentError(name, channel, msg));
    }
    Ok(())
}

/// The start and stop edge codes that the instrument's library receives for
/// a measurement control mode, 0 where the mode uses no edge.
pub open spec fn control_edges(
    mode: MeasurementControlMode,
    start_edge: Option<TriggerEdge>,
    stop_edge: Option<TriggerEdge>,
) -> Option<(i32, i32)> {
    match mode {
        MeasurementControlMode::C1Gated | MeasurementControlMode::C1StartC2Stop => match (
            start_edge,
            stop_edge,
        ) {
            (Some(a), Some(b)) => Some((a.spec_code(), b.spec_code())),
            _ => None,
        },
        MeasurementControlMode::C1StartCtcStop => match start_edge {
            Some(a) => Some((a.spec_code(), 0i32)),
            None => None,
        },
        _ => Some((0i32, 0i32)),
    }
}

/// Checks the edges given for a measurement control mode and returns the
/// start and stop edge codes for the instrument's library. The gated mode
/// and the C1-start/C2-stop mode need both edges, the C1-start/CTC-stop
/// mode a start edge; the other modes use none. A missing edge rejects the
/// argument `mode`, with the mode's code as its value.
pub fn measurement_control_edges(
    mode: MeasurementControlMode,
    start_edge: Option<TriggerEdge>,
    stop_edge: Option<TriggerEdge>,
) -> (r: CheckedResult<(i32, i32), String>)
    ensures
        control_edges(mode, start_edge, stop_edge) matches Some(codes) ==> r == Ok::<
            (i32, i32),
            PatinaError<String>,
        >(codes),
        control_edges(mode, start_edge, stop_edge) is None ==> (r matches Err(
            PatinaError::ArgumentError(name, value, _),
        ) && name@ == "mode"@ && value@.len() == 1 && value@[0] == (('0' as u32)
            + mode.spec_code()) as char),
{
    match mode {
        MeasurementControlMode::C1Gated => {
            match (start_edge, stop_edge) {
                (Some(a), Some(b)) => Ok((a.code(), b.code())),
                _ => {
                    let name = "mode".to_owned();
                    let value = "1".to_owned();
                    proof {
                        reveal_strlit("1");
                    }
                    let msg = "Gated mode requires start and stop edges".to_owned();
                    Err(PatinaError::ArgumentError(name, value, msg))
                },
            }
        },
        MeasurementControlMode::C1StartCtcStop => {
            match start_edge {
                Some(a) => Ok((a.code(), 0)),
                None => {
                    let name = "mode".to_owned();
                    let value = "2".to_owned();
                    proof {
                        reveal_strlit("2");
                    }
                    let msg = "C1StartCtcStop mode requires a start edge".to_owned();
                    Err(PatinaError::ArgumentError(name, value, msg))
                },
            }
        },
        MeasurementControlMode::C1StartC2Stop => {
            match (start_edge, stop_edge) {
                (Some(a), Some(b)) => Ok((a.code(), b.code())),
                _ => {
                    let name = "mode".to_owned();
                    let value = "3".to_owned();
                    proof {
                        reveal_strlit("3");
                    }
                    let msg = "C1StartC2Stop mode requires a start edge and a stop edge".to_owned();
                    Err(PatinaError::ArgumentError(name, value, msg))
                },
            }
        },
        _ => Ok((0, 0)),
    }
}

/// A single configuration structure to set many parameters in one call.
/// Parameters left at `None` are not set.
pub struct MultiHarpConfig {
    pub sync_div: Option<i32>,
    /// (level, edge)
    pub sync_trigger_edge: Option<(i32, TriggerEdge)>,
    pub sync_channel_offset: Option<i32>,
    pub sync_channel_enable: Option<bool>,
    /// (on, dead time)
    pub sync_dead_time: Option<(bool, i32)>,
    /// Vector of (channel, level, edge)
    pub input_edges: Option<Vec<(i32, i32, TriggerEdge)>>,
    /// Vector of (channel, offset)
    pub input_offsets: Option<Vec<(i32, i32)>>,
    /// Vector of (channel, enable)
    pub input_enables: Option<Vec<(i32, bool)>>,
    /// Vector of (channel, on, dead time)
    pub input_dead_times: Option<Vec<(i32, bool, i32)>>,
    pub input_hysteresis: Option<bool>,
    /// (stop on overflow, stop count)
    pub stop_overflow: Option<(bool, u32)>,
    pub binning: Option<i32>,
    pub offset: Option<i32>,
    pub histo_len: Option<i32>,
    /// (mode, start edge, stop edge)
    pub meas_control: Option<(MeasurementControlMode, Option<TriggerEdge>, Option<TriggerEdge>)>,
    pub trigger_output: Option<i32>,
    pub ofl_compression: Option<i32>,
    pub marker_edges: Option<[TriggerEdge; 4]>,
    pub marker_enable: Option<[bool; 4]>,
    pub marker_holdoff: Option<i32>,
}

impl MultiHarpConfig {
    /// No parameter is set.
    pub open spec fn is_empty(&self) -> bool {
        &&& self.sync_div is None
        &&& self.sync_trigger_edge is None
        &&& self.sync_channel_offset is None
        &&& self.sync_channel_enable is None
        &&& self.sync_dead_time is None
        &&& self.input_edges is None
        &&& self.input_offsets is None
        &&& self.input_enables is None
        &&& self.input_dead_times is None
        &&& self.input_hysteresis is None
        &&& self.stop_overflow is None
        &&& self.binning is None
        &&& self.offset is None
        &&& self.histo_len is None
        &&& self.meas_control is None
        &&& self.trigger_output is None
        &&& self.ofl_compression is None
        &&& self.marker_edges is None
        &&& self.marker_enable is None
        &&& self.marker_holdoff is None
    }
}

impl Default for MultiHarpConfig {
    fn default() -> (r: MultiHarpConfig)
        ensures
            r.is_empty(),
    {
        MultiHarpConfig {
            sync_div: None,
            sync_trigger_edge: None,
            sync_channel_offset: None,
            sync_channel_enable: None,
            sync_dead_time: None,
            input_edges: None,
            input_offsets: None,
            input_enables: None,
            input_dead_times: None,
            input_hysteresis: None,
            stop_overflow: None,
            binning: None,
            offset: None,
            histo_len: None,
            meas_control: None,
            trigger_output: None,
            ofl_compression: None,
            marker_edges: None,
            marker_enable: None,
            marker_holdoff: None,
        }
    }
}

/// One call that a configuration asks for: a setting and its arguments.
#[derive(Debug, Clone, Copy, PartialEq)]
pub enum Setting {
    SyncDiv(i32),
    SyncEdgeTrigger(i32, TriggerEdge),
    SyncChannelOffset(i32),
    SyncChannelEnable(bool),
    SyncDeadTime(bool, i32),
    InputEdgeTrigger(i32, i32, TriggerEdge),
    InputChannelOffset(i32, i32),
    InputChannelEnable(i32, bool),
    InputDeadTime(i32, bool, i32),
    InputHysteresis(bool),
    StopOverflow(bool, u32),
    Binning(i32),
    Offset(i32),
    HistogramLen(i32),
    MeasurementControl(MeasurementControlMode, Option<TriggerEdge>, Option<TriggerEdge>),
    TriggerOutput(i32),
    OverflowCompression(i32),
    MarkerEdges([TriggerEdge; 4]),
    MarkerEnable([bool; 4]),
    MarkerHoldoff(i32),
}

impl Setting {
    /// What the setting sets, in words.
    pub open spec fn spec_label(self) -> Seq<char> {
        match self {
            Setting::SyncDiv(..) => "sync divider"@,
            Setting::SyncEdgeTrigger(..) => "sync trigger"@,
            Setting::SyncChannelOffset(..) => "sync channel offset"@,
            Setting::SyncChannelEnable(..) => "sync channel enable"@,
            Setting::SyncDeadTime(..) => "sync dead time"@,
            Setting::InputEdgeTrigger(..) => "input edge trigger"@,
            Setting::InputChannelOffset(..) => "input channel offset"@,
            Setting::InputChannelEnable(..) => "input channel enable"@,
            Setting::InputDeadTime(..) => "input dead time"@,
            Setting::InputHysteresis(..) => "input hysteresis"@,
            Setting::StopOverflow(..) => "stop overflow"@,
            Setting::Binning(..) => "binning"@,
            Setting::Offset(..) => "offset"@,
            Setting::HistogramLen(..) => "histogram length"@,
            Setting::MeasurementControl(..) => "measurement control mode"@,
            Setting::TriggerOutput(..) => "trigger output"@,
            Setting::OverflowCompression(..) => "overflow compression"@,
            Setting::MarkerEdges(..) => "marker edges"@,
            Setting::MarkerEnable(..) => "marker enable"@,
            Setting::MarkerHoldoff(..) => "marker holdoff time"@,
        }
    }

    /// What the setting sets, in words.
    pub fn label(&self) -> (r: &'static str)
        ensures
            r@ == self.spec_label(),
    {
        match self {
            Setting::SyncDiv(..) => "sync divider",
            Setting::SyncEdgeTrigger(..) => "sync trigger",
            Setting::SyncChannelOffset(..) => "sync channel offset",
            Setting::SyncChannelEnable(..) => "sync channel enable",
            Setting::SyncDeadTime(..) => "sync dead time",
            Setting::InputEdgeTrigger(..) => "input edge trigger",
            Setting::InputChannelOffset(..) => "input channel offset",
            Setting::InputChannelEnable(..) => "input channel enable",
            Setting::InputDeadTime(..) => "input dead time",
            Setting::InputHysteresis(..) => "input hysteresis",
            Setting::StopOverflow(..) => "stop overflow",
            Setting::Binning(..) => "binning",
            Setting::Offset(..) => "offset",
            Setting::HistogramLen(..) => "histogram length",
            Setting::MeasurementControl(..) => "measurement control mode",
            Setting::TriggerOutput(..) => "trigger output",
            Setting::OverflowCompression(..) => "overflow compression",
            Setting::MarkerEdges(..) => "marker edges",
            Setting::MarkerEnable(..) => "marker enable",
            Setting::MarkerHoldoff(..) => "marker holdoff time",
        }
    }
}

/// One `InputEdgeTrigger` call per entry, in order.
pub open spec fn input_edge_trigger_settings(s: Seq<(i32, i32, TriggerEdge)>) -> Seq<Setting>
    decreases s.len(),
{
    if s.len() == 0 {
        Seq::empty()
    } else {
        input_edge_trigger_settings(s.drop_last()).push(Setting::InputEdgeTrigger(s.last().0, s.last().1, s.last().2))
    }
}

/// One `InputChannelOffset` call per entry, in order.
pub open spec fn input_channel_offset_settings(s: Seq<(i32, i32)>) -> Seq<Setting>
    decreases s.len(),
{
    if s.len() == 0 {
        Seq::empty()
    } else {
        input_channel_offset_settings(s.drop_last()).push(Setting::InputChannelOffset(s.last().0, s.last().1))
    }
}

/// One `InputChannelEnable` call per entry, in order.
pub open spec fn input_channel_enable_settings(s: Seq<(i32, bool)>) -> Seq<Setting>
    decreases s.len(),
{
    if s.len() == 0 {
        Seq::empty()
    } else {
        input_channel_enable_settings(s.drop_last()).push(Setting::InputChannelEnable(s.last().0, s.last().1))
    }
}

/// One `InputDeadTime` call per entry, in order.
pub open spec fn input_dead_time_settings(s: Seq<(i32, bool, i32)>) -> Seq<Setting>
    decreases s.len(),
{
    if s.len() == 0 {
        Seq::empty()
    } else {
        input_dead_time_settings(s.drop_last()).push(Setting::InputDeadTime(s.last().0, s.last().1, s.last().2))
    }
}

/// The calls asked for by `sync_div`.
pub open spec fn part_sync_div(c: MultiHarpConfig) -> Seq<Setting> {
    match c.sync_div {
        Some(x) => seq![Setting::SyncDiv(x)],
        None => Seq::empty(),
    }
}

/// The calls asked for by `sync_trigger_edge`.
pub open spec fn part_sync_trigger_edge(c: MultiHarpConfig) -> Seq<Setting> {
    match c.sync_trigger_edge {
        Some(x) => seq![Setting::SyncEdgeTrigger(x.0, x.1)],
        None => Seq::empty(),
    }
}

/// The calls asked for by `sync_channel_offset`.
pub open spec fn part_sync_channel_offset(c: MultiHarpConfig) -> Seq<Setting> {
    match c.sync_channel_offset {
        Some(x) => seq![Setting::SyncChannelOffset(x)],
        None => Seq::empty(),
    }
}

/// The calls asked for by `sync_channel_enable`.
pub open spec fn part_sync_channel_enable(c: MultiHarpConfig) -> Seq<Setting> {
    match c.sync_channel_enable {
        Some(x) => seq![Setting::SyncChannelEnable(x)],
        None => Seq::empty(),
    }
}

/// The calls asked for by `sync_dead_time`.
pub open spec fn part_sync_dead_time(c: MultiHarpConfig) -> Seq<Setting> {
    match c.sync_dead_time {
        Some(x) => seq![Setting::SyncDeadTime(x.0, x.1)],
        None => Seq::empty(),
    }
}

/// The calls asked for by `input_edges`.
pub open spec fn part_input_edges(c: MultiHarpConfig) -> Seq<Setting> {
    match c.input_edges {
        Some(v) => input_edge_trigger_settings(v@),
        None => Seq::empty(),
    }
}

/// The calls asked for by `input_offsets`.
pub open spec fn part_input_offsets(c: MultiHarpConfig) -> Seq<Setting> {
    match c.input_offsets {
        Some(v) => input_channel_offset_settings(v@),
        None => Seq::empty(),
    }
}

/// The calls asked for by `input_enables`.
pub open spec fn part_input_enables(c: MultiHarpConfig) -> Seq<Setting> {
    match c.input_enables {
        Some(v) => input_channel_enable_settings(v@),
        None => Seq::empty(),
    }
}

/// The calls asked for by `input_dead_times`.
pub open spec fn part_input_dead_times(c: MultiHarpConfig) -> Seq<Setting> {
    match c.input_dead_times {
        Some(v) => input_dead_time_settings(v@),
        None => Seq::empty(),
    }
}

/// The calls asked for by `input_hysteresis`.
pub open spec fn part_input_hysteresis(c: MultiHarpConfig) -> Seq<Setting> {
    match c.input_hysteresis {
        Some(x) => seq![Setting::InputHysteresis(x)],
        None => Seq::empty(),
    }
}

/// The calls asked for by `stop_overflow`.
pub open spec fn part_stop_overflow(c: MultiHarpConfig) -> Seq<Setting> {
    match c.stop_overflow {
        Some(x) => seq![Setting::StopOverflow(x.0, x.1)],
        None => Seq::empty(),
    }
}

/// The calls asked for by `binning`.
pub open spec fn part_binning(c: MultiHarpConfig) -> Seq<Setting> {
    match c.binning {
        Some(x) => seq![Setting::Binning(x)],
        None => Seq::empty(),
    }
}

/// The calls asked for by `offset`.
pub open spec fn part_offset(c: MultiHarpConfig) -> Seq<Setting> {
    match c.offset {
        Some(x) => seq![Setting::Offset(x)],
        None => Seq::empty(),
    }
}

/// The calls asked for by `histo_len`.
pub open spec fn part_histo_len(c: MultiHarpConfig) -> Seq<Setting> {
    match c.histo_len {
        Some(x) => seq![Setting::HistogramLen(x)],
        None => Seq::empty(),
    }
}

/// The calls asked for by `meas_control`.
pub open spec fn part_meas_control(c: MultiHarpConfig) -> Seq<Setting> {
    match c.meas_control {
        Some(x) => seq![Setting::MeasurementControl(x.0, x.1, x.2)],
        None => Seq::empty(),
    }
}

/// The calls asked for by `trigger_output`.
pub open spec fn part_trigger_output(c: MultiHarpConfig) -> Seq<Setting> {
    match c.trigger_output {
        Some(x) => seq![Setting::TriggerOutput(x)],
        None => Seq::empty(),
    }
}

/// The calls asked for by `ofl_compression`.
pub open spec fn part_ofl_compression(c: MultiHarpConfig) -> Seq<Setting> {
    match c.ofl_compression {
        Some(x) => seq![Setting::OverflowCompression(x)],
        None => Seq::empty(),
    }
}

/// The calls asked for by `marker_edges`.
pub open spec fn part_marker_edges(c: MultiHarpConfig) -> Seq<Setting> {
    match c.marker_edges {
        Some(x) => seq![Setting::MarkerEdges(x)],
        None => Seq::empty(),
    }
}

/// The calls asked for by `marker_enable`.
pub open spec fn part_marker_enable(c: MultiHarpConfig) -> Seq<Setting> {
    match c.marker_enable {
        Some(x) => seq![Setting::MarkerEnable(x)],
        None => Seq::empty(),
    }
}

/// The calls asked for by `marker_holdoff`.
pub open spec fn part_marker_holdoff(c: MultiHarpConfig) -> Seq<Setting> {
    match c.marker_holdoff {
        Some(x) => seq![Setting::MarkerHoldoff(x)],
        None => Seq::empty(),
    }
}

/// The calls that a configuration asks for, in the order they are made.
pub open spec fn settings_of(c: MultiHarpConfig) -> Seq<Setting> {
    part_sync_div(c)
        + part_sync_trigger_edge(c)
        + part_sync_channel_offset(c)
        + part_sync_channel_enable(c)
        + part_sync_dead_time(c)
        + part_input_edges(c)
        + part_input_offsets(c)
        + part_input_enables(c)
        + part_input_dead_times(c)
        + part_input_hysteresis(c)
        + part_stop_overflow(c)
        + part_binning(c)
        + part_offset(c)
        + part_histo_len(c)
        + part_meas_control(c)
        + part_trigger_output(c)
        + part_ofl_compression(c)
        + part_marker_edges(c)
        + part_marker_enable(c)
        + part_marker_holdoff(c)
}

fn push_input_edge_trigger_settings(out: &mut Vec<Setting>, v: &Vec<(i32, i32, TriggerEdge)>)
    ensures
        final(out)@ == old(out)@ + input_edge_trigger_settings(v@),
{
    let ghost before = out@;
    let mut i: usize = 0;
    while i < v.len()
        invariant
            i <= v@.len(),
            out@ == before + input_edge_trigger_settings(v@.subrange(0, i as int)),
        decreases v@.len() - i,
    {
        let x = v[i];
        proof {
            assert(v@.subrange(0, i as int + 1).drop_last() =~= v@.subrange(0, i as int));
        }
        out.push(Setting::InputEdgeTrigger(x.0, x.1, x.2));
        i = i + 1;
        assert(out@ =~= before + input_edge_trigger_settings(v@.subrange(0, i as int)));
    }
    assert(v@.subrange(0, i as int) =~= v@);
}

fn push_input_channel_offset_settings(out: &mut Vec<Setting>, v: &Vec<(i32, i32)>)
    ensures
        final(out)@ == old(out)@ + input_channel_offset_settings(v@),
{
    let ghost before = out@;
    let mut i: usize = 0;
    while i < v.len()
        invariant
            i <= v@.len(),
            out@ == before + input_channel_offset_settings(v@.subrange(0, i as int)),
        decreases v@.len() - i,
    {
        let x = v[i];
        proof {
            assert(v@.subrange(0, i as int + 1).drop_last() =~= v@.subrange(0, i as int));
        }
        out.push(Setting::InputChannelOffset(x.0, x.1));
        i = i + 1;
        assert(out@ =~= before + input_channel_offset_settings(v@.subrange(0, i as int)));
    }
    assert(v@.subrange(0, i as int) =~= v@);
}

fn push_input_channel_enable_settings(out: &mut Vec<Setting>, v: &Vec<(i32, bool)>)
    ensures
        final(out)@ == old(out)@ + input_channel_enable_settings(v@),
{
    let ghost before = out@;
    let mut i: usize = 0;
    while i < v.len()
        invariant
            i <= v@.len(),
            out@ == before + input_channel_enable_settings(v@.subrange(0, i as int)),
        decreases v@.len() - i,
    {
        let x = v[i];
        proof {
            assert(v@.subrange(0, i as int + 1).drop_last() =~= v@.subrange(0, i as int));
        }
        out.push(Setting::InputChannelEnable(x.0, x.1));
        i = i + 1;
        assert(out@ =~= before + input_channel_enable_settings(v@.subrange(0, i as int)));
    }
    assert(v@.subrange(0, i as int) =~= v@);
}

fn push_input_dead_time_settings(out: &mut Vec<Setting>, v: &Vec<(i32, bool, i32)>)
    ensures
        final(out)@ == old(out)@ + input_dead_time_settings(v@),
{
    let ghost before = out@;
    let mut i: usize = 0;
    while i < v.len()
        invariant
            i <= v@.len(),
            out@ == before + input_dead_time_settings(v@.subrange(0, i as int)),
        decreases v@.len() - i,
    {
        let x = v[i];
        proof {
            assert(v@.subrange(0, i as int + 1).drop_last() =~= v@.subrange(0, i as int));
        }
        out.push(Setting::InputDeadTime(x.0, x.1, x.2));
        i = i + 1;
        assert(out@ =~= before + input_dead_time_settings(v@.subrange(0, i as int)));
    }
    assert(v@.subrange(0, i as int) =~= v@);
}

fn push_sync_settings(out: &mut Vec<Setting>, config: &MultiHarpConfig)
    ensures
        final(out)@ == old(out)@ + part_sync_div(*config) + part_sync_trigger_edge(*config) + part_sync_channel_offset(*config) + part_sync_channel_enable(*config) + part_sync_dead_time(*config),
{
    let ghost start = out@;
    let ghost before = out@;
    if let Some(x) = config.sync_div {
        out.push(Setting::SyncDiv(x));
    }
    assert(out@ =~= before + part_sync_div(*config));
    assert(out@ == start + part_sync_div(*config));
    let ghost before = out@;
    if let Some(x) = config.sync_trigger_edge {
        out.push(Setting::SyncEdgeTrigger(x.0, x.1));
    }
    assert(out@ =~= before + part_sync_trigger_edge(*config));
    assert(out@ == start + part_sync_div(*config) + part_sync_trigger_edge(*config));
    let ghost before = out@;
    if let Some(x) = config.sync_channel_offset {
        out.push(Setting::SyncChannelOffset(x));
    }
    assert(out@ =~= before + part_sync_channel_offset(*config));
    assert(out@ == start + part_sync_div(*config) + part_sync_trigger_edge(*config) + part_sync_channel_offset(*config));
    let ghost before = out@;
    if let Some(x) = config.sync_channel_enable {
        out.push(Setting::SyncChannelEnable(x));
    }
    assert(out@ =~= before + part_sync_channel_enable(*config));
    assert(out@ == start + part_sync_div(*config) + part_sync_trigger_edge(*config) + part_sync_channel_offset(*config) + part_sync_channel_enable(*config));
    let ghost before = out@;
    if let Some(x) = config.sync_dead_time {
        out.push(Setting::SyncDeadTime(x.0, x.1));
    }
    assert(out@ =~= before + part_sync_dead_time(*config));
    assert(out@ == start + part_sync_div(*config) + part_sync_trigger_edge(*config) + part_sync_channel_offset(*config) + part_sync_channel_enable(*config) + part_sync_dead_time(*config));
}

fn push_input_settings(out: &mut Vec<Setting>, config: &MultiHarpConfig)
    ensures
        final(out)@ == old(out)@ + part_input_edges(*config) + part_input_offsets(*config) + part_input_enables(*config) + part_input_dead_times(*config) + part_input_hysteresis(*config),
{
    let ghost start = out@;
    let ghost before = out@;
    if let Some(v) = &config.input_edges {
        push_input_edge_trigger_settings(out, v);
    }
    assert(out@ =~= before + part_input_edges(*config));
    assert(out@ == start + part_input_edges(*config));
    let ghost before = out@;
    if let Some(v) = &config.input_offsets {
        push_input_channel_offset_settings(out, v);
    }
    assert(out@ =~= before + part_input_offsets(*config));
    assert(out@ == start + part_input_edges(*config) + part_input_offsets(*config));
    let ghost before = out@;
    if let Some(v) = &config.input_enables {
        push_input_channel_enable_settings(out, v);
    }
    assert(out@ =~= before + part_input_enables(*config));
    assert(out@ == start + part_input_edges(*config) + part_input_offsets(*config) + part_input_enables(*config));
    let ghost before = out@;
    if let Some(v) = &config.input_dead_times {
        push_input_dead_time_settings(out, v);
    }
    assert(out@ =~= before + part_input_dead_times(*config));
    assert(out@ == start + part_input_edges(*config) + part_input_offsets(*config) + part_input_enables(*config) + part_input_dead_times(*config));
    let ghost before = out@;
    if let Some(x) = config.input_hysteresis {
        out.push(Setting::InputHysteresis(x));
    }
    assert(out@ =~= before + part_input_hysteresis(*config));
    assert(out@ == start + part_input_edges(*config) + part_input_offsets(*config) + part_input_enables(*config) + part_input_dead_times(*config) + part_input_hysteresis(*config));
}

fn push_histogram_settings(out: &mut Vec<Setting>, config: &MultiHarpConfig)
    ensures
        final(out)@ == old(out)@ + part_stop_overflow(*config) + part_binning(*config) + part_offset(*config) + part_histo_len(*config),
{
    let ghost start = out@;
    let ghost before = out@;
    if let Some(x) = config.stop_overflow {
        out.push(Setting::StopOverflow(x.0, x.1));
    }
    assert(out@ =~= before + part_stop_overflow(*config));
    assert(out@ == start + part_stop_overflow(*config));
    let ghost before = out@;
    if let Some(x) = config.binning {
        out.push(Setting::Binning(x));
    }
    assert(out@ =~= before + part_binning(*config));
    assert(out@ == start + part_stop_overflow(*config) + part_binning(*config));
    let ghost before = out@;
    if let Some(x) = config.offset {
        out.push(Setting::Offset(x));
    }
    assert(out@ =~= before + part_offset(*config));
    assert(out@ == start + part_stop_overflow(*config) + part_binning(*config) + part_offset(*config));
    let ghost before = out@;
    if let Some(x) = config.histo_len {
        out.push(Setting::HistogramLen(x));
    }
    assert(out@ =~= before + part_histo_len(*config));
    assert(out@ == start + part_stop_overflow(*config) + part_binning(*config) + part_offset(*config) + part_histo_len(*config));
}

fn push_control_settings(out: &mut Vec<Setting>, config: &MultiHarpConfig)
    ensures
        final(out)@ == old(out)@ + part_meas_control(*config) + part_trigger_output(*config) + part_ofl_compression(*config),
{
    let ghost start = out@;
    let ghost before = out@;
    if let Some(x) = config.meas_control {
        out.push(Setting::MeasurementControl(x.0, x.1, x.2));
    }
    assert(out@ =~= before + part_meas_control(*config));
    assert(out@ == start + part_meas_control(*config));
    let ghost before = out@;
    if let Some(x) = config.trigger_output {
        out.push(Setting::TriggerOutput(x));
    }
    assert(out@ =~= before + part_trigger_output(*config));
    assert(out@ == start + part_meas_control(*config) + part_trigger_output(*config));
    let ghost before = out@;
    if let Some(x) = config.ofl_compression {
        out.push(Setting::OverflowCompression(x));
    }
    assert(out@ =~= before + part_ofl_compression(*config));
    assert(out@ == start + part_meas_control(*config) + part_trigger_output(*config) + part_ofl_compression(*config));
}

fn push_marker_settings(out: &mut Vec<Setting>, config: &MultiHarpConfig)
    ensures
        final(out)@ == old(out)@ + part_marker_edges(*config) + part_marker_enable(*config) + part_marker_holdoff(*config),
{
    let ghost start = out@;
    let ghost before = out@;
    if let Some(x) = config.marker_edges {
        out.push(Setting::MarkerEdges(x));
    }
    assert(out@ =~= before + part_marker_edges(*config));
    assert(out@ == start + part_marker_edges(*config));
    let ghost before = out@;
    if let Some(x) = config.marker_enable {
        out.push(Setting::MarkerEnable(x));
    }
    assert(out@ =~= before + part_marker_enable(*config));
    assert(out@ == start + part_marker_edges(*config) + part_marker_enable(*config));
    let ghost before = out@;
    if let Some(x) = config.marker_holdoff {
        out.push(Setting::MarkerHoldoff(x));
    }
    assert(out@ =~= before + part_marker_holdoff(*config));
    assert(out@ == start + part_marker_edges(*config) + part_marker_enable(*config) + part_marker_holdoff(*config));
}

/// Lists the calls that a configuration asks for, in the order in which
/// they are made: the sync settings, the input settings entry by entry,
/// then the histogram, measurement control, trigger output and overflow
/// compression settings, and the marker settings. Parameters left at
/// `None` ask for nothing.
pub fn config_settings(config: &MultiHarpConfig) -> (r: Vec<Setting>)
    ensures
        r@ == settings_of(*config),
{
    let mut out: Vec<Setting> = Vec::new();
    let ghost empty = out@;
    push_sync_settings(&mut out, config);
    push_input_settings(&mut out, config);
    push_histogram_settings(&mut out, config);
    push_control_settings(&mut out, config);
    push_marker_settings(&mut out, config);
    assert(empty + part_sync_div(*config) =~= part_sync_div(*config));
    out
}

} // verus!
