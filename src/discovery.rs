//! Device discovery from the results of probing each device index, and the
//! occupancy registry of simulated devices.
//!
//! Probing an index means asking the instrument's library to open it; the
//! caller does that and hands the results over, one per index from 0 up.
use vstd::prelude::*;

use crate::consts::MAXDEVNUM;
use crate::error::{is_argument_error, CheckedResult, PatinaError};

verus! {

/// The result of probing one device index: the library's open code (0 when
/// the device opened) and the serial number it reported.
#[derive(Debug, Clone, PartialEq)]
pub struct DeviceProbe {
    pub code: i32,
    pub serial: String,
}

/// Number of indices that are scanned: at most `MAXDEVNUM`, and no more than were probed.
pub open spec fn scan_limit(probes: Seq<DeviceProbe>) -> int {
    if probes.len() < MAXDEVNUM {
        probes.len() as int
    } else {
        MAXDEVNUM as int
    }
}

/// Where a scan from `devidx` begins: indices below 0 hold no device.
pub open spec fn scan_start(devidx: i32) -> int {
    if devidx < 0 {
        0
    } else {
        devidx as int
    }
}

/// The available devices among the first `n` probed indices, as
/// `(index, serial)` in index order.
pub open spec fn available_prefix(probes: Seq<DeviceProbe>, n: int) -> Seq<(i32, String)>
    decreases n,
{
    if n <= 0 {
        Seq::empty()
    } else if probes[n - 1].code == 0 {
        available_prefix(probes, n - 1).push(((n - 1) as i32, probes[n - 1].serial))
    } else {
        available_prefix(probes, n - 1)
    }
}

/// Indices whose probe failed add nothing to the available devices.
proof fn lemma_skip_unavailable(probes: Seq<DeviceProbe>, a: int, b: int)
    requires
        0 <= a <= b <= probes.len(),
        forall|k: int| a <= k < b ==> (#[trigger] probes[k]).code != 0,
    ensures
        available_prefix(probes, b) == available_prefix(probes, a),
    decreases b - a,
{
    if a < b {
        lemma_skip_unavailable(probes, a, b - 1);
    }
}

/// The status text of a probe's open code.
pub open spec fn status_text(code: i32) -> Seq<char> {
    if code == 0 {
        "Available"@
    } else if code == -2 {
        "Busy"@
    } else if code == -11 {
        "Locked"@
    } else {
        "No device"@
    }
}

/// Whether the library reports a serial number along with the open code.
pub open spec fn reports_serial(code: i32) -> bool {
    code == 0 || code == -1 || code == -2 || code == -11
}

/// Scans device indices, in order, for devices that opened.
pub struct MHDeviceIterator {
    pub devidx: i32,
}

impl MHDeviceIterator {
    /// Starts at device index 0; indices up to `MAXDEVNUM - 1` are scanned.
    pub fn new() -> (r: MHDeviceIterator)
        ensures
            r.devidx == 0,
    {
        MHDeviceIterator { devidx: 0 }
    }

    /// Scans on from the current index until a device that opened is found,
    /// and returns its index and serial number; `None` once the indices are
    /// exhausted, leaving an index already past them as it was. A negative
    /// index scans from 0.
    pub fn next(&mut self, probes: &Vec<DeviceProbe>) -> (r: Option<(i32, String)>)
        ensures
            0 <= old(self).devidx <= scan_limit(probes@) ==> 0 <= final(self).devidx <= scan_limit(
                probes@,
            ),
            old(self).devidx >= scan_limit(probes@) ==> r is None && final(self).devidx == old(
                self,
            ).devidx,
            r is None && old(self).devidx < scan_limit(probes@) ==> {
                &&& final(self).devidx == scan_limit(probes@)
                &&& forall|k: int|
                    scan_start(old(self).devidx) <= k < scan_limit(probes@) ==> (#[trigger] probes@[k]).code
                        != 0
            },
            r matches Some(found) ==> {
                &&& scan_start(old(self).devidx) <= found.0 < scan_limit(probes@)
                &&& final(self).devidx == found.0 + 1
                &&& probes@[found.0 as int].code == 0
                &&& found.1 == probes@[found.0 as int].serial
                &&& forall|k: int|
                    scan_start(old(self).devidx) <= k < found.0 ==> (#[trigger] probes@[k]).code != 0
            },
    {
        let limit: i32 = if probes.len() < MAXDEVNUM as usize {
            probes.len() as i32
        } else {
            MAXDEVNUM
        };
        if self.devidx >= limit {
            return None;
        }
        if self.devidx < 0 {
            self.devidx = 0;
        }
        let ghost start = self.devidx;
        while self.devidx < limit
            invariant
                limit == scan_limit(probes@),
                0 <= start <= self.devidx <= limit,
                start == scan_start(old(self).devidx),
                old(self).devidx < limit,
                forall|k: int| start <= k < self.devidx ==> (#[trigger] probes@[k]).code != 0,
            decreases limit - self.devidx,
        {
            let i = self.devidx;
            let probe = &probes[i as usize];
            self.devidx = i + 1;
            if probe.code == 0 {
                return Some((i, probe.serial.clone()));
            }
        }
        None
    }
}

/// Scans the probed indices and returns the available devices by index and
/// serial number, in index order.
pub fn available_devices(probes: &Vec<DeviceProbe>) -> (r: Vec<(i32, String)>)
    ensures
        r@ == available_prefix(probes@, scan_limit(probes@)),
{
    let mut it = MHDeviceIterator::new();
    let mut found: Vec<(i32, String)> = Vec::new();
    loop
        invariant
            0 <= it.devidx <= scan_limit(probes@),
            found@ == available_prefix(probes@, it.devidx as int),
        ensures
            found@ == available_prefix(probes@, scan_limit(probes@)),
        decreases scan_limit(probes@) - it.devidx,
    {
        let ghost before = it.devidx as int;
        match it.next(probes) {
            None => {
                proof {
                    lemma_skip_unavailable(probes@, before, scan_limit(probes@));
                }
                break;
            },
            Some(dev) => {
                proof {
                    lemma_skip_unavailable(probes@, before, dev.0 as int);
                }
                found.push(dev);
            },
        }
    }
    found
}

/// Lists every scanned index with its serial number and status: "Available",
/// "No device", "Busy" or "Locked". A code the library does not document
/// reports no serial number and the status "No device".
pub fn list_devices_and_status(probes: &Vec<DeviceProbe>) -> (r: Vec<(i32, String, String)>)
    ensures
        r@.len() == scan_limit(probes@),
        forall|i: int|
            0 <= i < r@.len() ==> {
                &&& (#[trigger] r@[i]).0 == i
                &&& r@[i].2@ == status_text(probes@[i].code)
                &&& reports_serial(probes@[i].code) ==> r@[i].1 == probes@[i].serial
                &&& !reports_serial(probes@[i].code) ==> r@[i].1@ == Seq::<char>::empty()
            },
{
    let limit: usize = if probes.len() < MAXDEVNUM as usize {
        probes.len()
    } else {
        MAXDEVNUM as usize
    };
    let mut out: Vec<(i32, String, String)> = Vec::new();
    let mut i: usize = 0;
    while i < limit
        invariant
            i <= limit,
            limit == scan_limit(probes@),
            out@.len() == i,
            forall|j: int|
                0 <= j < i ==> {
                    &&& (#[trigger] out@[j]).0 == j
                    &&& out@[j].2@ == status_text(probes@[j].code)
                    &&& reports_serial(probes@[j].code) ==> out@[j].1 == probes@[j].serial
                    &&& !reports_serial(probes@[j].code) ==> out@[j].1@ == Seq::<char>::empty()
                },
        decreases limit - i,
    {
        let code = probes[i].code;
        let status = if code == 0 {
            "Available".to_owned()
        } else if code == -2 {
            "Busy".to_owned()
        } else if code == -11 {
            "Locked".to_owned()
        } else {
            "No device".to_owned()
        };
        let serial = if code == 0 || code == -1 || code == -2 || code == -11 {
            probes[i].serial.clone()
        } else {
            String::new()
        };
        out.push((i as i32, serial, status));
        i = i + 1;
    }
    out
}

/// Serial number that a scan reports for a simulated device.
pub open spec fn simulated_serial() -> Seq<char> {
    "Debug00"@
}

/// Which simulated device indices are open. Each index appears at most once.
pub struct DeviceRegistry {
    pub occupied: Vec<i32>,
}

impl DeviceRegistry {
    /// No index appears twice.
    pub open spec fn wf(&self) -> bool {
        self.occupied@.no_duplicates()
    }

    /// A registry with every device free.
    pub fn new() -> (r: DeviceRegistry)
        ensures
            r.wf(),
            r.occupied@.len() == 0,
    {
        DeviceRegistry { occupied: Vec::new() }
    }

    /// Whether the device at `index` is open.
    pub fn is_occupied(&self, index: i32) -> (r: bool)
        ensures
            r == self.occupied@.contains(index),
    {
        let mut i: usize = 0;
        while i < self.occupied.len()
            invariant
                i <= self.occupied@.len(),
                forall|j: int| 0 <= j < i ==> self.occupied@[j] != index,
            decreases self.occupied@.len() - i,
        {
            if self.occupied[i] == index {
                return true;
            }
            i = i + 1;
        }
        false
    }

    /// Opens the simulated device at `index`.
    ///
    /// Without an index there is no device to open (`NoDeviceAvailable`).
    /// The index must lie in `0..MAXDEVNUM` and must not be open already,
    /// else an `ArgumentError` on `index`. On failure nothing changes.
    pub fn open(&mut self, index: Option<i32>) -> (r: CheckedResult<i32, i32>)
        requires
            old(self).wf(),
        ensures
            final(self).wf(),
            match index {
                None => r == Err::<i32, PatinaError<i32>>(PatinaError::NoDeviceAvailable)
                    && *final(self) == *old(self),
                Some(i) => if i < 0 || i >= MAXDEVNUM {
                    (r matches Err(e) && is_argument_error(
                        e,
                        "index"@,
                        i,
                        "Index must be between 0 and 7"@,
                    )) && *final(self) == *old(self)
                } else if old(self).occupied@.contains(i) {
                    (r matches Err(e) && is_argument_error(
                        e,
                        "index"@,
                        i,
                        "Device already occupied"@,
                    )) && *final(self) == *old(self)
                } else {
                    r == Ok::<i32, PatinaError<i32>>(i) && final(self).occupied@ == old(
                        self,
                    ).occupied@.push(i)
                },
            },
    {
        match index {
            None => Err(PatinaError::NoDeviceAvailable),
            Some(i) => {
                if i < 0 || i >= MAXDEVNUM {
                    let name = "index".to_owned();
                    let msg = "Index must be between 0 and 7".to_owned();
                    Err(PatinaError::ArgumentError(name, i, msg))
                } else if self.is_occupied(i) {
                    let name = "index".to_owned();
                    let msg = "Device already occupied".to_owned();
                    Err(PatinaError::ArgumentError(name, i, msg))
                } else {
                    self.occupied.push(i);
                    Ok(i)
                }
            },
        }
    }

    /// Frees the device at `index`; the other open devices stay open.
    pub fn release(&mut self, index: i32)
        requires
            old(self).wf(),
        ensures
            final(self).wf(),
            forall|x: i32|
                #[trigger] final(self).occupied@.contains(x) <==> (old(self).occupied@.contains(x)
                    && x != index),
    {
        let mut kept: Vec<i32> = Vec::new();
        let mut i: usize = 0;
        while i < self.occupied.len()
            invariant
                i <= self.occupied@.len(),
                self.occupied@.no_duplicates(),
                kept@.no_duplicates(),
                forall|x: i32|
                    #[trigger] kept@.contains(x) <==> (self.occupied@.subrange(0, i as int).contains(x)
                        && x != index),
            decreases self.occupied@.len() - i,
        {
            let x = self.occupied[i];
            let ghost pre = self.occupied@.subrange(0, i as int);
            let ghost kept_before = kept@;
            proof {
                assert(self.occupied@.subrange(0, i as int + 1) =~= pre.push(x));
                if pre.contains(x) {
                    let j = choose|j: int| 0 <= j < pre.len() && pre[j] == x;
                    assert(self.occupied@[j] == self.occupied@[i as int]);
                }
            }
            if x != index {
                kept.push(x);
                proof {
                    assert(kept@ == kept_before.push(x));
                    assert forall|y: i32| #[trigger]
                        kept@.contains(y) <==> (pre.push(x).contains(y) && y != index) by {
                        if kept@.contains(y) && y != x {
                            let j = choose|j: int| 0 <= j < kept@.len() && kept@[j] == y;
                            assert(kept_before[j] == y);
                            assert(kept_before.contains(y));
                            assert(pre.contains(y));
                            let k = choose|k: int| 0 <= k < pre.len() && pre[k] == y;
                            assert(pre.push(x)[k] == y);
                        }
                        if pre.push(x).contains(y) && y != x && y != index {
                            let j = choose|j: int| 0 <= j < pre.push(x).len() && pre.push(x)[j] == y;
                            assert(pre[j] == y);
                            assert(kept_before.contains(y));
                            let k = choose|k: int| 0 <= k < kept_before.len() && kept_before[k] == y;
                            assert(kept@[k] == y);
                        }
                        if y == x {
                            assert(kept@[kept@.len() - 1] == x);
                            assert(pre.push(x)[pre.len() as int] == x);
                        }
                    }
                    assert forall|a: int, b: int|
                        0 <= a < kept@.len() && 0 <= b < kept@.len() && a != b implies kept@[a]
                        != kept@[b] by {
                        if a == kept@.len() - 1 {
                            assert(kept_before.contains(kept@[b]) || b == a);
                        } else if b == kept@.len() - 1 {
                            assert(kept_before.contains(kept@[a]));
                        }
                    }
                }
            } else {
                proof {
                    assert forall|y: i32| #[trigger]
                        kept@.contains(y) <==> (pre.push(x).contains(y) && y != index) by {
                        if pre.push(x).contains(y) && y != x {
                            let j = choose|j: int| 0 <= j < pre.push(x).len() && pre.push(x)[j] == y;
                            assert(pre[j] == y);
                        }
                        if pre.contains(y) {
                            let j = choose|j: int| 0 <= j < pre.len() && pre[j] == y;
                            assert(pre.push(x)[j] == y);
                        }
                    }
                }
            }
            i = i + 1;
        }
        assert(self.occupied@.subrange(0, i as int) =~= self.occupied@);
        self.occupied = kept;
    }

    /// Probes every device index as the instrument's library would: a free
    /// simulated device opens (code 0), an open one is busy (`DeviceBusy`).
    pub fn probe_all(&self) -> (r: Vec<DeviceProbe>)
        ensures
            r@.len() == MAXDEVNUM,
            forall|i: int|
                0 <= i < MAXDEVNUM ==> {
                    &&& (#[trigger] r@[i]).serial@ == simulated_serial()
                    &&& r@[i].code == if self.occupied@.contains(i as i32) {
                        -2i32
                    } else {
                        0i32
                    }
                },
    {
        let mut out: Vec<DeviceProbe> = Vec::new();
        let mut i: i32 = 0;
        while i < MAXDEVNUM
            invariant
                0 <= i <= MAXDEVNUM,
                out@.len() == i,
                forall|j: int|
                    0 <= j < i ==> {
                        &&& (#[trigger] out@[j]).serial@ == simulated_serial()
                        &&& out@[j].code == if self.occupied@.contains(j as i32) {
                            -2i32
                        } else {
                            0i32
                        }
                    },
            decreases MAXDEVNUM - i,
        {
            let code: i32 = if self.is_occupied(i) {
                -2
            } else {
                0
            };
            out.push(DeviceProbe { code, serial: "Debug00".to_owned() });
            i = i + 1;
        }
        out
    }
}

/// Checks a serial number before a device is looked up by it: at most 8
/// bytes, else an `ArgumentError` on `serial` carrying its length.
pub fn check_serial(serial: &str) -> (r: CheckedResult<(), i32>)
    ensures
        serial.len() <= 8 ==> r is Ok,
        serial.len() > 8 ==> (r matches Err(e) && is_argument_error(
            e,
            "serial"@,
            if serial.len() > i32::MAX {
                i32::MAX
            } else {
                serial.len() as i32
            },
            "Serial number must be 8 characters or less"@,
        )),
{
    let len = serial.len();
    if len > 8 {
        let shown: i32 = if len > i32::MAX as usize {
            i32::MAX
        } else {
            len as i32
        };
        let name = "serial".to_owned();
        let msg = "Serial number must be 8 characters or less".to_owned();
        return Err(PatinaError::ArgumentError(name, shown, msg));
    }
    Ok(())
}

} // verus!
