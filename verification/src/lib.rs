//! Core library of a backlight and LED brightness utility.
//!
//! Brightness-capable hardware shows up as directories of plain-text
//! attribute files (one directory per device, holding a current value and a
//! maximum value). This crate holds the verified core: the ASCII-integer
//! codec for those files, priority-based device detection, the LED name
//! parser, and the percentage / sweep transition engine. All file system
//! access stays outside; the library computes values and byte sequences and
//! states in its contracts exactly what they are.

pub mod codec;
pub mod err;
pub mod led;
pub mod light;
pub mod text;

use crate::codec::{ascii_u32_readable, digits_of, spec_read_ascii_u32};
use crate::err::BlibError;
use crate::light::{
    spec_calculate_change, spec_percent_rounded, spec_toggle_value, sweep_dir, sweep_final,
    sweep_seq, sweep_stop,
};
use crate::text::contains_seq;
use vstd::prelude::*;

verus! {

/// Root directory of the backlight interface: each child directory is one
/// backlight device.
pub const BLDIR: &'static str = "/sys/class/backlight";

/// Name of the read-write current-value file inside a device directory.
pub const CURRENT_FILE: &'static str = "brightness";

/// Name of the read-only maximum-value file inside a device directory.
pub const MAX_FILE: &'static str = "max_brightness";

/// Direction of a brightness change: increase or decrease.
#[derive(Clone, Copy, Debug, PartialEq, Eq, Structural)]
pub enum Direction {
    Inc,
    Dec,
}

/// Kind of brightness change: applied at once, or gradually (a sweep).
#[derive(Clone, Copy, Debug, PartialEq, Eq, Structural)]
pub enum Change {
    Regular,
    Sweep,
}

/// Delay between two iterations of a sweep, in milliseconds.
#[derive(Clone, Copy, Debug, PartialEq, Eq, Structural)]
pub struct Delay {
    pub millis: u64,
}

impl Delay {
    /// Builds a delay of the given number of milliseconds.
    pub fn from_millis(millis: u64) -> (r: Delay)
        ensures
            r.millis == millis,
    {
        Delay { millis }
    }

    /// The delay in milliseconds.
    pub fn millis(&self) -> (r: u64)
        ensures
            r == self.millis,
    {
        self.millis
    }
}

impl Default for Delay {
    /// The recommended delay for a smooth transition: 25 ms per iteration.
    fn default() -> (r: Delay)
        ensures
            r.millis == 25,
    {
        Delay { millis: 25 }
    }
}

/// Token restricting the cache-updating operations to callers that hold the
/// device's state deliberately (the reload path).
pub struct Internal;

/// Base marker of the capability model; every device type carries it.
pub trait Sealed {}

/// Marker of a device that can at least be switched between off and its
/// maximum.
pub trait Toggleable: Sealed {}

/// Marker of a device with a continuous value range; only such a device
/// offers the percentage calculator and the sweep transition.
pub trait Dimmable: Toggleable {}

/// A backlight device: its name, the cached current and maximum values read
/// from its attribute files, and the path of its interface directory.
///
/// The cached `current` is a snapshot, authoritative only until the value
/// changes externally; callers resynchronize through [`Device::try_reload`].
/// Nothing constrains `current` against `max`: a reload may legitimately
/// observe a value beyond the advertised range.
#[derive(Debug)]
pub struct Device {
    /// The device's name, the name of its interface directory.
    pub name: String,
    /// Cached current brightness value.
    pub current: u32,
    /// Cached maximum brightness value.
    pub max: u32,
    /// Path of the device's interface directory.
    pub path: String,
}

impl Sealed for Device {
}

impl Toggleable for Device {
}

impl Dimmable for Device {
}

impl Device {
    /// Builds the in-memory model of a backlight device from its name and
    /// the two values read from its attribute files.
    pub fn new(name: String, current: u32, max: u32) -> (d: Device)
        ensures
            d.name == name,
            d.current == current,
            d.max == max,
            d.path@ == BLDIR@ + "/"@ + name@,
    {
        let path = crate::codec::construct_path(BLDIR, name.as_str());
        Device { name, current, max, path }
    }

    /// The device's name.
    pub fn name(&self) -> (r: &str)
        ensures
            r@ == self.name@,
    {
        self.name.as_str()
    }

    /// The cached current brightness value.
    pub fn current(&self) -> (r: u32)
        ensures
            r == self.current,
    {
        self.current
    }

    /// The maximum brightness value.
    pub fn max(&self) -> (r: u32)
        ensures
            r == self.max,
    {
        self.max
    }

    /// The path of the device's interface directory.
    pub fn device_path(&self) -> (r: &str)
        ensures
            r@ == self.path@,
    {
        self.path.as_str()
    }

    /// Replaces the cached current value.
    pub fn set_current(&mut self, _token: Internal, current: u32)
        ensures
            final(self).current == current,
            final(self).name == old(self).name,
            final(self).max == old(self).max,
            final(self).path == old(self).path,
    {
        self.current = current;
    }

    /// Re-reads the cached current value from the bytes read back from the
    /// current-value file: an unacceptable byte count is reported as a
    /// failed current read and leaves the cache untouched.
    pub fn try_reload(&mut self, bytes: &[u8]) -> (r: Result<(), BlibError>)
        requires
            1 <= bytes@.len() <= 10 ==> ascii_u32_readable(bytes@),
        ensures
            final(self).name == old(self).name,
            final(self).max == old(self).max,
            final(self).path == old(self).path,
            match spec_read_ascii_u32(bytes@) {
                Some(v) => r is Ok && final(self).current == v,
                None => r == Err::<(), BlibError>(BlibError::ReadCurrent) && final(self).current
                    == old(self).current,
            },
    {
        match crate::codec::read_ascii_u32(bytes) {
            Some(v) => {
                self.current = v;
                Ok(())
            },
            None => Err(BlibError::ReadCurrent),
        }
    }

    /// Validates a value against the maximum and renders the bytes a write
    /// of it carries: a value above the maximum is rejected before any
    /// write could happen. The caller writes the returned bytes to the
    /// current-value file and rewinds it; the cached current value is not
    /// touched.
    pub fn write_value(&self, value: u32) -> (r: Result<Vec<u8>, BlibError>)
        ensures
            value > self.max ==> r == Err::<Vec<u8>, BlibError>(
                BlibError::ValueTooLarge { given: value, supported: self.max },
            ),
            value <= self.max ==> (r matches Ok(b) && b@ == digits_of(value as int)),
    {
        if value > self.max {
            return Err(BlibError::ValueTooLarge { given: value, supported: self.max });
        }
        Ok(crate::codec::u32_to_ascii(value))
    }

    /// The value a toggle writes: zero when the device sits at its
    /// maximum, the maximum otherwise. The result is always a valid write.
    pub fn toggle_value(&self) -> (r: u32)
        ensures
            r == spec_toggle_value(self.current, self.max),
            r <= self.max,
    {
        if self.current == self.max {
            0
        } else {
            self.max
        }
    }

    /// The cached current value as a percentage of the range, rounded
    /// half-up to the nearest whole percent.
    pub fn current_percent_rounded(&self) -> (r: u64)
        requires
            self.max > 0,
        ensures
            r == spec_percent_rounded(self.current, self.max),
    {
        crate::light::percent_rounded(self.current, self.max)
    }

    /// Computes the value a step of `step_size` percent in direction `dir`
    /// moves this device to; the result is always safe to hand straight to
    /// [`Device::write_value`].
    pub fn calculate_change(&self, step_size: u32, dir: Direction) -> (r: u32)
        ensures
            r == spec_calculate_change(self.current, self.max, step_size, dir),
            r <= self.max,
            dir == Direction::Dec ==> r <= self.current,
            dir == Direction::Inc && self.current <= self.max ==> r >= self.current,
    {
        crate::light::calculate_change(self.current, self.max, step_size, dir)
    }

    /// Walks the cached current value toward `value` in one-percent steps
    /// and returns, in order, every intermediate value the transition
    /// writes; the cache follows the walk. A target above the maximum is a
    /// silent no-op: nothing is written and the cache is untouched. The
    /// caller performs the writes, waiting between iterations.
    ///
    /// A range below one hundred makes the one-percent step truncate to
    /// zero, and a walk that still has ground to cover then never moves;
    /// such a walk has no finite write sequence and is left to the
    /// step-by-step [`light::sweep_next`].
    pub fn sweep_write(&mut self, value: u32) -> (writes: Vec<u32>)
        requires
            old(self).max >= 100 || sweep_stop(
                old(self).current,
                value,
                old(self).max,
                sweep_dir(old(self).current, value),
            ),
        ensures
            final(self).name == old(self).name,
            final(self).max == old(self).max,
            final(self).path == old(self).path,
            writes@ == sweep_seq(
                old(self).current,
                value,
                old(self).max,
                sweep_dir(old(self).current, value),
            ),
            final(self).current == sweep_final(
                old(self).current,
                value,
                old(self).max,
                sweep_dir(old(self).current, value),
            ),
            value > old(self).max ==> writes@.len() == 0 && final(self).current == old(
                self,
            ).current,
            writes@.len() > 0 ==> writes@.last() == final(self).current,
            old(self).current <= old(self).max ==> final(self).current <= old(self).max && (forall|
                i: int,
            | 0 <= i < writes@.len() ==> #[trigger] writes@[i] <= old(self).max),
            old(self).max >= 100 && old(self).current < value <= old(self).max
                ==> final(self).current == value,
            old(self).max >= 100 && value < old(self).current && value <= old(self).max
                ==> final(self).current == value || final(self).current == 0,
    {
        let (writes, end) = crate::light::sweep_values(self.current, value, self.max);
        self.current = end;
        writes
    }
}

/// What a read of a device's interface directory extracts: the two parsed
/// values and the directory's resolved path. The open handle to the
/// current-value file stays with the caller performing the reads.
#[derive(Debug)]
pub struct Info {
    /// Parsed current brightness value.
    pub current: u32,
    /// Parsed maximum brightness value.
    pub max: u32,
    /// Path of the device's interface directory.
    pub path: String,
}

/// Decides the outcome of reading a device's interface directory under
/// `dir`. `is_dir` says whether the joined path is a directory (else the
/// device does not exist); `max_bytes` and `current_bytes` hold what was
/// read from the maximum- and current-value files, absent where a file
/// could not be opened or read. The first failing step names the error:
/// a missing directory, then the maximum read, then the current read.
pub fn read_info(
    dir: &str,
    interface: &str,
    is_dir: bool,
    max_bytes: Option<&[u8]>,
    current_bytes: Option<&[u8]>,
) -> (r: Result<Info, BlibError>)
    requires
        (max_bytes matches Some(b) && 1 <= b@.len() <= 10) ==> ascii_u32_readable(
            max_bytes->Some_0@,
        ),
        (current_bytes matches Some(b) && 1 <= b@.len() <= 10) ==> ascii_u32_readable(
            current_bytes->Some_0@,
        ),
    ensures
        ({
            let m = match max_bytes {
                Some(b) => spec_read_ascii_u32(b@),
                None => None,
            };
            let c = match current_bytes {
                Some(b) => spec_read_ascii_u32(b@),
                None => None,
            };
            if !is_dir {
                r == Err::<Info, BlibError>(BlibError::NoDeviceFound)
            } else if m is None {
                r == Err::<Info, BlibError>(BlibError::ReadMax)
            } else if c is None {
                r == Err::<Info, BlibError>(BlibError::ReadCurrent)
            } else {
                r matches Ok(info) && info.max == m->Some_0 && info.current == c->Some_0
                    && info.path@ == dir@ + "/"@ + interface@
            }
        }),
{
    if !is_dir {
        return Err(BlibError::NoDeviceFound);
    }
    let max = match max_bytes {
        Some(b) => match crate::codec::read_ascii_u32(b) {
            Some(v) => v,
            None => {
                return Err(BlibError::ReadMax);
            },
        },
        None => {
            return Err(BlibError::ReadMax);
        },
    };
    let current = match current_bytes {
        Some(b) => match crate::codec::read_ascii_u32(b) {
            Some(v) => v,
            None => {
                return Err(BlibError::ReadCurrent);
            },
        },
        None => {
            return Err(BlibError::ReadCurrent);
        },
    };
    let path = crate::codec::construct_path(dir, interface);
    Ok(Info { current, max, path })
}

/// The substring marks of the preferred integrated or discrete GPUs: the
/// first interface carrying one wins detection immediately.
pub open spec fn is_priority_name(s: Seq<char>) -> bool {
    contains_seq(s, "amd"@) || contains_seq(s, "intel"@)
}

/// The substring marks of an Nvidia interface, the first fallback.
pub open spec fn is_nv_name(s: Seq<char>) -> bool {
    contains_seq(s, "nvidia"@) || contains_seq(s, "nv"@)
}

/// The substring mark of an ACPI interface, the second fallback.
pub open spec fn is_acpi_name(s: Seq<char>) -> bool {
    contains_seq(s, "acpi"@)
}

/// Some listed interface carries a priority mark.
pub open spec fn has_priority(vs: Seq<Seq<char>>) -> bool {
    exists|i: int| 0 <= i < vs.len() && is_priority_name(#[trigger] vs[i])
}

/// Some listed interface carries an Nvidia mark.
pub open spec fn has_nv(vs: Seq<Seq<char>>) -> bool {
    exists|i: int| 0 <= i < vs.len() && is_nv_name(#[trigger] vs[i])
}

/// Some listed interface carries an ACPI mark.
pub open spec fn has_acpi(vs: Seq<Seq<char>>) -> bool {
    exists|i: int| 0 <= i < vs.len() && is_acpi_name(#[trigger] vs[i])
}

/// `k` is the index detection picks from the listed interface names: the
/// first priority interface; failing that the first Nvidia one, then the
/// first ACPI one; failing all, simply the first entry.
pub open spec fn detect_pick(vs: Seq<Seq<char>>, k: int) -> bool {
    if has_priority(vs) {
        0 <= k < vs.len() && is_priority_name(vs[k]) && (forall|j: int|
            0 <= j < k ==> !is_priority_name(#[trigger] vs[j]))
    } else if has_nv(vs) {
        0 <= k < vs.len() && is_nv_name(vs[k]) && (forall|j: int|
            0 <= j < k ==> !is_nv_name(#[trigger] vs[j]))
    } else if has_acpi(vs) {
        0 <= k < vs.len() && is_acpi_name(vs[k]) && (forall|j: int|
            0 <= j < k ==> !is_acpi_name(#[trigger] vs[j]))
    } else {
        vs.len() > 0 && k == 0
    }
}

impl Device {
    /// Picks the backlight interface to drive from the listed names,
    /// reflecting common hybrid-GPU setups: the first name containing
    /// `amd` or `intel` wins immediately; otherwise the first containing
    /// `nvidia` or `nv`, then the first containing `acpi`; otherwise the
    /// first listed name. An empty listing reports that no device was
    /// found.
    pub fn detect_device(names: &Vec<String>) -> (r: Result<String, BlibError>)
        ensures
            names@.len() == 0 ==> r == Err::<String, BlibError>(BlibError::NoDeviceFound),
            names@.len() > 0 ==> (r matches Ok(nm) && exists|k: int|
                #[trigger] detect_pick(names.deep_view(), k) && nm@ == names.deep_view()[k]),
    {
        let ghost vs = names.deep_view();
        let n = names.len();
        let mut nv: Option<usize> = None;
        let mut ac: Option<usize> = None;
        let mut i: usize = 0;
        while i < n
            invariant
                vs == names.deep_view(),
                n == names@.len(),
                vs.len() == n,
                0 <= i <= n,
                forall|j: int| 0 <= j < i ==> !is_priority_name(#[trigger] vs[j]),
                nv matches Some(k) ==> k < i && is_nv_name(vs[k as int]) && (forall|j: int|
                    0 <= j < k ==> !is_nv_name(#[trigger] vs[j])),
                nv is None ==> forall|j: int| 0 <= j < i ==> !is_nv_name(#[trigger] vs[j]),
                ac matches Some(k) ==> k < i && is_acpi_name(vs[k as int]) && (forall|j: int|
                    0 <= j < k ==> !is_acpi_name(#[trigger] vs[j])),
                ac is None ==> forall|j: int| 0 <= j < i ==> !is_acpi_name(#[trigger] vs[j]),
            decreases n - i,
        {
            let s = names[i].as_str();
            proof {
                assert(s@ == vs[i as int]);
            }
            if crate::text::contains_sub(s, "amd") || crate::text::contains_sub(s, "intel") {
                proof {
                    assert(is_priority_name(vs[i as int]));
                    assert(detect_pick(vs, i as int));
                }
                return Ok(names[i].clone());
            }
            if nv.is_none() && (crate::text::contains_sub(s, "nvidia") || crate::text::contains_sub(
                s,
                "nv",
            )) {
                nv = Some(i);
            }
            if ac.is_none() && crate::text::contains_sub(s, "acpi") {
                ac = Some(i);
            }
            i += 1;
        }
        proof {
            assert(!has_priority(vs));
        }
        match nv {
            Some(k) => {
                proof {
                    assert(detect_pick(vs, k as int));
                }
                Ok(names[k].clone())
            },
            None => {
                match ac {
                    Some(k) => {
                        proof {
                            assert(!has_nv(vs));
                            assert(detect_pick(vs, k as int));
                        }
                        Ok(names[k].clone())
                    },
                    None => {
                        if names.len() > 0 {
                            proof {
                                assert(!has_nv(vs));
                                assert(!has_acpi(vs));
                                assert(detect_pick(vs, 0));
                            }
                            Ok(names[0].clone())
                        } else {
                            Err(BlibError::NoDeviceFound)
                        }
                    },
                }
            },
        }
    }
}

/// Applies a step-size change to a device: the new value is calculated
/// from the step percentage and direction, and when it differs from the
/// cached current value the transition is returned as the values to write
/// in order — a single write for a regular change, the whole walk for a
/// sweep (whose steps the caller paces with a delay). A sweep updates the
/// cache as the walk does; a regular change leaves the cache for a reload.
pub fn change_bl(device: &mut Device, step_size: u32, ch: Change, dir: Direction) -> (writes: Vec<
    u32,
>)
    requires
        ch == Change::Sweep ==> old(device).max >= 100 || spec_calculate_change(
            old(device).current,
            old(device).max,
            step_size,
            dir,
        ) == old(device).current,
    ensures
        final(device).name == old(device).name,
        final(device).max == old(device).max,
        final(device).path == old(device).path,
        ({
            let change = spec_calculate_change(old(device).current, old(device).max, step_size, dir);
            if change == old(device).current {
                writes@.len() == 0 && final(device).current == old(device).current
            } else if ch == Change::Regular {
                writes@ == seq![change] && final(device).current == old(device).current
            } else {
                writes@ == sweep_seq(
                    old(device).current,
                    change,
                    old(device).max,
                    sweep_dir(old(device).current, change),
                ) && final(device).current == sweep_final(
                    old(device).current,
                    change,
                    old(device).max,
                    sweep_dir(old(device).current, change),
                )
            }
        }),
{
    let change = device.calculate_change(step_size, dir);
    if change == device.current {
        return Vec::new();
    }
    match ch {
        Change::Sweep => device.sweep_write(change),
        Change::Regular => {
            let mut writes: Vec<u32> = Vec::new();
            writes.push(change);
            proof {
                assert(writes@ =~= seq![change]);
            }
            writes
        },
    }
}

/// Writes the given value directly: nothing when it already equals the
/// cached current value, a rejection when it exceeds the maximum, else a
/// single write of the value itself.
pub fn set_bl(device: &Device, val: u32) -> (r: Result<Vec<u32>, BlibError>)
    ensures
        val == device.current ==> (r matches Ok(w) && w@.len() == 0),
        val != device.current && val > device.max ==> r == Err::<Vec<u32>, BlibError>(
            BlibError::ValueTooLarge { given: val, supported: device.max },
        ),
        val != device.current && val <= device.max ==> (r matches Ok(w) && w@ == seq![val]),
{
    if val == device.current {
        return Ok(Vec::new());
    }
    if val > device.max {
        return Err(BlibError::ValueTooLarge { given: val, supported: device.max });
    }
    let mut w: Vec<u32> = Vec::new();
    w.push(val);
    proof {
        assert(w@ =~= seq![val]);
    }
    Ok(w)
}

} // verus!
