//! LED devices, driven through the same two-file directory contract as
//! backlight devices, but named after the convention
//! `[topology]:[color]:function` (colons optional except the final function
//! separator).
//!
//! The name parser is pure and infallible: the raw name is split from the
//! right, each isolated token is matched case-sensitively against a fixed
//! lowercase vocabulary, and anything unmatched or absent resolves to
//! `Unknown`. The reported maximum value classifies a device once and for
//! all: a maximum of one yields a [`BinaryLed`], restricted to on/off, any
//! other maximum a dimmable [`Led`] with the full operation set — so that
//! calling a dimming operation on a binary device is a type error, not a
//! runtime check.

use crate::codec::digits_of;
use crate::err::BlibError;
use crate::light::{
    spec_calculate_change, spec_percent_rounded, spec_toggle_value, sweep_dir, sweep_final,
    sweep_seq, sweep_stop,
};
use crate::text::str_eq;
use crate::{Dimmable, Direction, Sealed, Toggleable};
use vstd::prelude::*;
use vstd::string::StrSliceExecFns;

verus! {

/// Root directory of the LED interface: each child directory is one LED.
pub const LEDDIR: &'static str = "/sys/class/leds";

/// The fixed vocabulary of LED colors, plus `Unknown` for anything the
/// name does not state.
#[derive(Clone, Copy, Debug, PartialEq, Eq, Structural)]
pub enum Color {
    White,
    Red,
    Green,
    Blue,
    Amber,
    Violet,
    Yellow,
    Ir,
    Multi,
    Rgb,
    Purple,
    Orange,
    Pink,
    Cyan,
    Lime,
    Max,
    Unknown,
}

/// The color a token denotes.
pub open spec fn spec_color_of(t: Seq<char>) -> Color {
    if t == "white"@ {
        Color::White
    } else if t == "red"@ {
        Color::Red
    } else if t == "green"@ {
        Color::Green
    } else if t == "blue"@ {
        Color::Blue
    } else if t == "amber"@ {
        Color::Amber
    } else if t == "violet"@ {
        Color::Violet
    } else if t == "yellow"@ {
        Color::Yellow
    } else if t == "ir"@ {
        Color::Ir
    } else if t == "multi"@ {
        Color::Multi
    } else if t == "rgb"@ {
        Color::Rgb
    } else if t == "purple"@ {
        Color::Purple
    } else if t == "orange"@ {
        Color::Orange
    } else if t == "pink"@ {
        Color::Pink
    } else if t == "cyan"@ {
        Color::Cyan
    } else if t == "lime"@ {
        Color::Lime
    } else if t == "max"@ {
        Color::Max
    } else {
        Color::Unknown
    }
}

impl Color {
    /// Matches a token against the color vocabulary.
    pub fn from_token(t: &str) -> (c: Color)
        ensures
            c == spec_color_of(t@),
    {
        if str_eq(t, "white") {
            Color::White
        } else if str_eq(t, "red") {
            Color::Red
        } else if str_eq(t, "green") {
            Color::Green
        } else if str_eq(t, "blue") {
            Color::Blue
        } else if str_eq(t, "amber") {
            Color::Amber
        } else if str_eq(t, "violet") {
            Color::Violet
        } else if str_eq(t, "yellow") {
            Color::Yellow
        } else if str_eq(t, "ir") {
            Color::Ir
        } else if str_eq(t, "multi") {
            Color::Multi
        } else if str_eq(t, "rgb") {
            Color::Rgb
        } else if str_eq(t, "purple") {
            Color::Purple
        } else if str_eq(t, "orange") {
            Color::Orange
        } else if str_eq(t, "pink") {
            Color::Pink
        } else if str_eq(t, "cyan") {
            Color::Cyan
        } else if str_eq(t, "lime") {
            Color::Lime
        } else if str_eq(t, "max") {
            Color::Max
        } else {
            Color::Unknown
        }
    }
}

/// The fixed vocabulary of LED functions, plus `Unknown` for anything the
/// name does not state.
#[derive(Clone, Copy, Debug, PartialEq, Eq, Structural)]
pub enum Function {
    Capslock,
    Scrolllock,
    Numlock,
    Fnlock,
    KbdBacklight,
    Power,
    Disk,
    Charging,
    Status,
    Micmute,
    Mute,
    Player1,
    Player2,
    Player3,
    Player4,
    Player5,
    Activity,
    Alarm,
    Backlight,
    Bluetooth,
    Boot,
    Cpu,
    Debug,
    DiskActivity,
    DiskErr,
    DiskRead,
    DiskWrite,
    Fault,
    Flash,
    Heartbeat,
    Indicator,
    Lan,
    Mail,
    Mobile,
    Mtd,
    Panic,
    Programming,
    Rx,
    Sd,
    SpeedLan,
    SpeedWan,
    Standby,
    Torch,
    Tx,
    Usb,
    Wan,
    WanOnline,
    Wlan,
    Wlan2ghz,
    Wlan5ghz,
    Wlan6ghz,
    Wps,
    Unknown,
}

/// The function a token denotes.
pub open spec fn spec_function_of(t: Seq<char>) -> Function {
    if t == "capslock"@ {
        Function::Capslock
    } else if t == "scrolllock"@ {
        Function::Scrolllock
    } else if t == "numlock"@ {
        Function::Numlock
    } else if t == "fnlock"@ {
        Function::Fnlock
    } else if t == "kbd_backlight"@ {
        Function::KbdBacklight
    } else if t == "power"@ {
        Function::Power
    } else if t == "disk"@ {
        Function::Disk
    } else if t == "charging"@ {
        Function::Charging
    } else if t == "status"@ {
        Function::Status
    } else if t == "micmute"@ {
        Function::Micmute
    } else if t == "mute"@ {
        Function::Mute
    } else if t == "player-1"@ {
        Function::Player1
    } else if t == "player-2"@ {
        Function::Player2
    } else if t == "player-3"@ {
        Function::Player3
    } else if t == "player-4"@ {
        Function::Player4
    } else if t == "player-5"@ {
        Function::Player5
    } else if t == "activity"@ {
        Function::Activity
    } else if t == "alarm"@ {
        Function::Alarm
    } else if t == "backlight"@ {
        Function::Backlight
    } else if t == "bluetooth"@ {
        Function::Bluetooth
    } else if t == "boot"@ {
        Function::Boot
    } else if t == "cpu"@ {
        Function::Cpu
    } else if t == "debug"@ {
        Function::Debug
    } else if t == "disk-activity"@ {
        Function::DiskActivity
    } else if t == "disk-err"@ {
        Function::DiskErr
    } else if t == "disk-read"@ {
        Function::DiskRead
    } else if t == "disk-write"@ {
        Function::DiskWrite
    } else if t == "fault"@ {
        Function::Fault
    } else if t == "flash"@ {
        Function::Flash
    } else if t == "heartbeat"@ {
        Function::Heartbeat
    } else if t == "indicator"@ {
        Function::Indicator
    } else if t == "lan"@ {
        Function::Lan
    } else if t == "mail"@ {
        Function::Mail
    } else if t == "mobile"@ {
        Function::Mobile
    } else if t == "mtd"@ {
        Function::Mtd
    } else if t == "panic"@ {
        Function::Panic
    } else if t == "programming"@ {
        Function::Programming
    } else if t == "rx"@ {
        Function::Rx
    } else if t == "sd"@ {
        Function::Sd
    } else if t == "speed-lan"@ {
        Function::SpeedLan
    } else if t == "speed-wan"@ {
        Function::SpeedWan
    } else if t == "standby"@ {
        Function::Standby
    } else if t == "torch"@ {
        Function::Torch
    } else if t == "tx"@ {
        Function::Tx
    } else if t == "usb"@ {
        Function::Usb
    } else if t == "wan"@ {
        Function::Wan
    } else if t == "wan-online"@ {
        Function::WanOnline
    } else if t == "wlan"@ {
        Function::Wlan
    } else if t == "wlan-2ghz"@ {
        Function::Wlan2ghz
    } else if t == "wlan-5ghz"@ {
        Function::Wlan5ghz
    } else if t == "wlan-6ghz"@ {
        Function::Wlan6ghz
    } else if t == "wps"@ {
        Function::Wps
    } else {
        Function::Unknown
    }
}

impl Function {
    /// Matches a token against the function vocabulary.
    #[verifier::rlimit(30)]
    pub fn from_token(t: &str) -> (f: Function)
        ensures
            f == spec_function_of(t@),
    {
        if str_eq(t, "capslock") {
            Function::Capslock
        } else if str_eq(t, "scrolllock") {
            Function::Scrolllock
        } else if str_eq(t, "numlock") {
            Function::Numlock
        } else if str_eq(t, "fnlock") {
            Function::Fnlock
        } else if str_eq(t, "kbd_backlight") {
            Function::KbdBacklight
        } else if str_eq(t, "power") {
            Function::Power
        } else if str_eq(t, "disk") {
            Function::Disk
        } else if str_eq(t, "charging") {
            Function::Charging
        } else if str_eq(t, "status") {
            Function::Status
        } else if str_eq(t, "micmute") {
            Function::Micmute
        } else if str_eq(t, "mute") {
            Function::Mute
        } else if str_eq(t, "player-1") {
            Function::Player1
        } else if str_eq(t, "player-2") {
            Function::Player2
        } else if str_eq(t, "player-3") {
            Function::Player3
        } else if str_eq(t, "player-4") {
            Function::Player4
        } else if str_eq(t, "player-5") {
            Function::Player5
        } else if str_eq(t, "activity") {
            Function::Activity
        } else if str_eq(t, "alarm") {
            Function::Alarm
        } else if str_eq(t, "backlight") {
            Function::Backlight
        } else if str_eq(t, "bluetooth") {
            Function::Bluetooth
        } else if str_eq(t, "boot") {
            Function::Boot
        } else if str_eq(t, "cpu") {
            Function::Cpu
        } else if str_eq(t, "debug") {
            Function::Debug
        } else if str_eq(t, "disk-activity") {
            Function::DiskActivity
        } else if str_eq(t, "disk-err") {
            Function::DiskErr
        } else if str_eq(t, "disk-read") {
            Function::DiskRead
        } else if str_eq(t, "disk-write") {
            Function::DiskWrite
        } else if str_eq(t, "fault") {
            Function::Fault
        } else if str_eq(t, "flash") {
            Function::Flash
        } else if str_eq(t, "heartbeat") {
            Function::Heartbeat
        } else if str_eq(t, "indicator") {
            Function::Indicator
        } else if str_eq(t, "lan") {
            Function::Lan
        } else if str_eq(t, "mail") {
            Function::Mail
        } else if str_eq(t, "mobile") {
            Function::Mobile
        } else if str_eq(t, "mtd") {
            Function::Mtd
        } else if str_eq(t, "panic") {
            Function::Panic
        } else if str_eq(t, "programming") {
            Function::Programming
        } else if str_eq(t, "rx") {
            Function::Rx
        } else if str_eq(t, "sd") {
            Function::Sd
        } else if str_eq(t, "speed-lan") {
            Function::SpeedLan
        } else if str_eq(t, "speed-wan") {
            Function::SpeedWan
        } else if str_eq(t, "standby") {
            Function::Standby
        } else if str_eq(t, "torch") {
            Function::Torch
        } else if str_eq(t, "tx") {
            Function::Tx
        } else if str_eq(t, "usb") {
            Function::Usb
        } else if str_eq(t, "wan") {
            Function::Wan
        } else if str_eq(t, "wan-online") {
            Function::WanOnline
        } else if str_eq(t, "wlan") {
            Function::Wlan
        } else if str_eq(t, "wlan-2ghz") {
            Function::Wlan2ghz
        } else if str_eq(t, "wlan-5ghz") {
            Function::Wlan5ghz
        } else if str_eq(t, "wlan-6ghz") {
            Function::Wlan6ghz
        } else if str_eq(t, "wps") {
            Function::Wps
        } else {
            Function::Unknown
        }
    }
}

/// The largest index below `end` holding a colon, or minus one if none.
pub open spec fn last_colon(s: Seq<char>, end: int) -> int
    decreases end,
{
    if end <= 0 {
        -1
    } else if s[end - 1] == ':' {
        end - 1
    } else {
        last_colon(s, end - 1)
    }
}

/// The function token: the last colon-separated segment, or the whole
/// name when it has no colon.
pub open spec fn spec_fun_token(s: Seq<char>) -> Seq<char> {
    s.subrange(last_colon(s, s.len() as int) + 1, s.len() as int)
}

/// The color token: the second colon-separated segment from the right,
/// absent when the name has no colon.
pub open spec fn spec_color_token(s: Seq<char>) -> Option<Seq<char>> {
    let j = last_colon(s, s.len() as int);
    if j < 0 {
        None
    } else {
        Some(s.subrange(last_colon(s, j) + 1, j))
    }
}

/// The length of the topology segment: everything before the second colon
/// from the right, absent when the name has fewer than two colons.
pub open spec fn spec_topology_len(s: Seq<char>) -> Option<int> {
    let j = last_colon(s, s.len() as int);
    if j < 0 {
        None
    } else {
        let i = last_colon(s, j);
        if i < 0 {
            None
        } else {
            Some(i)
        }
    }
}

/// The color a whole LED name states.
pub open spec fn spec_color_of_name(s: Seq<char>) -> Color {
    match spec_color_token(s) {
        Some(t) => spec_color_of(t),
        None => Color::Unknown,
    }
}

/// The function a whole LED name states.
pub open spec fn spec_function_of_name(s: Seq<char>) -> Function {
    spec_function_of(spec_fun_token(s))
}

/// A name conforms to the device naming convention when it has at least
/// one colon and its function token is in the vocabulary.
pub open spec fn spec_conforming(s: Seq<char>) -> bool {
    last_colon(s, s.len() as int) >= 0 && spec_function_of_name(s) != Function::Unknown
}

/// `n` is the parse of the raw name `s`.
pub open spec fn name_matches(n: Name, s: Seq<char>) -> bool {
    &&& n.raw@ == s
    &&& n.color == spec_color_of_name(s)
    &&& n.function == spec_function_of_name(s)
    &&& match n.topology_len {
        Some(l) => spec_topology_len(s) == Some(l as int),
        None => spec_topology_len(s) is None,
    }
}

/// An LED's structured name: the raw string, the length of its topology
/// segment (absent when the name states none), and the color and function
/// it states.
#[derive(Debug)]
pub struct Name {
    /// The raw name, as the interface directory is called.
    pub raw: String,
    /// Length in characters of the topology segment, if the name has one.
    pub topology_len: Option<usize>,
    /// The color the name states.
    pub color: Color,
    /// The function the name states.
    pub function: Function,
}

/// The largest index below `end` holding a colon.
fn rfind_colon(s: &str, end: usize) -> (r: Option<usize>)
    requires
        end <= s@.len(),
    ensures
        r matches Some(i) ==> i as int == last_colon(s@, end as int) && i < end,
        r is None ==> last_colon(s@, end as int) == -1,
{
    let mut k = end;
    while k > 0
        invariant
            0 <= k <= end <= s@.len(),
            last_colon(s@, end as int) == last_colon(s@, k as int),
        decreases k,
    {
        if s.get_char(k - 1) == ':' {
            return Some(k - 1);
        }
        k -= 1;
    }
    None
}

impl Name {
    /// Parses a raw LED name: infallible, best effort. The name is split
    /// from the right on a colon once to isolate the function token, the
    /// remainder once more to isolate the color token; whatever remains is
    /// the topology segment, recorded as a length. Unmatched tokens and
    /// absent segments resolve to `Unknown`.
    pub fn parse(s: &str) -> (n: Name)
        ensures
            name_matches(n, s@),
    {
        let len = s.unicode_len();
        match rfind_colon(s, len) {
            None => {
                proof {
                    assert(spec_fun_token(s@) =~= s@);
                }
                Name {
                    raw: s.to_owned(),
                    topology_len: None,
                    color: Color::Unknown,
                    function: Function::from_token(s),
                }
            },
            Some(j) => {
                let fun_tok = s.substring_char(j + 1, len);
                let function = Function::from_token(fun_tok);
                match rfind_colon(s, j) {
                    None => {
                        let col_tok = s.substring_char(0, j);
                        Name {
                            raw: s.to_owned(),
                            topology_len: None,
                            color: Color::from_token(col_tok),
                            function,
                        }
                    },
                    Some(i) => {
                        let col_tok = s.substring_char(i + 1, j);
                        Name {
                            raw: s.to_owned(),
                            topology_len: Some(i),
                            color: Color::from_token(col_tok),
                            function,
                        }
                    },
                }
            },
        }
    }
}

/// A dimmable LED: full operation set. Built only for a reported maximum
/// other than one.
#[derive(Debug)]
pub struct Led {
    /// The LED's structured name.
    pub name: Name,
    /// Cached current value.
    pub current: u32,
    /// Maximum value; never one, which classifies as [`BinaryLed`].
    pub max: u32,
    /// Path of the LED's interface directory.
    pub path: String,
}

/// A strictly binary LED (reported maximum of one): it can only be
/// toggled between off and its maximum, or written a validated value.
#[derive(Debug)]
pub struct BinaryLed {
    /// The LED's structured name.
    pub name: Name,
    /// Cached current value.
    pub current: u32,
    /// Maximum value; always one.
    pub max: u32,
    /// Path of the LED's interface directory.
    pub path: String,
}

/// An LED classified once at construction: the two alternatives expose
/// different operation sets, so a dimming call on a binary LED is ruled
/// out at compile time.
#[derive(Debug)]
pub enum LedDevice {
    /// A continuously variable LED.
    Dimmable(Led),
    /// An on/off LED.
    NonDimmable(BinaryLed),
}

impl Sealed for Led {

}

impl Toggleable for Led {

}

impl Dimmable for Led {

}

impl Sealed for BinaryLed {

}

impl Toggleable for BinaryLed {

}

/// `d` is the LED built from raw name `s` with the given values: its kind
/// follows the maximum, its name is the parse of `s`, and its path joins
/// the LED root with `s`.
pub open spec fn led_device_matches(d: LedDevice, s: Seq<char>, current: u32, max: u32) -> bool {
    match d {
        LedDevice::Dimmable(l) => {
            &&& max != 1
            &&& name_matches(l.name, s)
            &&& l.current == current
            &&& l.max == max
            &&& l.path@ == LEDDIR@ + "/"@ + s
        },
        LedDevice::NonDimmable(l) => {
            &&& max == 1
            &&& name_matches(l.name, s)
            &&& l.current == current
            &&& l.max == max
            &&& l.path@ == LEDDIR@ + "/"@ + s
        },
    }
}

impl Led {
    /// Builds an LED from its raw name and the two values read from its
    /// attribute files, but only when the name conforms to the device
    /// naming convention; use [`Led::new_lenient`] to accept any name.
    /// A reported maximum of one yields the binary variant, anything else
    /// the dimmable one.
    pub fn new(raw: &str, current: u32, max: u32) -> (r: Option<LedDevice>)
        ensures
            r is Some <==> spec_conforming(raw@),
            r matches Some(d) ==> led_device_matches(d, raw@, current, max),
    {
        let len = raw.unicode_len();
        let has_colon = rfind_colon(raw, len).is_some();
        let n = Name::parse(raw);
        if has_colon && !matches!(n.function, Function::Unknown) {
            Some(Self::classify(n, current, max))
        } else {
            None
        }
    }

    /// Builds an LED from any raw name, with unmatched tokens resolving to
    /// `Unknown`. A reported maximum of one yields the binary variant,
    /// anything else the dimmable one.
    pub fn new_lenient(raw: &str, current: u32, max: u32) -> (r: LedDevice)
        ensures
            led_device_matches(r, raw@, current, max),
    {
        Self::classify(Name::parse(raw), current, max)
    }

    /// Classifies a parsed LED by its maximum.
    fn classify(name: Name, current: u32, max: u32) -> (r: LedDevice)
        ensures
            name_matches(name, name.raw@) ==> led_device_matches(r, name.raw@, current, max),
    {
        let path = crate::codec::construct_path(LEDDIR, name.raw.as_str());
        if max == 1 {
            LedDevice::NonDimmable(BinaryLed { name, current, max, path })
        } else {
            LedDevice::Dimmable(Led { name, current, max, path })
        }
    }

    /// The color the LED's name states.
    pub fn color(&self) -> (c: Color)
        ensures
            c == self.name.color,
    {
        self.name.color
    }

    /// The function the LED's name states.
    pub fn function(&self) -> (f: Function)
        ensures
            f == self.name.function,
    {
        self.name.function
    }

    /// The topology segment of the LED's name, where it has one.
    pub fn name(&self) -> (r: Option<&str>)
        ensures
            match self.name.topology_len {
                Some(l) => if l <= self.name.raw@.len() {
                    r matches Some(t) && t@ == self.name.raw@.subrange(0, l as int)
                } else {
                    r is None
                },
                None => r is None,
            },
    {
        match self.name.topology_len {
            Some(l) => {
                if l <= self.name.raw.as_str().unicode_len() {
                    Some(self.name.raw.as_str().substring_char(0, l))
                } else {
                    None
                }
            },
            None => None,
        }
    }

    /// The raw name, as the interface directory is called.
    pub fn raw_name(&self) -> (r: &str)
        ensures
            r@ == self.name.raw@,
    {
        self.name.raw.as_str()
    }

    /// The cached current value.
    pub fn current(&self) -> (r: u32)
        ensures
            r == self.current,
    {
        self.current
    }

    /// The maximum value.
    pub fn max(&self) -> (r: u32)
        ensures
            r == self.max,
    {
        self.max
    }

    /// The path of the LED's interface directory.
    pub fn device_path(&self) -> (r: &str)
        ensures
            r@ == self.path@,
    {
        self.path.as_str()
    }

    /// Replaces the cached current value.
    pub fn set_current(&mut self, _token: crate::Internal, current: u32)
        ensures
            final(self).current == current,
            final(self).name == old(self).name,
            final(self).max == old(self).max,
            final(self).path == old(self).path,
    {
        self.current = current;
    }

    /// Validates a value against the maximum and renders the bytes a write
    /// of it carries; a value above the maximum is rejected before any
    /// write could happen.
    pub fn write_value(&self, value: u32) -> (r: Result<Vec<u8>, BlibError>)
        ensures
            value > self.max ==> r == Err::<Vec<u8>, BlibError>(
                BlibError::ValueTooLarge { given: value, supported: self.max },
            ),
            value <= self.max ==> (r matches Ok(b) && b@ == digits_of(value as int)),
    {
        if value > self.max {
            return Err(BlibError::ValueTooLarge { given: value, supported: self.max });
        }
        Ok(crate::codec::u32_to_ascii(value))
    }

    /// The value a toggle writes: zero when the LED sits at its maximum,
    /// the maximum otherwise.
    pub fn toggle_value(&self) -> (r: u32)
        ensures
            r == spec_toggle_value(self.current, self.max),
            r <= self.max,
    {
        if self.current == self.max {
            0
        } else {
            self.max
        }
    }

    /// The cached current value as a percentage of the range, rounded
    /// half-up to the nearest whole percent.
    pub fn current_percent_rounded(&self) -> (r: u64)
        requires
            self.max > 0,
        ensures
            r == spec_percent_rounded(self.current, self.max),
    {
        crate::light::percent_rounded(self.current, self.max)
    }

    /// Computes the value a step of `step_size` percent in direction `dir`
    /// moves this LED to; always safe to hand to [`Led::write_value`].
    pub fn calculate_change(&self, step_size: u32, dir: Direction) -> (r: u32)
        ensures
            r == spec_calculate_change(self.current, self.max, step_size, dir),
            r <= self.max,
            dir == Direction::Dec ==> r <= self.current,
            dir == Direction::Inc && self.current <= self.max ==> r >= self.current,
    {
        crate::light::calculate_change(self.current, self.max, step_size, dir)
    }

    /// Walks the cached current value toward `value` in one-percent steps,
    /// returning every intermediate value the transition writes; see
    /// [`crate::Device::sweep_write`].
    pub fn sweep_write(&mut self, value: u32) -> (writes: Vec<u32>)
        requires
            old(self).max >= 100 || sweep_stop(
                old(self).current,
                value,
                old(self).max,
                sweep_dir(old(self).current, value),
            ),
        ensures
            final(self).name == old(self).name,
            final(self).max == old(self).max,
            final(self).path == old(self).path,
            writes@ == sweep_seq(
                old(self).current,
                value,
                old(self).max,
                sweep_dir(old(self).current, value),
            ),
            final(self).current == sweep_final(
                old(self).current,
                value,
                old(self).max,
                sweep_dir(old(self).current, value),
            ),
            value > old(self).max ==> writes@.len() == 0 && final(self).current == old(
                self,
            ).current,
            old(self).max >= 100 && old(self).current < value <= old(self).max
                ==> final(self).current == value,
            old(self).max >= 100 && value < old(self).current && value <= old(self).max
                ==> final(self).current == value || final(self).current == 0,
    {
        let (writes, end) = crate::light::sweep_values(self.current, value, self.max);
        self.current = end;
        writes
    }
}

impl BinaryLed {
    /// The color the LED's name states.
    pub fn color(&self) -> (c: Color)
        ensures
            c == self.name.color,
    {
        self.name.color
    }

    /// The function the LED's name states.
    pub fn function(&self) -> (f: Function)
        ensures
            f == self.name.function,
    {
        self.name.function
    }

    /// The topology segment of the LED's name, where it has one.
    pub fn name(&self) -> (r: Option<&str>)
        ensures
            match self.name.topology_len {
                Some(l) => if l <= self.name.raw@.len() {
                    r matches Some(t) && t@ == self.name.raw@.subrange(0, l as int)
                } else {
                    r is None
                },
                None => r is None,
            },
    {
        match self.name.topology_len {
            Some(l) => {
                if l <= self.name.raw.as_str().unicode_len() {
                    Some(self.name.raw.as_str().substring_char(0, l))
                } else {
                    None
                }
            },
            None => None,
        }
    }

    /// The raw name, as the interface directory is called.
    pub fn raw_name(&self) -> (r: &str)
        ensures
            r@ == self.name.raw@,
    {
        self.name.raw.as_str()
    }

    /// The cached current value.
    pub fn current(&self) -> (r: u32)
        ensures
            r == self.current,
    {
        self.current
    }

    /// The maximum value.
    pub fn max(&self) -> (r: u32)
        ensures
            r == self.max,
    {
        self.max
    }

    /// The path of the LED's interface directory.
    pub fn device_path(&self) -> (r: &str)
        ensures
            r@ == self.path@,
    {
        self.path.as_str()
    }

    /// Replaces the cached current value.
    pub fn set_current(&mut self, _token: crate::Internal, current: u32)
        ensures
            final(self).current == current,
            final(self).name == old(self).name,
            final(self).max == old(self).max,
            final(self).path == old(self).path,
    {
        self.current = current;
    }

    /// Validates a value against the maximum and renders the bytes a write
    /// of it carries.
    pub fn write_value(&self, value: u32) -> (r: Result<Vec<u8>, BlibError>)
        ensures
            value > self.max ==> r == Err::<Vec<u8>, BlibError>(
                BlibError::ValueTooLarge { given: value, supported: self.max },
            ),
            value <= self.max ==> (r matches Ok(b) && b@ == digits_of(value as int)),
    {
        if value > self.max {
            return Err(BlibError::ValueTooLarge { given: value, supported: self.max });
        }
        Ok(crate::codec::u32_to_ascii(value))
    }

    /// The value a toggle writes: zero when the LED sits at its maximum,
    /// the maximum otherwise.
    pub fn toggle_value(&self) -> (r: u32)
        ensures
            r == spec_toggle_value(self.current, self.max),
            r <= self.max,
    {
        if self.current == self.max {
            0
        } else {
            self.max
        }
    }
}

/// Builds one LED per listed entry of raw name and the two values read
/// from its attribute files, leniently, in order.
pub fn leds_from_names(entries: &Vec<(String, u32, u32)>) -> (r: Vec<LedDevice>)
    ensures
        r@.len() == entries@.len(),
        forall|i: int|
            0 <= i < entries@.len() ==> led_device_matches(
                #[trigger] r@[i],
                entries@[i].0@,
                entries@[i].1,
                entries@[i].2,
            ),
{
    let mut r: Vec<LedDevice> = Vec::new();
    let mut i: usize = 0;
    while i < entries.len()
        invariant
            0 <= i <= entries@.len(),
            r@.len() == i,
            forall|j: int|
                0 <= j < i ==> led_device_matches(
                    #[trigger] r@[j],
                    entries@[j].0@,
                    entries@[j].1,
                    entries@[j].2,
                ),
        decreases entries@.len() - i,
    {
        let entry = &entries[i];
        let led = Led::new_lenient(entry.0.as_str(), entry.1, entry.2);
        r.push(led);
        i += 1;
    }
    r
}

} // verus!
