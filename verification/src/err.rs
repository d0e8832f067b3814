//! The library's errors in one place. Every fallible operation of the
//! library reports one of [`BlibError`]'s variants. Variants that arise at
//! the file-system boundary carry the text of the underlying I/O failure;
//! each variant renders as a fixed human-readable description, and one of
//! them offers a remediation tip.

use crate::text::{dec_chars_of, u32_to_string};
use vstd::prelude::*;
use vstd::string::StringExecFns;

verus! {

/// The closed set of failures the library can report.
#[derive(Debug)]
pub enum BlibError {
    /// The backlight interface directory could not be listed; carries the
    /// text of the underlying I/O failure.
    ReadBlDir(String),
    /// No backlight device was detected.
    NoDeviceFound,
    /// Writing to a device's brightness file failed; carries the text of
    /// the underlying I/O failure and the device's name.
    WriteNewVal { err: String, dev: String },
    /// The maximum-value file could not be read or parsed.
    ReadMax,
    /// The current-value file could not be read or parsed.
    ReadCurrent,
    /// A write inside a sweep transition failed; carries the text of the
    /// underlying I/O failure.
    SweepError(String),
    /// The given value exceeds the device's supported maximum.
    ValueTooLarge { given: u32, supported: u32 },
}

impl BlibError {
    /// The human-readable description of the error.
    pub open spec fn spec_message(&self) -> Seq<char> {
        match self {
            BlibError::ReadBlDir(e) => "failed to read /sys/class/backlight directory\n"@ + e@,
            BlibError::NoDeviceFound => "no known backlight device detected"@,
            BlibError::WriteNewVal { err, .. } => "failed to write to the brightness file ("@
                + err@ + ")"@,
            BlibError::ReadCurrent => "failed to read current brightness value"@,
            BlibError::ReadMax => "failed to read max brightness value"@,
            BlibError::SweepError(err) => "failed to sweep write to brightness file ("@ + err@
                + ")"@,
            BlibError::ValueTooLarge { given, supported } => "provided value ("@ + dec_chars_of(
                *given as int,
            ) + ") is larger than the max supported value of "@ + dec_chars_of(*supported as int),
        }
    }

    /// The remediation tip of the error, where one is of use: a failed
    /// brightness write usually means a missing write permission.
    pub open spec fn spec_tip(&self) -> Option<Seq<char>> {
        match self {
            BlibError::WriteNewVal { dev, .. } => Some(
                "make sure you have write permission to the file '/sys/class/backlight/"@ + dev@
                    + "/brightness'\n\nRun `sudo blight setup` to install necessarry udev rules and add user to video group.\nor visit https://wiki.archlinux.org/title/Backlight#Hardware_interfaces\nif you'd like to do it manually."@,
            ),
            _ => None,
        }
    }

    /// Renders the error's description.
    pub fn description(&self) -> (r: String)
        ensures
            r@ == self.spec_message(),
    {
        match self {
            BlibError::ReadBlDir(e) => {
                let mut s = "failed to read /sys/class/backlight directory\n".to_owned();
                s.append(e.as_str());
                s
            },
            BlibError::NoDeviceFound => "no known backlight device detected".to_owned(),
            BlibError::WriteNewVal { err, .. } => {
                let mut s = "failed to write to the brightness file (".to_owned();
                s.append(err.as_str());
                s.append(")");
                s
            },
            BlibError::ReadCurrent => "failed to read current brightness value".to_owned(),
            BlibError::ReadMax => "failed to read max brightness value".to_owned(),
            BlibError::SweepError(err) => {
                let mut s = "failed to sweep write to brightness file (".to_owned();
                s.append(err.as_str());
                s.append(")");
                s
            },
            BlibError::ValueTooLarge { given, supported } => {
                let mut s = "provided value (".to_owned();
                let g = u32_to_string(*given);
                s.append(g.as_str());
                s.append(") is larger than the max supported value of ");
                let m = u32_to_string(*supported);
                s.append(m.as_str());
                s
            },
        }
    }
}

/// An error that may carry a remediation tip for the user beside its
/// description.
pub trait Tip {
    /// The remediation tip, where the error has one.
    fn tip(&self) -> Option<String>;
}

impl Tip for BlibError {
    fn tip(&self) -> (r: Option<String>)
        ensures
            r is Some <==> self.spec_tip() is Some,
            r matches Some(t) ==> (self.spec_tip() matches Some(m) && t@ == m),
    {
        match self {
            BlibError::WriteNewVal { dev, .. } => {
                let mut s =
                    "make sure you have write permission to the file '/sys/class/backlight/".to_owned();
                s.append(dev.as_str());
                s.append(
                    "/brightness'\n\nRun `sudo blight setup` to install necessarry udev rules and add user to video group.\nor visit https://wiki.archlinux.org/title/Backlight#Hardware_interfaces\nif you'd like to do it manually.",
                );
                Some(s)
            },
            _ => None,
        }
    }
}

} // verus!
