//! The systems that a notification can be shown on.

use vstd::prelude::*;

verus! {

/// The notification system of a machine.
#[derive(PartialEq, Eq, Debug, Copy, Clone, Structural)]
pub enum OS {
    Undefined,
    Unknown,
    Linux,
    LinuxLibNotify,
    Windows,
    WindowsLegacy,
    MacOS,
}

} // verus!
