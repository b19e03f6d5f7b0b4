//! Device records produced by a scan pass.

use vstd::prelude::*;

verus! {

/// Classification assigned to a discovered input device.
#[derive(Debug, Clone, Copy, PartialEq, Eq, Structural)]
pub enum DeviceType {
    Touchpad,
    Keyboard,
    Mouse,
    Unknown,
}

/// One discovered input-device node: its reported name, its device-node path,
/// and the classification derived from both.
pub struct DeviceInfo {
    pub name: String,
    pub path: String,
    pub device_type: DeviceType,
}

/// The three raw input-capability bitmasks a host can report for a device
/// node: absolute-axis support, relative-axis support, and key support.
/// Each mask carries one bit per event code.
#[derive(Debug, Clone, Copy, PartialEq, Eq, Structural)]
pub struct Capabilities {
    pub abs: u64,
    pub rel: u64,
    pub key: u64,
}

} // verus!
