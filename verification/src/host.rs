//! The host boundary: the primitives the surrounding environment provides
//! for walking the input-device tree and probing devices.
//!
//! Nothing is assumed of their results — a probe may answer differently on
//! every call. Every decision the library takes on such a result stands in a
//! function with an exact contract over the result as a plain value; the
//! code around these primitives only fetches and feeds.

use vstd::prelude::*;
use crate::device::Capabilities;

verus! {

/// Host-provided primitives. Failures are signalled by a negative status
/// code (directory, file, and capability reads) or a host-defined failure
/// code (the three verification probes).
pub trait Host {
    /// Best-effort diagnostic output; nothing is promised of it and no
    /// failure is signalled.
    fn print(&mut self, message: &str);

    /// The entry names of a directory, in host enumeration order.
    fn read_directory(&mut self, path: &str) -> Result<Vec<String>, i32>;

    /// The raw bytes of a small text file.
    fn read_file(&mut self, path: &str) -> Result<Vec<u8>, i32>;

    /// The raw input-capability bitmasks of a device node.
    fn get_device_capabilities(&mut self, path: &str) -> Result<Capabilities, i32>;

    /// Whether the kernel module backing the named device is loaded.
    fn query_module_loaded(&mut self, name: &str) -> Result<bool, i32>;

    /// Whether the device node answers basic queries.
    fn query_device_responsive(&mut self, path: &str) -> Result<bool, i32>;

    /// Whether the device node can produce input events.
    fn query_device_events(&mut self, path: &str) -> Result<bool, i32>;
}

} // verus!
