//! The verifier context: the single stateful object that scans for input
//! devices, selects the touchpad candidate, and runs the staged verification
//! protocol against the host boundary.

use vstd::prelude::*;
use vstd::string::StringExecFns;
use vstd::utf8::{decode_utf8, valid_utf8};
use crate::classify::{
    classify, classify_name, classify_spec, is_touchpad_name, name_class, name_matches_touchpad,
};
use crate::device::{Capabilities, DeviceInfo, DeviceType};
use crate::host::Host;
use crate::text::{parse_name_bytes, str_has_prefix, trimmed};
use crate::verify::{rank, step, VerifyState};

verus! {

/// The device was already classified as a touchpad.
pub open spec fn is_typed_touchpad(d: DeviceInfo) -> bool {
    d.device_type is Touchpad
}

/// The device can be selected as the touchpad: by its classification or by
/// its name.
pub open spec fn is_touchpad_candidate(d: DeviceInfo) -> bool {
    is_typed_touchpad(d) || is_touchpad_name(d.name@)
}

/// The device at index `i` is the one touchpad selection picks: the first
/// explicitly typed touchpad when any exists, else the first device whose
/// name matches the touchpad vocabulary.
pub open spec fn selected_at(devs: Seq<DeviceInfo>, i: int) -> bool {
    &&& 0 <= i < devs.len()
    &&& if exists|j: int| 0 <= j < devs.len() && is_typed_touchpad(devs[j]) {
        is_typed_touchpad(devs[i]) && (forall|j: int| 0 <= j < i ==> !is_typed_touchpad(devs[j]))
    } else {
        is_touchpad_name(devs[i].name@) && (forall|j: int|
            0 <= j < i ==> !is_touchpad_name(devs[j].name@))
    }
}

/// The record's classification is consistent with its name: wherever the
/// tier-1 name heuristic decides a type, the record carries that type.
pub open spec fn device_consistent(d: DeviceInfo) -> bool {
    match name_class(d.name@) {
        Some(t) => d.device_type == t,
        None => true,
    }
}

/// Concatenates a path prefix and an entry name.
fn join_path(prefix: &str, entry: &str) -> (r: String)
    ensures
        r@ == prefix@ + entry@,
{
    let s = String::from_str(prefix);
    s.concat(entry)
}

/// The directory entry yields a device record: it is not hidden, it names an
/// event-generating node, and its name file held non-empty contents that
/// decode as text once trailing whitespace is trimmed.
pub open spec fn entry_yields_device(entry: Seq<char>, bytes: Seq<u8>) -> bool {
    &&& !"."@.is_prefix_of(entry)
    &&& "event"@.is_prefix_of(entry)
    &&& bytes.len() > 0
    &&& valid_utf8(trimmed(bytes))
}

/// Decides one directory entry from the host's answers — the entry name, the
/// name-file contents (or their absence), and the capability-query outcome
/// (or its absence). A record comes back exactly for an event entry with a
/// readable name; it carries the decoded name, the device-node path, and the
/// classification from name and capabilities.
pub fn build_device(entry: &str, bytes: Option<Vec<u8>>, caps: Option<Capabilities>) -> (r: Option<
    DeviceInfo,
>)
    ensures
        r is Some <==> (bytes matches Some(b) && entry_yields_device(entry@, b@)),
        r matches Some(d) ==> (bytes matches Some(b) && d.name@ == decode_utf8(trimmed(b@))
            && d.path@ == "/dev/input/"@ + entry@ && d.device_type == classify_spec(
            d.name@,
            caps,
        )),
{
    if str_has_prefix(entry, ".") {
        return None;
    }
    if !str_has_prefix(entry, "event") {
        return None;
    }
    let b = match bytes {
        Some(b) => b,
        None => {
            return None;
        },
    };
    let name = match parse_name_bytes(b) {
        Some(n) => n,
        None => {
            return None;
        },
    };
    let path = join_path("/dev/input/", entry);
    let device_type = classify(name.as_str(), caps);
    Some(DeviceInfo { name, path, device_type })
}

/// Whether an entry calls for the capability fallback: it yields a device
/// record and the tier-1 heuristic cannot decide its decoded name.
pub fn needs_capability_query(entry: &str, bytes: &Option<Vec<u8>>) -> (r: bool)
    ensures
        r <==> (bytes matches Some(b) && entry_yields_device(entry@, b@) && name_class(
            decode_utf8(trimmed(b@)),
        ) is None),
{
    if str_has_prefix(entry, ".") {
        return false;
    }
    if !str_has_prefix(entry, "event") {
        return false;
    }
    let b = match bytes {
        Some(b) => b,
        None => {
            return false;
        },
    };
    let copy = b.clone();
    proof {
        assert forall|i: int| 0 <= i < b@.len() implies copy@[i] == b@[i] by {
            assert(vstd::pervasive::cloned::<u8>(b@[i], copy@[i]));
        }
        assert(copy@ =~= b@);
    }
    match parse_name_bytes(copy) {
        Some(name) => classify_name(name.as_str()).is_none(),
        None => false,
    }
}

/// The long-lived verifier context: whether a touchpad was found in the most
/// recent scan, its identifiers, and the outcome of the most recent
/// verification.
pub struct InputDeviceVerifier {
    touchpad_found: bool,
    touchpad_working: bool,
    touchpad_path: Option<String>,
    touchpad_name: Option<String>,
}

impl InputDeviceVerifier {
    /// Whether the most recent scan identified a touchpad.
    pub closed spec fn spec_touchpad_found(&self) -> bool {
        self.touchpad_found
    }

    /// The outcome of the most recent verification.
    pub closed spec fn spec_touchpad_working(&self) -> bool {
        self.touchpad_working
    }

    /// The selected touchpad's device-node path.
    pub closed spec fn spec_touchpad_path(&self) -> Option<String> {
        self.touchpad_path
    }

    /// The selected touchpad's reported name.
    pub closed spec fn spec_touchpad_name(&self) -> Option<String> {
        self.touchpad_name
    }

    /// The context invariant: the touchpad path and name are present exactly
    /// when a touchpad was found.
    pub open spec fn wf(&self) -> bool {
        &&& self.spec_touchpad_found() <==> self.spec_touchpad_path() is Some
        &&& self.spec_touchpad_found() <==> self.spec_touchpad_name() is Some
    }

    /// Creates a verifier context in its initial state: nothing found,
    /// nothing verified. Construction always succeeds.
    pub fn new() -> (r: Result<Self, ()>)
        ensures
            r is Ok,
            r->Ok_0.wf(),
            !r->Ok_0.spec_touchpad_found(),
            !r->Ok_0.spec_touchpad_working(),
    {
        Ok(
            Self {
                touchpad_found: false,
                touchpad_working: false,
                touchpad_path: None,
                touchpad_name: None,
            },
        )
    }

    /// Resolves one device entry's reported name: reads the sysfs metadata
    /// file under the entry's directory and hands the contents to
    /// `parse_name_bytes`, whose contract carries the whole policy —
    /// unreadable, empty, or non-UTF-8 contents are rejected.
    pub fn read_device_name<H: Host>(&self, host: &mut H, path: &str) -> Result<String, ()> {
        let name_path = join_path(path, "/device/name");
        match host.read_file(name_path.as_str()) {
            Ok(bytes) => match parse_name_bytes(bytes) {
                Some(name) => Ok(name),
                None => Err(()),
            },
            Err(_) => Err(()),
        }
    }

    /// Enumerates the host's input-device directory. The loop only fetches
    /// and feeds: it reads each event entry's name file, queries
    /// capabilities exactly where `needs_capability_query` says the name
    /// will not decide, and hands everything to `build_device`, whose
    /// contract fixes which entries yield a record and what the record
    /// holds. Entries whose name cannot be read are skipped; only an
    /// unreadable directory fails the whole scan.
    pub fn read_input_devices<H: Host>(&self, host: &mut H) -> (r: Result<Vec<DeviceInfo>, ()>)
        ensures
            r matches Ok(devs) ==> forall|i: int|
                0 <= i < devs@.len() ==> #[trigger] device_consistent(devs@[i]),
    {
        let entries = match host.read_directory("/sys/class/input") {
            Ok(e) => e,
            Err(_) => {
                return Err(());
            },
        };
        let mut devices: Vec<DeviceInfo> = Vec::new();
        let n = entries.len();
        let mut idx: usize = 0;
        while idx < n
            invariant
                n == entries@.len(),
                idx <= n,
                forall|i: int| 0 <= i < devices@.len() ==> #[trigger] device_consistent(devices@[i]),
            decreases n - idx,
        {
            let entry = &entries[idx];
            idx = idx + 1;
            if str_has_prefix(entry.as_str(), ".") {
                // Hidden entries are filtered by the core, not the host.
                continue ;
            }
            if !str_has_prefix(entry.as_str(), "event") {
                continue ;
            }
            let sys_path = join_path("/sys/class/input/", entry.as_str());
            let name_path = join_path(sys_path.as_str(), "/device/name");
            let bytes = match host.read_file(name_path.as_str()) {
                Ok(b) => Some(b),
                Err(_) => None,
            };
            let caps = if needs_capability_query(entry.as_str(), &bytes) {
                let device_path = join_path("/dev/input/", entry.as_str());
                match host.get_device_capabilities(device_path.as_str()) {
                    Ok(c) => Some(c),
                    Err(_) => None,
                }
            } else {
                None
            };
            match build_device(entry.as_str(), bytes, caps) {
                Some(info) => {
                    assert(device_consistent(info));
                    devices.push(info);
                },
                None => {},
            }
        }
        Ok(devices)
    }

    /// Scans for input devices and stores the touchpad selection. When
    /// enumeration fails the context is left unchanged and the scan reports
    /// failure; on success the selection replaces the previous one and the
    /// last verification outcome is kept. A touchpad stored by a scan is
    /// never one the name heuristic classified as something else: its name
    /// matches the touchpad vocabulary, or decided nothing and the
    /// capability fallback decided.
    pub fn scan_devices<H: Host>(&mut self, host: &mut H) -> (r: Result<(), ()>)
        ensures
            r is Err ==> *final(self) == *old(self),
            r is Ok ==> final(self).wf(),
            r is Ok ==> final(self).spec_touchpad_working() == old(self).spec_touchpad_working(),
            r is Ok && final(self).spec_touchpad_found() ==> is_touchpad_name(
                final(self).spec_touchpad_name()->0@,
            ) || name_class(final(self).spec_touchpad_name()->0@) is None,
    {
        host.print("scanning for input devices\n");
        let devices = match self.read_input_devices(host) {
            Ok(d) => d,
            Err(_) => {
                host.print("failed to read the input device directory\n");
                return Err(());
            },
        };
        let (found, path, name) = self.identify_touchpad(&devices);
        if found {
            host.print("touchpad device found\n");
        } else {
            host.print("no touchpad device identified\n");
        }
        proof {
            if found {
                let i = choose|i: int|
                    #[trigger] selected_at(devices@, i) && path == Some(devices@[i].path) && name
                        == Some(devices@[i].name);
                assert(device_consistent(devices@[i]));
            }
        }
        self.touchpad_found = found;
        self.touchpad_path = path;
        self.touchpad_name = name;
        Ok(())
    }

    /// Verifies the selected touchpad by the staged protocol: module
    /// presence, device responsiveness, event capability, in that order,
    /// where each negative outcome is terminal. With no touchpad found the
    /// verdict is not-working and the context is untouched; a host-query
    /// failure aborts the whole verification and leaves the context
    /// unchanged. On every other outcome the verdict returned is the one
    /// stored.
    pub fn verify_touchpad<H: Host>(&mut self, host: &mut H) -> (r: Result<bool, ()>)
        ensures
            old(self).wf() ==> final(self).wf(),
            final(self).spec_touchpad_found() == old(self).spec_touchpad_found(),
            final(self).spec_touchpad_path() == old(self).spec_touchpad_path(),
            final(self).spec_touchpad_name() == old(self).spec_touchpad_name(),
            !old(self).spec_touchpad_found() ==> r == Ok::<bool, ()>(false) && *final(self)
                == *old(self),
            r is Err ==> *final(self) == *old(self),
            old(self).spec_touchpad_found() ==> (r matches Ok(b) ==> final(self).spec_touchpad_working() == b),
    {
        if !self.touchpad_found {
            host.print("touchpad not found, cannot verify\n");
            return Ok(false);
        }
        let path = match &self.touchpad_path {
            Some(p) => p.clone(),
            None => {
                self.touchpad_working = false;
                return Ok(false);
            },
        };
        let name = match &self.touchpad_name {
            Some(nm) => nm.clone(),
            None => {
                self.touchpad_working = false;
                return Ok(false);
            },
        };
        let mut state = VerifyState::ModuleCheck;
        while state != VerifyState::Working && state != VerifyState::NotWorking && state
            != VerifyState::Failed
            decreases rank(state),
        {
            let outcome = if state == VerifyState::ModuleCheck {
                host.print("touchpad verification: module check\n");
                host.query_module_loaded(name.as_str())
            } else if state == VerifyState::ResponsivenessCheck {
                host.print("touchpad verification: responsiveness check\n");
                host.query_device_responsive(path.as_str())
            } else {
                host.print("touchpad verification: event check\n");
                host.query_device_events(path.as_str())
            };
            match outcome {
                Ok(true) => host.print("check passed\n"),
                Ok(false) => host.print("check failed\n"),
                Err(_) => host.print("host query failed\n"),
            }
            state = step(state, outcome);
        }
        if state == VerifyState::Working {
            host.print("touchpad verification complete: working\n");
            self.touchpad_working = true;
            Ok(true)
        } else if state == VerifyState::NotWorking {
            host.print("touchpad verification complete: not working\n");
            self.touchpad_working = false;
            Ok(false)
        } else {
            host.print("touchpad verification aborted\n");
            Err(())
        }
    }

    /// Tests a device name against the touchpad vocabulary: the generic
    /// terms up to ASCII case, the vendor and model tokens exactly.
    pub fn is_touchpad_by_name(&self, name: &str) -> (r: bool)
        ensures
            r == is_touchpad_name(name@),
    {
        name_matches_touchpad(name)
    }

    /// Selects the touchpad candidate: the first device classified as a
    /// touchpad, else the first device whose name matches the touchpad
    /// vocabulary, else not found. Selection is first-match, never ranked.
    pub fn identify_touchpad(&self, devices: &Vec<DeviceInfo>) -> (r: (
        bool,
        Option<String>,
        Option<String>,
    ))
        ensures
            r.0 <==> exists|i: int|
                0 <= i < devices@.len() && is_touchpad_candidate(#[trigger] devices@[i]),
            !r.0 ==> r.1 is None && r.2 is None,
            r.0 ==> exists|i: int|
                #[trigger] selected_at(devices@, i) && r.1 == Some(devices@[i].path) && r.2
                    == Some(devices@[i].name),
    {
        let n = devices.len();
        let mut i: usize = 0;
        while i < n
            invariant
                n == devices@.len(),
                i <= n,
                forall|j: int| 0 <= j < i ==> !is_typed_touchpad(#[trigger] devices@[j]),
            decreases n - i,
        {
            if devices[i].device_type == DeviceType::Touchpad {
                let r = (
                    true,
                    Some(devices[i].path.clone()),
                    Some(devices[i].name.clone()),
                );
                assert(selected_at(devices@, i as int));
                return r;
            }
            i = i + 1;
        }
        let mut i: usize = 0;
        while i < n
            invariant
                n == devices@.len(),
                i <= n,
                forall|j: int| 0 <= j < devices@.len() ==> !is_typed_touchpad(#[trigger] devices@[j]),
                forall|j: int| 0 <= j < i ==> !is_touchpad_name(#[trigger] devices@[j].name@),
            decreases n - i,
        {
            if self.is_touchpad_by_name(devices[i].name.as_str()) {
                let r = (
                    true,
                    Some(devices[i].path.clone()),
                    Some(devices[i].name.clone()),
                );
                assert(selected_at(devices@, i as int));
                return r;
            }
            i = i + 1;
        }
        (false, None, None)
    }
}

/// When an explicitly typed touchpad exists anywhere in the list, selection
/// takes the first such device — never a name-only fallback candidate, even
/// one standing earlier in the list.
pub proof fn lemma_selection_prefers_type(devs: Seq<DeviceInfo>, i: int)
    requires
        selected_at(devs, i),
        exists|j: int| 0 <= j < devs.len() && is_typed_touchpad(#[trigger] devs[j]),
    ensures
        is_typed_touchpad(devs[i]),
        forall|j: int| 0 <= j < i ==> !is_typed_touchpad(#[trigger] devs[j]),
{
}

/// An empty device list has no touchpad candidate: selection reports
/// not-found.
pub proof fn lemma_empty_list_not_found(devs: Seq<DeviceInfo>)
    requires
        devs.len() == 0,
    ensures
        !(exists|i: int| 0 <= i < devs.len() && is_touchpad_candidate(#[trigger] devs[i])),
{
}

} // verus!
