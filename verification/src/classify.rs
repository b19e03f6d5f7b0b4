//! Device classification: a name heuristic over a fixed vocabulary, and a
//! capability-bitmask fallback for names the heuristic cannot decide.

use vstd::prelude::*;
use crate::device::{Capabilities, DeviceType};
use crate::text::{
    contains_ci, contains_cs, contains_pattern, contains_pattern_ci,
    lemma_contains_ci_respects_case, seqs_eq_ci,
};

verus! {

/// The name marks a touchpad: it contains one of the generic terms
/// (ASCII-case-insensitive) or one of the vendor/model tokens (exact case).
pub open spec fn is_touchpad_name(name: Seq<char>) -> bool {
    ||| contains_ci(name, "touchpad"@)
    ||| contains_ci(name, "trackpad"@)
    ||| contains_ci(name, "glidepoint"@)
    ||| contains_ci(name, "clickpad"@)
    ||| contains_cs(name, "ETPS"@)
    ||| contains_cs(name, "ELAN"@)
    ||| contains_cs(name, "04F3"@)
    ||| contains_cs(name, "Synaptics"@)
    ||| contains_cs(name, "ALPS"@)
    ||| contains_cs(name, "MSFT0001"@)
    ||| contains_cs(name, "1A58:0271"@)
}

/// Tier-1 name heuristic: touchpad vocabulary first, then the generic
/// keyboard and mouse terms; `None` when the name decides nothing.
pub open spec fn name_class(name: Seq<char>) -> Option<DeviceType> {
    if is_touchpad_name(name) {
        Some(DeviceType::Touchpad)
    } else if contains_ci(name, "keyboard"@) {
        Some(DeviceType::Keyboard)
    } else if contains_ci(name, "mouse"@) {
        Some(DeviceType::Mouse)
    } else {
        None
    }
}

/// Bit `k` is set in `mask`.
pub open spec fn has_bit(mask: u64, k: u64) -> bool {
    mask & (1u64 << k) != 0
}

/// Some key bit in the alphabetic key-code range is set.
pub open spec fn has_letter_key(key: u64) -> bool {
    exists|k: u64| 4 <= k <= 29 && has_bit(key, k)
}

/// Tier-2 capability fallback: absolute multi-touch X/Y axes mark a
/// touchpad, relative X/Y axes a mouse, a letter key a keyboard.
pub open spec fn caps_class(c: Capabilities) -> DeviceType {
    if has_bit(c.abs, 0x35) && has_bit(c.abs, 0x36) {
        DeviceType::Touchpad
    } else if has_bit(c.rel, 0x00) && has_bit(c.rel, 0x01) {
        DeviceType::Mouse
    } else if has_letter_key(c.key) {
        DeviceType::Keyboard
    } else {
        DeviceType::Unknown
    }
}

/// Full classification of a device from its name and the outcome of the
/// capability query (`None` when the query failed or was never answered):
/// the name decides when it can, else the capabilities, else `Unknown`.
pub open spec fn classify_spec(name: Seq<char>, caps: Option<Capabilities>) -> DeviceType {
    match name_class(name) {
        Some(t) => t,
        None => match caps {
            Some(c) => caps_class(c),
            None => DeviceType::Unknown,
        },
    }
}

/// Tests a device name against the touchpad vocabulary.
pub fn name_matches_touchpad(name: &str) -> (r: bool)
    ensures
        r == is_touchpad_name(name@),
{
    contains_pattern_ci(name, "touchpad") || contains_pattern_ci(name, "trackpad")
        || contains_pattern_ci(name, "glidepoint") || contains_pattern_ci(name, "clickpad")
        || contains_pattern(name, "ETPS") || contains_pattern(name, "ELAN") || contains_pattern(
        name,
        "04F3",
    ) || contains_pattern(name, "Synaptics") || contains_pattern(name, "ALPS")
        || contains_pattern(name, "MSFT0001") || contains_pattern(name, "1A58:0271")
}

/// Tier-1 classification by name alone.
pub fn classify_name(name: &str) -> (r: Option<DeviceType>)
    ensures
        r == name_class(name@),
{
    if name_matches_touchpad(name) {
        Some(DeviceType::Touchpad)
    } else if contains_pattern_ci(name, "keyboard") {
        Some(DeviceType::Keyboard)
    } else if contains_pattern_ci(name, "mouse") {
        Some(DeviceType::Mouse)
    } else {
        None
    }
}

/// Tests whether any alphabetic key-code bit is set in a key-support mask.
fn letter_key_present(key: u64) -> (r: bool)
    ensures
        r == has_letter_key(key),
{
    let mut k: u64 = 4;
    while k <= 29
        invariant
            4 <= k <= 30,
            forall|j: u64| 4 <= j < k ==> !has_bit(key, j),
        decreases 30 - k,
    {
        if key & (1u64 << k) != 0 {
            assert(has_bit(key, k));
            return true;
        }
        k = k + 1;
    }
    false
}

/// Tier-2 classification from the three capability bitmasks.
pub fn classify_caps(c: Capabilities) -> (r: DeviceType)
    ensures
        r == caps_class(c),
{
    if (c.abs & (1u64 << 0x35u64)) != 0 && (c.abs & (1u64 << 0x36u64)) != 0 {
        DeviceType::Touchpad
    } else if (c.rel & (1u64 << 0x00u64)) != 0 && (c.rel & (1u64 << 0x01u64)) != 0 {
        DeviceType::Mouse
    } else if letter_key_present(c.key) {
        DeviceType::Keyboard
    } else {
        DeviceType::Unknown
    }
}

/// Classifies a device from its name and the capability-query outcome.
pub fn classify(name: &str, caps: Option<Capabilities>) -> (r: DeviceType)
    ensures
        r == classify_spec(name@, caps),
{
    match classify_name(name) {
        Some(t) => t,
        None => match caps {
            Some(c) => classify_caps(c),
            None => DeviceType::Unknown,
        },
    }
}

/// Classification is deterministic: two classifications of the same name and
/// the same capability outcome agree.
pub proof fn lemma_classify_deterministic(
    r1: DeviceType,
    r2: DeviceType,
    name: Seq<char>,
    caps: Option<Capabilities>,
)
    requires
        r1 == classify_spec(name, caps),
        r2 == classify_spec(name, caps),
    ensures
        r1 == r2,
{
}

/// The generic terms of the name heuristic are case-insensitive: two names
/// equal up to ASCII case match exactly the same generic vocabulary. The
/// vendor and model tokens carry no such law — they match by exact case.
pub proof fn lemma_generic_terms_case_insensitive(n1: Seq<char>, n2: Seq<char>)
    requires
        seqs_eq_ci(n1, n2),
    ensures
        contains_ci(n1, "touchpad"@) == contains_ci(n2, "touchpad"@),
        contains_ci(n1, "trackpad"@) == contains_ci(n2, "trackpad"@),
        contains_ci(n1, "glidepoint"@) == contains_ci(n2, "glidepoint"@),
        contains_ci(n1, "clickpad"@) == contains_ci(n2, "clickpad"@),
        contains_ci(n1, "keyboard"@) == contains_ci(n2, "keyboard"@),
        contains_ci(n1, "mouse"@) == contains_ci(n2, "mouse"@),
{
    lemma_contains_ci_respects_case(n1, n2, "touchpad"@);
    lemma_contains_ci_respects_case(n1, n2, "trackpad"@);
    lemma_contains_ci_respects_case(n1, n2, "glidepoint"@);
    lemma_contains_ci_respects_case(n1, n2, "clickpad"@);
    lemma_contains_ci_respects_case(n1, n2, "keyboard"@);
    lemma_contains_ci_respects_case(n1, n2, "mouse"@);
}

/// The capability fallback only decides when the name is inconclusive: a
/// name the tier-1 heuristic classifies is classified the same way whatever
/// the capability query reports.
pub proof fn lemma_caps_ignored_when_name_conclusive(
    name: Seq<char>,
    c1: Option<Capabilities>,
    c2: Option<Capabilities>,
)
    requires
        name_class(name) is Some,
    ensures
        classify_spec(name, c1) == classify_spec(name, c2),
        classify_spec(name, c1) == name_class(name)->0,
{
}

} // verus!
