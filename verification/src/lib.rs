//! Touchpad discovery and verification engine.
//!
//! The library enumerates input-device nodes through a narrow host boundary,
//! classifies each device by name heuristics with a capability-bitmask
//! fallback, selects a touchpad candidate, and runs a staged verification
//! protocol (module presence, responsiveness, event capability) that yields a
//! tri-state verdict.

pub mod classify;
pub mod device;
pub mod host;
pub mod input_verifier;
pub mod text;
pub mod verify;
