//! The verification state machine: three sequential checks — module
//! presence, device responsiveness, event capability — each of which can
//! pass, fail, or error, driving the machine to a terminal verdict.

use vstd::prelude::*;

verus! {

/// A state of the verification machine. The three check states run in
/// order; the three terminal states carry the outcome — working, not
/// working, or a hard host-query failure.
#[derive(Debug, Clone, Copy, PartialEq, Eq, Structural)]
pub enum VerifyState {
    ModuleCheck,
    ResponsivenessCheck,
    EventCheck,
    Working,
    NotWorking,
    Failed,
}

/// A terminal state: the machine takes no further step from it.
pub open spec fn is_terminal(s: VerifyState) -> bool {
    s is Working || s is NotWorking || s is Failed
}

/// How many checks can still run from a state; terminal states rank zero.
pub open spec fn rank(s: VerifyState) -> nat {
    match s {
        VerifyState::ModuleCheck => 3,
        VerifyState::ResponsivenessCheck => 2,
        VerifyState::EventCheck => 1,
        _ => 0,
    }
}

/// The transition rule: a host-query failure ends in `Failed`, a negative
/// probe result ends in `NotWorking`, and a positive result advances to the
/// next check, the last one ending in `Working`.
pub open spec fn step_spec(s: VerifyState, outcome: Result<bool, i32>) -> VerifyState {
    match outcome {
        Err(_) => VerifyState::Failed,
        Ok(false) => VerifyState::NotWorking,
        Ok(true) => match s {
            VerifyState::ModuleCheck => VerifyState::ResponsivenessCheck,
            VerifyState::ResponsivenessCheck => VerifyState::EventCheck,
            VerifyState::EventCheck => VerifyState::Working,
            _ => s,
        },
    }
}

/// Advances the machine by one check outcome.
pub fn step(s: VerifyState, outcome: Result<bool, i32>) -> (r: VerifyState)
    requires
        !is_terminal(s),
    ensures
        r == step_spec(s, outcome),
        rank(r) < rank(s),
{
    match outcome {
        Err(_) => VerifyState::Failed,
        Ok(false) => VerifyState::NotWorking,
        Ok(true) => match s {
            VerifyState::ModuleCheck => VerifyState::ResponsivenessCheck,
            VerifyState::ResponsivenessCheck => VerifyState::EventCheck,
            _ => VerifyState::Working,
        },
    }
}

/// A failed module check short-circuits verification: the machine moves
/// straight to the terminal not-working verdict, so neither the
/// responsiveness check nor the event check can still be consulted. The
/// same holds of a failed responsiveness check and the event check.
pub proof fn lemma_negative_check_short_circuits(s: VerifyState)
    requires
        !is_terminal(s),
    ensures
        step_spec(s, Ok(false)) == VerifyState::NotWorking,
        is_terminal(step_spec(s, Ok(false))),
{
}

/// A host-query failure at any check is terminal and distinct from the
/// not-working verdict.
pub proof fn lemma_query_failure_is_terminal(s: VerifyState, code: i32)
    requires
        !is_terminal(s),
    ensures
        step_spec(s, Err(code)) == VerifyState::Failed,
        is_terminal(step_spec(s, Err(code))),
{
}

} // verus!
