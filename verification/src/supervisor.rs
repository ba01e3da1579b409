//! The reconnection supervisor.
//!
//! The inbound loop observes protocol stream termination and restores the
//! session: it waits out a fixed cooldown, attempts reconnect and handshake
//! regardless of outcome, and resumes consuming events.  `supervise_step`
//! is that state machine; the surrounding process performs the waiting and
//! the reconnect calls and reports each observation back as a `LinkEvent`.

use vstd::prelude::*;

use crate::policy::RECONNECT_COOLDOWN_UNITS;

verus! {

/// The supervisor's view of the protocol session.
#[derive(Clone, Copy, PartialEq, Eq, Structural, Debug)]
pub enum LinkState {
    /// Events are being consumed.
    Connected,
    /// The stream ended; the cooldown is being waited out.
    Cooldown,
    /// The cooldown elapsed; reconnect and handshake are being attempted.
    Reconnecting,
}

/// What the inbound loop observed.
#[derive(Clone, Copy, PartialEq, Eq, Structural, Debug)]
pub enum LinkEvent {
    /// The event stream terminated.
    StreamEnded,
    /// The cooldown wait completed.
    CooldownElapsed,
    /// Reconnect and handshake were attempted, successfully or not.
    AttemptFinished,
}

/// What the loop must do next.
#[derive(Clone, Copy, PartialEq, Eq, Structural, Debug)]
pub enum LinkAction {
    /// Keep (or resume) consuming events from the stream.
    KeepConsuming,
    /// Wait for `units` time-units before doing anything else.
    WaitCooldown { units: u64 },
    /// Attempt reconnect followed by handshake; failures are not
    /// propagated.
    AttemptReconnect,
}

/// The supervisor's transition table.
///
/// Stream termination starts the cooldown; an elapsed cooldown starts the
/// reconnect attempt; a finished attempt — successful or not — resumes
/// consumption.  There is no terminal state, and an observation that does
/// not belong to the current state changes nothing.
pub open spec fn supervise_spec(state: LinkState, event: LinkEvent) -> (LinkState, LinkAction) {
    match (state, event) {
        (LinkState::Connected, LinkEvent::StreamEnded) => (
            LinkState::Cooldown,
            LinkAction::WaitCooldown { units: RECONNECT_COOLDOWN_UNITS },
        ),
        (LinkState::Cooldown, LinkEvent::CooldownElapsed) => (
            LinkState::Reconnecting,
            LinkAction::AttemptReconnect,
        ),
        (LinkState::Reconnecting, LinkEvent::AttemptFinished) => (
            LinkState::Connected,
            LinkAction::KeepConsuming,
        ),
        _ => (state, LinkAction::KeepConsuming),
    }
}

/// A full supervision cycle out of `Connected` first waits out the fixed
/// cooldown, then attempts exactly one reconnect-and-handshake, then
/// resumes consuming events, back in `Connected`.
pub proof fn lemma_supervision_cycle_restores_connection()
    ensures
        ({
            let first = supervise_spec(LinkState::Connected, LinkEvent::StreamEnded);
            let second = supervise_spec(first.0, LinkEvent::CooldownElapsed);
            let third = supervise_spec(second.0, LinkEvent::AttemptFinished);
            &&& first.1 == (LinkAction::WaitCooldown { units: RECONNECT_COOLDOWN_UNITS })
            &&& second.1 == LinkAction::AttemptReconnect
            &&& third.1 == LinkAction::KeepConsuming
            &&& third.0 == LinkState::Connected
        }),
{
}

/// One supervisor transition, as `supervise_spec` gives it.
pub fn supervise_step(state: LinkState, event: LinkEvent) -> (r: (LinkState, LinkAction))
    ensures
        r == supervise_spec(state, event),
{
    match (state, event) {
        (LinkState::Connected, LinkEvent::StreamEnded) => (
            LinkState::Cooldown,
            LinkAction::WaitCooldown { units: RECONNECT_COOLDOWN_UNITS },
        ),
        (LinkState::Cooldown, LinkEvent::CooldownElapsed) => (
            LinkState::Reconnecting,
            LinkAction::AttemptReconnect,
        ),
        (LinkState::Reconnecting, LinkEvent::AttemptFinished) => (
            LinkState::Connected,
            LinkAction::KeepConsuming,
        ),
        _ => (state, LinkAction::KeepConsuming),
    }
}

} // verus!
