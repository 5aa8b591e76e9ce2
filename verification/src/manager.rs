//! The connection manager: the state machine that guarantees a connected
//! device before each control decision, with unconditional retry on the next
//! tick. The machine maps a state and an observed event to the next state and
//! the action the surrounding loop must perform; the loop performs the action
//! (check liveness, scan, connect, disconnect, dispatch the decision) and
//! feeds the result back as the next event.

use vstd::prelude::*;

use crate::hysteresis::{spec_decide, decide, BatteryState, Decision, Thresholds};

verus! {

/// Where the manager stands: `Searching` and `Connecting` are the transient
/// stages a tick passes through while re-establishing a device.
#[derive(Clone, Copy, Debug, PartialEq, Eq, Structural)]
pub enum ManagerState {
    Disconnected,
    Searching,
    Connecting,
    Connected,
}

/// What the surrounding loop reports to the machine.
#[derive(Clone, Copy, Debug, PartialEq, Eq, Structural)]
pub enum ManagerEvent {
    /// The fixed-interval timer fired.
    Tick,
    /// Result of the liveness re-check on the connected device.
    Liveness(bool),
    /// The forced disconnect after a negative liveness check completed.
    DisconnectDone,
    /// The scan resolved a configured device.
    SearchOk,
    /// The scan timed out or found no configured device.
    SearchFailed,
    /// The device connected and initialized.
    ConnectOk,
    /// Connecting failed (transport, service or characteristic error).
    ConnectFailed,
}

/// What the surrounding loop must do next.
#[derive(Clone, Copy, Debug, PartialEq, Eq, Structural)]
pub enum ManagerAction {
    /// Re-check the connected device's liveness.
    CheckLiveness,
    /// Tear the dead link down explicitly.
    Disconnect,
    /// Run the bounded scan over the configured devices.
    Search,
    /// Connect and initialize the resolved device.
    Connect,
    /// Connectivity stands: apply this tick's switching decision.
    Dispatch,
    /// Connectivity could not be established: skip this tick's decision.
    SkipTick,
}

/// The transition table. A tick on a connected device first re-checks
/// liveness; a negative check forces a disconnect and the reconnection path is
/// taken in the same tick. A disconnected manager searches, then connects;
/// either failure leaves it disconnected and skips the tick — never fatal, the
/// next tick retries unconditionally. A pairing outside the table leaves the
/// state and skips the tick.
pub open spec fn spec_step(s: ManagerState, e: ManagerEvent) -> (ManagerState, ManagerAction) {
    match (s, e) {
        (ManagerState::Disconnected, ManagerEvent::Tick) => (
            ManagerState::Searching,
            ManagerAction::Search,
        ),
        (ManagerState::Disconnected, ManagerEvent::DisconnectDone) => (
            ManagerState::Searching,
            ManagerAction::Search,
        ),
        (ManagerState::Searching, ManagerEvent::SearchOk) => (
            ManagerState::Connecting,
            ManagerAction::Connect,
        ),
        (ManagerState::Searching, ManagerEvent::SearchFailed) => (
            ManagerState::Disconnected,
            ManagerAction::SkipTick,
        ),
        (ManagerState::Connecting, ManagerEvent::ConnectOk) => (
            ManagerState::Connected,
            ManagerAction::Dispatch,
        ),
        (ManagerState::Connecting, ManagerEvent::ConnectFailed) => (
            ManagerState::Disconnected,
            ManagerAction::SkipTick,
        ),
        (ManagerState::Connected, ManagerEvent::Tick) => (
            ManagerState::Connected,
            ManagerAction::CheckLiveness,
        ),
        (ManagerState::Connected, ManagerEvent::Liveness(true)) => (
            ManagerState::Connected,
            ManagerAction::Dispatch,
        ),
        (ManagerState::Connected, ManagerEvent::Liveness(false)) => (
            ManagerState::Disconnected,
            ManagerAction::Disconnect,
        ),
        (other, _) => (other, ManagerAction::SkipTick),
    }
}

pub fn step(s: ManagerState, e: ManagerEvent) -> (r: (ManagerState, ManagerAction))
    ensures
        r == spec_step(s, e),
{
    match (s, e) {
        (ManagerState::Disconnected, ManagerEvent::Tick) => (
            ManagerState::Searching,
            ManagerAction::Search,
        ),
        (ManagerState::Disconnected, ManagerEvent::DisconnectDone) => (
            ManagerState::Searching,
            ManagerAction::Search,
        ),
        (ManagerState::Searching, ManagerEvent::SearchOk) => (
            ManagerState::Connecting,
            ManagerAction::Connect,
        ),
        (ManagerState::Searching, ManagerEvent::SearchFailed) => (
            ManagerState::Disconnected,
            ManagerAction::SkipTick,
        ),
        (ManagerState::Connecting, ManagerEvent::ConnectOk) => (
            ManagerState::Connected,
            ManagerAction::Dispatch,
        ),
        (ManagerState::Connecting, ManagerEvent::ConnectFailed) => (
            ManagerState::Disconnected,
            ManagerAction::SkipTick,
        ),
        (ManagerState::Connected, ManagerEvent::Tick) => (
            ManagerState::Connected,
            ManagerAction::CheckLiveness,
        ),
        (ManagerState::Connected, ManagerEvent::Liveness(true)) => (
            ManagerState::Connected,
            ManagerAction::Dispatch,
        ),
        (ManagerState::Connected, ManagerEvent::Liveness(false)) => (
            ManagerState::Disconnected,
            ManagerAction::Disconnect,
        ),
        (other, _) => (other, ManagerAction::SkipTick),
    }
}

/// The switch request a tick dispatches: the hysteresis decision, but only
/// under a `Dispatch` action — on every other action nothing is requested, so
/// a tick without established connectivity never switches. `Some(true)` asks
/// for on, `Some(false)` for off.
pub open spec fn spec_requested_switch(
    action: ManagerAction,
    state: BatteryState,
    fraction: u32,
    th: Thresholds,
) -> Option<bool> {
    if action == ManagerAction::Dispatch {
        match spec_decide(state, fraction, th) {
            Decision::TurnOn => Some(true),
            Decision::TurnOff => Some(false),
            Decision::NoOp => None,
        }
    } else {
        None
    }
}

pub fn requested_switch(
    action: &ManagerAction,
    state: BatteryState,
    fraction: u32,
    th: &Thresholds,
) -> (r: Option<bool>)
    ensures
        r == spec_requested_switch(*action, state, fraction, *th),
{
    match action {
        ManagerAction::Dispatch => match decide(state, fraction, th) {
            Decision::TurnOn => Some(true),
            Decision::TurnOff => Some(false),
            Decision::NoOp => None,
        },
        _ => None,
    }
}

/// An on/off action is dispatched only by a machine that stands connected:
/// while connectivity cannot be established the tick is skipped.
pub proof fn lemma_dispatch_only_when_connected(s: ManagerState, e: ManagerEvent)
    ensures
        spec_step(s, e).1 == ManagerAction::Dispatch ==> spec_step(s, e).0
            == ManagerState::Connected,
{
}

/// Failures while reconnecting are downgraded to skipping the tick: the
/// machine returns to `Disconnected` and the next tick's `Search` retries.
pub proof fn lemma_failure_skips_tick()
    ensures
        spec_step(ManagerState::Searching, ManagerEvent::SearchFailed) == (
            ManagerState::Disconnected,
            ManagerAction::SkipTick,
        ),
        spec_step(ManagerState::Connecting, ManagerEvent::ConnectFailed) == (
            ManagerState::Disconnected,
            ManagerAction::SkipTick,
        ),
        spec_step(ManagerState::Disconnected, ManagerEvent::Tick) == (
            ManagerState::Searching,
            ManagerAction::Search,
        ),
{
}

/// Reconnection: a connected device that reports itself dead forces an
/// explicit disconnect and the `Disconnected` state on that very tick, and a
/// single later tick whose scan and connect both succeed restores `Connected`.
pub proof fn lemma_reconnection()
    ensures
        spec_step(ManagerState::Connected, ManagerEvent::Liveness(false)) == (
            ManagerState::Disconnected,
            ManagerAction::Disconnect,
        ),
        spec_step(ManagerState::Disconnected, ManagerEvent::DisconnectDone) == (
            ManagerState::Searching,
            ManagerAction::Search,
        ),
        spec_step(ManagerState::Disconnected, ManagerEvent::Tick) == (
            ManagerState::Searching,
            ManagerAction::Search,
        ),
        spec_step(ManagerState::Searching, ManagerEvent::SearchOk) == (
            ManagerState::Connecting,
            ManagerAction::Connect,
        ),
        spec_step(ManagerState::Connecting, ManagerEvent::ConnectOk) == (
            ManagerState::Connected,
            ManagerAction::Dispatch,
        ),
{
}

} // verus!
