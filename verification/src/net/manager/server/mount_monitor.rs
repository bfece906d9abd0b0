//! How the manager moves a mount between the states of its lifecycle, from the probes of its
//! backend and the state changes of the connection it goes through.
//!
//! ```text
//!                ┌──────────────┐ connection drop ┌──────────────┐
//!     Active ───►│ Reconnecting ├────────────────►│ Disconnected │
//!          ▲     └──────┬───────┘                 └──────┬───────┘
//!          │            │ reconnect succeeded            │
//!          └────────────┘                                │
//!                                                        │ permanent
//!                                                        ▼
//!                                                   ┌────────┐
//!                                                   │ Failed │
//!                                                   └────────┘
//! ```
use vstd::prelude::*;

use crate::net::client::ConnectionState;
use crate::net::manager::data::event::Event;
use crate::net::manager::data::ConnectionId;
use crate::plugin::mount::MountProbe;
use crate::protocol::mount::MountStatus;

verus! {

/// The state a probe moves a mount to, if it moves it: a healthy probe restores a
/// reconnecting or disconnected mount, a failed probe fails any mount not failed already, and a
/// degraded probe changes nothing.
pub open spec fn probe_target(probe: MountProbe, current: MountStatus) -> Option<MountStatus> {
    match probe {
        MountProbe::Healthy => match current {
            MountStatus::Reconnecting | MountStatus::Disconnected => Some(MountStatus::Active),
            _ => None,
        },
        MountProbe::Degraded(_) => None,
        MountProbe::Failed(reason) => match current {
            MountStatus::Failed { .. } => None,
            _ => Some(MountStatus::Failed { reason }),
        },
    }
}

/// The state a change of the connection's state moves a mount to, if it moves it.
pub open spec fn connection_target(state: ConnectionState, current: MountStatus) -> Option<
    MountStatus,
> {
    match (state, current) {
        (ConnectionState::Connected, MountStatus::Reconnecting)
        | (ConnectionState::Connected, MountStatus::Disconnected) => Some(MountStatus::Active),
        (ConnectionState::Reconnecting, MountStatus::Active) => Some(MountStatus::Reconnecting),
        (ConnectionState::Disconnected, MountStatus::Active)
        | (ConnectionState::Disconnected, MountStatus::Reconnecting) => Some(
            MountStatus::Disconnected,
        ),
        _ => None,
    }
}

/// Maps a probe to a target status for the per-mount monitor. Returns `None` when the probe
/// should not change the current state (e.g. `Healthy` while already `Active`, or `Degraded`
/// which is informational only).
pub fn probe_to_status(probe: MountProbe, current: &MountStatus) -> (r: Option<MountStatus>)
    ensures
        r == probe_target(probe, *current),
{
    match probe {
        MountProbe::Healthy => match current {
            MountStatus::Active => None,
            MountStatus::Reconnecting | MountStatus::Disconnected => Some(MountStatus::Active),
            MountStatus::Failed { .. } => None,
        },
        MountProbe::Degraded(_) => None,
        MountProbe::Failed(reason) => match current {
            MountStatus::Failed { .. } => None,
            _ => Some(MountStatus::Failed { reason }),
        },
    }
}

/// Maps a change of the connection's state to a target status for a mount. Returns `None` when
/// the connection state should not change the mount's current state.
pub fn connection_state_to_mount_status(state: ConnectionState, current: &MountStatus) -> (r:
    Option<MountStatus>)
    ensures
        r == connection_target(state, *current),
{
    match (state, current) {
        (ConnectionState::Connected, MountStatus::Reconnecting)
        | (ConnectionState::Connected, MountStatus::Disconnected) => Some(MountStatus::Active),
        (ConnectionState::Connected, _) => None,
        (ConnectionState::Reconnecting, MountStatus::Active) => Some(MountStatus::Reconnecting),
        (ConnectionState::Reconnecting, _) => None,
        (ConnectionState::Disconnected, MountStatus::Active)
        | (ConnectionState::Disconnected, MountStatus::Reconnecting) => Some(
            MountStatus::Disconnected,
        ),
        (ConnectionState::Disconnected, _) => None,
    }
}

/// What wakes the monitor of a mount.
#[derive(Clone, Debug, PartialEq, Eq)]
pub enum MonitorEvent {
    /// The polling interval elapsed; the probe of the backend, or `None` when the mount's handle
    /// has been taken away by an unmount.
    Tick(Option<MountProbe>),
    /// The monitor missed some events of the bus.
    Lagged,
    /// The event bus closed.
    Closed,
    /// An event arrived on the bus.
    Event(Event),
}

/// What the monitor does next.
#[derive(Clone, Debug, PartialEq, Eq)]
pub enum MonitorAction {
    /// Stop monitoring.
    Exit,
    /// Keep monitoring without a change.
    Continue,
    /// Record the new status of the mount and publish it; stop monitoring afterwards if `exit`.
    Transition { status: MountStatus, exit: bool },
}

/// The action for a target state: a transition, which ends monitoring when the mount failed.
pub open spec fn action_for(target: Option<MountStatus>) -> MonitorAction {
    match target {
        Some(status) => MonitorAction::Transition { status, exit: status is Failed },
        None => MonitorAction::Continue,
    }
}

/// The action of the monitor of a mount that goes through `connection_id` and is in `current`
/// state, on an event.
pub open spec fn monitor_action(connection_id: ConnectionId, current: MountStatus, event: MonitorEvent) -> MonitorAction {
    match event {
        MonitorEvent::Tick(None) => MonitorAction::Exit,
        MonitorEvent::Tick(Some(probe)) => action_for(probe_target(probe, current)),
        MonitorEvent::Lagged => MonitorAction::Continue,
        MonitorEvent::Closed => MonitorAction::Exit,
        MonitorEvent::Event(Event::ConnectionState { id, state }) => if id == connection_id {
            action_for(connection_target(state, current))
        } else {
            MonitorAction::Continue
        },
        MonitorEvent::Event(Event::MountState { .. }) => MonitorAction::Continue,
    }
}

/// Decides what the monitor of a mount does on an event: a dropped handle or a closed bus ends
/// it; a probe or a state change of the mount's own connection may move the mount to another
/// state, and monitoring ends once the mount has failed.
pub fn monitor_step(connection_id: ConnectionId, current: &MountStatus, event: MonitorEvent) -> (r:
    MonitorAction)
    ensures
        r == monitor_action(connection_id, *current, event),
{
    match event {
        MonitorEvent::Tick(None) => MonitorAction::Exit,
        MonitorEvent::Tick(Some(probe)) => match probe_to_status(probe, current) {
            Some(status) => {
                let exit = match status {
                    MountStatus::Failed { .. } => true,
                    _ => false,
                };
                MonitorAction::Transition { status, exit }
            },
            None => MonitorAction::Continue,
        },
        MonitorEvent::Lagged => MonitorAction::Continue,
        MonitorEvent::Closed => MonitorAction::Exit,
        MonitorEvent::Event(Event::ConnectionState { id, state }) => {
            if id == connection_id {
                match connection_state_to_mount_status(state, current) {
                    Some(status) => MonitorAction::Transition { status, exit: false },
                    None => MonitorAction::Continue,
                }
            } else {
                MonitorAction::Continue
            }
        },
        MonitorEvent::Event(Event::MountState { .. }) => MonitorAction::Continue,
    }
}

/// `Failed` is terminal: no probe and no change of the connection's state moves a failed mount,
/// and a degraded probe never moves any mount.
pub proof fn lemma_failed_is_terminal(probe: MountProbe, state: ConnectionState, reason: String, current: MountStatus)
    ensures
        probe_target(probe, MountStatus::Failed { reason }) is None,
        connection_target(state, MountStatus::Failed { reason }) is None,
        probe is Degraded ==> probe_target(probe, current) is None,
{
}

/// The monitor stops exactly when it sees a dropped handle, a closed bus, or moves the mount to
/// `Failed`; a change of the connection's state never moves a mount to `Failed`.
pub proof fn lemma_monitor_stops_on_failure(connection_id: ConnectionId, current: MountStatus, event: MonitorEvent)
    ensures
        monitor_action(connection_id, current, event) matches MonitorAction::Transition { status, exit }
            ==> (exit <==> status is Failed),
        event is Event ==> !(monitor_action(connection_id, current, event) matches MonitorAction::Transition { status, .. } && status is Failed),
{
}


/// A mount follows the state of its connection. When the connection comes back, a reconnecting or
/// disconnected mount becomes active again; when it starts reconnecting, an active mount becomes
/// reconnecting and no other mount moves; when it is gone, an active or reconnecting mount becomes
/// disconnected. Whatever moves goes to the status the connection's state stands for, and only
/// when that is not the status it already has; an active mount stays active on `Connected`, and a
/// failed mount never moves.
pub proof fn lemma_mount_follows_connection(state: ConnectionState, current: MountStatus)
    ensures
        state == ConnectionState::Connected && (current == MountStatus::Reconnecting || current
            == MountStatus::Disconnected) ==> connection_target(state, current) == Some(
            MountStatus::Active,
        ),
        state == ConnectionState::Reconnecting ==> (connection_target(state, current) is Some
            <==> current == MountStatus::Active),
        state == ConnectionState::Disconnected && (current == MountStatus::Active || current
            == MountStatus::Reconnecting) ==> connection_target(state, current) == Some(
            MountStatus::Disconnected,
        ),
        connection_target(state, current) matches Some(next) ==> {
            &&& next != current
            &&& !(current is Failed)
            &&& state == ConnectionState::Connected ==> next == MountStatus::Active
            &&& state == ConnectionState::Reconnecting ==> next == MountStatus::Reconnecting
            &&& state == ConnectionState::Disconnected ==> next == MountStatus::Disconnected
        },
        current == MountStatus::Active && state == ConnectionState::Connected
            ==> connection_target(state, current) is None,
        current is Failed ==> connection_target(state, current) is None,
        current == MountStatus::Disconnected && state != ConnectionState::Connected
            ==> connection_target(state, current) is None,
{
}

/// A probe moves a mount as its backend reports: a healthy backend brings a reconnecting or
/// disconnected mount back to active and leaves an active one as it is; a failed backend fails
/// every mount not failed already, with the backend's reason; a degraded backend moves nothing;
/// and a failed mount stays as it failed.
pub proof fn lemma_probe_moves(probe: MountProbe, current: MountStatus)
    ensures
        probe == MountProbe::Healthy ==> (probe_target(probe, current) == if current
            == MountStatus::Reconnecting || current == MountStatus::Disconnected {
            Some(MountStatus::Active)
        } else {
            None::<MountStatus>
        }),
        probe matches MountProbe::Failed(reason) ==> (probe_target(probe, current) == if current is Failed {
            None::<MountStatus>
        } else {
            Some(MountStatus::Failed { reason })
        }),
        probe is Degraded ==> probe_target(probe, current) is None,
        current is Failed ==> probe_target(probe, current) is None,
        probe_target(probe, current) matches Some(next) ==> next != current,
{
}

} // verus!
