//! The watch mode's decision logic: which filesystem notifications trigger a
//! new organize pass, and how the watch loop moves between its states. The
//! blocking event subscription itself lives outside the library; it hands
//! each delivery to `watch_step` and performs the action returned.

use vstd::prelude::*;

verus! {

/// What one delivery from the filesystem event source reports, as the watch
/// loop reads it.
#[derive(Clone, Copy, Debug, PartialEq, Eq, Structural)]
pub enum WatchEvent {
    /// A file or directory was created.
    Created,
    /// A file's data changed.
    DataModified,
    /// Only metadata (permissions, timestamps, names) changed.
    MetadataModified,
    /// Any other filesystem notification.
    Other,
    /// The event source reported a delivery error instead of an event.
    DeliveryError,
}

/// The watch loop's states.
#[derive(Clone, Copy, Debug, PartialEq, Eq, Structural)]
pub enum WatchState {
    /// Not yet subscribed.
    Idle,
    /// Subscribed, blocked on event delivery.
    Watching,
    /// Synchronously running one organize pass.
    Reorganizing,
}

/// What the loop does with one delivery.
#[derive(Clone, Copy, Debug, PartialEq, Eq, Structural)]
pub enum WatchAction {
    /// Run one full organize pass over the target directory.
    Reorganize,
    /// Log the reported error and keep waiting.
    LogError,
    /// Silently ignore the delivery.
    Ignore,
}

/// A qualifying event: a creation, or a data modification. Metadata-only
/// changes and everything else do not qualify.
pub open spec fn qualifies(ev: WatchEvent) -> bool {
    ev == WatchEvent::Created || ev == WatchEvent::DataModified
}

/// What one delivery does to a watching loop: a qualifying event starts a
/// full reorganize pass, a delivery error is logged and the loop stays
/// alive, anything else is ignored.
pub open spec fn spec_watch_step(ev: WatchEvent) -> (WatchState, WatchAction) {
    if qualifies(ev) {
        (WatchState::Reorganizing, WatchAction::Reorganize)
    } else if ev == WatchEvent::DeliveryError {
        (WatchState::Watching, WatchAction::LogError)
    } else {
        (WatchState::Watching, WatchAction::Ignore)
    }
}

/// Handles one delivery while watching. No delivery ever leaves the loop.
pub fn watch_step(state: WatchState, ev: &WatchEvent) -> (r: (WatchState, WatchAction))
    requires
        state == WatchState::Watching,
    ensures
        r == spec_watch_step(*ev),
{
    match ev {
        WatchEvent::Created => (WatchState::Reorganizing, WatchAction::Reorganize),
        WatchEvent::DataModified => (WatchState::Reorganizing, WatchAction::Reorganize),
        WatchEvent::DeliveryError => (WatchState::Watching, WatchAction::LogError),
        WatchEvent::MetadataModified => (WatchState::Watching, WatchAction::Ignore),
        WatchEvent::Other => (WatchState::Watching, WatchAction::Ignore),
    }
}

/// Ends one reorganize pass run from within the watch loop: the loop goes
/// back to waiting whether the pass succeeded or failed; a failure is only
/// logged, never allowed to end the loop.
pub fn pass_finished(state: WatchState, pass_ok: bool) -> (r: (WatchState, WatchAction))
    requires
        state == WatchState::Reorganizing,
    ensures
        r.0 == WatchState::Watching,
        r.1 == (if pass_ok {
            WatchAction::Ignore
        } else {
            WatchAction::LogError
        }),
{
    if pass_ok {
        (WatchState::Watching, WatchAction::Ignore)
    } else {
        (WatchState::Watching, WatchAction::LogError)
    }
}

/// The watch loop stays alive on every delivery: whatever the event source
/// reports — a delivery error included — the next state watches on or runs
/// one pass; it never falls back to `Idle`. A pass is triggered exactly by
/// the qualifying events, and a delivery error is answered by logging
/// alone, so the loop goes on processing subsequent events.
pub proof fn lemma_watch_loop_stays_alive(ev: WatchEvent)
    ensures
        spec_watch_step(ev).0 != WatchState::Idle,
        spec_watch_step(ev).1 == WatchAction::Reorganize <==> qualifies(ev),
        ev == WatchEvent::DeliveryError ==> spec_watch_step(ev) == (
            WatchState::Watching,
            WatchAction::LogError,
        ),
{
}

} // verus!
