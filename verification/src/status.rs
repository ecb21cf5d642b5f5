//! Presence watcher: edge-triggered online/offline announcements with a
//! debounce on going offline. Reading the actual presence and firing the
//! callbacks happen outside the library; this module decides, from the
//! current watch state and one observation, what to do next.

use vstd::prelude::*;

verus! {

/// A user's observed presence.
#[derive(Clone, Copy, PartialEq, Eq, Structural, Debug)]
pub enum Status {
    Online,
    Offline,
}

/// Where the presence watcher stands.
#[derive(Clone, Copy, PartialEq, Eq, Structural, Debug)]
pub enum WatchState {
    /// The last announced (or initial) status.
    Steady { last: Status },
    /// The user was seen offline while `Steady { Online }`; the watcher
    /// waits and re-checks before announcing, to debounce short drops.
    ConfirmingOffline,
}

/// What the caller should do after one observation.
#[derive(Clone, Copy, PartialEq, Eq, Structural, Debug)]
pub enum WatchAction {
    /// Nothing changed.
    DoNothing,
    /// Wait the debounce delay, observe again, and report that observation.
    ConfirmOfflineLater,
    /// The user came online: fire the on-online callback.
    AnnounceOnline,
    /// The user is confirmed offline: fire the on-offline callback.
    AnnounceOffline,
}

/// The transition relation of the presence watcher:
/// - in a steady state, an unchanged observation does nothing; a change to
///   online is announced at once; a change to offline is only scheduled for
///   confirmation, and the announced status stays as it was;
/// - while confirming, a second offline observation announces offline; an
///   online observation cancels the confirmation silently.
pub open spec fn watch_step_spec(state: WatchState, observed: Status) -> (WatchState, WatchAction) {
    match state {
        WatchState::Steady { last } => {
            if observed == last {
                (state, WatchAction::DoNothing)
            } else {
                match observed {
                    Status::Online => (
                        WatchState::Steady { last: Status::Online },
                        WatchAction::AnnounceOnline,
                    ),
                    Status::Offline => (
                        WatchState::ConfirmingOffline,
                        WatchAction::ConfirmOfflineLater,
                    ),
                }
            }
        },
        WatchState::ConfirmingOffline => {
            match observed {
                Status::Offline => (
                    WatchState::Steady { last: Status::Offline },
                    WatchAction::AnnounceOffline,
                ),
                Status::Online => (
                    WatchState::Steady { last: Status::Online },
                    WatchAction::DoNothing,
                ),
            }
        },
    }
}

/// Advances the presence watcher by one observation.
pub fn watch_step(state: &WatchState, observed: Status) -> (r: (WatchState, WatchAction))
    ensures
        r == watch_step_spec(*state, observed),
{
    match state {
        WatchState::Steady { last } => {
            if observed == *last {
                (*state, WatchAction::DoNothing)
            } else {
                match observed {
                    Status::Online => (
                        WatchState::Steady { last: Status::Online },
                        WatchAction::AnnounceOnline,
                    ),
                    Status::Offline => (
                        WatchState::ConfirmingOffline,
                        WatchAction::ConfirmOfflineLater,
                    ),
                }
            }
        },
        WatchState::ConfirmingOffline => {
            match observed {
                Status::Offline => (
                    WatchState::Steady { last: Status::Offline },
                    WatchAction::AnnounceOffline,
                ),
                Status::Online => (
                    WatchState::Steady { last: Status::Online },
                    WatchAction::DoNothing,
                ),
            }
        },
    }
}

/// A repeated observation of the announced status never announces: the
/// callbacks are edge-triggered.
pub proof fn lemma_watch_steady_is_quiet(last: Status)
    ensures
        watch_step_spec(WatchState::Steady { last }, last) == (
            WatchState::Steady { last },
            WatchAction::DoNothing,
        ),
{
}

} // verus!
