use rusty_vinnie::status::{watch_step, Status, WatchAction, WatchState};

#[test]
fn unchanged_status_does_nothing() {
    let steady_online = WatchState::Steady { last: Status::Online };
    assert_eq!(
        watch_step(&steady_online, Status::Online),
        (steady_online, WatchAction::DoNothing)
    );
    let steady_offline = WatchState::Steady { last: Status::Offline };
    assert_eq!(
        watch_step(&steady_offline, Status::Offline),
        (steady_offline, WatchAction::DoNothing)
    );
}

#[test]
fn coming_online_is_announced_at_once() {
    let state = WatchState::Steady { last: Status::Offline };
    assert_eq!(
        watch_step(&state, Status::Online),
        (
            WatchState::Steady { last: Status::Online },
            WatchAction::AnnounceOnline
        )
    );
}

#[test]
fn going_offline_is_debounced() {
    // First offline observation only schedules a re-check.
    let state = WatchState::Steady { last: Status::Online };
    let (state, action) = watch_step(&state, Status::Offline);
    assert_eq!(state, WatchState::ConfirmingOffline);
    assert_eq!(action, WatchAction::ConfirmOfflineLater);

    // Still offline at the re-check: announce.
    assert_eq!(
        watch_step(&state, Status::Offline),
        (
            WatchState::Steady { last: Status::Offline },
            WatchAction::AnnounceOffline
        )
    );
}

#[test]
fn short_drop_is_never_announced() {
    let state = WatchState::Steady { last: Status::Online };
    let (state, _) = watch_step(&state, Status::Offline);
    // Back online at the re-check: silent recovery.
    assert_eq!(
        watch_step(&state, Status::Online),
        (
            WatchState::Steady { last: Status::Online },
            WatchAction::DoNothing
        )
    );
}
