use std::time::Duration;
use std::time::SystemTime;

use file_organizer::WatchAction;
use file_organizer::WatchEvent;
use file_organizer::WatchState;
use file_organizer::local_date_of;
use file_organizer::pass_finished;
use file_organizer::watch_step;

#[test]
fn creation_triggers_a_full_pass() {
    let r = watch_step(WatchState::Watching, &WatchEvent::Created);
    assert_eq!(r, (WatchState::Reorganizing, WatchAction::Reorganize));
}

#[test]
fn data_modification_triggers_a_full_pass() {
    let r = watch_step(WatchState::Watching, &WatchEvent::DataModified);
    assert_eq!(r, (WatchState::Reorganizing, WatchAction::Reorganize));
}

#[test]
fn metadata_and_other_events_are_ignored() {
    let r = watch_step(WatchState::Watching, &WatchEvent::MetadataModified);
    assert_eq!(r, (WatchState::Watching, WatchAction::Ignore));
    let r = watch_step(WatchState::Watching, &WatchEvent::Other);
    assert_eq!(r, (WatchState::Watching, WatchAction::Ignore));
}

#[test]
fn delivery_error_is_logged_and_loop_stays_alive() {
    let r = watch_step(WatchState::Watching, &WatchEvent::DeliveryError);
    assert_eq!(r, (WatchState::Watching, WatchAction::LogError));
    // the loop keeps handling events afterwards
    let r = watch_step(r.0, &WatchEvent::Created);
    assert_eq!(r, (WatchState::Reorganizing, WatchAction::Reorganize));
}

#[test]
fn a_failed_pass_inside_the_loop_is_only_logged() {
    let r = pass_finished(WatchState::Reorganizing, false);
    assert_eq!(r, (WatchState::Watching, WatchAction::LogError));
    let r = pass_finished(WatchState::Reorganizing, true);
    assert_eq!(r, (WatchState::Watching, WatchAction::Ignore));
}

#[test]
fn local_date_of_epoch_is_around_1970() {
    let d = local_date_of(SystemTime::UNIX_EPOCH).expect("the epoch is representable");
    // the local time zone may place the epoch instant late in 1969
    assert!(d.year == 1970 || d.year == 1969);
    assert!(1 <= d.month && d.month <= 12);
    assert!(1 <= d.day && d.day <= 31);
}

#[test]
fn local_date_of_times_before_the_epoch() {
    // half a second before the epoch: a fractional second on the early side
    let t = SystemTime::UNIX_EPOCH - Duration::new(0, 500_000_000);
    let d = local_date_of(t).expect("just before the epoch is representable");
    assert!(d.year == 1969 || d.year == 1970);
    assert!(1 <= d.month && d.month <= 12);
    assert!(1 <= d.day && d.day <= 31);

    // a year and a day earlier: the last hours of 1968 in every time zone
    let t = SystemTime::UNIX_EPOCH - Duration::from_secs(366 * 86400);
    let d = local_date_of(t).expect("a year before the epoch is representable");
    assert_eq!(d.year, 1968);
    assert_eq!(d.month, 12);
    assert!(d.day == 30 || d.day == 31);
}
