use emergency_backup::config::BackupConfig;
use emergency_backup::errors::Error;
use emergency_backup::gesture::{CpuLogSchedule, GestureMachine, Role, Stage, TickAction};
use emergency_backup::position::{MousePosition, ScreenSize};
use emergency_backup::tracker::MouseTracker;

fn at(x: i32, y: i32) -> MousePosition {
    MousePosition::new((x, y))
}

fn config() -> BackupConfig {
    let mut c = BackupConfig::default();
    c.backup_source = String::from("/home/user/documents");
    c.backup_destination = String::from("/media/usb");
    c
}

fn screen() -> ScreenSize {
    ScreenSize { max_width: 1920, max_height: 1080 }
}

fn tracker() -> MouseTracker {
    MouseTracker::from(config(), Ok(screen())).unwrap()
}

fn gesture() -> Vec<MousePosition> {
    vec![at(0, 0), at(1917, 1078), at(3, 1079), at(1918, 2)]
}

/// Feeds `samples` one per 200 ms from `start_ms`; returns the actions.
fn feed(m: &mut GestureMachine, samples: &[MousePosition], start_ms: u64) -> Vec<TickAction> {
    let mut out = Vec::new();
    for (i, p) in samples.iter().enumerate() {
        out.push(m.tick(*p, start_ms + 200 * i as u64));
    }
    out
}

#[test]
fn end_to_end_gesture_arms_then_confirms() {
    let t = tracker();
    let mut primary = t.start(0);
    let actions = feed(&mut primary, &gesture(), 0);
    assert_eq!(
        actions,
        vec![TickAction::Continue, TickAction::Continue, TickAction::Continue, TickAction::FirstCommand]
    );
    assert!(primary.history().is_empty());
    assert_eq!(primary.stage(), Stage::Listening);

    let mut confirming = primary.spawn_confirming(600);
    assert_eq!(confirming.role(), Role::Confirming);
    let actions = feed(&mut confirming, &gesture(), 800);
    assert_eq!(actions[3], TickAction::Backup);
    assert_eq!(confirming.stage(), Stage::Triggered);
}

#[test]
fn corner_order_does_not_matter() {
    let t = tracker();
    let mut m = t.start(0);
    let samples = vec![at(0, 0), at(3, 1079), at(1917, 1078), at(1918, 2)];
    assert_eq!(feed(&mut m, &samples, 0)[3], TickAction::FirstCommand);
    let mut m = t.start(0);
    let samples = vec![at(0, 0), at(1918, 2), at(1917, 1078), at(3, 1079)];
    assert_eq!(feed(&mut m, &samples, 0)[3], TickAction::FirstCommand);
}

#[test]
fn corners_without_origin_do_not_arm() {
    let t = tracker();
    let mut m = t.start(0);
    let samples = vec![at(1917, 1078), at(3, 1079), at(1918, 2), at(1, 1)];
    assert!(feed(&mut m, &samples, 0).iter().all(|a| *a == TickAction::Continue));
    assert!(m.history().is_empty());
}

#[test]
fn origin_last_with_earlier_corners_does_not_arm() {
    let t = tracker();
    let mut m = t.start(0);
    let samples = vec![at(1917, 1078), at(3, 1079), at(1918, 2), at(0, 0)];
    assert!(feed(&mut m, &samples, 0).iter().all(|a| *a == TickAction::Continue));
    assert_eq!(m.history(), vec![at(0, 0)]);
}

#[test]
fn missing_corner_does_not_arm() {
    let t = tracker();
    let mut m = t.start(0);
    let samples = vec![at(0, 0), at(1917, 1078), at(3, 1079), at(900, 2)];
    assert!(feed(&mut m, &samples, 0).iter().all(|a| *a == TickAction::Continue));
    assert_eq!(m.history(), samples);
}

#[test]
fn confirmation_inside_the_window_triggers() {
    let t = tracker();
    let primary = t.start(0);
    let t0: u64 = 1_000_000;
    let mut c = primary.spawn_confirming(t0);
    let g = gesture();
    let start = t0 + 14_000 - 600;
    let actions = feed(&mut c, &g, start);
    assert_eq!(actions[3], TickAction::Backup);
}

#[test]
fn confirmation_after_the_window_expires() {
    let t = tracker();
    let primary = t.start(0);
    let t0: u64 = 1_000_000;
    let mut c = primary.spawn_confirming(t0);
    assert_eq!(c.tick(at(0, 0), t0 + 1_000), TickAction::Continue);
    assert_eq!(c.tick(at(1917, 1078), t0 + 1_200), TickAction::Continue);
    assert_eq!(c.history().len(), 2);
    assert_eq!(c.tick(at(3, 1079), t0 + 16_000), TickAction::Expired);
    assert_eq!(c.stage(), Stage::Expired);
    assert!(c.history().is_empty());
}

#[test]
fn window_boundary_is_not_yet_expired() {
    let t = tracker();
    let primary = t.start(0);
    let mut c = primary.spawn_confirming(0);
    assert_eq!(c.tick(at(7, 7), 15_000), TickAction::Continue);
    assert_eq!(c.tick(at(7, 7), 15_001), TickAction::Expired);
}

#[test]
fn primary_never_expires() {
    let t = tracker();
    let mut m = t.start(0);
    assert_eq!(m.tick(at(7, 7), 10_000_000), TickAction::Continue);
    assert_eq!(m.stage(), Stage::Listening);
}

#[test]
fn primary_can_arm_again_after_first_command() {
    let t = tracker();
    let mut m = t.start(0);
    assert_eq!(feed(&mut m, &gesture(), 0)[3], TickAction::FirstCommand);
    assert_eq!(feed(&mut m, &gesture(), 1000)[3], TickAction::FirstCommand);
}

#[test]
fn cpu_log_is_due_after_the_interval() {
    let mut s = CpuLogSchedule::new(120_000, 0);
    assert!(!s.due(120_000));
    assert!(s.due(120_001));
    assert_eq!(s.last_ms, 120_001);
    assert!(!s.due(200_000));
}

#[test]
fn tracker_rejects_bad_configuration() {
    let mut c = config();
    c.millis_update_frequency = 0;
    assert_eq!(MouseTracker::from(c, Ok(screen())).unwrap_err(), Error::MillisUpdateFrequencyError);
    let mut c = config();
    c.tracking_window_sec = 0;
    assert_eq!(MouseTracker::from(c, Ok(screen())).unwrap_err(), Error::ZeroTrackingWindowSecError);
    assert_eq!(MouseTracker::from(config(), Err(Error::ScreenSizeError)).unwrap_err(), Error::ScreenSizeError);
    let zero = ScreenSize { max_width: 0, max_height: 1080 };
    assert_eq!(MouseTracker::from(config(), Ok(zero)).unwrap_err(), Error::ScreenSizeError);
    let mut c = config();
    c.backup_source = String::new();
    assert_eq!(MouseTracker::from(c, Ok(screen())).unwrap_err(), Error::BackupPathNotConfigured);
    let mut c = config();
    c.backup_destination = String::new();
    assert_eq!(MouseTracker::from(c, Ok(screen())).unwrap_err(), Error::BackupPathNotConfigured);
    let mut c = config();
    c.millis_update_frequency = 1001;
    assert_eq!(MouseTracker::from(c, Ok(screen())).unwrap_err(), Error::HistoryCapacityError);
    let mut c = config();
    c.millis_update_frequency = 1;
    c.tracking_window_sec = usize::MAX;
    assert_eq!(MouseTracker::from(c, Ok(screen())).unwrap_err(), Error::HistoryCapacityError);
    let mut c = config();
    c.millis_update_frequency = 1;
    c.tracking_window_sec = usize::MAX / 1000;
    assert_eq!(MouseTracker::from(c, Ok(screen())).unwrap_err(), Error::HistoryCapacityError);
}

#[test]
fn long_windows_are_accepted() {
    let mut c = config();
    c.millis_update_frequency = 1;
    c.tracking_window_sec = 2000;
    assert_eq!(MouseTracker::from(c, Ok(screen())).unwrap().history_capacity(), 2_000_000);
}

#[test]
fn start_tracking_checks_mode_against_source_kind() {
    let mut c = config();
    c.mode = String::from("file");
    assert_eq!(
        MouseTracker::start_tracking(c.clone(), true, Ok(screen())).unwrap_err(),
        Error::FolderProvidedFileRequiredError
    );
    assert!(MouseTracker::start_tracking(c, false, Ok(screen())).is_ok());
    let c = config();
    assert_eq!(
        MouseTracker::start_tracking(c.clone(), false, Ok(screen())).unwrap_err(),
        Error::FileProvidedFolderRequiredError
    );
    assert!(MouseTracker::start_tracking(c.clone(), true, Ok(screen())).is_ok());
    assert_eq!(
        MouseTracker::start_tracking(c, true, Err(Error::ScreenSizeError)).unwrap_err(),
        Error::ScreenSizeError
    );
}

#[test]
fn history_capacity_is_samples_per_window() {
    assert_eq!(tracker().history_capacity(), 75);
    let mut c = config();
    c.millis_update_frequency = 300;
    c.tracking_window_sec = 10;
    assert_eq!(MouseTracker::from(c, Ok(screen())).unwrap().history_capacity(), 30);
}
