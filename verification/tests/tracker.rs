use battery_daemon::tracker::Action;
use battery_daemon::tracker::EpisodeTracker;
use battery_daemon::traits::BatteryInfo;
use battery_daemon::traits::BatteryStatus;

fn sample(capacity: u8, status: BatteryStatus) -> BatteryInfo {
    BatteryInfo { capacity, status }
}

fn fired(a: &Action) -> bool {
    matches!(a, Action::FireAlert(_))
}

#[test]
fn first_low_sample_fires_then_suppresses() {
    let mut t = EpisodeTracker::new(30);
    let a1 = t.observe(&sample(25, BatteryStatus::Discharging));
    let a2 = t.observe(&sample(20, BatteryStatus::Discharging));
    let a3 = t.observe(&sample(15, BatteryStatus::Discharging));
    assert!(fired(&a1));
    assert!(!fired(&a2));
    assert!(!fired(&a3));
}

#[test]
fn recharge_clears_episode_and_rearms() {
    let mut t = EpisodeTracker::new(30);
    let a1 = t.observe(&sample(25, BatteryStatus::Discharging));
    let a2 = t.observe(&sample(40, BatteryStatus::Charging));
    let a3 = t.observe(&sample(20, BatteryStatus::Discharging));
    assert!(fired(&a1));
    assert!(!fired(&a2));
    assert!(fired(&a3));
}

#[test]
fn above_threshold_never_fires() {
    let mut t = EpisodeTracker::new(30);
    let a1 = t.observe(&sample(50, BatteryStatus::Discharging));
    assert!(!fired(&a1));
    assert!(!t.alerted);
}

#[test]
fn full_resets_like_charging() {
    let mut t = EpisodeTracker::new(30);
    let a1 = t.observe(&sample(20, BatteryStatus::Discharging));
    let a2 = t.observe(&sample(100, BatteryStatus::Full));
    let a3 = t.observe(&sample(20, BatteryStatus::Discharging));
    assert!(fired(&a1));
    assert!(!fired(&a2));
    assert!(fired(&a3));
}

#[test]
fn unknown_resets_like_charging() {
    let mut t = EpisodeTracker::new(30);
    let a1 = t.observe(&sample(20, BatteryStatus::Discharging));
    let a2 = t.observe(&sample(20, BatteryStatus::Unknown));
    let a3 = t.observe(&sample(20, BatteryStatus::Discharging));
    assert!(fired(&a1));
    assert!(!fired(&a2));
    assert!(fired(&a3));
}

#[test]
fn source_failure_keeps_episode_memory() {
    let mut t = EpisodeTracker::new(30);
    let a1 = t.scheduler_step(&Ok(sample(20, BatteryStatus::Discharging)));
    assert!(fired(&a1));
    assert!(t.alerted);
    let a2 = t.scheduler_step(&Err(String::from("battery unreadable")));
    assert!(!fired(&a2));
    assert!(t.alerted);
    let a3 = t.scheduler_step(&Ok(sample(15, BatteryStatus::Discharging)));
    assert!(!fired(&a3));
    assert!(t.alerted);
}

#[test]
fn repeated_same_sample_stays_suppressed() {
    let mut t = EpisodeTracker::new(30);
    let first = t.observe(&sample(20, BatteryStatus::Discharging));
    assert!(fired(&first));
    for _ in 0..50 {
        let a = t.observe(&sample(20, BatteryStatus::Discharging));
        assert!(!fired(&a));
        assert!(t.alerted);
    }
}

#[test]
fn fires_at_exact_threshold() {
    let mut t = EpisodeTracker::new(30);
    let a = t.observe(&sample(30, BatteryStatus::Discharging));
    assert!(fired(&a));
}

#[test]
fn alert_message_embeds_capacity() {
    let mut t = EpisodeTracker::new(30);
    let a = t.observe(&sample(25, BatteryStatus::Discharging));
    match a {
        Action::FireAlert(m) => {
            assert_eq!(m, "Battery level is at 25%. Please plug in charger.");
        }
        Action::Nothing => panic!("expected an alert"),
    }
}

#[test]
fn zero_threshold_fires_only_at_zero() {
    let mut t = EpisodeTracker::new(0);
    let a1 = t.observe(&sample(1, BatteryStatus::Discharging));
    assert!(!fired(&a1));
    let a2 = t.observe(&sample(0, BatteryStatus::Discharging));
    assert!(fired(&a2));
}

#[test]
fn charging_low_does_not_fire() {
    let mut t = EpisodeTracker::new(30);
    let a = t.observe(&sample(5, BatteryStatus::Charging));
    assert!(!fired(&a));
    assert!(!t.alerted);
}
