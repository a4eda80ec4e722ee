use kasa_power::kasa::KasaPowerDetails;
use kasa_power::monitor::{MonitorAction, MonitorEvent, MonitorState, PowerMonitor};
use kasa_power::time::{Timestamp, MAX_SECS, MIN_SECS};

fn at(secs: i64) -> Timestamp {
    Timestamp { secs, nanos: 0, utc_offset: 0 }
}

fn reading(secs: i64, power_mw: u64) -> KasaPowerDetails {
    KasaPowerDetails {
        alias: "desk".to_string(),
        device_id: "8006".to_string(),
        voltage_mv: None,
        current_ma: None,
        power_mw: Some(power_mw),
        total_wh: None,
        timestamp: at(secs),
    }
}

fn take(monitor: &mut PowerMonitor, event: MonitorEvent) {
    assert!(monitor.can_step(&event));
    monitor.step(event);
}

/// Runs one round up to the reading.
fn read(monitor: &mut PowerMonitor, r: KasaPowerDetails) {
    assert_eq!(monitor.action(), MonitorAction::Connect);
    take(monitor, MonitorEvent::Connected);
    assert_eq!(monitor.action(), MonitorAction::Exchange);
    take(monitor, MonitorEvent::Reading(r));
}

fn pause(monitor: &mut PowerMonitor) {
    assert_eq!(monitor.action(), MonitorAction::Sleep { millis: 500 });
    take(monitor, MonitorEvent::Slept);
}

fn powers(monitor: &PowerMonitor) -> Vec<u64> {
    monitor.cache.cache.iter().map(|e| e.power_mw.unwrap()).collect()
}

#[test]
fn first_reading_is_remembered_but_not_cached() {
    let mut m = PowerMonitor::new(at(1000));
    read(&mut m, reading(1000, 7));
    assert_eq!(m.last_response.as_ref().unwrap().power_mw, Some(7));
    assert!(powers(&m).is_empty());
    pause(&mut m);
    assert_eq!(m.action(), MonitorAction::Connect);
}

#[test]
fn unchanged_reading_changes_nothing() {
    let mut m = PowerMonitor::new(at(1000));
    read(&mut m, reading(1000, 7));
    pause(&mut m);
    read(&mut m, reading(1001, 7));
    assert_eq!(m.last_response.as_ref().unwrap().timestamp.secs, 1000);
    assert!(powers(&m).is_empty());
    pause(&mut m);
}

#[test]
fn changed_reading_is_cached_and_published_once_the_clock_has_moved_on() {
    let mut m = PowerMonitor::new(at(1000));
    read(&mut m, reading(1000, 7));
    pause(&mut m);
    read(&mut m, reading(1001, 8));
    assert_eq!(powers(&m), [8]);
    assert_eq!(m.action(), MonitorAction::ReadClock);
    take(&mut m, MonitorEvent::Clock(at(1001)));
    match m.action() {
        MonitorAction::Publish(report) => {
            assert_eq!(report.powers_mw, [8]);
            assert_eq!(report.timestamps, [1001]);
            assert_eq!(report.num_readings, 1);
        }
        other => panic!("{other:?}"),
    }
    take(&mut m, MonitorEvent::Published(at(1002)));
    assert_eq!(m.next_publish.secs, 1017);
    pause(&mut m);
}

#[test]
fn clock_must_be_past_the_next_publish() {
    let mut m = PowerMonitor::new(at(1000));
    read(&mut m, reading(1000, 7));
    pause(&mut m);
    read(&mut m, reading(1000, 8));
    take(&mut m, MonitorEvent::Clock(at(1000)));
    assert_eq!(m.state, MonitorState::Pausing);
}

#[test]
fn messages_keep_their_distance() {
    let mut m = PowerMonitor::new(at(0));
    let mut published: Vec<i64> = Vec::new();
    for s in 1..60 {
        read(&mut m, reading(s, s as u64));
        if m.action() == MonitorAction::ReadClock {
            take(&mut m, MonitorEvent::Clock(at(s)));
        }
        if let MonitorAction::Publish(report) = m.action() {
            assert!(report.timestamps.iter().all(|t| s - 20 <= *t && *t <= s));
            published.push(s);
            take(&mut m, MonitorEvent::Published(at(s)));
        }
        pause(&mut m);
    }
    assert_eq!(published, [2, 18, 34, 50]);
}

#[test]
fn cache_holds_changes_only() {
    let mut m = PowerMonitor::new(at(1_000_000));
    for (s, p) in [(1, 5), (2, 6), (3, 6), (4, 5), (5, 5), (6, 6)] {
        read(&mut m, reading(s, p));
        if m.action() == MonitorAction::ReadClock {
            take(&mut m, MonitorEvent::Clock(at(s)));
        }
        pause(&mut m);
    }
    assert_eq!(powers(&m), [6, 5, 6]);
    assert_eq!(m.last_response, m.cache.cache.back().cloned());
}

#[test]
fn failures_are_retried_after_five_seconds() {
    let mut m = PowerMonitor::new(at(0));
    take(&mut m, MonitorEvent::Failed);
    assert_eq!(m.action(), MonitorAction::Sleep { millis: 5000 });
    take(&mut m, MonitorEvent::Slept);
    assert_eq!(m.action(), MonitorAction::Connect);
    take(&mut m, MonitorEvent::Connected);
    take(&mut m, MonitorEvent::Failed);
    assert_eq!(m.action(), MonitorAction::Sleep { millis: 5000 });
    take(&mut m, MonitorEvent::Slept);
    assert_eq!(m.state, MonitorState::Connecting);
    assert!(m.last_response.is_none());
}

#[test]
fn events_out_of_turn_are_refused() {
    let mut m = PowerMonitor::new(at(0));
    assert!(!m.can_step(&MonitorEvent::Slept));
    assert!(!m.can_step(&MonitorEvent::Reading(reading(0, 1))));
    assert!(!m.can_step(&MonitorEvent::Clock(at(0))));
    assert!(!m.can_step(&MonitorEvent::Published(at(0))));
    take(&mut m, MonitorEvent::Connected);
    assert!(!m.can_step(&MonitorEvent::Connected));
}

#[test]
fn points_out_of_range_are_refused() {
    let mut m = PowerMonitor::new(at(0));
    read(&mut m, reading(1, 1));
    pause(&mut m);
    take(&mut m, MonitorEvent::Connected);
    assert!(m.can_step(&MonitorEvent::Reading(reading(MIN_SECS, 1))));
    assert!(!m.can_step(&MonitorEvent::Reading(reading(MIN_SECS, 2))));
    take(&mut m, MonitorEvent::Reading(reading(2, 2)));
    take(&mut m, MonitorEvent::Clock(at(3)));
    assert!(!m.can_step(&MonitorEvent::Published(at(MAX_SECS))));
    assert!(m.can_step(&MonitorEvent::Published(at(MAX_SECS - 15))));
}
