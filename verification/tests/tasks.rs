use kasa_power::button::{ButtonAction, ButtonEvent, ButtonTask};
use kasa_power::led::{
    wait_for_duration_with_interrupt, ButtonSignal, LedAction, LedEvent, LedTask,
};
use kasa_power::mqtt::{mqtt_event_line, mqtt_url, MqttEvent};
use kasa_power::net::{wifi_loop, WifiAction, WifiLoop};
use kasa_power::time::Timestamp;

fn at_millis(millis: i64) -> Timestamp {
    Timestamp {
        secs: millis / 1000,
        nanos: (millis % 1000) as u32 * 1_000_000,
        utc_offset: 0,
    }
}

fn sample(millis: i64, restart: bool, lamp_high: bool) -> LedEvent {
    LedEvent::Sample { now: at_millis(millis), restart, lamp_high }
}

#[test]
fn wait_looks_up_every_tenth_of_a_second_by_default() {
    let w = wait_for_duration_with_interrupt(1000, None, at_millis(500));
    assert_eq!(w.poll_millis, 100);
    let w = wait_for_duration_with_interrupt(1000, Some(30), at_millis(500));
    assert_eq!(w.poll_millis, 30);
}

#[test]
fn wait_ends_with_its_time_or_an_interrupt() {
    let w = wait_for_duration_with_interrupt(1000, None, at_millis(500));
    assert!(w.keeps_waiting(&at_millis(500), false));
    assert!(w.keeps_waiting(&at_millis(1499), false));
    assert!(!w.keeps_waiting(&at_millis(1500), false));
    assert!(!w.keeps_waiting(&at_millis(600), true));
    // A clock that was set back makes the wait the longer.
    assert!(w.keeps_waiting(&at_millis(100), false));
    assert!(!wait_for_duration_with_interrupt(0, None, at_millis(500)).keeps_waiting(&at_millis(500), false));
}

#[test]
fn lamp_blinks_a_second_each_way() {
    let mut led = LedTask::new();
    assert!(matches!(led.action(), LedAction::PollButton));
    led.step(LedEvent::Message(None));
    for high in [true, false] {
        assert!(matches!(led.action(), LedAction::SetLamp { high: h } if h == high));
        led.step(LedEvent::Done);
        assert!(matches!(led.action(), LedAction::ReadClock));
        led.step(LedEvent::Clock(at_millis(10_000)));
        for now in [10_000, 10_500, 10_999] {
            assert!(matches!(led.action(), LedAction::Sample));
            led.step(sample(now, false, high));
            assert!(matches!(led.action(), LedAction::Sleep { millis: 100 }));
            led.step(LedEvent::Done);
        }
        led.step(sample(11_000, false, high));
        assert!(matches!(led.action(), LedAction::ReadRestart));
        led.step(LedEvent::Restart(false));
    }
    assert!(matches!(led.action(), LedAction::PollButton));
}

#[test]
fn restart_cuts_the_lit_half_short() {
    let mut led = LedTask::new();
    led.step(LedEvent::Message(None));
    led.step(LedEvent::Done);
    led.step(LedEvent::Clock(at_millis(0)));
    led.step(sample(100, true, true));
    assert!(matches!(led.action(), LedAction::ReadRestart));
    led.step(LedEvent::Restart(true));
    assert!(matches!(led.action(), LedAction::PollButton));
}

#[test]
fn lamp_flickers_for_five_seconds() {
    let mut led = LedTask::new();
    led.step(LedEvent::Message(Some(ButtonSignal::Pressed(17))));
    assert!(matches!(led.action(), LedAction::ReadClock));
    led.step(LedEvent::Clock(at_millis(1000)));
    let mut lamp = false;
    for now in [1000, 3000, 5999] {
        assert!(matches!(led.action(), LedAction::Sample));
        led.step(sample(now, false, lamp));
        match led.action() {
            LedAction::SetLamp { high } => {
                assert_eq!(high, !lamp);
                lamp = high;
            }
            other => panic!("{other:?}"),
        }
        led.step(LedEvent::Done);
        assert!(matches!(led.action(), LedAction::Sleep { millis: 100 }));
        led.step(LedEvent::Done);
    }
    led.step(sample(6000, false, lamp));
    assert!(matches!(led.action(), LedAction::PollButton));
}

#[test]
fn restart_ends_flickering() {
    let mut led = LedTask::new();
    led.step(LedEvent::Message(Some(ButtonSignal::Missed(1))));
    led.step(LedEvent::Clock(at_millis(1000)));
    led.step(sample(1000, true, false));
    assert!(matches!(led.action(), LedAction::PollButton));
}

#[test]
fn press_is_told_once_and_then_the_button_rests() {
    let mut button = ButtonTask::new();
    for press in 1..4i64 {
        assert_eq!(button.action(), ButtonAction::WaitForPress);
        button.step(ButtonEvent::Done);
        assert_eq!(button.action(), ButtonAction::ReadClock);
        button.step(ButtonEvent::Clock(Timestamp { secs: press, nanos: 1999, utc_offset: 3600 }));
        assert_eq!(button.action(), ButtonAction::Publish { micros: press * 1_000_000 + 1 });
        button.step(ButtonEvent::Done);
        assert_eq!(button.action(), ButtonAction::RaiseRestart);
        button.step(ButtonEvent::Done);
        assert_eq!(button.action(), ButtonAction::Sleep { millis: 1000 });
        button.step(ButtonEvent::Done);
    }
}

#[test]
fn radio_is_configured_and_started() {
    let mut wifi = WifiLoop::new();
    assert!(matches!(wifi.action(), WifiAction::Rest));
    let config = wifi.configure("home", "letmein");
    assert_eq!(config.ssid, "home");
    assert_eq!(config.password, "letmein");
    assert!(config.fast_scan);
    assert!(matches!(wifi.action(), WifiAction::SetConfiguration));
    wifi.step(Ok(()));
    assert!(matches!(wifi.action(), WifiAction::Start));
    wifi.step(Ok(()));
    assert!(matches!(wifi.action(), WifiAction::Finish(Ok(()))));
}

#[test]
fn first_connection_ends_the_first_session() {
    let mut wifi = WifiLoop::new();
    wifi.initial_connect();
    assert!(matches!(wifi.action(), WifiAction::WaitWhileUp));
    wifi.step(Ok(()));
    assert!(matches!(wifi.action(), WifiAction::Connect));
    wifi.step(Ok(()));
    assert!(matches!(wifi.action(), WifiAction::WaitUntilUp));
    wifi.step(Ok(()));
    assert!(matches!(wifi.action(), WifiAction::Finish(Ok(()))));
}

#[test]
fn staying_connected_goes_on_until_it_fails() {
    let mut wifi = WifiLoop::new();
    wifi.stay_connected();
    for _ in 0..5 {
        assert!(matches!(wifi.action(), WifiAction::WaitWhileUp));
        wifi.step(Ok(()));
        assert!(matches!(wifi.action(), WifiAction::Connect));
        wifi.step(Ok(()));
        assert!(matches!(wifi.action(), WifiAction::WaitUntilUp));
        wifi.step(Ok(()));
    }
    wifi.step(Ok(()));
    wifi.step(Err(-3));
    match wifi.action() {
        WifiAction::Finish(ended) => {
            assert_eq!(ended, Err(-3));
            let pause = wifi_loop(ended);
            assert_eq!(pause.failure, Some(-3));
            assert_eq!(pause.millis, 100);
        }
        other => panic!("{other:?}"),
    }
    assert_eq!(wifi_loop(Ok(())).failure, None);
}

#[test]
fn configuration_that_fails_is_not_started() {
    let mut wifi = WifiLoop::new();
    wifi.configure("home", "");
    wifi.step(Err(258));
    assert!(matches!(wifi.action(), WifiAction::Finish(Err(258))));
}

#[test]
fn broker_address() {
    assert_eq!(mqtt_url("mqtt", "10.0.0.2", "1883"), "mqtt://10.0.0.2:1883");
    assert_eq!(mqtt_url("", "", ""), "://:");
}

#[test]
fn broker_events_in_a_log() {
    let lines: Vec<(&str, bool)> = [
        MqttEvent::Published,
        MqttEvent::Disconnected,
        MqttEvent::Connected,
        MqttEvent::Other,
    ]
    .into_iter()
    .map(mqtt_event_line)
    .map(|line| (line.text, line.with_details))
    .collect();
    assert_eq!(
        lines,
        [
            ("Received mqtt publish event: ", true),
            ("Received mqtt disconnected event", false),
            ("Received mqtt connected event ", true),
            ("Received mqtt event: ", true),
        ]
    );
}
