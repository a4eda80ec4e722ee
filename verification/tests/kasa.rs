use kasa_power::kasa::{
    KasaPowerDetails, KasaPowerResponse, KasaRealtimeResponse, KasaResponse, KasaSysinfoResponse,
    KasaSystemResponse,
};
use kasa_power::time::Timestamp;

fn response(power: KasaRealtimeResponse) -> KasaResponse {
    KasaResponse {
        system: KasaSystemResponse {
            get_sysinfo: KasaSysinfoResponse {
                alias: "desk".to_string(),
                device_id: "8006".to_string(),
                model: None,
                sw_ver: None,
                hw_ver: None,
            },
        },
        power: KasaPowerResponse { get_realtime: Some(power) },
    }
}

const NOTHING: KasaRealtimeResponse = KasaRealtimeResponse {
    current: None,
    voltage: None,
    power: None,
    total: None,
    voltage_mv: None,
    current_ma: None,
    power_mw: None,
    total_wh: None,
};

fn noon() -> Timestamp {
    Timestamp { secs: 1_700_000_000, nanos: 5, utc_offset: -18_000 }
}

fn details() -> KasaPowerDetails {
    KasaPowerDetails {
        alias: "desk".to_string(),
        device_id: "8006".to_string(),
        voltage_mv: Some(121_500),
        current_ma: Some(320),
        power_mw: None,
        total_wh: Some(18),
        timestamp: noon(),
    }
}

#[test]
fn named_units_come_first() {
    let r = KasaPowerDetails::from_response_at(
        response(KasaRealtimeResponse {
            current: Some(1),
            voltage: Some(2),
            power: Some(3),
            total: Some(4),
            voltage_mv: Some(20),
            current_ma: Some(10),
            power_mw: Some(30),
            total_wh: Some(40),
        }),
        noon(),
    );
    assert_eq!(r.alias, "desk");
    assert_eq!(r.device_id, "8006");
    assert_eq!(
        (r.voltage_mv, r.current_ma, r.power_mw, r.total_wh),
        (Some(20), Some(10), Some(30), Some(40))
    );
    assert_eq!(r.timestamp.secs, 1_700_000_000);
    assert_eq!(r.timestamp.nanos, 5);
    assert_eq!(r.timestamp.utc_offset, -18_000);
}

#[test]
fn base_units_fill_in_where_named_ones_are_missing() {
    let r = KasaPowerDetails::from_response_at(
        response(KasaRealtimeResponse {
            current: Some(1),
            voltage: Some(2),
            total: Some(4),
            current_ma: Some(10),
            ..NOTHING
        }),
        noon(),
    );
    assert_eq!(
        (r.voltage_mv, r.current_ma, r.power_mw, r.total_wh),
        (Some(2), Some(10), None, Some(4))
    );
}

#[test]
fn readings_are_stamped_with_the_clock() {
    let before = Timestamp::now(0);
    let r = KasaPowerDetails::from(response(NOTHING), 7200);
    assert_eq!(r.timestamp.utc_offset, 7200);
    assert!(r.timestamp.secs >= before.secs);
    assert!(r.timestamp.secs <= before.secs + 60);
    assert_eq!(r.voltage_mv, None);
}

#[test]
fn comparison_leaves_the_time_out() {
    let a = details();
    let mut b = a.clone();
    b.timestamp = Timestamp { secs: 1, nanos: 0, utc_offset: 0 };
    assert!(a.compare_no_ts(&b));
    assert!(b.compare_no_ts(&a));
    assert!(a != b);
    assert!(a == a.clone());
}

#[test]
fn comparison_sees_every_other_field() {
    let a = details();
    let changes: Vec<fn(&mut KasaPowerDetails)> = vec![
        |d| d.alias.push('x'),
        |d| d.device_id.push('x'),
        |d| d.voltage_mv = None,
        |d| d.current_ma = Some(321),
        |d| d.power_mw = Some(0),
        |d| d.total_wh = Some(19),
    ];
    for change in changes {
        let mut b = a.clone();
        change(&mut b);
        assert!(!a.compare_no_ts(&b));
        assert!(!b.compare_no_ts(&a));
        assert!(b.compare_no_ts(&b.clone()));
    }
}

#[test]
fn reading_in_a_log() {
    assert_eq!(
        details().format(),
        "alias: desk deviceId: 8006 voltage: 121500 mv current: 320 ma power: 0 mw total: 18 wh"
    );
}

#[test]
fn identity_in_a_log() {
    let full = KasaSysinfoResponse {
        alias: "desk".to_string(),
        device_id: "8006".to_string(),
        model: Some("HS110".to_string()),
        sw_ver: Some("1.2.6".to_string()),
        hw_ver: Some("4.1".to_string()),
    };
    assert_eq!(
        full.format(),
        "alias: deskdeviceId: 8006model: HS110sw_ver: 1.2.6hw_ver: 4.1"
    );
    let bare = KasaSysinfoResponse { model: None, sw_ver: None, hw_ver: None, ..full };
    assert_eq!(
        bare.format(),
        "alias: deskdeviceId: 8006model: unknownsw_ver: unknownhw_ver: unknown"
    );
}
