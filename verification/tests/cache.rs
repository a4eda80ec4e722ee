use kasa_power::cache::KasaPowerCache;
use kasa_power::kasa::KasaPowerDetails;
use kasa_power::stats::Mean;
use kasa_power::time::{TimeSpan, Timestamp, MIN_SECS};

fn event(secs: i64, nanos: u32, voltage_mv: Option<u64>) -> KasaPowerDetails {
    KasaPowerDetails {
        alias: format!("plug{secs}"),
        device_id: format!("id{secs}"),
        voltage_mv,
        current_ma: voltage_mv.map(|v| v / 10),
        power_mw: voltage_mv.map(|v| v * 2),
        total_wh: voltage_mv.map(|v| v + 1),
        timestamp: Timestamp { secs, nanos, utc_offset: 0 },
    }
}

fn filled(events: &[(i64, u32)]) -> KasaPowerCache {
    let mut cache = KasaPowerCache::new(TimeSpan::seconds(20));
    for (secs, nanos) in events {
        cache.cache.push_back(event(*secs, *nanos, Some(1)));
    }
    cache
}

fn secs(cache: &KasaPowerCache) -> Vec<i64> {
    cache.cache.iter().map(|e| e.timestamp.secs).collect()
}

#[test]
fn new_cache_is_empty() {
    let cache = KasaPowerCache::new(TimeSpan::seconds(20));
    assert_eq!(cache.cache.len(), 0);
    assert_eq!(cache.duration, TimeSpan { secs: 20, nanos: 0 });
}

#[test]
fn readings_as_old_as_the_limit_stay() {
    let mut cache = filled(&[(99, 999_999_999), (100, 0), (110, 0)]);
    cache.evict(Timestamp { secs: 120, nanos: 0, utc_offset: 0 });
    assert_eq!(secs(&cache), [100, 110]);
    cache.evict(Timestamp { secs: 120, nanos: 1, utc_offset: 0 });
    assert_eq!(secs(&cache), [110]);
    cache.evict(Timestamp { secs: 120, nanos: 1, utc_offset: 0 });
    assert_eq!(secs(&cache), [110]);
    cache.evict(Timestamp { secs: 500, nanos: 0, utc_offset: 0 });
    assert!(cache.cache.is_empty());
    cache.evict(Timestamp { secs: 500, nanos: 0, utc_offset: 0 });
    assert!(cache.cache.is_empty());
}

#[test]
fn eviction_stops_at_the_first_young_reading() {
    let mut cache = filled(&[(10, 0), (200, 0), (20, 0), (30, 0)]);
    cache.evict(Timestamp { secs: 210, nanos: 0, utc_offset: 0 });
    assert_eq!(secs(&cache), [200, 20, 30]);
}

#[test]
fn insertion_evicts_and_appends() {
    let mut cache = KasaPowerCache::new(TimeSpan::seconds(20));
    for s in [100, 105, 110, 121, 126, 200] {
        cache.insert(event(s, 0, Some(1)));
        assert_eq!(secs(&cache).last(), Some(&s));
        assert!(secs(&cache).iter().all(|t| s - 20 <= *t && *t <= s));
    }
    assert_eq!(secs(&cache), [200]);
    cache.insert(event(210, 0, Some(1)));
    assert_eq!(secs(&cache), [200, 210]);
}

#[test]
fn offset_of_a_reading_does_not_count() {
    let mut cache = filled(&[(100, 0)]);
    cache.evict(Timestamp { secs: 120, nanos: 0, utc_offset: 50_000 });
    assert_eq!(secs(&cache), [100]);
}

#[test]
fn thresholds_out_of_range_are_told() {
    let cache = filled(&[]);
    assert!(cache.can_evict(&Timestamp { secs: MIN_SECS + 20, nanos: 0, utc_offset: 0 }));
    assert!(!cache.can_evict(&Timestamp { secs: MIN_SECS + 19, nanos: 999_999_999, utc_offset: 0 }));
    let odd = KasaPowerCache::new(TimeSpan { secs: 0, nanos: 1_000_000_000 });
    assert!(!odd.can_evict(&Timestamp { secs: 0, nanos: 0, utc_offset: 0 }));
}

#[test]
fn statistics_skip_what_was_not_measured() {
    let mut cache = KasaPowerCache::new(TimeSpan::seconds(20));
    for (i, v) in [Some(300), None, Some(100), Some(200)].into_iter().enumerate() {
        cache.insert(event(i as i64, 0, v));
    }
    assert_eq!(cache.median_and_mean_voltage(), Some((200, Mean { sum: 600, count: 3 })));
    assert_eq!(cache.median_and_mean_current(), Some((20, Mean { sum: 60, count: 3 })));
    assert_eq!(cache.median_and_mean_power(), Some((400, Mean { sum: 1200, count: 3 })));
    let empty = KasaPowerCache::new(TimeSpan::seconds(20));
    assert_eq!(empty.median_and_mean_voltage(), None);
    assert_eq!(empty.median_and_mean_current(), None);
    assert_eq!(empty.median_and_mean_power(), None);
}

#[test]
fn summary_of_the_cache() {
    let mut cache = KasaPowerCache::new(TimeSpan::seconds(20));
    let nothing = cache.summary();
    assert_eq!(nothing.alias, None);
    assert_eq!(nothing.voltage, (0, Mean { sum: 0, count: 1 }));
    assert_eq!(nothing.total_wh, 0);
    cache.insert(event(1, 0, Some(100)));
    cache.insert(event(2, 0, Some(200)));
    let s = cache.summary();
    assert_eq!(s.alias.as_deref(), Some("plug1"));
    assert_eq!(s.device_id.as_deref(), Some("id1"));
    assert_eq!(s.voltage, (150, Mean { sum: 300, count: 2 }));
    assert_eq!(s.current, (15, Mean { sum: 30, count: 2 }));
    assert_eq!(s.power, (300, Mean { sum: 600, count: 2 }));
    assert_eq!(s.total_wh, 201);
}

#[test]
fn overflowing_sums_are_told() {
    let mut cache = KasaPowerCache::new(TimeSpan::seconds(20));
    let mut huge = event(1, 0, Some(1));
    huge.power_mw = Some(u64::MAX);
    cache.insert(huge);
    assert!(cache.sums_fit());
    cache.insert(event(2, 0, Some(1)));
    assert!(!cache.sums_fit());
}

#[test]
fn report_of_the_cache() {
    let mut cache = KasaPowerCache::new(TimeSpan::seconds(20));
    cache.insert(event(10, 700_000_000, Some(100)));
    cache.insert(event(11, 0, None));
    cache.insert(event(12, 0, Some(300)));
    let r = cache.report();
    assert_eq!(r.alias.as_deref(), Some("plug10"));
    assert_eq!(r.device_id.as_deref(), Some("id10"));
    assert_eq!(r.power_total, 301);
    assert_eq!(r.voltages_mv, [100, 0, 300]);
    assert_eq!(r.currents_ma, [10, 0, 30]);
    assert_eq!(r.powers_mw, [200, 0, 600]);
    assert_eq!(r.timestamps, [10, 11, 12]);
    assert_eq!(r.num_readings, 3);
}

#[test]
fn report_of_nothing() {
    let r = KasaPowerCache::new(TimeSpan::seconds(20)).report();
    assert_eq!(r.alias, None);
    assert_eq!(r.device_id, None);
    assert_eq!(r.power_total, 0);
    assert!(r.voltages_mv.is_empty() && r.timestamps.is_empty());
    assert_eq!(r.num_readings, 0);
}

#[test]
fn report_without_an_energy_count() {
    let mut cache = KasaPowerCache::new(TimeSpan::seconds(20));
    cache.insert(event(10, 0, Some(100)));
    cache.insert(event(11, 0, None));
    assert_eq!(cache.report().power_total, 0);
}
