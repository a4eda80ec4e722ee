//! The readings of the last seconds, and what is told about them.
use std::collections::VecDeque;
use vstd::arithmetic::div_mod::lemma_fundamental_div_mod;
use vstd::prelude::*;

use crate::kasa::{or_zero, KasaPowerDetails};
use crate::stats::{
    law_median_is_the_middle, law_statistics_ignore_order, law_total_is_the_sum, median,
    median_and_mean_value, sum_fits, total, Mean,
};
use crate::time::{TimeSpan, Timestamp};

verus! {

/// A variable number of readings, oldest first, and the age at which a reading is evicted.
pub struct KasaPowerCache {
    pub cache: VecDeque<KasaPowerDetails>,
    pub duration: TimeSpan,
}

/// What a reading measures and statistics are made of.
#[derive(Clone, Copy, Debug, PartialEq, Eq, Structural)]
pub enum Quantity {
    Voltage,
    Current,
    Power,
}

/// The message that is published about the cache.
#[derive(Debug, PartialEq, Eq)]
pub struct KasaPowerReport {
    pub alias: Option<String>,
    pub device_id: Option<String>,
    pub power_total: u64,
    pub voltages_mv: Vec<u64>,
    pub currents_ma: Vec<u64>,
    pub powers_mw: Vec<u64>,
    pub timestamps: Vec<i64>,
    pub num_readings: usize,
}

/// What a log says about the cache.
#[derive(Debug, PartialEq, Eq)]
pub struct KasaPowerSummary {
    pub alias: Option<String>,
    pub device_id: Option<String>,
    /// Median and mean in millivolts, both zero if no reading tells the voltage.
    pub voltage: (u64, Mean),
    /// Median and mean in milliamperes, both zero if no reading tells the current.
    pub current: (u64, Mean),
    /// Median and mean in milliwatts, both zero if no reading tells the power.
    pub power: (u64, Mean),
    pub total_wh: u64,
}

impl KasaPowerDetails {
    /// What this reading measured of `q`.
    pub open spec fn quantity(self, q: Quantity) -> Option<u64> {
        match q {
            Quantity::Voltage => self.voltage_mv,
            Quantity::Current => self.current_ma,
            Quantity::Power => self.power_mw,
        }
    }
}

/// What is left of `events` when those before `threshold` are taken off the front.
pub open spec fn evicted(events: Seq<KasaPowerDetails>, threshold: Timestamp) -> Seq<
    KasaPowerDetails,
>
    decreases events.len(),
{
    if events.len() > 0 && events[0].timestamp.before(threshold) {
        evicted(events.drop_first(), threshold)
    } else {
        events
    }
}

/// No reading was taken before the one in front of it.
pub open spec fn in_order(events: Seq<KasaPowerDetails>) -> bool {
    forall|i: int, j: int|
        0 <= i < j < events.len() ==> !(#[trigger] events[j]).timestamp.before(
            (#[trigger] events[i]).timestamp,
        )
}

/// What each reading measured of `q`.
pub open spec fn column(events: Seq<KasaPowerDetails>, q: Quantity) -> Seq<Option<u64>> {
    events.map_values(|e: KasaPowerDetails| e.quantity(q))
}

/// The values that are there, in their order.
pub open spec fn present(values: Seq<Option<u64>>) -> Seq<u64>
    decreases values.len(),
{
    if values.len() == 0 {
        Seq::empty()
    } else {
        match values.last() {
            Some(v) => present(values.drop_last()).push(v),
            None => present(values.drop_last()),
        }
    }
}

/// The values, with zero for each that is not there.
pub open spec fn filled(values: Seq<Option<u64>>) -> Seq<u64> {
    values.map_values(|v: Option<u64>| or_zero(v))
}

/// The second in which each reading was taken.
pub open spec fn seconds(events: Seq<KasaPowerDetails>) -> Seq<i64> {
    events.map_values(|e: KasaPowerDetails| e.timestamp.secs)
}

/// The energy count of the latest reading, or zero where there is none.
pub open spec fn latest_total(events: Seq<KasaPowerDetails>) -> u64 {
    if events.len() == 0 {
        0
    } else {
        or_zero(events.last().total_wh)
    }
}

/// `alias` and `device_id` are those of the oldest reading, if there is one.
pub open spec fn names_oldest(
    alias: Option<String>,
    device_id: Option<String>,
    events: Seq<KasaPowerDetails>,
) -> bool {
    if events.len() == 0 {
        alias is None && device_id is None
    } else {
        alias == Some(events[0].alias) && device_id == Some(events[0].device_id)
    }
}

/// `r` holds the median and the mean of the values that are there, or nothing where none is.
pub open spec fn is_statistic(r: Option<(u64, Mean)>, values: Seq<Option<u64>>) -> bool {
    let there = present(values);
    match r {
        Some((m, mean)) => {
            &&& there.len() > 0
            &&& m == median(there)
            &&& mean.sum == total(there)
            &&& mean.count == there.len()
        },
        None => there.len() == 0,
    }
}

/// `r` holds the median and the mean of the values that are there; where none is, both are
/// zero.
pub open spec fn is_statistic_or_zero(r: (u64, Mean), values: Seq<Option<u64>>) -> bool {
    if present(values).len() > 0 {
        is_statistic(Some(r), values)
    } else {
        r == (0u64, Mean { sum: 0, count: 1 })
    }
}

fn statistic_or_zero(r: Option<(u64, Mean)>) -> (s: (u64, Mean))
    ensures
        s == (match r {
            Some(x) => x,
            None => (0u64, Mean { sum: 0, count: 1 }),
        }),
{
    match r {
        Some(x) => x,
        None => (0, Mean { sum: 0, count: 1 }),
    }
}

impl KasaPowerReport {
    /// This is the message about `events`.
    pub open spec fn reports(self, events: Seq<KasaPowerDetails>) -> bool {
        &&& names_oldest(self.alias, self.device_id, events)
        &&& self.power_total == latest_total(events)
        &&& self.voltages_mv@ == filled(column(events, Quantity::Voltage))
        &&& self.currents_ma@ == filled(column(events, Quantity::Current))
        &&& self.powers_mw@ == filled(column(events, Quantity::Power))
        &&& self.timestamps@ == seconds(events)
        &&& self.num_readings == events.len()
    }
}

impl KasaPowerSummary {
    /// This is what a log says about `events`.
    pub open spec fn sums_up(self, events: Seq<KasaPowerDetails>) -> bool {
        &&& names_oldest(self.alias, self.device_id, events)
        &&& is_statistic_or_zero(self.voltage, column(events, Quantity::Voltage))
        &&& is_statistic_or_zero(self.current, column(events, Quantity::Current))
        &&& is_statistic_or_zero(self.power, column(events, Quantity::Power))
        &&& self.total_wh == latest_total(events)
    }
}

impl KasaPowerCache {
    /// The point before which readings are evicted, seen from `since`; nothing where it lies
    /// out of range.
    pub open spec fn threshold(self, since: Timestamp) -> Option<Timestamp> {
        if self.duration.valid() {
            since.moved(-self.duration.total())
        } else {
            None
        }
    }

    /// The measured values of `q` can be summed up in a `u64`.
    pub open spec fn sum_in_range(self, q: Quantity) -> bool {
        total(present(column(self.cache@, q))) <= u64::MAX
    }

    /// An empty cache that evicts readings older than `duration`.
    pub fn new(duration: TimeSpan) -> (r: KasaPowerCache)
        ensures
            r.cache@ == Seq::<KasaPowerDetails>::empty(),
            r.duration == duration,
    {
        KasaPowerCache { cache: VecDeque::new(), duration }
    }

    /// Whether there is a point before which readings are evicted, seen from `since`.
    pub fn can_evict(&self, since: &Timestamp) -> (r: bool)
        ensures
            r == (self.threshold(*since) is Some),
    {
        since.checked_sub(&self.duration).is_some()
    }

    /// Evicts what is too old, seen from the new reading, and adds the new reading.
    pub fn insert(&mut self, event: KasaPowerDetails)
        requires
            old(self).threshold(event.timestamp) is Some,
        ensures
            final(self).cache@ == evicted(
                old(self).cache@,
                old(self).threshold(event.timestamp).unwrap(),
            ).push(event),
            final(self).duration == old(self).duration,
    {
        self.evict(event.timestamp);
        self.cache.push_back(event);
    }

    /// Takes readings off the front until one is young enough, seen from `since`.
    pub fn evict(&mut self, since: Timestamp)
        requires
            old(self).threshold(since) is Some,
        ensures
            final(self).cache@ == evicted(
                old(self).cache@,
                old(self).threshold(since).unwrap(),
            ),
            final(self).duration == old(self).duration,
    {
        let threshold = since.checked_sub(&self.duration).unwrap();
        let ghost before = self.cache@;
        while self.cache.len() > 0
            invariant_except_break
                evicted(self.cache@, threshold) == evicted(before, threshold),
            invariant
                self.duration == old(self).duration,
            ensures
                self.cache@ == evicted(before, threshold),
            decreases self.cache@.len(),
        {
            if !self.cache[0].timestamp.is_before(&threshold) {
                break ;
            }
            let ghost events = self.cache@;
            self.cache.pop_front();
            assert(self.cache@ =~= events.drop_first());
        }
    }

    /// The measured values of `q`.
    fn measured(&self, q: Quantity) -> (r: Vec<u64>)
        ensures
            r@ == present(column(self.cache@, q)),
    {
        let mut values: Vec<u64> = Vec::new();
        let ghost col = column(self.cache@, q);
        let mut i: usize = 0;
        assert(col.take(0) =~= Seq::<Option<u64>>::empty());
        while i < self.cache.len()
            invariant
                i <= self.cache@.len(),
                col == column(self.cache@, q),
                values@ == present(col.take(i as int)),
            decreases self.cache@.len() - i,
        {
            let event = &self.cache[i];
            let value: Option<u64> = match q {
                Quantity::Voltage => event.voltage_mv,
                Quantity::Current => event.current_ma,
                Quantity::Power => event.power_mw,
            };
            assert(col[i as int] == value);
            assert(col.take(i + 1).drop_last() =~= col.take(i as int));
            if let Some(v) = value {
                values.push(v);
            }
            i = i + 1;
        }
        assert(col.take(i as int) =~= col);
        values
    }

    /// What each reading measured of `q`, zero where it did not.
    fn measured_or_zero(&self, q: Quantity) -> (r: Vec<u64>)
        ensures
            r@ == filled(column(self.cache@, q)),
    {
        let mut values: Vec<u64> = Vec::new();
        let mut i: usize = 0;
        while i < self.cache.len()
            invariant
                i <= self.cache@.len(),
                values@ == filled(column(self.cache@, q)).take(i as int),
            decreases self.cache@.len() - i,
        {
            let event = &self.cache[i];
            let value: Option<u64> = match q {
                Quantity::Voltage => event.voltage_mv,
                Quantity::Current => event.current_ma,
                Quantity::Power => event.power_mw,
            };
            values.push(value.unwrap_or(0));
            i = i + 1;
            assert(values@ =~= filled(column(self.cache@, q)).take(i as int));
        }
        assert(values@ =~= filled(column(self.cache@, q)));
        values
    }

    /// The second in which each reading was taken.
    fn taken_at(&self) -> (r: Vec<i64>)
        ensures
            r@ == seconds(self.cache@),
    {
        let mut values: Vec<i64> = Vec::new();
        let mut i: usize = 0;
        while i < self.cache.len()
            invariant
                i <= self.cache@.len(),
                values@ == seconds(self.cache@).take(i as int),
            decreases self.cache@.len() - i,
        {
            values.push(self.cache[i].timestamp.secs);
            i = i + 1;
            assert(values@ =~= seconds(self.cache@).take(i as int));
        }
        assert(values@ =~= seconds(self.cache@));
        values
    }

    /// The name and the identity that the oldest reading tells.
    fn oldest_names(&self) -> (r: (Option<String>, Option<String>))
        ensures
            names_oldest(r.0, r.1, self.cache@),
    {
        if self.cache.len() == 0 {
            (None, None)
        } else {
            let oldest = &self.cache[0];
            (Some(oldest.alias.clone()), Some(oldest.device_id.clone()))
        }
    }

    /// The energy count that the latest reading tells.
    fn newest_total(&self) -> (r: u64)
        ensures
            r == latest_total(self.cache@),
    {
        if self.cache.len() == 0 {
            0
        } else {
            self.cache[self.cache.len() - 1].total_wh.unwrap_or(0)
        }
    }

    /// Whether the measured values of each quantity can be summed up in a `u64`.
    pub fn sums_fit(&self) -> (r: bool)
        ensures
            r == (self.sum_in_range(Quantity::Voltage) && self.sum_in_range(Quantity::Current)
                && self.sum_in_range(Quantity::Power)),
    {
        sum_fits(&self.measured(Quantity::Voltage)) && sum_fits(&self.measured(Quantity::Current))
            && sum_fits(&self.measured(Quantity::Power))
    }

    /// The median and the mean of the measured voltages, in millivolts.
    pub fn median_and_mean_voltage(&self) -> (r: Option<(u64, Mean)>)
        requires
            self.sum_in_range(Quantity::Voltage),
        ensures
            is_statistic(r, column(self.cache@, Quantity::Voltage)),
    {
        median_and_mean_value(self.measured(Quantity::Voltage))
    }

    /// The median and the mean of the measured currents, in milliamperes.
    pub fn median_and_mean_current(&self) -> (r: Option<(u64, Mean)>)
        requires
            self.sum_in_range(Quantity::Current),
        ensures
            is_statistic(r, column(self.cache@, Quantity::Current)),
    {
        median_and_mean_value(self.measured(Quantity::Current))
    }

    /// The median and the mean of the measured powers, in milliwatts.
    pub fn median_and_mean_power(&self) -> (r: Option<(u64, Mean)>)
        requires
            self.sum_in_range(Quantity::Power),
        ensures
            is_statistic(r, column(self.cache@, Quantity::Power)),
    {
        median_and_mean_value(self.measured(Quantity::Power))
    }

    /// The message to publish about the cache.
    pub fn report(&self) -> (r: KasaPowerReport)
        ensures
            r.reports(self.cache@),
    {
        let (alias, device_id) = self.oldest_names();
        KasaPowerReport {
            alias,
            device_id,
            power_total: self.newest_total(),
            voltages_mv: self.measured_or_zero(Quantity::Voltage),
            currents_ma: self.measured_or_zero(Quantity::Current),
            powers_mw: self.measured_or_zero(Quantity::Power),
            timestamps: self.taken_at(),
            num_readings: self.cache.len(),
        }
    }

    /// What to log about the cache.
    pub fn summary(&self) -> (r: KasaPowerSummary)
        requires
            self.sum_in_range(Quantity::Voltage),
            self.sum_in_range(Quantity::Current),
            self.sum_in_range(Quantity::Power),
        ensures
            r.sums_up(self.cache@),
    {
        let (alias, device_id) = self.oldest_names();
        KasaPowerSummary {
            alias,
            device_id,
            voltage: statistic_or_zero(self.median_and_mean_voltage()),
            current: statistic_or_zero(self.median_and_mean_current()),
            power: statistic_or_zero(self.median_and_mean_power()),
            total_wh: self.newest_total(),
        }
    }
}

/// Eviction takes a run of readings off the front, each of them too old, and stops at the
/// first that is young enough; what it leaves keeps its order.
pub proof fn law_evicted_is_suffix(events: Seq<KasaPowerDetails>, threshold: Timestamp)
    ensures
        evicted(events, threshold).len() <= events.len(),
        evicted(events, threshold) == events.skip(events.len() - evicted(events, threshold).len()),
        forall|i: int|
            0 <= i < events.len() - evicted(events, threshold).len() ==> (
            #[trigger] events[i]).timestamp.before(threshold),
        evicted(events, threshold).len() > 0 ==> !evicted(events, threshold)[0].timestamp.before(
            threshold,
        ),
    decreases events.len(),
{
    if events.len() > 0 && events[0].timestamp.before(threshold) {
        let rest = events.drop_first();
        law_evicted_is_suffix(rest, threshold);
        let left = evicted(rest, threshold);
        assert(events.skip(events.len() - left.len()) =~= rest.skip(rest.len() - left.len()));
        assert forall|i: int| 0 <= i < events.len() - left.len() implies (
        #[trigger] events[i]).timestamp.before(threshold) by {
            if i > 0 {
                assert(events[i] == rest[i - 1]);
            }
        }
    } else {
        assert(events.skip(0) =~= events);
    }
}

/// Every reading that is young enough survives eviction.
pub proof fn law_evict_keeps_fresh(
    events: Seq<KasaPowerDetails>,
    threshold: Timestamp,
    i: int,
)
    requires
        0 <= i < events.len(),
        !events[i].timestamp.before(threshold),
    ensures
        evicted(events, threshold).contains(events[i]),
{
    law_evicted_is_suffix(events, threshold);
    let left = evicted(events, threshold);
    let k = events.len() - left.len();
    assert(left[i - k] == events[i]);
}

/// Evicting again, at the same point or a later one, leaves what evicting at the later point
/// alone would have left.
pub proof fn law_evict_twice(
    events: Seq<KasaPowerDetails>,
    first: Timestamp,
    second: Timestamp,
)
    requires
        !second.before(first),
    ensures
        evicted(evicted(events, first), second) == evicted(events, second),
    decreases events.len(),
{
    if events.len() > 0 && events[0].timestamp.before(first) {
        law_evict_twice(events.drop_first(), first, second);
    }
}

/// Where readings come in the order in which they were taken, none that is left after an
/// insertion is older, seen from the new reading, than the cache allows: each lies between
/// the threshold and the new reading. And they are still in order.
pub proof fn law_insert_leaves_no_stale_reading(
    cache: KasaPowerCache,
    event: KasaPowerDetails,
)
    requires
        in_order(cache.cache@.push(event)),
        cache.threshold(event.timestamp) is Some,
        cache.duration.total() >= 0,
    ensures
        ({
            let threshold = cache.threshold(event.timestamp).unwrap();
            let after = evicted(cache.cache@, threshold).push(event);
            &&& in_order(after)
            &&& forall|i: int|
                0 <= i < after.len() ==> {
                    &&& !(#[trigger] after[i]).timestamp.before(threshold)
                    &&& !event.timestamp.before(after[i].timestamp)
                }
        }),
{
    let events = cache.cache@;
    let threshold = cache.threshold(event.timestamp).unwrap();
    law_evicted_is_suffix(events, threshold);
    let left = evicted(events, threshold);
    let after = left.push(event);
    let all = events.push(event);
    let k = events.len() - left.len();
    assert forall|i: int| 0 <= i < after.len() implies #[trigger] after[i] == all[i + k] by {}
    assert(all[all.len() - 1] == event);
    assert forall|i: int, j: int| 0 <= i < j < after.len() implies !(
    #[trigger] after[j]).timestamp.before((#[trigger] after[i]).timestamp) by {
        assert(!all[j + k].timestamp.before(all[i + k].timestamp));
    }
    assert(!event.timestamp.before(threshold));
    assert forall|i: int| 0 <= i < after.len() implies !(
    #[trigger] after[i]).timestamp.before(threshold) && !event.timestamp.before(
        after[i].timestamp,
    ) by {
        if i < left.len() {
            assert(!left[0].timestamp.before(threshold));
            if i > 0 {
                assert(!after[i].timestamp.before(after[0].timestamp));
            }
            assert(!after[after.len() - 1].timestamp.before(after[i].timestamp));
        }
    }
}

/// Every list of a report has one entry for each reading.
pub proof fn law_report_lists_agree(report: KasaPowerReport, events: Seq<KasaPowerDetails>)
    requires
        report.reports(events),
    ensures
        report.voltages_mv@.len() == report.num_readings,
        report.currents_ma@.len() == report.num_readings,
        report.powers_mw@.len() == report.num_readings,
        report.timestamps@.len() == report.num_readings,
{
}

/// The threshold lies the cache's duration before the point that it is seen from, nanosecond
/// by nanosecond, and where either of them is shown has no part in that. From inside a leap
/// second this is said of looking back only.
pub proof fn law_threshold_is_one_duration_back(
    cache: KasaPowerCache,
    since: Timestamp,
    utc_offset: i32,
)
    requires
        cache.threshold(since) is Some,
        since.nanos < 1_000_000_000 || cache.duration.secs >= 0,
    ensures
        ({
            let t = cache.threshold(since).unwrap();
            &&& t.secs * 1_000_000_000 + t.nanos == since.secs * 1_000_000_000 + since.nanos - (
            cache.duration.secs * 1_000_000_000 + cache.duration.nanos)
            &&& t.utc_offset == since.utc_offset
            &&& since.nanos < 1_000_000_000 ==> t.nanos < 1_000_000_000
            &&& t.nanos >= 1_000_000_000 ==> t.secs == since.secs
            &&& cache.threshold(Timestamp { utc_offset, ..since }) == Some(
                Timestamp { utc_offset, ..t },
            )
        }),
{
    let g = 1_000_000_000int;
    let x = since.nanos - cache.duration.total();
    lemma_fundamental_div_mod(x, g);
}

/// There is a threshold to evict by exactly where the point, the duration and the point one
/// duration back are all ones that the calendar has. From inside a leap second this is said of
/// looking back only.
pub proof fn law_threshold_exists(cache: KasaPowerCache, since: Timestamp)
    requires
        cache.duration.nanos < 1_000_000_000,
        -9_223_372_036_854_775 <= cache.duration.secs < 9_223_372_036_854_775,
        since.nanos < 1_000_000_000 || (since.nanos < 2_000_000_000 && since.secs % 60 == 59
            && cache.duration.secs >= 0),
    ensures
        cache.threshold(since) is Some <==> {
            let back = since.secs * 1_000_000_000 + since.nanos - (cache.duration.secs
                * 1_000_000_000 + cache.duration.nanos);
            &&& -8_334_601_228_800 <= since.secs <= 8_210_266_876_799
            &&& -8_334_601_228_800 * 1_000_000_000 <= back
            &&& since.nanos < 1_000_000_000 ==> back < 8_210_266_876_800 * 1_000_000_000
        },
{
    let g = 1_000_000_000int;
    let x = since.nanos - cache.duration.total();
    lemma_fundamental_div_mod(x, g);
}

/// Whether there is a point one duration back is what `can_evict` tells, and all that `evict`
/// and `insert` ask for.
pub proof fn law_eviction_is_possible(
    cache: KasaPowerCache,
    since: Timestamp,
    r: bool,
    held: &mut KasaPowerCache,
    event: KasaPowerDetails,
)
    requires
        call_ensures(KasaPowerCache::can_evict, (&cache, &since), r),
        since.nanos < 1_000_000_000,
        cache.duration.nanos < 1_000_000_000,
        0 <= cache.duration.secs < 9_223_372_036_854_775,
        *old(held) == cache,
        event.timestamp == since,
    ensures
        r <==> -8_334_601_228_800 <= since.secs <= 8_210_266_876_799 && -8_334_601_228_800
            * 1_000_000_000 <= since.secs * 1_000_000_000 + since.nanos - (cache.duration.secs
            * 1_000_000_000 + cache.duration.nanos),
        r ==> call_requires(KasaPowerCache::evict, (held, since)),
        r ==> call_requires(KasaPowerCache::insert, (held, event)),
{
    law_threshold_exists(cache, since);
}

/// The threshold is the point that taking the duration off gives, inside leap seconds or not.
pub proof fn law_threshold_is_the_point_one_duration_earlier(
    cache: KasaPowerCache,
    since: Timestamp,
    back: Option<Timestamp>,
)
    requires
        call_ensures(Timestamp::checked_sub, (&since, &cache.duration), back),
    ensures
        cache.threshold(since) == back,
{
}

/// Whatever the points are, inside leap seconds or not, eviction takes off the front the
/// readings that come before the point one duration back, second by second and nanosecond by
/// nanosecond, and stops at the first that does not.
pub proof fn law_evict_up_to_a_point(cache: &mut KasaPowerCache, since: Timestamp, back: Timestamp)
    requires
        call_ensures(Timestamp::checked_sub, (&since, &old(cache).duration), Some(back)),
        call_ensures(KasaPowerCache::evict, (cache, since), ()),
    ensures
        final(cache).duration == old(cache).duration,
        ({
            let events = old(cache).cache@;
            let left = final(cache).cache@;
            let gone = events.len() - left.len();
            let stale = |e: KasaPowerDetails|
                e.timestamp.secs < back.secs || (e.timestamp.secs == back.secs
                    && e.timestamp.nanos < back.nanos);
            &&& 0 <= gone
            &&& left == events.subrange(gone, events.len() as int)
            &&& forall|i: int| 0 <= i < gone ==> stale(#[trigger] events[i])
            &&& left.len() > 0 ==> !stale(left[0])
        }),
        call_requires(KasaPowerCache::evict, (cache, since)),
{
    let events = old(cache).cache@;
    law_evicted_is_suffix(events, back);
    let gone = events.len() - evicted(events, back).len();
    assert(events.skip(gone) =~= events.subrange(gone, events.len() as int));
}

/// To insert a reading is to evict, seen from it, and then to add it at the end.
pub proof fn law_insert_is_evict_and_add(
    cache: &mut KasaPowerCache,
    other: &mut KasaPowerCache,
    event: KasaPowerDetails,
)
    requires
        *old(cache) == *old(other),
        call_ensures(KasaPowerCache::insert, (cache, event), ()),
        call_ensures(KasaPowerCache::evict, (other, event.timestamp), ()),
    ensures
        final(cache).cache@ == final(other).cache@.push(event),
        final(cache).duration == old(cache).duration,
{
}

/// Eviction takes the front off the cache, up to the first reading that is no older than the
/// duration, and nothing else: what it takes is older, seen from `since`, what it leaves
/// begins with a reading that is not, and all that is left is left as it was. Where any of
/// these points is shown has no part in it.
pub proof fn law_evict_by_age(cache: &mut KasaPowerCache, since: Timestamp)
    requires
        old(cache).threshold(since) is Some,
        call_ensures(KasaPowerCache::evict, (cache, since), ()),
        since.nanos < 1_000_000_000,
        forall|i: int|
            0 <= i < old(cache).cache@.len() ==> (
            #[trigger] old(cache).cache@[i]).timestamp.nanos < 1_000_000_000,
    ensures
        final(cache).duration == old(cache).duration,
        ({
            let events = old(cache).cache@;
            let left = final(cache).cache@;
            let gone = events.len() - left.len();
            let age = |e: KasaPowerDetails|
                (since.secs - e.timestamp.secs) * 1_000_000_000 + since.nanos - e.timestamp.nanos;
            let limit = old(cache).duration.secs * 1_000_000_000 + old(cache).duration.nanos;
            &&& 0 <= gone
            &&& left == events.subrange(gone, events.len() as int)
            &&& forall|i: int| 0 <= i < gone ==> age(#[trigger] events[i]) > limit
            &&& left.len() > 0 ==> age(left[0]) <= limit
        }),
{
    lemma_evicted_by_age(*old(cache), since);
}

pub proof fn lemma_evicted_by_age(cache: KasaPowerCache, since: Timestamp)
    requires
        cache.threshold(since) is Some,
        since.nanos < 1_000_000_000,
        forall|i: int|
            0 <= i < cache.cache@.len() ==> (#[trigger] cache.cache@[i]).timestamp.nanos
                < 1_000_000_000,
    ensures
        ({
            let events = cache.cache@;
            let left = evicted(events, cache.threshold(since).unwrap());
            let gone = events.len() - left.len();
            &&& 0 <= gone
            &&& left == events.subrange(gone, events.len() as int)
            &&& forall|i: int|
                0 <= i < gone ==> (since.secs - (#[trigger] events[i]).timestamp.secs)
                    * 1_000_000_000 + since.nanos - events[i].timestamp.nanos
                    > cache.duration.secs * 1_000_000_000 + cache.duration.nanos
            &&& left.len() > 0 ==> (since.secs - left[0].timestamp.secs) * 1_000_000_000
                + since.nanos - left[0].timestamp.nanos <= cache.duration.secs * 1_000_000_000
                + cache.duration.nanos
        }),
{
    let events = cache.cache@;
    let t = cache.threshold(since).unwrap();
    law_threshold_is_one_duration_back(cache, since, 0);
    law_evicted_is_suffix(events, t);
    let left = evicted(events, t);
    let gone = events.len() - left.len();
    assert(events.skip(gone) =~= events.subrange(gone, events.len() as int));
    if left.len() > 0 {
        assert(left[0] == events[gone]);
    }
}

/// After an insertion the new reading is the last one, in front of it stands what was at the
/// end of the cache before, and every reading that was no older than the duration, seen from
/// the new one, is still there. Where the readings came in the order in which they were
/// taken, every reading that is there was taken at most the duration before the new one, and
/// every reading that is gone was taken earlier than that.
pub proof fn law_insert_by_age(cache: &mut KasaPowerCache, event: KasaPowerDetails)
    requires
        old(cache).threshold(event.timestamp) is Some,
        call_ensures(KasaPowerCache::insert, (cache, event), ()),
        event.timestamp.nanos < 1_000_000_000,
        old(cache).duration.secs >= 0,
        forall|i: int|
            0 <= i < old(cache).cache@.len() ==> (
            #[trigger] old(cache).cache@[i]).timestamp.nanos < 1_000_000_000,
    ensures
        final(cache).duration == old(cache).duration,
        ({
            let events = old(cache).cache@;
            let after = final(cache).cache@;
            let gone = events.len() + 1 - after.len();
            let age = |e: KasaPowerDetails|
                (event.timestamp.secs - e.timestamp.secs) * 1_000_000_000 + event.timestamp.nanos
                    - e.timestamp.nanos;
            let limit = old(cache).duration.secs * 1_000_000_000 + old(cache).duration.nanos;
            &&& 0 <= gone
            &&& after == events.subrange(gone, events.len() as int) + seq![event]
            &&& forall|i: int|
                0 <= i < events.len() && age(#[trigger] events[i]) <= limit ==> gone <= i
                    && after[i - gone] == events[i]
            &&& (forall|i: int, j: int|
                0 <= i < j < events.len() ==> age(#[trigger] events[i]) >= age(
                    #[trigger] events[j],
                )) ==> {
                &&& forall|i: int| 0 <= i < after.len() ==> age(#[trigger] after[i]) <= limit
                &&& forall|i: int|
                    0 <= i < events.len() ==> (i < gone <==> age(#[trigger] events[i]) > limit)
            }
        }),
{
    let events = old(cache).cache@;
    lemma_evicted_by_age(*old(cache), event.timestamp);
    let left = evicted(events, old(cache).threshold(event.timestamp).unwrap());
    let after = left.push(event);
    let gone = events.len() - left.len();
    let age = |e: KasaPowerDetails|
        (event.timestamp.secs - e.timestamp.secs) * 1_000_000_000 + event.timestamp.nanos
            - e.timestamp.nanos;
    let limit = old(cache).duration.secs * 1_000_000_000 + old(cache).duration.nanos;
    assert(after =~= events.subrange(gone, events.len() as int) + seq![event]);
    if forall|i: int, j: int|
        0 <= i < j < events.len() ==> age(#[trigger] events[i]) >= age(#[trigger] events[j]) {
        assert forall|i: int| gone <= i < events.len() implies age(#[trigger] events[i])
            <= limit by {
            assert(left[0] == events[gone]);
            assert(age(events[gone]) <= limit);
            if i > gone {
                assert(age(events[gone]) >= age(events[i]));
            }
        }
        assert forall|i: int| 0 <= i < after.len() implies age(#[trigger] after[i]) <= limit by {
            if i < left.len() {
                assert(after[i] == events[gone + i]);
            }
        }
    }
}

/// `field` is where a reading holds what it measured of `q`.
pub open spec fn is_field_of(field: spec_fn(KasaPowerDetails) -> Option<u64>, q: Quantity) -> bool {
    ||| q is Voltage && forall|e: KasaPowerDetails| #[trigger] field(e) == e.voltage_mv
    ||| q is Current && forall|e: KasaPowerDetails| #[trigger] field(e) == e.current_ma
    ||| q is Power && forall|e: KasaPowerDetails| #[trigger] field(e) == e.power_mw
}

proof fn lemma_present_is_filter_map(
    events: Seq<KasaPowerDetails>,
    q: Quantity,
    field: spec_fn(KasaPowerDetails) -> Option<u64>,
)
    requires
        is_field_of(field, q),
    ensures
        present(column(events, q)) == events.filter_map(field),
    decreases events.len(),
{
    let col = column(events, q);
    if events.len() > 0 {
        let rest = events.drop_last();
        lemma_present_is_filter_map(rest, q, field);
        assert(col.drop_last() =~= column(rest, q));
        assert(col.last() == field(events.last()));
        if let Some(v) = field(events.last()) {
            assert(events.filter_map(field) =~= rest.filter_map(field).push(v));
        }
    }
}

/// The values that statistics are made of: one for each reading that tells the quantity, with
/// every value, zero or not, as often among them as among the readings.
pub proof fn law_every_measurement_counts(
    events: Seq<KasaPowerDetails>,
    q: Quantity,
    field: spec_fn(KasaPowerDetails) -> Option<u64>,
    v: u64,
)
    requires
        is_field_of(field, q),
    ensures
        present(column(events, q)).len() == events.filter(
            |e: KasaPowerDetails| field(e) is Some,
        ).len(),
        present(column(events, q)).to_multiset().count(v) == events.filter(
            |e: KasaPowerDetails| field(e) == Some(v),
        ).len(),
    decreases events.len(),
{
    broadcast use vstd::seq_lib::group_to_multiset_ensures;

    reveal(Seq::filter);
    lemma_present_is_filter_map(events, q, field);
    if events.len() > 0 {
        let rest = events.drop_last();
        law_every_measurement_counts(rest, q, field, v);
        lemma_present_is_filter_map(rest, q, field);
        if let Some(x) = field(events.last()) {
            assert(events.filter_map(field) =~= rest.filter_map(field).push(x));
        }
    }
}

/// The statistics of a quantity, from the readings themselves. Let `s` be what the readings
/// tell of it, in ascending order: every value stands in `s` as often as readings tell it.
/// Then there is a statistic exactly when `s` has an entry, its count is the length of `s`, its
/// sum the sum of `s`, and its median the entry in the middle or, where two entries share the
/// middle, half of their sum, rounded down.
pub proof fn law_statistic_of_readings(
    cache: KasaPowerCache,
    r: Option<(u64, Mean)>,
    q: Quantity,
    field: spec_fn(KasaPowerDetails) -> Option<u64>,
    s: Seq<u64>,
)
    requires
        match q {
            Quantity::Voltage => call_ensures(
                KasaPowerCache::median_and_mean_voltage,
                (&cache,),
                r,
            ),
            Quantity::Current => call_ensures(
                KasaPowerCache::median_and_mean_current,
                (&cache,),
                r,
            ),
            Quantity::Power => call_ensures(KasaPowerCache::median_and_mean_power, (&cache,), r),
        },
        is_field_of(field, q),
        forall|i: int, j: int| 0 <= i <= j < s.len() ==> s[i] <= s[j],
        forall|v: u64| #[trigger]
            s.to_multiset().count(v) == cache.cache@.filter(
                |e: KasaPowerDetails| field(e) == Some(v),
            ).len(),
    ensures
        r is Some <==> s.len() > 0,
        r matches Some((m, mean)) ==> {
            &&& mean.count == s.len()
            &&& mean.sum == s.fold_left(0int, |sum: int, v: u64| sum + v)
            &&& s.len() % 2 == 1 ==> m == s[s.len() as int / 2]
            &&& s.len() % 2 == 0 ==> {
                let two = s[s.len() as int / 2 - 1] + s[s.len() as int / 2];
                two == 2 * m || two == 2 * m + 1
            }
        },
{
    lemma_statistic_of_readings(r, cache.cache@, q, field, s);
}

proof fn lemma_statistic_of_readings(
    r: Option<(u64, Mean)>,
    events: Seq<KasaPowerDetails>,
    q: Quantity,
    field: spec_fn(KasaPowerDetails) -> Option<u64>,
    s: Seq<u64>,
)
    requires
        is_statistic(r, column(events, q)),
        is_field_of(field, q),
        forall|i: int, j: int| 0 <= i <= j < s.len() ==> s[i] <= s[j],
        forall|v: u64| #[trigger]
            s.to_multiset().count(v) == events.filter(
                |e: KasaPowerDetails| field(e) == Some(v),
            ).len(),
    ensures
        r is Some <==> s.len() > 0,
        r matches Some((m, mean)) ==> {
            &&& mean.count == s.len()
            &&& mean.sum == s.fold_left(0int, |sum: int, v: u64| sum + v)
            &&& s.len() % 2 == 1 ==> m == s[s.len() as int / 2]
            &&& s.len() % 2 == 0 ==> {
                let two = s[s.len() as int / 2 - 1] + s[s.len() as int / 2];
                two == 2 * m || two == 2 * m + 1
            }
        },
{
    let there = present(column(events, q));
    assert(there.to_multiset() =~= s.to_multiset()) by {
        assert forall|v: u64| #[trigger] there.to_multiset().count(v) == s.to_multiset().count(
            v,
        ) by {
            law_every_measurement_counts(events, q, field, v);
        }
    }
    there.to_multiset_ensures();
    s.to_multiset_ensures();
    if there.len() > 0 {
        law_median_is_the_middle(there, s);
        law_statistics_ignore_order(there, s);
        law_total_is_the_sum(s);
    }
}

/// The measured values of each quantity can be summed up exactly when their sum is a `u64`.
/// `sums_fit` tells that of all three, and the statistics of a quantity ask for no more.
pub proof fn law_sums_fit(
    cache: KasaPowerCache,
    r: bool,
    voltage: spec_fn(KasaPowerDetails) -> Option<u64>,
    current: spec_fn(KasaPowerDetails) -> Option<u64>,
    power: spec_fn(KasaPowerDetails) -> Option<u64>,
)
    requires
        call_ensures(KasaPowerCache::sums_fit, (&cache,), r),
        is_field_of(voltage, Quantity::Voltage),
        is_field_of(current, Quantity::Current),
        is_field_of(power, Quantity::Power),
    ensures
        ({
            let plus = |sum: int, v: u64| sum + v;
            let fits = |field: spec_fn(KasaPowerDetails) -> Option<u64>|
                cache.cache@.filter_map(field).fold_left(0int, plus) <= 0xFFFF_FFFF_FFFF_FFFF;
            &&& r <==> fits(voltage) && fits(current) && fits(power)
            &&& fits(voltage) ==> call_requires(
                KasaPowerCache::median_and_mean_voltage,
                (&cache,),
            )
            &&& fits(current) ==> call_requires(
                KasaPowerCache::median_and_mean_current,
                (&cache,),
            )
            &&& fits(power) ==> call_requires(KasaPowerCache::median_and_mean_power, (&cache,))
            &&& r ==> call_requires(KasaPowerCache::summary, (&cache,))
        }),
{
    lemma_sum_in_range(cache, Quantity::Voltage, voltage);
    lemma_sum_in_range(cache, Quantity::Current, current);
    lemma_sum_in_range(cache, Quantity::Power, power);
}

proof fn lemma_sum_in_range(
    cache: KasaPowerCache,
    q: Quantity,
    field: spec_fn(KasaPowerDetails) -> Option<u64>,
)
    requires
        is_field_of(field, q),
    ensures
        cache.sum_in_range(q) <==> cache.cache@.filter_map(field).fold_left(
            0int,
            |sum: int, v: u64| sum + v,
        ) <= 0xFFFF_FFFF_FFFF_FFFF,
{
    lemma_present_is_filter_map(cache.cache@, q, field);
    law_total_is_the_sum(cache.cache@.filter_map(field));
}

/// What a summary says: the names of the oldest reading, the energy count of the latest, and
/// of each quantity what the statistic of that quantity says, or zeros where no reading tells
/// it.
pub proof fn law_summary_of_readings(
    cache: KasaPowerCache,
    summary: KasaPowerSummary,
    q: Quantity,
    field: spec_fn(KasaPowerDetails) -> Option<u64>,
    shown: (u64, Mean),
    s: Seq<u64>,
)
    requires
        call_ensures(KasaPowerCache::summary, (&cache,), summary),
        is_field_of(field, q),
        shown == (match q {
            Quantity::Voltage => summary.voltage,
            Quantity::Current => summary.current,
            Quantity::Power => summary.power,
        }),
        forall|i: int, j: int| 0 <= i <= j < s.len() ==> s[i] <= s[j],
        forall|v: u64| #[trigger]
            s.to_multiset().count(v) == cache.cache@.filter(
                |e: KasaPowerDetails| field(e) == Some(v),
            ).len(),
    ensures
        s.len() == 0 ==> shown.0 == 0 && shown.1.sum == 0 && shown.1.count == 1,
        s.len() > 0 ==> {
            &&& shown.1.count == s.len()
            &&& shown.1.sum == s.fold_left(0int, |sum: int, v: u64| sum + v)
            &&& s.len() % 2 == 1 ==> shown.0 == s[s.len() as int / 2]
            &&& s.len() % 2 == 0 ==> {
                let two = s[s.len() as int / 2 - 1] + s[s.len() as int / 2];
                two == 2 * shown.0 || two == 2 * shown.0 + 1
            }
        },
        cache.cache@.len() == 0 ==> summary.alias is None && summary.device_id is None
            && summary.total_wh == 0,
        cache.cache@.len() > 0 ==> summary.alias == Some(cache.cache@[0].alias)
            && summary.device_id == Some(cache.cache@[0].device_id),
        cache.cache@.len() > 0 ==> match cache.cache@[cache.cache@.len() - 1].total_wh {
            Some(v) => summary.total_wh == v,
            None => summary.total_wh == 0,
        },
{
    let there = present(column(cache.cache@, q));
    lemma_statistic_of_readings(
        if there.len() > 0 {
            Some(shown)
        } else {
            None
        },
        cache.cache@,
        q,
        field,
        s,
    );
}

/// What a report says, entry by entry: where a reading measured a value, that value stands at
/// its place, where it did not, zero does; next to it the second in which it was taken. The
/// names are those of the oldest reading and the energy count is that of the latest.
pub proof fn law_report_entries(
    cache: KasaPowerCache,
    report: KasaPowerReport,
    events: Seq<KasaPowerDetails>,
    i: int,
)
    requires
        call_ensures(KasaPowerCache::report, (&cache,), report),
        events == cache.cache@,
    ensures
        report.num_readings == events.len(),
        report.voltages_mv@.len() == events.len(),
        report.currents_ma@.len() == events.len(),
        report.powers_mw@.len() == events.len(),
        report.timestamps@.len() == events.len(),
        0 <= i < events.len() ==> {
            &&& match events[i].voltage_mv {
                Some(v) => report.voltages_mv@[i] == v,
                None => report.voltages_mv@[i] == 0,
            }
            &&& match events[i].current_ma {
                Some(v) => report.currents_ma@[i] == v,
                None => report.currents_ma@[i] == 0,
            }
            &&& match events[i].power_mw {
                Some(v) => report.powers_mw@[i] == v,
                None => report.powers_mw@[i] == 0,
            }
            &&& report.timestamps@[i] == events[i].timestamp.secs
        },
        events.len() == 0 ==> report.alias is None && report.device_id is None
            && report.power_total == 0,
        events.len() > 0 ==> report.alias == Some(events[0].alias) && report.device_id == Some(
            events[0].device_id,
        ),
        events.len() > 0 ==> match events[events.len() - 1].total_wh {
            Some(v) => report.power_total == v,
            None => report.power_total == 0,
        },
{
}

/// A new cache holds nothing and evicts by the duration that it was given.
pub proof fn law_new_cache_is_empty(duration: TimeSpan, cache: KasaPowerCache)
    requires
        call_ensures(KasaPowerCache::new, (duration,), cache),
    ensures
        cache.cache@.len() == 0,
        cache.duration.secs == duration.secs,
        cache.duration.nanos == duration.nanos,
{
}

} // verus!
