//! The task that polls the plug, remembers what changed and publishes it now and again.
//!
//! The task performs what [`PowerMonitor::action`] asks for and hands the outcome to
//! [`PowerMonitor::step`], over and over.
use vstd::prelude::*;

use crate::cache::{
    evicted, in_order, law_evicted_is_suffix, law_insert_leaves_no_stale_reading,
    law_threshold_exists, law_threshold_is_one_duration_back, lemma_evicted_by_age, KasaPowerCache,
    KasaPowerReport,
};
use crate::kasa::KasaPowerDetails;
use crate::time::{TimeSpan, Timestamp, NANOS_PER_SEC};

verus! {

/// How long a reading stays in the cache.
pub const CACHE_SECS: i64 = 20;

/// How long the monitor keeps still after it published.
pub const PUBLISH_INTERVAL_SECS: i64 = 15;

/// How long the monitor waits after the plug could not be reached or did not answer.
pub const RETRY_MILLIS: u64 = 5000;

/// How long the monitor waits between two readings.
pub const POLL_MILLIS: u64 = 500;

/// Where the monitor stands in its round.
#[derive(Clone, Copy, Debug, PartialEq, Eq, Structural)]
pub enum MonitorState {
    /// About to connect to the plug.
    Connecting,
    /// Connected, about to ask for a reading.
    Exchanging,
    /// The plug could not be reached or did not answer.
    Retrying,
    /// A changed reading was remembered; is it time to publish?
    Checking,
    /// It is time to publish.
    Publishing,
    /// Done with this round.
    Pausing,
}

/// What the task has to do next.
#[derive(Debug, PartialEq, Eq)]
pub enum MonitorAction {
    Connect,
    Exchange,
    Sleep { millis: u64 },
    ReadClock,
    Publish(KasaPowerReport),
}

/// What came of an action.
#[derive(Debug)]
pub enum MonitorEvent {
    /// The plug took the connection.
    Connected,
    /// The plug answered with a reading.
    Reading(KasaPowerDetails),
    /// The connection or the exchange failed.
    Failed,
    /// The time to sleep is over.
    Slept,
    /// The clock shows this.
    Clock(Timestamp),
    /// The message is out, and the clock shows this.
    Published(Timestamp),
}

pub struct PowerMonitor {
    pub state: MonitorState,
    pub last_response: Option<KasaPowerDetails>,
    pub cache: KasaPowerCache,
    pub next_publish: Timestamp,
}

/// The span between two messages, in nanoseconds.
pub open spec fn publish_interval() -> int {
    PUBLISH_INTERVAL_SECS * NANOS_PER_SEC
}

impl PowerMonitor {
    /// `reading` says something else than the last one did. The very first reading changes
    /// nothing: there is nothing to hold it against.
    pub open spec fn is_change(self, reading: KasaPowerDetails) -> bool {
        match self.last_response {
            Some(last) => !last.same_reading(reading),
            None => false,
        }
    }

    /// `event` can come of the action that is due, and the points in time that follow from it
    /// are in range.
    pub open spec fn accepts(self, event: MonitorEvent) -> bool {
        match event {
            MonitorEvent::Connected => self.state == MonitorState::Connecting,
            MonitorEvent::Reading(reading) => {
                &&& self.state == MonitorState::Exchanging
                &&& self.is_change(reading) ==> self.cache.threshold(reading.timestamp) is Some
            },
            MonitorEvent::Failed => self.state == MonitorState::Connecting || self.state
                == MonitorState::Exchanging,
            MonitorEvent::Slept => self.state == MonitorState::Retrying || self.state
                == MonitorState::Pausing,
            MonitorEvent::Clock(now) => self.state == MonitorState::Checking,
            MonitorEvent::Published(now) => {
                &&& self.state == MonitorState::Publishing
                &&& now.moved(publish_interval()) is Some
            },
        }
    }

    /// The two differ in the state at most.
    pub open spec fn same_memory(self, other: PowerMonitor) -> bool {
        &&& self.last_response == other.last_response
        &&& self.cache.cache@ == other.cache.cache@
        &&& self.cache.duration == other.cache.duration
        &&& self.next_publish == other.next_publish
    }

    /// `next` is where `event` takes this monitor.
    pub open spec fn leads_to(self, event: MonitorEvent, next: PowerMonitor) -> bool {
        match event {
            MonitorEvent::Connected => {
                &&& next.state == MonitorState::Exchanging
                &&& next.same_memory(self)
            },
            MonitorEvent::Failed => {
                &&& next.state == MonitorState::Retrying
                &&& next.same_memory(self)
            },
            MonitorEvent::Slept => {
                &&& next.state == MonitorState::Connecting
                &&& next.same_memory(self)
            },
            MonitorEvent::Reading(reading) => if self.is_change(reading) {
                &&& next.state == MonitorState::Checking
                &&& next.last_response == Some(reading)
                &&& next.cache.cache@ == evicted(
                    self.cache.cache@,
                    self.cache.threshold(reading.timestamp).unwrap(),
                ).push(reading)
                &&& next.cache.duration == self.cache.duration
                &&& next.next_publish == self.next_publish
            } else {
                &&& next.state == MonitorState::Pausing
                &&& next.last_response == (if self.last_response is None {
                    Some(reading)
                } else {
                    self.last_response
                })
                &&& next.cache.cache@ == self.cache.cache@
                &&& next.cache.duration == self.cache.duration
                &&& next.next_publish == self.next_publish
            },
            MonitorEvent::Clock(now) => {
                &&& next.state == (if self.next_publish.before(now) {
                    MonitorState::Publishing
                } else {
                    MonitorState::Pausing
                })
                &&& next.same_memory(self)
            },
            MonitorEvent::Published(now) => {
                &&& next.state == MonitorState::Pausing
                &&& next.last_response == self.last_response
                &&& next.cache.cache@ == self.cache.cache@
                &&& next.cache.duration == self.cache.duration
                &&& Some(next.next_publish) == now.moved(publish_interval())
            },
        }
    }

    /// The cache holds readings that changed something: each differs from the one in front
    /// of it, and the latest of them is the last reading that the monitor remembers.
    pub open spec fn wf(self) -> bool {
        let events = self.cache.cache@;
        &&& events.len() > 0 ==> self.last_response == Some(events.last())
        &&& forall|i: int|
            0 < i < events.len() ==> !(#[trigger] events[i]).same_reading(events[i - 1])
        &&& self.cache.duration == (TimeSpan { secs: CACHE_SECS, nanos: 0 })
    }

    /// A monitor that has read nothing yet; `now` is what the clock shows.
    pub fn new(now: Timestamp) -> (r: PowerMonitor)
        ensures
            r.state == MonitorState::Connecting,
            r.last_response is None,
            r.cache.cache@.len() == 0,
            r.next_publish == now,
            r.wf(),
    {
        PowerMonitor {
            state: MonitorState::Connecting,
            last_response: None,
            cache: KasaPowerCache::new(TimeSpan::seconds(CACHE_SECS)),
            next_publish: now,
        }
    }

    /// What the task has to do next.
    pub fn action(&self) -> (r: MonitorAction)
        ensures
            match self.state {
                MonitorState::Connecting => r == MonitorAction::Connect,
                MonitorState::Exchanging => r == MonitorAction::Exchange,
                MonitorState::Retrying => r == (MonitorAction::Sleep { millis: RETRY_MILLIS }),
                MonitorState::Checking => r == MonitorAction::ReadClock,
                MonitorState::Publishing => r matches MonitorAction::Publish(report)
                    && report.reports(self.cache.cache@),
                MonitorState::Pausing => r == (MonitorAction::Sleep { millis: POLL_MILLIS }),
            },
    {
        match self.state {
            MonitorState::Connecting => MonitorAction::Connect,
            MonitorState::Exchanging => MonitorAction::Exchange,
            MonitorState::Retrying => MonitorAction::Sleep { millis: RETRY_MILLIS },
            MonitorState::Checking => MonitorAction::ReadClock,
            MonitorState::Publishing => MonitorAction::Publish(self.cache.report()),
            MonitorState::Pausing => MonitorAction::Sleep { millis: POLL_MILLIS },
        }
    }

    /// Whether `reading` says something else than the last one did.
    fn changes(&self, reading: &KasaPowerDetails) -> (r: bool)
        ensures
            r == self.is_change(*reading),
    {
        match &self.last_response {
            Some(last) => !last.compare_no_ts(reading),
            None => false,
        }
    }

    /// Whether `event` can be handed to [`PowerMonitor::step`] now.
    pub fn can_step(&self, event: &MonitorEvent) -> (r: bool)
        ensures
            r == self.accepts(*event),
    {
        match event {
            MonitorEvent::Connected => self.state == MonitorState::Connecting,
            MonitorEvent::Reading(reading) => {
                self.state == MonitorState::Exchanging && (!self.changes(reading)
                    || self.cache.can_evict(&reading.timestamp))
            },
            MonitorEvent::Failed => {
                self.state == MonitorState::Connecting || self.state == MonitorState::Exchanging
            },
            MonitorEvent::Slept => {
                self.state == MonitorState::Retrying || self.state == MonitorState::Pausing
            },
            MonitorEvent::Clock(_) => self.state == MonitorState::Checking,
            MonitorEvent::Published(now) => {
                self.state == MonitorState::Publishing && now.checked_add(
                    &TimeSpan::seconds(PUBLISH_INTERVAL_SECS),
                ).is_some()
            },
        }
    }

    /// Takes in what came of the action that was due.
    pub fn step(&mut self, event: MonitorEvent)
        requires
            old(self).accepts(event),
        ensures
            old(self).leads_to(event, *final(self)),
            old(self).wf() ==> final(self).wf(),
    {
        let ghost before = *self;
        match event {
            MonitorEvent::Connected => {
                self.state = MonitorState::Exchanging;
            },
            MonitorEvent::Failed => {
                self.state = MonitorState::Retrying;
            },
            MonitorEvent::Slept => {
                self.state = MonitorState::Connecting;
            },
            MonitorEvent::Reading(reading) => {
                if self.changes(&reading) {
                    self.last_response = Some(reading.clone());
                    self.cache.insert(reading);
                    self.state = MonitorState::Checking;
                } else {
                    if self.last_response.is_none() {
                        self.last_response = Some(reading);
                    }
                    self.state = MonitorState::Pausing;
                }
            },
            MonitorEvent::Clock(now) => {
                if self.next_publish.is_before(&now) {
                    self.state = MonitorState::Publishing;
                } else {
                    self.state = MonitorState::Pausing;
                }
            },
            MonitorEvent::Published(now) => {
                let next = now.checked_add(&TimeSpan::seconds(PUBLISH_INTERVAL_SECS));
                self.next_publish = next.unwrap();
                self.state = MonitorState::Pausing;
            },
        }
        proof {
            if before.wf() {
                law_step_keeps_invariant(before, event, *self);
            }
        }
    }
}

/// `monitors` and `events` are a run: each event is one that the monitor accepts, and takes
/// it to the next.
pub open spec fn is_run(monitors: Seq<PowerMonitor>, events: Seq<MonitorEvent>) -> bool {
    &&& monitors.len() == events.len() + 1
    &&& forall|i: int|
        #![trigger events[i]]
        0 <= i < events.len() ==> monitors[i].accepts(events[i]) && monitors[i].leads_to(
            events[i],
            monitors[i + 1],
        )
}

/// Whatever happens, the cache goes on to hold changes only, each unlike the one before it,
/// with the last remembered reading at its end.
pub proof fn law_step_keeps_invariant(
    before: PowerMonitor,
    event: MonitorEvent,
    after: PowerMonitor,
)
    requires
        before.wf(),
        before.accepts(event),
        before.leads_to(event, after),
    ensures
        after.wf(),
{
    if let MonitorEvent::Reading(reading) = event {
        if before.is_change(reading) {
            let events = before.cache.cache@;
            let threshold = before.cache.threshold(reading.timestamp).unwrap();
            law_evicted_is_suffix(events, threshold);
            let left = evicted(events, threshold);
            let k = events.len() - left.len();
            let now = after.cache.cache@;
            assert forall|i: int| 0 < i < now.len() implies !(#[trigger] now[i]).same_reading(
                now[i - 1],
            ) by {
                if i < left.len() {
                    assert(now[i] == events[i + k]);
                    assert(now[i - 1] == events[i + k - 1]);
                } else {
                    assert(now[i] == reading);
                    assert(now[i - 1] == events.last());
                }
            }
        }
    }
}

proof fn lemma_next_publish_stays(
    monitors: Seq<PowerMonitor>,
    events: Seq<MonitorEvent>,
    i: int,
    j: int,
)
    requires
        is_run(monitors, events),
        0 <= i <= j <= events.len(),
        forall|k: int| i <= k < j ==> !(#[trigger] events[k] is Published),
    ensures
        monitors[j].next_publish == monitors[i].next_publish,
    decreases j - i,
{
    if i < j {
        lemma_next_publish_stays(monitors, events, i, j - 1);
        assert(!(events[j - 1] is Published));
        assert(monitors[j - 1].leads_to(events[j - 1], monitors[j]));
    }
}

/// In every run the monitor keeps still between two messages: once a message is out, the next
/// one is decided on only when the clock has passed the end of the interval that began there.
pub proof fn law_publishes_are_spaced(
    monitors: Seq<PowerMonitor>,
    events: Seq<MonitorEvent>,
    i: int,
    j: int,
)
    requires
        is_run(monitors, events),
        0 <= i < j < events.len(),
        events[i] is Published,
        events[j] is Clock,
        forall|k: int| i < k < j ==> !(#[trigger] events[k] is Published),
        monitors[j + 1].state == MonitorState::Publishing,
    ensures
        events[i]->Published_0.moved(publish_interval()) matches Some(end) && end.before(
            events[j]->Clock_0,
        ),
{
    lemma_next_publish_stays(monitors, events, i + 1, j);
    assert(monitors[i].leads_to(events[i], monitors[i + 1]));
    assert(monitors[j].leads_to(events[j], monitors[j + 1]));
}

/// In every run that starts with a fresh monitor, every cached reading was taken in by some
/// step, and differs from the reading that the monitor remembered until then. The first
/// reading of all is never cached on its own account.
pub proof fn law_cached_readings_are_changes(
    monitors: Seq<PowerMonitor>,
    events: Seq<MonitorEvent>,
    n: int,
    c: int,
)
    requires
        is_run(monitors, events),
        monitors[0].cache.cache@.len() == 0,
        0 <= n < monitors.len(),
        0 <= c < monitors[n].cache.cache@.len(),
    ensures
        exists|k: int|
            #![trigger events[k]]
            0 <= k < n && events[k] == MonitorEvent::Reading(monitors[n].cache.cache@[c])
                && monitors[k].is_change(monitors[n].cache.cache@[c]),
    decreases n,
{
    if n > 0 {
        let before = monitors[n - 1];
        let after = monitors[n];
        let e = events[n - 1];
        assert(before.leads_to(e, after));
        let x = after.cache.cache@[c];
        if e is Reading && before.is_change(e->Reading_0) {
            let reading = e->Reading_0;
            let threshold = before.cache.threshold(reading.timestamp).unwrap();
            law_evicted_is_suffix(before.cache.cache@, threshold);
            let left = evicted(before.cache.cache@, threshold);
            if c < left.len() {
                let k = before.cache.cache@.len() - left.len();
                assert(x == before.cache.cache@[c + k]);
                law_cached_readings_are_changes(monitors, events, n - 1, c + k);
            } else {
                assert(x == reading);
            }
        } else {
            law_cached_readings_are_changes(monitors, events, n - 1, c);
        }
    }
}

/// In every run that starts with a fresh monitor and takes readings in the order in which
/// they were taken, the cache is in that order, and no reading in it is older, seen from the
/// latest one, than the cache allows.
pub proof fn law_cache_stays_fresh(
    monitors: Seq<PowerMonitor>,
    events: Seq<MonitorEvent>,
    n: int,
)
    requires
        is_run(monitors, events),
        monitors[0].wf(),
        monitors[0].cache.cache@.len() == 0,
        forall|i: int, j: int|
            0 <= i < j < events.len() && (#[trigger] events[i]) is Reading && (
            #[trigger] events[j]) is Reading ==> !events[j]->Reading_0.timestamp.before(
                events[i]->Reading_0.timestamp,
            ),
        0 <= n < monitors.len(),
    ensures
        monitors[n].cache.duration == monitors[0].cache.duration,
        in_order(monitors[n].cache.cache@),
        monitors[n].cache.cache@.len() > 0 ==> ({
            let cached = monitors[n].cache.cache@;
            let oldest = monitors[n].cache.threshold(cached.last().timestamp);
            &&& oldest is Some
            &&& forall|i: int|
                0 <= i < cached.len() ==> {
                    &&& !(#[trigger] cached[i]).timestamp.before(oldest.unwrap())
                    &&& !cached.last().timestamp.before(cached[i].timestamp)
                }
        }),
    decreases n,
{
    if n > 0 {
        law_cache_stays_fresh(monitors, events, n - 1);
        let before = monitors[n - 1];
        let after = monitors[n];
        let e = events[n - 1];
        assert(before.accepts(e) && before.leads_to(e, after));
        if e is Reading && before.is_change(e->Reading_0) {
            let reading = e->Reading_0;
            let all = before.cache.cache@.push(reading);
            assert forall|i: int, j: int| 0 <= i < j < all.len() implies !(
            #[trigger] all[j]).timestamp.before((#[trigger] all[i]).timestamp) by {
                if j == all.len() - 1 {
                    law_cached_readings_are_changes(monitors, events, n - 1, i);
                    let k = choose|k: int|
                        #![trigger events[k]]
                        0 <= k < n - 1 && events[k] == MonitorEvent::Reading(
                            before.cache.cache@[i],
                        ) && monitors[k].is_change(before.cache.cache@[i]);
                    assert(events[k] is Reading);
                }
            }
            law_insert_leaves_no_stale_reading(before.cache, reading);
            assert(after.cache.cache@.last() == reading);
        }
    }
}

/// After a failure the monitor has lost nothing, waits, and connects anew.
pub proof fn law_failure_is_retried(
    before: PowerMonitor,
    failed: PowerMonitor,
    after: PowerMonitor,
)
    requires
        before.accepts(MonitorEvent::Failed),
        before.leads_to(MonitorEvent::Failed, failed),
        failed.leads_to(MonitorEvent::Slept, after),
    ensures
        failed.accepts(MonitorEvent::Slept),
        after.state == MonitorState::Connecting,
        after.same_memory(before),
{
}

/// A task that steps its monitor makes a run: each step adds the event that it takes in and the
/// monitor that it leads to.
pub proof fn law_steps_make_runs(
    monitors: Seq<PowerMonitor>,
    events: Seq<MonitorEvent>,
    monitor: &mut PowerMonitor,
    event: MonitorEvent,
)
    requires
        is_run(monitors, events),
        monitors.last() == *old(monitor),
        old(monitor).accepts(event),
        call_ensures(PowerMonitor::step, (monitor, event), ()),
    ensures
        is_run(monitors.push(*final(monitor)), events.push(event)),
{
    let longer = monitors.push(*final(monitor));
    let more = events.push(event);
    assert forall|i: int|
        #![trigger more[i]]
        0 <= i < more.len() implies longer[i].accepts(more[i]) && longer[i].leads_to(
        more[i],
        longer[i + 1],
    ) by {
        if i < events.len() {
            assert(more[i] == events[i]);
        }
    }
}

/// A changed reading is published as soon as the clock has passed the point kept for it, and
/// never before: nothing that the reading says has a part in that, and neither has what the
/// cache holds. Looking at the clock changes nothing else.
pub proof fn law_clock_alone_decides(monitor: &mut PowerMonitor, now: Timestamp)
    requires
        call_ensures(PowerMonitor::step, (monitor, MonitorEvent::Clock(now)), ()),
    ensures
        final(monitor).state == MonitorState::Publishing <==> {
            let due = old(monitor).next_publish;
            now.secs > due.secs || (now.secs == due.secs && now.nanos > due.nanos)
        },
        final(monitor).state == MonitorState::Publishing || final(monitor).state
            == MonitorState::Pausing,
        final(monitor).last_response == old(monitor).last_response,
        final(monitor).cache.cache@ == old(monitor).cache.cache@,
        final(monitor).cache.duration == old(monitor).cache.duration,
        final(monitor).next_publish == old(monitor).next_publish,
{
}

/// What a reading does. The first of all is remembered and nothing more. One that agrees with
/// the remembered one in all six of its fields changes nothing. One that differs in any of them
/// is remembered, stands at the end of the cache, behind a rest of what was there, and has the
/// clock looked at. When the next message is due is never touched.
pub proof fn law_reading_is_taken_in(monitor: &mut PowerMonitor, reading: KasaPowerDetails)
    requires
        call_ensures(PowerMonitor::step, (monitor, MonitorEvent::Reading(reading)), ()),
    ensures
        final(monitor).next_publish == old(monitor).next_publish,
        final(monitor).cache.duration == old(monitor).cache.duration,
        match old(monitor).last_response {
            None => {
                &&& final(monitor).state == MonitorState::Pausing
                &&& final(monitor).last_response == Some(reading)
                &&& final(monitor).cache.cache@ == old(monitor).cache.cache@
            },
            Some(last) => if last.alias@ == reading.alias@ && last.device_id@
                == reading.device_id@ && last.voltage_mv == reading.voltage_mv && last.current_ma
                == reading.current_ma && last.power_mw == reading.power_mw && last.total_wh
                == reading.total_wh {
                &&& final(monitor).state == MonitorState::Pausing
                &&& final(monitor).last_response == Some(last)
                &&& final(monitor).cache.cache@ == old(monitor).cache.cache@
            } else {
                let events = old(monitor).cache.cache@;
                let gone = events.len() + 1 - final(monitor).cache.cache@.len();
                &&& final(monitor).state == MonitorState::Checking
                &&& final(monitor).last_response == Some(reading)
                &&& 0 <= gone <= events.len()
                &&& final(monitor).cache.cache@ == events.subrange(
                    gone,
                    events.len() as int,
                ).push(reading)
            },
        },
{
    if old(monitor).is_change(reading) {
        let events = old(monitor).cache.cache@;
        let threshold = old(monitor).cache.threshold(reading.timestamp).unwrap();
        law_evicted_is_suffix(events, threshold);
        let gone = events.len() - evicted(events, threshold).len();
        assert(events.skip(gone) =~= events.subrange(gone, events.len() as int));
    }
}

/// A changed reading is put into the cache as the cache itself inserts it.
pub proof fn law_change_is_inserted(
    monitor: &mut PowerMonitor,
    cache: &mut KasaPowerCache,
    reading: KasaPowerDetails,
)
    requires
        *old(cache) == old(monitor).cache,
        call_ensures(PowerMonitor::step, (monitor, MonitorEvent::Reading(reading)), ()),
        call_ensures(KasaPowerCache::insert, (cache, reading), ()),
        final(monitor).state == MonitorState::Checking,
    ensures
        final(monitor).cache.cache@ == final(cache).cache@,
        final(monitor).cache.duration == final(cache).duration,
{
}

/// What a changed reading does to the cache: what is gone was taken more than twenty seconds
/// before it, and the oldest that is left was not. None of the points lies inside a leap second.
pub proof fn law_reading_evicts_after_twenty_seconds(
    monitor: &mut PowerMonitor,
    reading: KasaPowerDetails,
)
    requires
        old(monitor).wf(),
        old(monitor).accepts(MonitorEvent::Reading(reading)),
        call_ensures(PowerMonitor::step, (monitor, MonitorEvent::Reading(reading)), ()),
        final(monitor).state == MonitorState::Checking,
        reading.timestamp.nanos < 1_000_000_000,
        forall|i: int|
            0 <= i < old(monitor).cache.cache@.len() ==> (
            #[trigger] old(monitor).cache.cache@[i]).timestamp.nanos < 1_000_000_000,
    ensures
        ({
            let events = old(monitor).cache.cache@;
            let after = final(monitor).cache.cache@;
            let gone = events.len() + 1 - after.len();
            let age = |e: KasaPowerDetails|
                (reading.timestamp.secs - e.timestamp.secs) * 1_000_000_000
                    + reading.timestamp.nanos - e.timestamp.nanos;
            &&& 0 <= gone <= events.len()
            &&& forall|i: int| 0 <= i < gone ==> age(#[trigger] events[i]) > 20_000_000_000
            &&& gone < events.len() ==> age(events[gone]) <= 20_000_000_000
        }),
{
    lemma_evicted_by_age(old(monitor).cache, reading.timestamp);
}

/// In every run, a reading that differs from the remembered one in any of its fields is at the
/// end of the cache when the clock is looked at next, and it is time to publish exactly when
/// the clock has passed the point that was kept for it before the reading came.
pub proof fn law_change_is_published_when_due(
    monitors: Seq<PowerMonitor>,
    events: Seq<MonitorEvent>,
    i: int,
    last: KasaPowerDetails,
    reading: KasaPowerDetails,
)
    requires
        is_run(monitors, events),
        0 <= i,
        i + 1 < events.len(),
        events[i] == MonitorEvent::Reading(reading),
        monitors[i].last_response == Some(last),
        last.alias@ != reading.alias@ || last.device_id@ != reading.device_id@ || last.voltage_mv
            != reading.voltage_mv || last.current_ma != reading.current_ma || last.power_mw
            != reading.power_mw || last.total_wh != reading.total_wh,
    ensures
        events[i + 1] matches MonitorEvent::Clock(now) && {
            let due = monitors[i].next_publish;
            &&& monitors[i + 2].cache.cache@.len() > 0
            &&& monitors[i + 2].cache.cache@.last() == reading
            &&& monitors[i + 2].last_response == Some(reading)
            &&& if now.secs > due.secs || (now.secs == due.secs && now.nanos > due.nanos) {
                monitors[i + 2].state == MonitorState::Publishing
            } else {
                monitors[i + 2].state == MonitorState::Pausing
            }
        },
{
    assert(monitors[i].leads_to(events[i], monitors[i + 1]));
    assert(monitors[i + 1].accepts(events[i + 1]));
    assert(monitors[i + 1].leads_to(events[i + 1], monitors[i + 2]));
}

/// When a message is out, the next one is due fifteen seconds later, to the nanosecond; a point
/// inside a leap second counts from the second after it. Nothing is forgotten over it.
pub proof fn law_next_message_is_due_in_fifteen_seconds(monitor: &mut PowerMonitor, now: Timestamp)
    requires
        old(monitor).accepts(MonitorEvent::Published(now)),
        call_ensures(PowerMonitor::step, (monitor, MonitorEvent::Published(now)), ()),
    ensures
        final(monitor).state == MonitorState::Pausing,
        final(monitor).last_response == old(monitor).last_response,
        final(monitor).cache.cache@ == old(monitor).cache.cache@,
        final(monitor).cache.duration == old(monitor).cache.duration,
        final(monitor).next_publish.secs == now.secs + 15,
        final(monitor).next_publish.nanos == (if now.nanos < 1_000_000_000 {
            now.nanos as int
        } else {
            now.nanos - 1_000_000_000
        }),
        final(monitor).next_publish.utc_offset == now.utc_offset,
{
}

/// Every outcome that the action under way can have is one that the monitor takes in: a
/// connection that stands or fails, an exchange that gives a reading or fails, the end of a
/// sleep, whatever the clock shows, and a message that is out. Points in time are held back
/// only where the calendar ends: where a change comes less than twenty seconds after its
/// beginning, or a message is out less than fifteen seconds before its end.
pub proof fn law_every_outcome_is_accepted(
    monitor: PowerMonitor,
    reading: KasaPowerDetails,
    now: Timestamp,
)
    requires
        monitor.wf(),
        reading.timestamp.nanos < 1_000_000_000 || (reading.timestamp.nanos < 2_000_000_000
            && reading.timestamp.secs % 60 == 59),
        now.nanos < 1_000_000_000 || (now.nanos < 2_000_000_000 && now.secs % 60 == 59),
    ensures
        ({
            let state = monitor.state;
            let differs = monitor.last_response matches Some(last) && !(last.alias@
                == reading.alias@ && last.device_id@ == reading.device_id@ && last.voltage_mv
                == reading.voltage_mv && last.current_ma == reading.current_ma && last.power_mw
                == reading.power_mw && last.total_wh == reading.total_wh);
            let at = reading.timestamp.secs * 1_000_000_000 + reading.timestamp.nanos;
            let takes = |event: MonitorEvent| monitor.accepts(event);
            &&& takes(MonitorEvent::Connected) <==> state == MonitorState::Connecting
            &&& takes(MonitorEvent::Failed) <==> state == MonitorState::Connecting || state
                == MonitorState::Exchanging
            &&& takes(MonitorEvent::Slept) <==> state == MonitorState::Retrying || state
                == MonitorState::Pausing
            &&& takes(MonitorEvent::Clock(now)) <==> state == MonitorState::Checking
            &&& takes(MonitorEvent::Reading(reading)) <==> state == MonitorState::Exchanging && (
            differs ==> reading.timestamp.secs <= 8_210_266_876_799 && at - 20_000_000_000
                >= -8_334_601_228_800 * 1_000_000_000 && reading.timestamp.secs
                >= -8_334_601_228_800)
            &&& takes(MonitorEvent::Published(now)) <==> state == MonitorState::Publishing
                && -8_334_601_228_800 <= now.secs <= 8_210_266_876_784
        }),
{
    law_threshold_exists(monitor.cache, reading.timestamp);
}

/// `can_step` tells whether an event can be taken in now, and that is all that `step` asks for.
pub proof fn law_step_takes_what_can_be_taken(
    monitor: PowerMonitor,
    event: MonitorEvent,
    r: bool,
    held: &mut PowerMonitor,
)
    requires
        call_ensures(PowerMonitor::can_step, (&monitor, &event), r),
        *old(held) == monitor,
    ensures
        r <==> monitor.accepts(event),
        r ==> call_requires(PowerMonitor::step, (held, event)),
{
}

/// A connection that stands, one that fails and the end of a sleep each lead to one state, and
/// the monitor keeps all that it knows.
pub proof fn law_waiting_forgets_nothing(monitor: &mut PowerMonitor, event: MonitorEvent)
    requires
        event is Connected || event is Failed || event is Slept,
        call_ensures(PowerMonitor::step, (monitor, event), ()),
    ensures
        event is Connected ==> final(monitor).state == MonitorState::Exchanging,
        event is Failed ==> final(monitor).state == MonitorState::Retrying,
        event is Slept ==> final(monitor).state == MonitorState::Connecting,
        final(monitor).last_response == old(monitor).last_response,
        final(monitor).cache.cache@ == old(monitor).cache.cache@,
        final(monitor).cache.duration == old(monitor).cache.duration,
        final(monitor).next_publish == old(monitor).next_publish,
{
}

/// A new monitor is about to connect, remembers nothing, keeps readings for twenty seconds and
/// may publish once the clock has moved on.
pub proof fn law_new_monitor_is_fresh(now: Timestamp, monitor: PowerMonitor)
    requires
        call_ensures(PowerMonitor::new, (now,), monitor),
    ensures
        monitor.state == MonitorState::Connecting,
        monitor.last_response is None,
        monitor.cache.cache@.len() == 0,
        monitor.cache.duration.secs == 20,
        monitor.cache.duration.nanos == 0,
        monitor.next_publish.secs == now.secs,
        monitor.next_publish.nanos == now.nanos,
        monitor.next_publish.utc_offset == now.utc_offset,
{
}

/// In every run that starts with a fresh monitor and takes readings in the order in which they
/// were taken, none of them inside a leap second, every reading in the cache was taken at most
/// twenty seconds before the latest one there.
pub proof fn law_cache_spans_twenty_seconds(
    monitors: Seq<PowerMonitor>,
    events: Seq<MonitorEvent>,
    n: int,
    c: int,
)
    requires
        is_run(monitors, events),
        monitors[0].wf(),
        monitors[0].cache.cache@.len() == 0,
        forall|i: int|
            0 <= i < events.len() && (#[trigger] events[i]) is Reading
                ==> events[i]->Reading_0.timestamp.nanos < 1_000_000_000,
        forall|i: int, j: int|
            0 <= i < j < events.len() && (#[trigger] events[i]) is Reading && (
            #[trigger] events[j]) is Reading ==> events[i]->Reading_0.timestamp.secs
                * 1_000_000_000 + events[i]->Reading_0.timestamp.nanos
                <= events[j]->Reading_0.timestamp.secs * 1_000_000_000
                + events[j]->Reading_0.timestamp.nanos,
        0 <= n < monitors.len(),
        0 <= c < monitors[n].cache.cache@.len(),
    ensures
        ({
            let oldest = monitors[n].cache.cache@[c].timestamp;
            let latest = monitors[n].cache.cache@.last().timestamp;
            0 <= (latest.secs - oldest.secs) * 1_000_000_000 + latest.nanos - oldest.nanos
                <= 20_000_000_000
        }),
{
    let cached = monitors[n].cache.cache@;
    law_cache_stays_fresh(monitors, events, n);
    law_cached_readings_are_changes(monitors, events, n, c);
    law_cached_readings_are_changes(monitors, events, n, cached.len() - 1);
    assert(cached[cached.len() - 1] == cached.last());
    law_threshold_is_one_duration_back(monitors[n].cache, cached.last().timestamp, 0);
    assert(!cached[c].timestamp.before(
        monitors[n].cache.threshold(cached.last().timestamp).unwrap(),
    ));
}

/// In every run that starts with a new monitor, the reading at the end of the cache is the one
/// that is remembered, and each cached reading differs in some field from the one in front of
/// it.
pub proof fn law_cached_neighbours_differ(
    monitors: Seq<PowerMonitor>,
    events: Seq<MonitorEvent>,
    now: Timestamp,
    n: int,
    c: int,
)
    requires
        is_run(monitors, events),
        call_ensures(PowerMonitor::new, (now,), monitors[0]),
        0 <= n < monitors.len(),
    ensures
        monitors[n].cache.duration.secs == 20,
        monitors[n].cache.duration.nanos == 0,
        monitors[n].cache.cache@.len() > 0 ==> monitors[n].last_response == Some(
            monitors[n].cache.cache@.last(),
        ),
        0 < c < monitors[n].cache.cache@.len() ==> {
            let a = monitors[n].cache.cache@[c - 1];
            let b = monitors[n].cache.cache@[c];
            a.alias@ != b.alias@ || a.device_id@ != b.device_id@ || a.voltage_mv != b.voltage_mv
                || a.current_ma != b.current_ma || a.power_mw != b.power_mw || a.total_wh
                != b.total_wh
        },
{
    lemma_run_keeps_invariant(monitors, events, n);
    if 0 < c < monitors[n].cache.cache@.len() {
        assert(!monitors[n].cache.cache@[c].same_reading(monitors[n].cache.cache@[c - 1]));
    }
}

proof fn lemma_run_keeps_invariant(
    monitors: Seq<PowerMonitor>,
    events: Seq<MonitorEvent>,
    n: int,
)
    requires
        is_run(monitors, events),
        monitors[0].wf(),
        0 <= n < monitors.len(),
    ensures
        monitors[n].wf(),
    decreases n,
{
    if n > 0 {
        lemma_run_keeps_invariant(monitors, events, n - 1);
        assert(monitors[n - 1].accepts(events[n - 1]));
        law_step_keeps_invariant(monitors[n - 1], events[n - 1], monitors[n]);
    }
}

/// What the task is asked to do in each state, with the waits in milliseconds; what is published
/// tells of each cached reading, entry by entry.
pub proof fn law_action_of_each_state(monitor: PowerMonitor, r: MonitorAction, i: int)
    requires
        call_ensures(PowerMonitor::action, (&monitor,), r),
    ensures
        r is Connect <==> monitor.state == MonitorState::Connecting,
        r is Exchange <==> monitor.state == MonitorState::Exchanging,
        r is ReadClock <==> monitor.state == MonitorState::Checking,
        r is Publish <==> monitor.state == MonitorState::Publishing,
        monitor.state == MonitorState::Retrying ==> r == (MonitorAction::Sleep { millis: 5000 }),
        monitor.state == MonitorState::Pausing ==> r == (MonitorAction::Sleep { millis: 500 }),
        r matches MonitorAction::Publish(report) ==> {
            let events = monitor.cache.cache@;
            &&& report.num_readings == events.len()
            &&& report.voltages_mv@.len() == events.len()
            &&& report.currents_ma@.len() == events.len()
            &&& report.powers_mw@.len() == events.len()
            &&& report.timestamps@.len() == events.len()
            &&& 0 <= i < events.len() ==> {
                &&& events[i].voltage_mv is Some ==> Some(report.voltages_mv@[i])
                    == events[i].voltage_mv
                &&& events[i].current_ma is Some ==> Some(report.currents_ma@[i])
                    == events[i].current_ma
                &&& events[i].power_mw is Some ==> Some(report.powers_mw@[i]) == events[i].power_mw
                &&& events[i].voltage_mv is None ==> report.voltages_mv@[i] == 0
                &&& events[i].current_ma is None ==> report.currents_ma@[i] == 0
                &&& events[i].power_mw is None ==> report.powers_mw@[i] == 0
                &&& report.timestamps@[i] == events[i].timestamp.secs
            }
            &&& events.len() > 0 ==> report.alias == Some(events[0].alias) && report.device_id
                == Some(events[0].device_id)
            &&& events.len() > 0 && events.last().total_wh is Some ==> Some(report.power_total)
                == events.last().total_wh
        },
{
}

} // verus!
