//! The lamp: it blinks slowly, and flickers for a while when the button was pressed.
//!
//! The task performs what [`LedTask::action`] asks for and hands the outcome to
//! [`LedTask::step`], over and over.
use vstd::prelude::*;

use crate::time::{elapsed, TimeSpan, Timestamp, NANOS_PER_SEC};

verus! {

/// How long the lamp flickers after the button was pressed.
pub const FLICKER_SECS: i64 = 5;

/// How long the lamp stays as it is while it flickers.
pub const FLICKER_MILLIS: u64 = 100;

/// How long the lamp stays as it is while it blinks.
pub const BLINK_MILLIS: i64 = 1000;

/// How often a wait looks up where nothing else is asked for.
pub const DEFAULT_POLL_MILLIS: u64 = 100;

/// How often the lamp's waits look up.
pub const BLINK_POLL_MILLIS: u64 = 100;

/// A wait that can be cut short: it lasts for `limit` from `start` on, and looks up every
/// `poll_millis` milliseconds.
#[derive(Clone, Copy, Debug)]
pub struct Wait {
    pub start: Timestamp,
    pub limit: TimeSpan,
    pub poll_millis: u64,
}

/// Begins a wait of `duration_millis` milliseconds; `start` is what the clock shows.
pub fn wait_for_duration_with_interrupt(
    duration_millis: i64,
    poll_millis: Option<u64>,
    start: Timestamp,
) -> (r: Wait)
    requires
        duration_millis != i64::MIN,
    ensures
        r.start == start,
        r.limit.valid(),
        r.limit.total() == duration_millis * 1_000_000,
        r.poll_millis == (match poll_millis {
            Some(millis) => millis,
            None => DEFAULT_POLL_MILLIS,
        }),
{
    let poll_millis: u64 = poll_millis.unwrap_or(DEFAULT_POLL_MILLIS);
    Wait { start, limit: TimeSpan::milliseconds(duration_millis), poll_millis }
}

/// Less than `span` nanoseconds have passed from `start` to `now`.
pub open spec fn within(start: Timestamp, now: Timestamp, span: int) -> bool {
    elapsed(now.secs as int, now.nanos as int, start.secs as int, start.nanos as int) < span
}

impl Wait {
    /// The wait goes on: its time is not up, and nothing cut it short.
    pub open spec fn goes_on(self, now: Timestamp, interrupted: bool) -> bool {
        within(self.start, now, self.limit.total()) && !interrupted
    }

    /// Whether the wait goes on for another look.
    pub fn keeps_waiting(&self, now: &Timestamp, interrupted: bool) -> (r: bool)
        requires
            self.start.valid(),
            self.limit.valid(),
            now.valid(),
        ensures
            r == self.goes_on(*now, interrupted),
    {
        now.since(&self.start).less_than(&self.limit) && !interrupted
    }
}

/// Where the task stands. While the lamp blinks, `lit` tells its lit half from its dark half.
#[derive(Clone, Copy, Debug)]
pub enum LedState {
    /// About to see whether the button was pressed.
    Polling,
    /// The button was pressed; the time to flicker begins.
    FlickerBegin,
    /// Is there time left to flicker?
    FlickerCheck { start: Timestamp },
    /// About to change the lamp.
    FlickerSet { start: Timestamp, high: bool },
    /// The lamp was changed.
    FlickerHold { start: Timestamp },
    /// About to light or darken the lamp.
    BlinkSet { lit: bool },
    /// The lamp was lit or darkened; the wait begins.
    BlinkBegin { lit: bool },
    /// Does the wait go on?
    BlinkCheck { lit: bool, wait: Wait },
    /// The wait goes on.
    BlinkHold { lit: bool, wait: Wait },
    /// The wait is over; was it cut short?
    BlinkEnd { lit: bool },
}

/// What the task has to do next.
#[derive(Clone, Copy, Debug)]
pub enum LedAction {
    /// Take the restart flag down, then see whether the button sent a message.
    PollButton,
    /// See what the clock shows.
    ReadClock,
    /// See what the clock shows, whether the restart flag is up, and whether the lamp is lit.
    Sample,
    /// See whether the restart flag is up.
    ReadRestart,
    /// Light or darken the lamp.
    SetLamp { high: bool },
    Sleep { millis: u64 },
}

/// What the button's channel holds for the lamp.
#[derive(Clone, Copy, Debug)]
pub enum ButtonSignal {
    /// A press, in microseconds since 1970.
    Pressed(i64),
    /// So many presses that were overwritten before the lamp saw them.
    Missed(u64),
}

/// What came of an action.
#[derive(Clone, Copy, Debug)]
pub enum LedEvent {
    /// What the button's channel held, if it held anything; a missed press counts like one
    /// that was seen.
    Message(Option<ButtonSignal>),
    Clock(Timestamp),
    Sample { now: Timestamp, restart: bool, lamp_high: bool },
    Restart(bool),
    /// The lamp is as it was asked for, or the time to sleep is over.
    Done,
}

#[derive(Clone, Copy, Debug)]
pub struct LedTask {
    pub state: LedState,
}

impl LedTask {
    /// The points in time that the task remembers are ones that it can count from.
    pub open spec fn wf(self) -> bool {
        match self.state {
            LedState::FlickerCheck { start } => start.valid(),
            LedState::FlickerSet { start, high } => start.valid(),
            LedState::FlickerHold { start } => start.valid(),
            LedState::BlinkCheck { lit, wait } => is_blink_wait(wait),
            LedState::BlinkHold { lit, wait } => is_blink_wait(wait),
            _ => true,
        }
    }

    /// `event` can come of the action that is due.
    pub open spec fn accepts(self, event: LedEvent) -> bool {
        match self.state {
            LedState::Polling => event is Message,
            LedState::FlickerBegin => event matches LedEvent::Clock(now) && now.valid(),
            LedState::FlickerCheck { start } => event matches LedEvent::Sample {
                now,
                restart,
                lamp_high,
            } && now.valid(),
            LedState::FlickerSet { start, high } => event is Done,
            LedState::FlickerHold { start } => event is Done,
            LedState::BlinkSet { lit } => event is Done,
            LedState::BlinkBegin { lit } => event matches LedEvent::Clock(now) && now.valid(),
            LedState::BlinkCheck { lit, wait } => event matches LedEvent::Sample {
                now,
                restart,
                lamp_high,
            } && now.valid(),
            LedState::BlinkHold { lit, wait } => event is Done,
            LedState::BlinkEnd { lit } => event is Restart,
        }
    }

    /// `next` is where `event` takes the task.
    pub open spec fn leads_to(self, event: LedEvent, next: LedTask) -> bool {
        match self.state {
            LedState::Polling => next.state == (if event->Message_0 is Some {
                LedState::FlickerBegin
            } else {
                LedState::BlinkSet { lit: true }
            }),
            LedState::FlickerBegin => next.state == (LedState::FlickerCheck {
                start: event->Clock_0,
            }),
            LedState::FlickerCheck { start } => next.state == (if within(
                start,
                event->now,
                FLICKER_SECS * NANOS_PER_SEC,
            ) && !event->restart {
                LedState::FlickerSet { start, high: !event->lamp_high }
            } else {
                LedState::Polling
            }),
            LedState::FlickerSet { start, high } => next.state == (LedState::FlickerHold {
                start,
            }),
            LedState::FlickerHold { start } => next.state == (LedState::FlickerCheck { start }),
            LedState::BlinkSet { lit } => next.state == (LedState::BlinkBegin { lit }),
            LedState::BlinkBegin { lit } => {
                &&& next.state matches LedState::BlinkCheck { lit: next_lit, wait }
                &&& next_lit == lit
                &&& wait.start == event->Clock_0
                &&& is_blink_wait(wait)
            },
            LedState::BlinkCheck { lit, wait } => next.state == (if wait.goes_on(
                event->now,
                event->restart,
            ) {
                LedState::BlinkHold { lit, wait }
            } else {
                LedState::BlinkEnd { lit }
            }),
            LedState::BlinkHold { lit, wait } => next.state == (LedState::BlinkCheck {
                lit,
                wait,
            }),
            LedState::BlinkEnd { lit } => next.state == (if lit && !event->Restart_0 {
                LedState::BlinkSet { lit: false }
            } else {
                LedState::Polling
            }),
        }
    }

    /// The task at its start.
    pub fn new() -> (r: LedTask)
        ensures
            r.state is Polling,
            r.wf(),
    {
        LedTask { state: LedState::Polling }
    }

    /// What the task has to do next.
    pub fn action(&self) -> (r: LedAction)
        ensures
            r == (match self.state {
                LedState::Polling => LedAction::PollButton,
                LedState::FlickerBegin => LedAction::ReadClock,
                LedState::FlickerCheck { start } => LedAction::Sample,
                LedState::FlickerSet { start, high } => LedAction::SetLamp { high },
                LedState::FlickerHold { start } => LedAction::Sleep { millis: FLICKER_MILLIS },
                LedState::BlinkSet { lit } => LedAction::SetLamp { high: lit },
                LedState::BlinkBegin { lit } => LedAction::ReadClock,
                LedState::BlinkCheck { lit, wait } => LedAction::Sample,
                LedState::BlinkHold { lit, wait } => LedAction::Sleep { millis: wait.poll_millis },
                LedState::BlinkEnd { lit } => LedAction::ReadRestart,
            }),
    {
        match self.state {
            LedState::Polling => LedAction::PollButton,
            LedState::FlickerBegin => LedAction::ReadClock,
            LedState::FlickerCheck { .. } => LedAction::Sample,
            LedState::FlickerSet { high, .. } => LedAction::SetLamp { high },
            LedState::FlickerHold { .. } => LedAction::Sleep { millis: FLICKER_MILLIS },
            LedState::BlinkSet { lit } => LedAction::SetLamp { high: lit },
            LedState::BlinkBegin { .. } => LedAction::ReadClock,
            LedState::BlinkCheck { .. } => LedAction::Sample,
            LedState::BlinkHold { wait, .. } => LedAction::Sleep { millis: wait.poll_millis },
            LedState::BlinkEnd { .. } => LedAction::ReadRestart,
        }
    }

    /// Takes in what came of the action that was due.
    pub fn step(&mut self, event: LedEvent)
        requires
            old(self).wf(),
            old(self).accepts(event),
        ensures
            old(self).leads_to(event, *final(self)),
            final(self).wf(),
    {
        self.state = match (self.state, event) {
            (LedState::Polling, LedEvent::Message(Some(_))) => LedState::FlickerBegin,
            (LedState::Polling, LedEvent::Message(None)) => LedState::BlinkSet { lit: true },
            (LedState::FlickerBegin, LedEvent::Clock(now)) => LedState::FlickerCheck {
                start: now,
            },
            (
                LedState::FlickerCheck { start },
                LedEvent::Sample { now, restart, lamp_high },
            ) => {
                if now.since(&start).less_than(&TimeSpan::seconds(FLICKER_SECS)) && !restart {
                    LedState::FlickerSet { start, high: !lamp_high }
                } else {
                    LedState::Polling
                }
            },
            (LedState::FlickerSet { start, .. }, LedEvent::Done) => LedState::FlickerHold {
                start,
            },
            (LedState::FlickerHold { start }, LedEvent::Done) => LedState::FlickerCheck { start },
            (LedState::BlinkSet { lit }, LedEvent::Done) => LedState::BlinkBegin { lit },
            (LedState::BlinkBegin { lit }, LedEvent::Clock(now)) => LedState::BlinkCheck {
                lit,
                wait: wait_for_duration_with_interrupt(BLINK_MILLIS, Some(BLINK_POLL_MILLIS), now),
            },
            (LedState::BlinkCheck { lit, wait }, LedEvent::Sample { now, restart, .. }) => {
                if wait.keeps_waiting(&now, restart) {
                    LedState::BlinkHold { lit, wait }
                } else {
                    LedState::BlinkEnd { lit }
                }
            },
            (LedState::BlinkHold { lit, wait }, LedEvent::Done) => LedState::BlinkCheck {
                lit,
                wait,
            },
            (LedState::BlinkEnd { lit }, LedEvent::Restart(restart)) => {
                if lit && !restart {
                    LedState::BlinkSet { lit: false }
                } else {
                    LedState::Polling
                }
            },
            (state, _) => state,
        };
    }
}

/// `wait` is one of the waits of the blinking lamp.
pub open spec fn is_blink_wait(wait: Wait) -> bool {
    &&& wait.start.valid()
    &&& wait.limit.valid()
    &&& wait.limit.total() == BLINK_MILLIS * 1_000_000
    &&& wait.poll_millis == BLINK_POLL_MILLIS
}

/// While there is time left to flicker and nothing cuts it short, the lamp is turned from what
/// it is to the opposite, held, and looked at again, with the time counted from the same point.
pub proof fn law_flicker_toggles(
    check: LedTask,
    set: LedTask,
    hold: LedTask,
    again: LedTask,
    start: Timestamp,
    now: Timestamp,
    lamp_high: bool,
)
    requires
        check.state == (LedState::FlickerCheck { start }),
        within(start, now, FLICKER_SECS * NANOS_PER_SEC),
        check.leads_to(LedEvent::Sample { now, restart: false, lamp_high }, set),
        set.leads_to(LedEvent::Done, hold),
        hold.leads_to(LedEvent::Done, again),
    ensures
        set.state == (LedState::FlickerSet { start, high: !lamp_high }),
        hold.state == (LedState::FlickerHold { start }),
        again.state == check.state,
{
}

/// A restart flag that is up ends flickering and either half of blinking at the next look: the
/// task sees to the button again before it touches the lamp.
pub proof fn law_restart_cuts_short(
    task: LedTask,
    now: Timestamp,
    lamp_high: bool,
    next: LedTask,
    end: LedTask,
)
    requires
        task.state is FlickerCheck || task.state is BlinkCheck,
        task.leads_to(LedEvent::Sample { now, restart: true, lamp_high }, next),
        next.state is BlinkEnd ==> next.leads_to(LedEvent::Restart(true), end),
    ensures
        task.state is FlickerCheck ==> next.state is Polling,
        task.state is BlinkCheck ==> next.state is BlinkEnd && end.state is Polling,
{
}

/// When the time of a flicker or of a wait is up, it is over, whatever the restart flag says.
pub proof fn law_time_up_ends(
    task: LedTask,
    now: Timestamp,
    restart: bool,
    lamp_high: bool,
    next: LedTask,
)
    requires
        task.leads_to(LedEvent::Sample { now, restart, lamp_high }, next),
        (task.state matches LedState::FlickerCheck { start } && !within(
            start,
            now,
            FLICKER_SECS * NANOS_PER_SEC,
        )) || (task.state matches LedState::BlinkCheck { lit, wait } && !within(
            wait.start,
            now,
            wait.limit.total(),
        )),
    ensures
        task.state is FlickerCheck ==> next.state is Polling,
        task.state is BlinkCheck ==> next.state is BlinkEnd,
{
}

/// The lamp is darkened only after a lit wait that was not cut short.
pub proof fn law_dark_follows_full_lit(task: LedTask, event: LedEvent, next: LedTask)
    requires
        task.accepts(event),
        task.leads_to(event, next),
        next.state == (LedState::BlinkSet { lit: false }),
    ensures
        task.state == (LedState::BlinkEnd { lit: true }),
        event == LedEvent::Restart(false),
{
}

/// What the button's channel held decides between flickering and blinking: a press does, seen
/// or missed and whenever it was, and so begins the flicker at the point that the clock shows.
pub proof fn law_any_press_flickers(task: &mut LedTask, event: LedEvent)
    requires
        old(task).wf(),
        old(task).accepts(event),
        call_ensures(LedTask::step, (task, event), ()),
    ensures
        old(task).state is Polling ==> match event {
            LedEvent::Message(Some(_)) => final(task).state is FlickerBegin,
            LedEvent::Message(None) => final(task).state == (LedState::BlinkSet { lit: true }),
            _ => false,
        },
        old(task).state is FlickerBegin ==> match event {
            LedEvent::Clock(now) => final(task).state == (LedState::FlickerCheck { start: now }),
            _ => false,
        },
{
}

/// The lamp goes on flickering while the span since the flicker began is less than five seconds
/// and the restart flag is down; each time it is turned to the opposite of what it is.
pub proof fn law_flicker_lasts_five_seconds(
    task: &mut LedTask,
    start: Timestamp,
    now: Timestamp,
    span: TimeSpan,
    restart: bool,
    lamp_high: bool,
)
    requires
        old(task).state == (LedState::FlickerCheck { start }),
        start.valid(),
        now.valid(),
        call_ensures(Timestamp::since, (&now, &start), span),
        call_ensures(LedTask::step, (task, LedEvent::Sample { now, restart, lamp_high }), ()),
    ensures
        span.secs * 1_000_000_000 + span.nanos < 5_000_000_000 && !restart ==> final(task).state
            == (LedState::FlickerSet { start, high: !lamp_high }),
        span.secs * 1_000_000_000 + span.nanos >= 5_000_000_000 || restart
            ==> final(task).state is Polling,
{
}

/// Either half of the blinking waits while the span since its wait began is less than one second
/// and the restart flag is down, whatever the lamp is.
pub proof fn law_blink_waits_one_second(
    task: &mut LedTask,
    lit: bool,
    wait: Wait,
    now: Timestamp,
    span: TimeSpan,
    restart: bool,
    lamp_high: bool,
)
    requires
        old(task).wf(),
        old(task).state == (LedState::BlinkCheck { lit, wait }),
        now.valid(),
        call_ensures(Timestamp::since, (&now, &wait.start), span),
        call_ensures(LedTask::step, (task, LedEvent::Sample { now, restart, lamp_high }), ()),
    ensures
        span.secs * 1_000_000_000 + span.nanos < 1_000_000_000 && !restart ==> final(task).state
            == (LedState::BlinkHold { lit, wait }),
        span.secs * 1_000_000_000 + span.nanos >= 1_000_000_000 || restart ==> final(task).state
            == (LedState::BlinkEnd { lit }),
{
}

/// The wait of a blink begins at the point that the clock shows, lasts one second and looks up
/// every hundred milliseconds, for the lit half and for the dark half alike.
pub proof fn law_blink_wait_begins(task: &mut LedTask, lit: bool, now: Timestamp)
    requires
        old(task).state == (LedState::BlinkBegin { lit }),
        call_ensures(LedTask::step, (task, LedEvent::Clock(now)), ()),
    ensures
        final(task).state matches LedState::BlinkCheck { lit: half, wait } && {
            &&& half == lit
            &&& wait.start == now
            &&& wait.limit.secs * 1_000_000_000 + wait.limit.nanos == 1_000_000_000
            &&& wait.limit.nanos < 1_000_000_000
            &&& wait.poll_millis == 100
        },
{
}

/// A wait that is over is followed by the dark half exactly when it was the lit half's and the
/// flag is down; else the button is seen to.
pub proof fn law_dark_half_follows(task: &mut LedTask, lit: bool, restart: bool)
    requires
        old(task).state == (LedState::BlinkEnd { lit }),
        call_ensures(LedTask::step, (task, LedEvent::Restart(restart)), ()),
    ensures
        lit && !restart ==> final(task).state == (LedState::BlinkSet { lit: false }),
        !lit || restart ==> final(task).state is Polling,
{
}

/// When the lamp is as it was asked for, or a sleep is over, the task goes on with what it was
/// at, and all that it remembers stays.
pub proof fn law_done_goes_on(task: &mut LedTask)
    requires
        call_ensures(LedTask::step, (task, LedEvent::Done), ()),
    ensures
        match old(task).state {
            LedState::FlickerSet { start, high } => final(task).state == (LedState::FlickerHold {
                start,
            }),
            LedState::FlickerHold { start } => final(task).state == (LedState::FlickerCheck {
                start,
            }),
            LedState::BlinkSet { lit } => final(task).state == (LedState::BlinkBegin { lit }),
            LedState::BlinkHold { lit, wait } => final(task).state == (LedState::BlinkCheck {
                lit,
                wait,
            }),
            _ => true,
        },
{
}

/// Each action has its outcomes, and the task takes every one of them in: any message or none,
/// any point of the calendar, either flag and either lamp.
pub proof fn law_led_takes_every_outcome(
    task: LedTask,
    r: LedAction,
    now: Timestamp,
    message: Option<ButtonSignal>,
    restart: bool,
    lamp_high: bool,
    held: &mut LedTask,
)
    requires
        task.wf(),
        now.valid(),
        call_ensures(LedTask::action, (&task,), r),
        *old(held) == task,
    ensures
        match r {
            LedAction::PollButton => call_requires(
                LedTask::step,
                (held, LedEvent::Message(message)),
            ),
            LedAction::ReadClock => call_requires(LedTask::step, (held, LedEvent::Clock(now))),
            LedAction::Sample => call_requires(
                LedTask::step,
                (held, LedEvent::Sample { now, restart, lamp_high }),
            ),
            LedAction::ReadRestart => call_requires(
                LedTask::step,
                (held, LedEvent::Restart(restart)),
            ),
            LedAction::SetLamp { high } => call_requires(LedTask::step, (held, LedEvent::Done)),
            LedAction::Sleep { millis } => call_requires(LedTask::step, (held, LedEvent::Done)),
        },
{
}

/// What is asked for in each state: the lamp is set to what the state says, and every sleep is
/// a hundred milliseconds.
pub proof fn law_led_action_of_each_state(task: LedTask, r: LedAction)
    requires
        task.wf(),
        call_ensures(LedTask::action, (&task,), r),
    ensures
        r is PollButton <==> task.state is Polling,
        r is ReadClock <==> task.state is FlickerBegin || task.state is BlinkBegin,
        r is Sample <==> task.state is FlickerCheck || task.state is BlinkCheck,
        r is ReadRestart <==> task.state is BlinkEnd,
        r is Sleep <==> task.state is FlickerHold || task.state is BlinkHold,
        r matches LedAction::Sleep { millis } ==> millis == 100,
        task.state matches LedState::FlickerSet { start, high } ==> r == (LedAction::SetLamp {
            high,
        }),
        task.state matches LedState::BlinkSet { lit } ==> r == (LedAction::SetLamp { high: lit }),
{
}

/// A wait starts where it was told to, lasts as many milliseconds as it was told to, and looks
/// up as often as it was told to, or every hundred milliseconds where it was not told. It goes on
/// while the span since its start is less than that and nothing cuts it short.
pub proof fn law_wait_lasts_as_told(
    duration_millis: i64,
    poll_millis: Option<u64>,
    start: Timestamp,
    wait: Wait,
    now: Timestamp,
    span: TimeSpan,
    interrupted: bool,
    r: bool,
)
    requires
        duration_millis > -0x8000_0000_0000_0000,
        call_ensures(
            wait_for_duration_with_interrupt,
            (duration_millis, poll_millis, start),
            wait,
        ),
        start.valid(),
        now.valid(),
        call_ensures(Timestamp::since, (&now, &start), span),
        call_ensures(Wait::keeps_waiting, (&wait, &now, interrupted), r),
    ensures
        wait.start == start,
        poll_millis is Some ==> Some(wait.poll_millis) == poll_millis,
        poll_millis is None ==> wait.poll_millis == 100,
        r <==> !interrupted && span.secs * 1_000_000_000 + span.nanos < duration_millis
            * 1_000_000,
        call_requires(
            wait_for_duration_with_interrupt,
            (duration_millis, poll_millis, start),
        ),
        call_requires(Wait::keeps_waiting, (&wait, &now, interrupted)),
{
}

/// The task begins by seeing to the button.
pub proof fn law_led_begins_with_the_button(task: LedTask)
    requires
        call_ensures(LedTask::new, (), task),
    ensures
        task.state is Polling,
        task.wf(),
{
}

} // verus!
