//! The button: each press is told to the lamp, and the lamp is made to start over.
//!
//! The task performs what [`ButtonTask::action`] asks for and hands the outcome to
//! [`ButtonTask::step`], over and over.
use vstd::prelude::*;

use crate::time::Timestamp;

verus! {

/// How long the button is not looked at after a press.
pub const REST_MILLIS: u64 = 1000;

/// Where the task stands.
#[derive(Clone, Copy, Debug, PartialEq, Eq, Structural)]
pub enum ButtonState {
    /// Waiting for a press.
    Waiting,
    /// The button was pressed; when?
    Stamping,
    /// About to tell the lamp when the button was pressed, in microseconds since 1970.
    Telling { micros: i64 },
    /// About to make the lamp start over.
    Restarting,
    /// Not looking at the button for a while.
    Resting,
}

/// What the task has to do next.
#[derive(Clone, Copy, Debug, PartialEq, Eq, Structural)]
pub enum ButtonAction {
    WaitForPress,
    ReadClock,
    Publish { micros: i64 },
    RaiseRestart,
    Sleep { millis: u64 },
}

/// What came of an action.
#[derive(Clone, Copy, Debug)]
pub enum ButtonEvent {
    Clock(Timestamp),
    /// The press came, the message or the flag is out, or the time to sleep is over.
    Done,
}

#[derive(Clone, Copy, Debug)]
pub struct ButtonTask {
    pub state: ButtonState,
}

impl ButtonTask {
    /// `event` can come of the action that is due.
    pub open spec fn accepts(self, event: ButtonEvent) -> bool {
        match self.state {
            ButtonState::Stamping => event matches ButtonEvent::Clock(now) && now.valid(),
            _ => event is Done,
        }
    }

    /// Where `event` takes the task.
    pub open spec fn after(self, event: ButtonEvent) -> ButtonState {
        match self.state {
            ButtonState::Waiting => ButtonState::Stamping,
            ButtonState::Stamping => ButtonState::Telling {
                micros: (event->Clock_0.secs * 1_000_000 + event->Clock_0.nanos as int
                    / 1000) as i64,
            },
            ButtonState::Telling { micros } => ButtonState::Restarting,
            ButtonState::Restarting => ButtonState::Resting,
            ButtonState::Resting => ButtonState::Waiting,
        }
    }

    /// The task at its start.
    pub fn new() -> (r: ButtonTask)
        ensures
            r.state == ButtonState::Waiting,
    {
        ButtonTask { state: ButtonState::Waiting }
    }

    /// What the task has to do next.
    pub fn action(&self) -> (r: ButtonAction)
        ensures
            r == (match self.state {
                ButtonState::Waiting => ButtonAction::WaitForPress,
                ButtonState::Stamping => ButtonAction::ReadClock,
                ButtonState::Telling { micros } => ButtonAction::Publish { micros },
                ButtonState::Restarting => ButtonAction::RaiseRestart,
                ButtonState::Resting => ButtonAction::Sleep { millis: REST_MILLIS },
            }),
    {
        match self.state {
            ButtonState::Waiting => ButtonAction::WaitForPress,
            ButtonState::Stamping => ButtonAction::ReadClock,
            ButtonState::Telling { micros } => ButtonAction::Publish { micros },
            ButtonState::Restarting => ButtonAction::RaiseRestart,
            ButtonState::Resting => ButtonAction::Sleep { millis: REST_MILLIS },
        }
    }

    /// Takes in what came of the action that was due.
    pub fn step(&mut self, event: ButtonEvent)
        requires
            old(self).accepts(event),
        ensures
            final(self).state == old(self).after(event),
    {
        self.state = match (self.state, event) {
            (ButtonState::Waiting, _) => ButtonState::Stamping,
            (ButtonState::Stamping, ButtonEvent::Clock(now)) => ButtonState::Telling {
                micros: now.timestamp_micros(),
            },
            (ButtonState::Telling { .. }, _) => ButtonState::Restarting,
            (ButtonState::Restarting, _) => ButtonState::Resting,
            (ButtonState::Resting, _) => ButtonState::Waiting,
            (state, _) => state,
        };
    }
}

/// One press leads to one message, which says when it was; then the flag is raised, the
/// button rests, and the task waits for the next press.
pub proof fn law_one_message_per_press(task: ButtonTask, now: Timestamp)
    requires
        task.state == ButtonState::Waiting,
        now.valid(),
    ensures
        ({
            let stamping = ButtonTask { state: task.after(ButtonEvent::Done) };
            let telling = ButtonTask { state: stamping.after(ButtonEvent::Clock(now)) };
            let restarting = ButtonTask { state: telling.after(ButtonEvent::Done) };
            let resting = ButtonTask { state: restarting.after(ButtonEvent::Done) };
            &&& stamping.accepts(ButtonEvent::Clock(now))
            &&& telling.state matches ButtonState::Telling { micros }
            &&& micros == now.secs * 1_000_000 + now.nanos as int / 1000
            &&& restarting.state == ButtonState::Restarting
            &&& resting.state == ButtonState::Resting
            &&& resting.after(ButtonEvent::Done) == ButtonState::Waiting
        }),
{
}

/// Each state has its action and one way on: wait for the press, read the clock, tell the lamp
/// in microseconds, raise the flag, rest for a thousand milliseconds, and wait again. Every
/// point of the calendar is taken in.
pub proof fn law_button_goes_round(
    task: ButtonTask,
    r: ButtonAction,
    event: ButtonEvent,
    held: &mut ButtonTask,
)
    requires
        call_ensures(ButtonTask::action, (&task,), r),
        *old(held) == task,
        call_ensures(ButtonTask::step, (held, event), ()),
        task.state == ButtonState::Stamping ==> (event matches ButtonEvent::Clock(now)
            && now.valid()),
        task.state != ButtonState::Stamping ==> event is Done,
    ensures
        call_requires(ButtonTask::step, (held, event)),
        match task.state {
            ButtonState::Waiting => r == ButtonAction::WaitForPress && final(held).state
                == ButtonState::Stamping,
            ButtonState::Stamping => {
                &&& r == ButtonAction::ReadClock
                &&& final(held).state matches ButtonState::Telling { micros }
                &&& event matches ButtonEvent::Clock(now)
                &&& micros * 1000 <= now.secs * 1_000_000_000 + now.nanos < micros * 1000 + 1000
            },
            ButtonState::Telling { micros } => {
                &&& r == (ButtonAction::Publish { micros })
                &&& final(held).state == ButtonState::Restarting
            },
            ButtonState::Restarting => r == ButtonAction::RaiseRestart && final(held).state
                == ButtonState::Resting,
            ButtonState::Resting => {
                &&& r == (ButtonAction::Sleep { millis: 1000 })
                &&& final(held).state == ButtonState::Waiting
            },
        },
{
}

/// The task begins by waiting for a press.
pub proof fn law_button_begins_waiting(task: ButtonTask)
    requires
        call_ensures(ButtonTask::new, (), task),
    ensures
        task.state == ButtonState::Waiting,
{
}

} // verus!
