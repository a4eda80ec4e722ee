//! Bringing the radio up and keeping it connected.
//!
//! The task performs what [`WifiLoop::action`] asks for and hands the outcome to
//! [`WifiLoop::step`] until the session has ended.
use vstd::prelude::*;
use vstd::utf8::encode_utf8;

verus! {

/// The most bytes that the name of a network has.
pub const SSID_BYTES: usize = 32;

/// The most bytes that the password of a network has.
pub const PASSWORD_BYTES: usize = 64;

/// How long the task waits between two sessions.
pub const SESSION_PAUSE_MILLIS: u64 = 100;

/// The network that the radio joins as a client. What is not named here is left as the driver
/// has it.
#[derive(Debug, PartialEq, Eq)]
pub struct WifiClientConfig {
    pub ssid: String,
    pub password: String,
    /// Stop at the first access point that fits, instead of looking at all channels.
    pub fast_scan: bool,
}

/// Where a session stands. A failure is the driver's error code.
#[derive(Clone, Copy, Debug)]
pub enum WifiState {
    /// No session.
    Idle,
    /// The driver is being told its configuration.
    Configuring,
    /// The driver is being started.
    Starting,
    /// Waiting for as long as the radio is up.
    WaitingDown,
    /// Connecting to the access point.
    Connecting,
    /// Waiting for the radio to be up.
    WaitingUp,
    /// The session is over.
    Ended(Result<(), i32>),
}

/// What the task has to do next.
#[derive(Clone, Copy, Debug)]
pub enum WifiAction {
    SetConfiguration,
    Start,
    WaitWhileUp,
    Connect,
    WaitUntilUp,
    /// Nothing more: the session came to this.
    Finish(Result<(), i32>),
    /// Nothing at all: there is no session.
    Rest,
}

/// What the task does when a session has ended: log the failure, if it was one, and wait.
#[derive(Clone, Copy, Debug)]
pub struct SessionPause {
    pub failure: Option<i32>,
    pub millis: u64,
}

/// The connection of the radio to its network.
#[derive(Clone, Copy, Debug)]
pub struct WifiLoop {
    pub state: WifiState,
    pub exit_after_first_connect: bool,
}

impl WifiLoop {
    /// An action is under way whose outcome is awaited.
    pub open spec fn is_active(self) -> bool {
        !(self.state is Idle) && !(self.state is Ended)
    }

    /// The session is one that connects, and is not over.
    pub open spec fn is_connecting(self) -> bool {
        self.state is WaitingDown || self.state is Connecting || self.state is WaitingUp
    }

    /// Where the outcome of the action that is under way takes the session.
    pub open spec fn after(self, outcome: Result<(), i32>) -> WifiState {
        match outcome {
            Err(code) => WifiState::Ended(Err(code)),
            Ok(_) => match self.state {
                WifiState::Configuring => WifiState::Starting,
                WifiState::Starting => WifiState::Ended(Ok(())),
                WifiState::WaitingDown => WifiState::Connecting,
                WifiState::Connecting => WifiState::WaitingUp,
                WifiState::WaitingUp => if self.exit_after_first_connect {
                    WifiState::Ended(Ok(()))
                } else {
                    WifiState::WaitingDown
                },
                WifiState::Idle => WifiState::Idle,
                WifiState::Ended(r) => WifiState::Ended(r),
            },
        }
    }

    /// No session yet.
    pub fn new() -> (r: WifiLoop)
        ensures
            r.state is Idle,
            !r.exit_after_first_connect,
    {
        WifiLoop { state: WifiState::Idle, exit_after_first_connect: false }
    }

    /// Begins a session that configures and starts the driver. The result is the
    /// configuration.
    pub fn configure(&mut self, ssid: &str, password: &str) -> (r: WifiClientConfig)
        requires
            encode_utf8(ssid@).len() <= SSID_BYTES,
            encode_utf8(password@).len() <= PASSWORD_BYTES,
        ensures
            final(self).state is Configuring,
            final(self).exit_after_first_connect == old(self).exit_after_first_connect,
            r.ssid@ == ssid@,
            r.password@ == password@,
            r.fast_scan,
    {
        self.state = WifiState::Configuring;
        WifiClientConfig { ssid: ssid.to_owned(), password: password.to_owned(), fast_scan: true }
    }

    /// Begins a session that ends once the radio is connected.
    pub fn initial_connect(&mut self)
        ensures
            final(self).state is WaitingDown,
            final(self).exit_after_first_connect,
    {
        self.do_connect_loop(true)
    }

    /// Begins a session that connects, and connects again whenever the connection is lost.
    pub fn stay_connected(&mut self)
        ensures
            final(self).state is WaitingDown,
            !final(self).exit_after_first_connect,
    {
        self.do_connect_loop(false)
    }

    fn do_connect_loop(&mut self, exit_after_first_connect: bool)
        ensures
            final(self).state is WaitingDown,
            final(self).exit_after_first_connect == exit_after_first_connect,
    {
        self.state = WifiState::WaitingDown;
        self.exit_after_first_connect = exit_after_first_connect;
    }

    /// What the task has to do next.
    pub fn action(&self) -> (r: WifiAction)
        ensures
            r == (match self.state {
                WifiState::Idle => WifiAction::Rest,
                WifiState::Configuring => WifiAction::SetConfiguration,
                WifiState::Starting => WifiAction::Start,
                WifiState::WaitingDown => WifiAction::WaitWhileUp,
                WifiState::Connecting => WifiAction::Connect,
                WifiState::WaitingUp => WifiAction::WaitUntilUp,
                WifiState::Ended(r) => WifiAction::Finish(r),
            }),
    {
        match self.state {
            WifiState::Idle => WifiAction::Rest,
            WifiState::Configuring => WifiAction::SetConfiguration,
            WifiState::Starting => WifiAction::Start,
            WifiState::WaitingDown => WifiAction::WaitWhileUp,
            WifiState::Connecting => WifiAction::Connect,
            WifiState::WaitingUp => WifiAction::WaitUntilUp,
            WifiState::Ended(r) => WifiAction::Finish(r),
        }
    }

    /// Takes in what came of the action that was due.
    pub fn step(&mut self, outcome: Result<(), i32>)
        requires
            old(self).is_active(),
        ensures
            final(self).state == old(self).after(outcome),
            final(self).exit_after_first_connect == old(self).exit_after_first_connect,
    {
        match outcome {
            Err(code) => {
                self.state = WifiState::Ended(Err(code));
            },
            Ok(_) => {
                self.state = match self.state {
                    WifiState::Configuring => WifiState::Starting,
                    WifiState::Starting => WifiState::Ended(Ok(())),
                    WifiState::WaitingDown => WifiState::Connecting,
                    WifiState::Connecting => WifiState::WaitingUp,
                    WifiState::WaitingUp => if self.exit_after_first_connect {
                        WifiState::Ended(Ok(()))
                    } else {
                        WifiState::WaitingDown
                    },
                    WifiState::Idle => WifiState::Idle,
                    WifiState::Ended(r) => WifiState::Ended(r),
                };
            },
        }
    }
}

/// What the task that keeps the radio connected does with the end of a session; it then begins
/// another one with [`WifiLoop::stay_connected`].
pub fn wifi_loop(ended: Result<(), i32>) -> (r: SessionPause)
    ensures
        r.failure == (match ended {
            Ok(_) => None,
            Err(code) => Some(code),
        }),
        r.millis == SESSION_PAUSE_MILLIS,
{
    match ended {
        Ok(_) => SessionPause { failure: None, millis: SESSION_PAUSE_MILLIS },
        Err(code) => SessionPause { failure: Some(code), millis: SESSION_PAUSE_MILLIS },
    }
}

/// The session after a number of outcomes, as long as it was not over before.
pub open spec fn session_after(wifi: WifiLoop, outcomes: Seq<Result<(), i32>>) -> WifiLoop
    decreases outcomes.len(),
{
    if outcomes.len() == 0 {
        wifi
    } else {
        let before = session_after(wifi, outcomes.drop_last());
        if before.is_active() {
            WifiLoop { state: before.after(outcomes.last()), ..before }
        } else {
            before
        }
    }
}

/// A session that is to stay connected is over when something fails, and not before: while
/// all goes well it goes on connecting, however long.
pub proof fn law_stay_connected_ends_with_failure_only(
    wifi: WifiLoop,
    outcomes: Seq<Result<(), i32>>,
)
    requires
        wifi.is_connecting(),
        !wifi.exit_after_first_connect,
    ensures
        ({
            let s = session_after(wifi, outcomes);
            &&& !s.exit_after_first_connect
            &&& s.is_connecting() || (s.state matches WifiState::Ended(r) && r is Err)
            &&& s.is_connecting() <==> forall|i: int|
                0 <= i < outcomes.len() ==> #[trigger] outcomes[i] is Ok
        }),
    decreases outcomes.len(),
{
    if outcomes.len() > 0 {
        let rest = outcomes.drop_last();
        law_stay_connected_ends_with_failure_only(wifi, rest);
        assert forall|i: int| 0 <= i < rest.len() implies #[trigger] rest[i] == outcomes[i] by {}
        if forall|i: int| 0 <= i < outcomes.len() ==> #[trigger] outcomes[i] is Ok {
            assert(outcomes[outcomes.len() - 1] is Ok);
            assert forall|i: int| 0 <= i < rest.len() implies #[trigger] rest[i] is Ok by {
                assert(outcomes[i] is Ok);
            }
        } else if session_after(wifi, outcomes).is_connecting() {
            assert forall|i: int| 0 <= i < outcomes.len() implies #[trigger] outcomes[i] is Ok by {
                if i < rest.len() {
                    assert(rest[i] is Ok);
                }
            }
        }
    }
}

proof fn lemma_session_of_fewer(wifi: WifiLoop, outcomes: Seq<Result<(), i32>>, n: int)
    requires
        0 <= n <= outcomes.len(),
        !session_after(wifi, outcomes.take(n)).is_active(),
    ensures
        session_after(wifi, outcomes) == session_after(wifi, outcomes.take(n)),
    decreases outcomes.len(),
{
    if n == outcomes.len() {
        assert(outcomes.take(n) =~= outcomes);
    } else {
        assert(outcomes.take(n) =~= outcomes.drop_last().take(n));
        lemma_session_of_fewer(wifi, outcomes.drop_last(), n);
    }
}

/// Whatever fails first, while a session is under way, ends it, with that failure.
pub proof fn law_first_failure_ends_session(
    wifi: WifiLoop,
    outcomes: Seq<Result<(), i32>>,
    i: int,
)
    requires
        0 <= i < outcomes.len(),
        session_after(wifi, outcomes.take(i)).is_active(),
        outcomes[i] is Err,
    ensures
        session_after(wifi, outcomes).state == WifiState::Ended(outcomes[i]),
{
    assert(outcomes.take(i + 1).drop_last() =~= outcomes.take(i));
    lemma_session_of_fewer(wifi, outcomes, i + 1);
}

/// A session for the first connection ends well exactly when the three things that it does
/// all go well: the radio was not up before, the access point has taken it, and it is up.
pub proof fn law_initial_connect_ends_with_first_connection(
    wifi: WifiLoop,
    outcomes: Seq<Result<(), i32>>,
)
    requires
        wifi.state is WaitingDown,
        wifi.exit_after_first_connect,
    ensures
        session_after(wifi, outcomes).state == WifiState::Ended(Ok(())) <==> (outcomes.len() >= 3
            && outcomes[0] is Ok && outcomes[1] is Ok && outcomes[2] is Ok),
{
    let s0 = session_after(wifi, outcomes.take(0));
    assert(s0 == wifi);
    if outcomes.len() >= 1 {
        let s1 = session_after(wifi, outcomes.take(1));
        assert(outcomes.take(1).drop_last() =~= outcomes.take(0));
        assert(outcomes.take(1).last() == outcomes[0]);
        if outcomes[0] is Err {
            law_first_failure_ends_session(wifi, outcomes, 0);
        } else if outcomes.len() >= 2 {
            let s2 = session_after(wifi, outcomes.take(2));
            assert(outcomes.take(2).drop_last() =~= outcomes.take(1));
            assert(outcomes.take(2).last() == outcomes[1]);
            if outcomes[1] is Err {
                law_first_failure_ends_session(wifi, outcomes, 1);
            } else if outcomes.len() >= 3 {
                let s3 = session_after(wifi, outcomes.take(3));
                assert(outcomes.take(3).drop_last() =~= outcomes.take(2));
                assert(outcomes.take(3).last() == outcomes[2]);
                if outcomes[2] is Err {
                    law_first_failure_ends_session(wifi, outcomes, 2);
                } else {
                    lemma_session_of_fewer(wifi, outcomes, 3);
                }
            } else {
                assert(outcomes.take(2) =~= outcomes);
            }
        } else {
            assert(outcomes.take(1) =~= outcomes);
        }
    } else {
        assert(outcomes.take(0) =~= outcomes);
    }
}

/// A task that steps its session while it is under way adds one outcome to it.
pub proof fn law_steps_make_a_session(
    begun: WifiLoop,
    outcomes: Seq<Result<(), i32>>,
    wifi: &mut WifiLoop,
    outcome: Result<(), i32>,
)
    requires
        session_after(begun, outcomes) == *old(wifi),
        old(wifi).is_active(),
        call_ensures(WifiLoop::step, (wifi, outcome), ()),
    ensures
        session_after(begun, outcomes.push(outcome)) == *final(wifi),
{
    assert(outcomes.push(outcome).drop_last() =~= outcomes);
}

/// A failure ends the session, with its own code, wherever it stood; what goes well takes a
/// session one step on. Whether the session ends with its first connection stays as it was. A
/// step can be taken while a session stands and is not over.
pub proof fn law_session_step(wifi: &mut WifiLoop, outcome: Result<(), i32>)
    requires
        call_ensures(WifiLoop::step, (wifi, outcome), ()),
    ensures
        final(wifi).exit_after_first_connect == old(wifi).exit_after_first_connect,
        outcome matches Err(code) ==> final(wifi).state == WifiState::Ended(Err(code)),
        outcome is Ok ==> match old(wifi).state {
            WifiState::Configuring => final(wifi).state is Starting,
            WifiState::Starting => final(wifi).state == WifiState::Ended(Ok(())),
            WifiState::WaitingDown => final(wifi).state is Connecting,
            WifiState::Connecting => final(wifi).state is WaitingUp,
            WifiState::WaitingUp => if old(wifi).exit_after_first_connect {
                final(wifi).state == WifiState::Ended(Ok(()))
            } else {
                final(wifi).state is WaitingDown
            },
            _ => true,
        },
        !(old(wifi).state is Idle) && !(old(wifi).state is Ended) ==> call_requires(
            WifiLoop::step,
            (wifi, outcome),
        ),
{
}

/// A session that is to stay connected goes round while all goes well: after every third
/// outcome it waits for the connection to be lost, after the next one it connects, and after
/// the one that follows it waits to be up.
pub proof fn law_stay_connected_goes_round(wifi: WifiLoop, outcomes: Seq<Result<(), i32>>)
    requires
        wifi.state is WaitingDown,
        !wifi.exit_after_first_connect,
        forall|i: int| 0 <= i < outcomes.len() ==> #[trigger] outcomes[i] is Ok,
    ensures
        ({
            let s = session_after(wifi, outcomes);
            &&& !s.exit_after_first_connect
            &&& outcomes.len() % 3 == 0 ==> s.state is WaitingDown
            &&& outcomes.len() % 3 == 1 ==> s.state is Connecting
            &&& outcomes.len() % 3 == 2 ==> s.state is WaitingUp
        }),
    decreases outcomes.len(),
{
    if outcomes.len() > 0 {
        let rest = outcomes.drop_last();
        assert forall|i: int| 0 <= i < rest.len() implies #[trigger] rest[i] is Ok by {
            assert(rest[i] == outcomes[i]);
        }
        law_stay_connected_goes_round(wifi, rest);
        assert(outcomes[outcomes.len() - 1] is Ok);
    }
}

/// What the task is asked to do in each state; nothing where there is no session, and to finish
/// with what the session came to where it is over.
pub proof fn law_wifi_action_of_each_state(wifi: WifiLoop, r: WifiAction)
    requires
        call_ensures(WifiLoop::action, (&wifi,), r),
    ensures
        r is Rest <==> wifi.state is Idle,
        r is SetConfiguration <==> wifi.state is Configuring,
        r is Start <==> wifi.state is Starting,
        r is WaitWhileUp <==> wifi.state is WaitingDown,
        r is Connect <==> wifi.state is Connecting,
        r is WaitUntilUp <==> wifi.state is WaitingUp,
        wifi.state matches WifiState::Ended(end) ==> r == WifiAction::Finish(end),
{
}

/// A session that configures the driver begins with being told the network's name and password
/// as they are, with the fast scan, and leaves it open when later sessions end. A name of up to
/// thirty-two bytes and a password of up to sixty-four will do.
pub proof fn law_configure_begins_a_session(
    wifi: &mut WifiLoop,
    ssid: &str,
    password: &str,
    r: WifiClientConfig,
)
    requires
        call_ensures(WifiLoop::configure, (wifi, ssid, password), r),
    ensures
        final(wifi).state is Configuring,
        final(wifi).exit_after_first_connect == old(wifi).exit_after_first_connect,
        r.ssid@ == ssid@,
        r.password@ == password@,
        r.fast_scan,
        encode_utf8(ssid@).len() <= 32 && encode_utf8(password@).len() <= 64 ==> call_requires(
            WifiLoop::configure,
            (wifi, ssid, password),
        ),
{
}

/// A session that connects begins with waiting for the radio to be down, wherever the last one
/// stood; one for the first connection ends with it, one that stays connected does not.
pub proof fn law_connecting_begins_a_session(first: &mut WifiLoop, staying: &mut WifiLoop)
    requires
        call_ensures(WifiLoop::initial_connect, (first,), ()),
        call_ensures(WifiLoop::stay_connected, (staying,), ()),
    ensures
        final(first).state is WaitingDown,
        final(first).exit_after_first_connect,
        final(staying).state is WaitingDown,
        !final(staying).exit_after_first_connect,
{
}

/// At first there is no session.
pub proof fn law_no_session_at_first(wifi: WifiLoop)
    requires
        call_ensures(WifiLoop::new, (), wifi),
    ensures
        wifi.state is Idle,
        !wifi.exit_after_first_connect,
{
}

/// Between two sessions there are a hundred milliseconds, and a failure is logged, with its
/// code, exactly when there was one.
pub proof fn law_pause_between_sessions(ended: Result<(), i32>, r: SessionPause)
    requires
        call_ensures(wifi_loop, (ended,), r),
    ensures
        r.millis == 100,
        r.failure is Some <==> ended is Err,
        ended matches Err(code) ==> r.failure == Some(code),
{
}

} // verus!
