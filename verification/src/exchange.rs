//! One exchange with the plug over a connection: the request goes out, the answer comes in.
//!
//! The task performs what [`Exchange::action`] asks for and hands the outcome to
//! [`Exchange::step`] until the exchange has ended.
use vstd::prelude::*;

use crate::protocol::{
    ascii_bytes, be_bytes, be_value, body_len, deciphered, decode_body, enciphered,
    law_frame_round_trip, request_frame, Frame, KASA_REQUEST,
};

verus! {

/// How far an exchange has come.
#[derive(Debug)]
pub enum ExchangeState {
    /// About to write the length of the request.
    WritingHeader,
    /// About to write the request.
    WritingBody,
    /// About to read the length of the answer.
    ReadingHeader,
    /// About to read the answer.
    ReadingBody { len: usize },
    /// The answer is there, or the connection failed.
    Ended(Option<Vec<u8>>),
}

/// What the task has to do next.
#[derive(Debug, PartialEq, Eq)]
pub enum ExchangeAction {
    /// Write all of these bytes.
    Write(Vec<u8>),
    /// Read exactly so many bytes.
    Read(usize),
    /// Nothing more.
    Finish,
}

/// What came of an action.
#[derive(Debug)]
pub enum ExchangeEvent {
    Written,
    Read(Vec<u8>),
    Failed,
}

#[derive(Debug)]
pub struct Exchange {
    pub state: ExchangeState,
    pub request: Frame,
}

impl Exchange {
    /// The frame in hand is the request for a reading.
    pub open spec fn wf(self) -> bool {
        &&& self.request.header@ == be_bytes(58)
        &&& self.request.body@ == enciphered(ascii_bytes(KASA_REQUEST@))
    }

    /// `event` can come of the action that is due.
    pub open spec fn accepts(self, event: ExchangeEvent) -> bool {
        match self.state {
            ExchangeState::WritingHeader => !(event is Read),
            ExchangeState::WritingBody => !(event is Read),
            ExchangeState::ReadingHeader => match event {
                ExchangeEvent::Written => false,
                ExchangeEvent::Read(bytes) => bytes@.len() == 4,
                ExchangeEvent::Failed => true,
            },
            ExchangeState::ReadingBody { len } => match event {
                ExchangeEvent::Written => false,
                ExchangeEvent::Read(bytes) => bytes@.len() == len,
                ExchangeEvent::Failed => true,
            },
            ExchangeState::Ended(_) => false,
        }
    }

    /// `next` is where `event` takes the exchange.
    pub open spec fn leads_to(self, event: ExchangeEvent, next: Exchange) -> bool {
        &&& next.request == self.request
        &&& match event {
            ExchangeEvent::Failed => next.state == ExchangeState::Ended(None),
            ExchangeEvent::Written => next.state == (if self.state is WritingHeader {
                ExchangeState::WritingBody
            } else {
                ExchangeState::ReadingHeader
            }),
            ExchangeEvent::Read(bytes) => if self.state is ReadingHeader {
                next.state matches ExchangeState::ReadingBody { len } && len == be_value(bytes@)
            } else {
                next.state matches ExchangeState::Ended(Some(reply)) && reply@ == deciphered(
                    bytes@,
                )
            },
        }
    }

    /// An exchange that asks for a reading.
    pub fn new() -> (r: Exchange)
        ensures
            r.state is WritingHeader,
            r.wf(),
    {
        Exchange { state: ExchangeState::WritingHeader, request: request_frame() }
    }

    /// What the task has to do next.
    pub fn action(&self) -> (r: ExchangeAction)
        ensures
            match self.state {
                ExchangeState::WritingHeader => r matches ExchangeAction::Write(bytes) && bytes@
                    == self.request.header@,
                ExchangeState::WritingBody => r matches ExchangeAction::Write(bytes) && bytes@
                    == self.request.body@,
                ExchangeState::ReadingHeader => r == ExchangeAction::Read(4),
                ExchangeState::ReadingBody { len } => r == ExchangeAction::Read(len),
                ExchangeState::Ended(_) => r == ExchangeAction::Finish,
            },
    {
        match &self.state {
            ExchangeState::WritingHeader => {
                let h = self.request.header;
                let bytes: Vec<u8> = vec![h[0], h[1], h[2], h[3]];
                assert(bytes@ =~= h@);
                ExchangeAction::Write(bytes)
            },
            ExchangeState::WritingBody => {
                let bytes = self.request.body.clone();
                assert(bytes@ =~= self.request.body@);
                ExchangeAction::Write(bytes)
            },
            ExchangeState::ReadingHeader => ExchangeAction::Read(4),
            ExchangeState::ReadingBody { len } => ExchangeAction::Read(*len),
            ExchangeState::Ended(_) => ExchangeAction::Finish,
        }
    }

    /// Whether `event` can be handed to [`Exchange::step`] now.
    pub fn can_step(&self, event: &ExchangeEvent) -> (r: bool)
        ensures
            r == self.accepts(*event),
    {
        match (&self.state, event) {
            (ExchangeState::WritingHeader, ExchangeEvent::Read(_)) => false,
            (ExchangeState::WritingHeader, _) => true,
            (ExchangeState::WritingBody, ExchangeEvent::Read(_)) => false,
            (ExchangeState::WritingBody, _) => true,
            (ExchangeState::ReadingHeader, ExchangeEvent::Written) => false,
            (ExchangeState::ReadingHeader, ExchangeEvent::Read(bytes)) => bytes.len() == 4,
            (ExchangeState::ReadingHeader, ExchangeEvent::Failed) => true,
            (ExchangeState::ReadingBody { .. }, ExchangeEvent::Written) => false,
            (ExchangeState::ReadingBody { len }, ExchangeEvent::Read(bytes)) => bytes.len() == *len,
            (ExchangeState::ReadingBody { .. }, ExchangeEvent::Failed) => true,
            (ExchangeState::Ended(_), _) => false,
        }
    }

    /// Takes in what came of the action that was due.
    pub fn step(&mut self, event: ExchangeEvent)
        requires
            old(self).accepts(event),
        ensures
            old(self).leads_to(event, *final(self)),
            old(self).wf() ==> final(self).wf(),
    {
        let reading_header = match &self.state {
            ExchangeState::ReadingHeader => true,
            _ => false,
        };
        let writing_header = match &self.state {
            ExchangeState::WritingHeader => true,
            _ => false,
        };
        match event {
            ExchangeEvent::Failed => {
                self.state = ExchangeState::Ended(None);
            },
            ExchangeEvent::Written => {
                if writing_header {
                    self.state = ExchangeState::WritingBody;
                } else {
                    self.state = ExchangeState::ReadingHeader;
                }
            },
            ExchangeEvent::Read(bytes) => {
                if reading_header {
                    let header: [u8; 4] = [bytes[0], bytes[1], bytes[2], bytes[3]];
                    assert(header@ =~= bytes@);
                    self.state = ExchangeState::ReadingBody { len: body_len(header) };
                } else {
                    self.state = ExchangeState::Ended(Some(decode_body(bytes.as_slice())));
                }
            },
        }
    }
}

/// `exchanges` and `events` are a run: each event is one that the exchange accepts, and takes
/// it to the next.
pub open spec fn is_exchange_run(exchanges: Seq<Exchange>, events: Seq<ExchangeEvent>) -> bool {
    &&& exchanges.len() == events.len() + 1
    &&& forall|i: int|
        #![trigger events[i]]
        0 <= i < events.len() ==> exchanges[i].accepts(events[i]) && exchanges[i].leads_to(
            events[i],
            exchanges[i + 1],
        )
}

/// A plug that takes the request and answers with a frame made from `message`, in the same
/// format, is understood: the exchange asks for just the bytes that it sends, and ends with
/// `message`.
pub proof fn law_framed_answer_is_understood(
    exchanges: Seq<Exchange>,
    events: Seq<ExchangeEvent>,
    message: Seq<u8>,
)
    requires
        is_exchange_run(exchanges, events),
        events.len() == 4,
        exchanges[0].state is WritingHeader,
        events[0] is Written,
        events[1] is Written,
        message.len() <= u32::MAX,
        events[2] matches ExchangeEvent::Read(header) && header@ == be_bytes(
            message.len() as u32,
        ),
        events[3] matches ExchangeEvent::Read(body) && body@ == enciphered(message),
    ensures
        exchanges[3].state matches ExchangeState::ReadingBody { len } && len == enciphered(
            message,
        ).len(),
        exchanges[4].state matches ExchangeState::Ended(Some(reply)) && reply@ == message,
{
    law_frame_round_trip(message);
    assert(exchanges[0].leads_to(events[0], exchanges[1]));
    assert(exchanges[1].leads_to(events[1], exchanges[2]));
    assert(exchanges[2].leads_to(events[2], exchanges[3]));
    assert(exchanges[3].leads_to(events[3], exchanges[4]));
}

/// An exchange that ends has an answer exactly when nothing failed on the way.
pub proof fn law_answer_unless_failure(exchanges: Seq<Exchange>, events: Seq<ExchangeEvent>)
    requires
        is_exchange_run(exchanges, events),
        !(exchanges[0].state is Ended),
    ensures
        exchanges.last().state matches ExchangeState::Ended(reply) ==> (reply is Some <==> forall|
            i: int,
        |
            0 <= i < events.len() ==> !(#[trigger] events[i] is Failed)),
{
    if exchanges.last().state is Ended && events.len() > 0 {
        let n = events.len() as int;
        assert forall|i: int| 0 <= i < n - 1 implies !(#[trigger] events[i] is Failed) by {
            assert(exchanges[i].leads_to(events[i], exchanges[i + 1]));
            assert(exchanges[i + 1].accepts(events[i + 1]));
        }
        assert(exchanges[n - 1].leads_to(events[n - 1], exchanges[n]));
        if !(events[n - 1] is Failed) {
            assert forall|i: int| 0 <= i < n implies !(#[trigger] events[i] is Failed) by {}
        }
    }
}

/// A task that steps its exchange makes a run: each step adds the event that it takes in and
/// the exchange that it leads to.
pub proof fn law_steps_make_exchange_runs(
    exchanges: Seq<Exchange>,
    events: Seq<ExchangeEvent>,
    exchange: &mut Exchange,
    event: ExchangeEvent,
)
    requires
        is_exchange_run(exchanges, events),
        exchanges.last() == *old(exchange),
        old(exchange).accepts(event),
        call_ensures(Exchange::step, (exchange, event), ()),
    ensures
        is_exchange_run(exchanges.push(*final(exchange)), events.push(event)),
{
    let longer = exchanges.push(*final(exchange));
    let more = events.push(event);
    assert forall|i: int|
        #![trigger more[i]]
        0 <= i < more.len() implies longer[i].accepts(more[i]) && longer[i].leads_to(
        more[i],
        longer[i + 1],
    ) by {
        if i < events.len() {
            assert(more[i] == events[i]);
        }
    }
}

/// What each event does to an exchange. A failure ends it with nothing. What was written is
/// followed by what is to be written or read next. Four bytes of header say in base 256 how many
/// bytes follow; the bytes that follow end the exchange, and each of them comes out with the one
/// before it laid over, the first with a fixed one. The request stays what it was.
pub proof fn law_exchange_step(exchange: &mut Exchange, event: ExchangeEvent, i: int)
    requires
        old(exchange).accepts(event),
        call_ensures(Exchange::step, (exchange, event), ()),
    ensures
        final(exchange).request == old(exchange).request,
        event is Failed ==> final(exchange).state == ExchangeState::Ended(None),
        event is Written ==> match old(exchange).state {
            ExchangeState::WritingHeader => final(exchange).state is WritingBody,
            ExchangeState::WritingBody => final(exchange).state is ReadingHeader,
            _ => false,
        },
        event matches ExchangeEvent::Read(bytes) ==> match old(exchange).state {
            ExchangeState::ReadingHeader => {
                &&& final(exchange).state matches ExchangeState::ReadingBody { len }
                &&& len == ((bytes@[0] * 256 + bytes@[1]) * 256 + bytes@[2]) * 256 + bytes@[3]
            },
            ExchangeState::ReadingBody { len } => {
                &&& final(exchange).state matches ExchangeState::Ended(Some(reply))
                &&& reply@.len() == bytes@.len()
                &&& bytes@.len() > 0 ==> reply@[0] == bytes@[0] ^ 0xABu8
                &&& 0 < i < bytes@.len() ==> reply@[i] == bytes@[i] ^ bytes@[i - 1]
            },
            _ => false,
        },
{
}

/// An event can be taken in exactly when it can come of what was asked for: a write that went
/// well or failed, as many bytes as were to be read, or a failure. `can_step` tells that, and it
/// is all that `step` asks for.
pub proof fn law_exchange_takes_every_outcome(
    exchange: Exchange,
    event: ExchangeEvent,
    action: ExchangeAction,
    r: bool,
    held: &mut Exchange,
)
    requires
        call_ensures(Exchange::action, (&exchange,), action),
        call_ensures(Exchange::can_step, (&exchange, &event), r),
        *old(held) == exchange,
    ensures
        r <==> match (action, event) {
            (ExchangeAction::Write(_), ExchangeEvent::Written) => true,
            (ExchangeAction::Write(_), ExchangeEvent::Failed) => true,
            (ExchangeAction::Read(n), ExchangeEvent::Read(bytes)) => bytes@.len() == n,
            (ExchangeAction::Read(_), ExchangeEvent::Failed) => true,
            _ => false,
        },
        r ==> exchange.accepts(event),
        r ==> call_requires(Exchange::step, (held, event)),
{
}

/// What is asked for in each state: the request's header and body are written as they are, four
/// bytes of header are read, and as many bytes of body as it said.
pub proof fn law_exchange_action_of_each_state(exchange: Exchange, r: ExchangeAction)
    requires
        call_ensures(Exchange::action, (&exchange,), r),
    ensures
        match exchange.state {
            ExchangeState::WritingHeader => r matches ExchangeAction::Write(bytes) && bytes@
                == exchange.request.header@,
            ExchangeState::WritingBody => r matches ExchangeAction::Write(bytes) && bytes@
                == exchange.request.body@,
            ExchangeState::ReadingHeader => r == ExchangeAction::Read(4),
            ExchangeState::ReadingBody { len } => r == ExchangeAction::Read(len),
            ExchangeState::Ended(_) => r is Finish,
        },
{
}

/// A new exchange is about to write the header of the request: the same frame that the request
/// is made into on its own.
pub proof fn law_exchange_begins_with_the_request(exchange: Exchange, frame: Frame)
    requires
        call_ensures(Exchange::new, (), exchange),
        call_ensures(request_frame, (), frame),
    ensures
        exchange.state is WritingHeader,
        exchange.request.header@ == frame.header@,
        exchange.request.body@ == frame.body@,
        exchange.request.header@ == seq![0u8, 0u8, 0u8, 58u8],
{
    assert(exchange.request.header@ =~= seq![0u8, 0u8, 0u8, 58u8]);
}

} // verus!
