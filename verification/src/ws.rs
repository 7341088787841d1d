//! What one connection does: how it answers each inbound frame, how it
//! follows a dispatched request to its single answer, and how it relays
//! broadcast events.
//!
//! Nothing here waits or writes. The host awaits the network and the channels,
//! feeds what happened to these functions, and carries out what they return.
use crate::action::{decoded_request, ApiRequest, ApiRequestView};
use crate::event::{event_text, BaseEvent, BaseEventView};
use crate::json::{extract_member, object_member};
use crate::response::{
    encode_response, frame_response, response_frame, response_text, text_view, MsgRsp,
    MsgRspView, Status,
};
use vstd::prelude::*;
use vstd::string::*;

verus! {

/// The failures that a session answers by itself.
#[derive(Clone, Copy, Debug, PartialEq, Eq, Structural)]
pub enum Failure {
    /// The text frame is no request envelope.
    Malformed,
    /// The dispatch channel did not take the request.
    NotDispatched,
    /// The reply channel closed without a reply.
    NoReply,
    /// The reply has no wire form.
    NotEncodable,
}

impl Failure {
    /// The return code that reports this failure.
    pub open spec fn retcode(self) -> int {
        match self {
            Failure::Malformed => 1400,
            Failure::NotDispatched => 1,
            Failure::NoReply => 2,
            Failure::NotEncodable => 3,
        }
    }

    /// The `data` of the envelope that reports this failure.
    pub open spec fn data(self) -> Seq<char> {
        match self {
            Failure::Malformed => "{\"error\":\"Invalid request format\"}"@,
            Failure::NotDispatched => "{\"error\":\"Internal server error sending to processor\"}"@,
            Failure::NoReply => "{\"error\":\"Processor did not respond\"}"@,
            Failure::NotEncodable => "{\"error\":\"Failed to serialize processor response\"}"@,
        }
    }

    /// The envelope that reports this failure for a request with token `echo`.
    pub open spec fn envelope(self, echo: Option<Seq<char>>) -> MsgRspView {
        MsgRspView {
            status: Status::Failed,
            retcode: self.retcode(),
            data: Some(self.data()),
            echo,
        }
    }

    /// Builds the envelope that reports this failure.
    pub fn report(self, echo: Option<String>) -> (response: MsgRsp)
        ensures
            response@ == self.envelope(text_view(echo)),
    {
        let (retcode, data): (i32, &'static str) = match self {
            Failure::Malformed => (1400, "{\"error\":\"Invalid request format\"}"),
            Failure::NotDispatched => (
                1,
                "{\"error\":\"Internal server error sending to processor\"}",
            ),
            Failure::NoReply => (2, "{\"error\":\"Processor did not respond\"}"),
            Failure::NotEncodable => (3, "{\"error\":\"Failed to serialize processor response\"}"),
        };
        MsgRsp { status: Status::Failed, retcode, data: Some(String::from_str(data)), echo }
    }
}

/// Where a dispatched request stands.
#[derive(Clone, Copy, Debug, PartialEq, Eq, Structural)]
pub enum Phase {
    /// The request is being handed to the dispatch channel.
    Dispatching,
    /// The processor has the request; its reply is awaited.
    Awaiting,
    /// The request has had its answer, or can have none.
    Settled,
}

/// One request on its way: the token to return, and how far it has come.
#[derive(Clone, Debug)]
pub struct Exchange {
    pub echo: Option<String>,
    pub phase: Phase,
}

/// An exchange as a mathematical value.
pub struct ExchangeView {
    pub echo: Option<Seq<char>>,
    pub phase: Phase,
}

impl View for Exchange {
    type V = ExchangeView;

    open spec fn view(&self) -> ExchangeView {
        ExchangeView { echo: text_view(self.echo), phase: self.phase }
    }
}

/// What happened to a dispatched request.
#[derive(Clone, Debug)]
pub enum Outcome {
    /// The dispatch channel did not take the request: it is closed, or it
    /// stayed full for as long as the session waits.
    Refused,
    /// The dispatch channel took the request.
    Accepted,
    /// The processor replied on the request's own channel.
    Answered(MsgRsp),
    /// The request's own channel closed without a reply.
    Abandoned,
}

/// An outcome as a mathematical value.
pub enum OutcomeView {
    Refused,
    Accepted,
    Answered(MsgRspView),
    Abandoned,
}

impl View for Outcome {
    type V = OutcomeView;

    open spec fn view(&self) -> OutcomeView {
        match self {
            Outcome::Refused => OutcomeView::Refused,
            Outcome::Accepted => OutcomeView::Accepted,
            Outcome::Answered(response) => OutcomeView::Answered(response@),
            Outcome::Abandoned => OutcomeView::Abandoned,
        }
    }
}

/// What the host does next for a dispatched request.
#[derive(Clone, Debug)]
pub enum Next {
    /// Await the reply on the request's own channel.
    AwaitReply,
    /// Write this text frame to the connection of the request.
    Write(String),
    /// Nothing.
    Nothing,
}

/// A next step as a mathematical value.
pub enum NextView {
    AwaitReply,
    Write(Seq<char>),
    Nothing,
}

impl View for Next {
    type V = NextView;

    open spec fn view(&self) -> NextView {
        match self {
            Next::AwaitReply => NextView::AwaitReply,
            Next::Write(text) => NextView::Write(text@),
            Next::Nothing => NextView::Nothing,
        }
    }
}

/// The exchange that begins for `request`.
pub open spec fn exchange_for(request: ApiRequestView) -> ExchangeView {
    ExchangeView { echo: request.echo(), phase: Phase::Dispatching }
}

/// The envelope that an outcome settles the exchange with, where it settles
/// it: the failure that the session reports by itself, or the processor's
/// reply; for a reply without a wire form, the failure that says so.
pub open spec fn settlement(exchange: ExchangeView, outcome: OutcomeView) -> Option<MsgRspView> {
    match (exchange.phase, outcome) {
        (Phase::Dispatching, OutcomeView::Refused) => Some(
            Failure::NotDispatched.envelope(exchange.echo),
        ),
        (Phase::Awaiting, OutcomeView::Abandoned) => Some(Failure::NoReply.envelope(exchange.echo)),
        (Phase::Awaiting, OutcomeView::Answered(reply)) => if response_text(reply) is Ok {
            Some(reply)
        } else {
            Some(Failure::NotEncodable.envelope(exchange.echo))
        },
        _ => None,
    }
}

/// The step that delivers `response`: its wire form is written, or nothing
/// where it has none.
pub open spec fn delivery(response: MsgRspView) -> NextView {
    match response_frame(response) {
        Some(text) => NextView::Write(text),
        None => NextView::Nothing,
    }
}

/// How an outcome moves an exchange, and what the host does next. An outcome
/// that does not belong to the phase changes nothing.
pub open spec fn exchange_step(exchange: ExchangeView, outcome: OutcomeView) -> (
    ExchangeView,
    NextView,
) {
    match settlement(exchange, outcome) {
        Some(response) => (
            ExchangeView { echo: exchange.echo, phase: Phase::Settled },
            delivery(response),
        ),
        None => if exchange.phase == Phase::Dispatching && outcome is Accepted {
            (ExchangeView { echo: exchange.echo, phase: Phase::Awaiting }, NextView::AwaitReply)
        } else {
            (exchange, NextView::Nothing)
        },
    }
}

fn deliver(response: &MsgRsp) -> (next: Next)
    ensures
        next@ == delivery(response@),
{
    match frame_response(response) {
        Some(text) => Next::Write(text),
        None => Next::Nothing,
    }
}

impl Exchange {
    /// Begins the exchange for a request: its token is taken from the
    /// parameters, and the request is ready to be dispatched.
    pub fn begin(request: &ApiRequest) -> (exchange: Exchange)
        ensures
            exchange@ == exchange_for(request@),
    {
        Exchange { echo: request.echo(), phase: Phase::Dispatching }
    }

    /// Whether the exchange has had its answer or can have none.
    pub fn is_settled(&self) -> (settled: bool)
        ensures
            settled == (self@.phase == Phase::Settled),
    {
        self.phase == Phase::Settled
    }

    /// Takes in what happened to the request and says what to do next.
    pub fn step(&mut self, outcome: Outcome) -> (next: Next)
        ensures
            (final(self)@, next@) == exchange_step(old(self)@, outcome@),
    {
        match (self.phase, outcome) {
            (Phase::Dispatching, Outcome::Refused) => {
                self.phase = Phase::Settled;
                let echo = self.echo.clone();
                deliver(&Failure::NotDispatched.report(echo))
            },
            (Phase::Dispatching, Outcome::Accepted) => {
                self.phase = Phase::Awaiting;
                Next::AwaitReply
            },
            (Phase::Awaiting, Outcome::Abandoned) => {
                self.phase = Phase::Settled;
                let echo = self.echo.clone();
                deliver(&Failure::NoReply.report(echo))
            },
            (Phase::Awaiting, Outcome::Answered(reply)) => {
                self.phase = Phase::Settled;
                match encode_response(&reply) {
                    Ok(text) => Next::Write(text),
                    Err(_) => {
                        let echo = self.echo.clone();
                        deliver(&Failure::NotEncodable.report(echo))
                    },
                }
            },
            _ => Next::Nothing,
        }
    }
}

/// Why a peer closes the connection.
#[derive(Clone, Debug)]
pub struct CloseReason {
    pub code: u16,
    pub description: Option<String>,
}

/// One inbound frame, or the failure of the stream that carries them.
#[derive(Clone, Debug)]
pub enum Frame {
    Text(String),
    Binary(Vec<u8>),
    Ping(Vec<u8>),
    Pong(Vec<u8>),
    Close(Option<CloseReason>),
    /// A frame of a kind that the session passes over.
    Other,
    /// The stream broke the protocol or ended abruptly.
    Broken,
}

/// What the host does for one inbound frame.
#[derive(Clone, Debug)]
pub enum FrameAction {
    /// Hand `request` to the processor together with a reply channel of its
    /// own, then feed `exchange` with what happens to it.
    Dispatch { request: ApiRequest, exchange: Exchange },
    /// Write this text frame to the connection.
    Write(String),
    /// Answer a ping with a pong that carries this payload.
    Pong(Vec<u8>),
    /// Close the connection with this reason and tear the session down.
    Close(Option<CloseReason>),
    /// Tear the session down.
    Stop,
    /// Nothing.
    Ignore,
}

/// The state of one connection's frame handling.
#[derive(Clone, Copy, Debug, PartialEq, Eq, Structural)]
pub struct Session {
    pub open: bool,
}

/// The notice that answers a binary frame.
pub open spec fn binary_notice() -> Seq<char> {
    "Binary messages are not supported for actions."@
}

/// The envelope that answers a text frame which is no request: a failure with
/// return code 1400 that carries the frame's own top-level `echo` member where
/// the frame is a JSON object that has one.
pub open spec fn rejection(text: Seq<char>) -> MsgRspView {
    Failure::Malformed.envelope(object_member(text, "echo"@))
}

/// Whether `action` is what an open session does for `frame`.
pub open spec fn reaction(frame: Frame, action: FrameAction) -> bool {
    match frame {
        Frame::Text(text) => match decoded_request(text@) {
            Ok(expected) => action matches FrameAction::Dispatch { request, exchange }
                && request@ == expected && exchange@ == exchange_for(expected),
            Err(_) => match response_frame(rejection(text@)) {
                Some(answer) => action matches FrameAction::Write(written) && written@ == answer,
                None => action is Ignore,
            },
        },
        Frame::Binary(_) => action matches FrameAction::Write(written) && written@
            == binary_notice(),
        Frame::Ping(payload) => action matches FrameAction::Pong(returned) && returned@
            == payload@,
        Frame::Pong(_) => action is Ignore,
        Frame::Close(reason) => action matches FrameAction::Close(given) && given == reason,
        Frame::Other => action is Ignore,
        Frame::Broken => action is Stop,
    }
}

/// Builds the envelope that answers a text frame which is no request.
pub fn reject(text: &str) -> (response: MsgRsp)
    ensures
        response@ == rejection(text@),
{
    Failure::Malformed.report(extract_member(text, "echo"))
}

impl Session {
    /// The session of a connection that has just been accepted.
    pub fn new() -> (session: Session)
        ensures
            session.open,
    {
        Session { open: true }
    }

    /// Whether a frame tears the session down.
    pub open spec fn ends_with(frame: Frame) -> bool {
        frame is Close || frame is Broken
    }

    /// Answers one inbound frame. A session that was torn down passes over
    /// every frame; a close frame or a broken stream tears it down.
    pub fn handle(&mut self, frame: Frame) -> (action: FrameAction)
        ensures
            old(self).open ==> reaction(frame, action),
            !old(self).open ==> action is Ignore,
            final(self).open == (old(self).open && !Session::ends_with(frame)),
    {
        if !self.open {
            return FrameAction::Ignore;
        }
        match frame {
            Frame::Text(text) => match ApiRequest::decode(text.as_str()) {
                Ok(request) => {
                    let exchange = Exchange::begin(&request);
                    FrameAction::Dispatch { request, exchange }
                },
                Err(_) => match frame_response(&reject(text.as_str())) {
                    Some(answer) => FrameAction::Write(answer),
                    None => FrameAction::Ignore,
                },
            },
            Frame::Binary(_) => FrameAction::Write(
                String::from_str("Binary messages are not supported for actions."),
            ),
            Frame::Ping(payload) => FrameAction::Pong(payload),
            Frame::Pong(_) => FrameAction::Ignore,
            Frame::Close(reason) => {
                self.open = false;
                FrameAction::Close(reason)
            },
            Frame::Other => FrameAction::Ignore,
            Frame::Broken => {
                self.open = false;
                FrameAction::Stop
            },
        }
    }
}

/// What a session's event relay is told: what its subscription to the event
/// fan-out yields, and what happened to the connection.
#[derive(Clone, Debug)]
pub enum RelayEvent {
    /// The next event.
    Event(BaseEvent),
    /// The subscriber fell behind and this many events were dropped for it.
    Lagged(u64),
    /// The fan-out is closed for good.
    Closed,
    /// The last write to the connection failed.
    WriteFailed,
    /// The session was torn down.
    Cancelled,
}

/// What a relay is told, as a mathematical value.
pub enum RelayEventView {
    Event(BaseEventView),
    Lagged(nat),
    Closed,
    WriteFailed,
    Cancelled,
}

impl View for RelayEvent {
    type V = RelayEventView;

    open spec fn view(&self) -> RelayEventView {
        match self {
            RelayEvent::Event(event) => RelayEventView::Event(event@),
            RelayEvent::Lagged(missed) => RelayEventView::Lagged(*missed as nat),
            RelayEvent::Closed => RelayEventView::Closed,
            RelayEvent::WriteFailed => RelayEventView::WriteFailed,
            RelayEvent::Cancelled => RelayEventView::Cancelled,
        }
    }
}

/// What the host does next in a session's event relay.
#[derive(Clone, Debug)]
pub enum RelayAction {
    /// Write this text frame to the connection, then receive again.
    Write(String),
    /// Receive again.
    Continue,
    /// End the relay.
    Stop,
}

/// A relay action as a mathematical value.
pub enum RelayActionView {
    Write(Seq<char>),
    Continue,
    Stop,
}

impl View for RelayAction {
    type V = RelayActionView;

    open spec fn view(&self) -> RelayActionView {
        match self {
            RelayAction::Write(text) => RelayActionView::Write(text@),
            RelayAction::Continue => RelayActionView::Continue,
            RelayAction::Stop => RelayActionView::Stop,
        }
    }
}

/// The event relay of one session: whether it still runs, and how many events
/// were dropped for it because it fell behind. The count stops at `u64::MAX`.
#[derive(Clone, Copy, Debug, PartialEq, Eq, Structural)]
pub struct EventRelay {
    pub running: bool,
    pub lagged: u64,
}

/// `count` and `more` together, stopping at `u64::MAX`.
pub open spec fn capped_sum(count: u64, more: nat) -> u64 {
    if count + more > u64::MAX {
        u64::MAX
    } else {
        (count + more) as u64
    }
}

/// How what a relay is told moves it, and what the host does
/// next. An event is written where it has a wire form and dropped where it
/// has none; a lag is counted; a closed fan-out, a failed write or the
/// teardown of the session ends the relay. A relay that has ended stays so.
pub open spec fn relay_step(relay: EventRelay, event: RelayEventView) -> (
    EventRelay,
    RelayActionView,
) {
    if !relay.running {
        (relay, RelayActionView::Stop)
    } else {
        match event {
            RelayEventView::Event(event) => match event_text(event) {
                Some(text) => (relay, RelayActionView::Write(text)),
                None => (relay, RelayActionView::Continue),
            },
            RelayEventView::Lagged(missed) => (
                EventRelay { running: true, lagged: capped_sum(relay.lagged, missed) },
                RelayActionView::Continue,
            ),
            RelayEventView::Closed | RelayEventView::WriteFailed | RelayEventView::Cancelled => (
                EventRelay { running: false, lagged: relay.lagged },
                RelayActionView::Stop,
            ),
        }
    }
}

impl EventRelay {
    /// The relay of a session that has just subscribed.
    pub fn new() -> (relay: EventRelay)
        ensures
            relay == (EventRelay { running: true, lagged: 0 }),
    {
        EventRelay { running: true, lagged: 0 }
    }

    /// Takes in what the relay is told and says what to do next.
    pub fn step(&mut self, event: RelayEvent) -> (action: RelayAction)
        ensures
            (*final(self), action@) == relay_step(*old(self), event@),
    {
        if !self.running {
            return RelayAction::Stop;
        }
        match event {
            RelayEvent::Event(event) => match event.encode() {
                Some(text) => RelayAction::Write(text),
                None => RelayAction::Continue,
            },
            RelayEvent::Lagged(missed) => {
                self.lagged = self.lagged.saturating_add(missed);
                RelayAction::Continue
            },
            RelayEvent::Closed | RelayEvent::WriteFailed | RelayEvent::Cancelled => {
                self.running = false;
                RelayAction::Stop
            },
        }
    }
}

} // verus!
