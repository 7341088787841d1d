//! What holds of every request on its way through a session and the worker,
//! whatever the channels between them do.
use crate::action::{decoded_request, ApiRequestView};
use crate::processor::{
    acknowledgement, processor_step, reply_to, ActionResultView, InboxView, Processor, WorkView,
};
use crate::response::{response_frame, MsgRspView, Status};
use crate::ws::{
    exchange_for, exchange_step, reaction, rejection, settlement, ExchangeView, Frame,
    FrameAction, NextView, OutcomeView, Phase,
};
use vstd::prelude::*;

verus! {

/// The envelopes that a sequence of outcomes settles an exchange with, in the
/// order of the outcomes.
pub open spec fn settlements(exchange: ExchangeView, outcomes: Seq<OutcomeView>) -> Seq<
    MsgRspView,
>
    decreases outcomes.len(),
{
    if outcomes.len() == 0 {
        Seq::empty()
    } else {
        let rest = settlements(exchange_step(exchange, outcomes[0]).0, outcomes.skip(1));
        match settlement(exchange, outcomes[0]) {
            Some(response) => seq![response] + rest,
            None => rest,
        }
    }
}

/// The text frames that a sequence of outcomes makes an exchange write, in
/// the order of the outcomes.
pub open spec fn frames_written(exchange: ExchangeView, outcomes: Seq<OutcomeView>) -> Seq<
    Seq<char>,
>
    decreases outcomes.len(),
{
    if outcomes.len() == 0 {
        Seq::empty()
    } else {
        let rest = frames_written(exchange_step(exchange, outcomes[0]).0, outcomes.skip(1));
        match exchange_step(exchange, outcomes[0]).1 {
            NextView::Write(text) => seq![text] + rest,
            _ => rest,
        }
    }
}

/// What the channels and the action do to one dispatched request.
pub enum Happening {
    /// The dispatch channel does not take the request.
    Refused,
    /// The dispatch channel takes the request.
    Accepted,
    /// The worker replies with what the action yielded.
    Replied(ActionResultView),
    /// The reply channel closes without a reply.
    Abandoned,
}

/// The outcome that the session of `request` sees of a happening: a reply is
/// the envelope that the worker makes for this request.
pub open spec fn outcome_of(request: ApiRequestView, happening: Happening) -> OutcomeView {
    match happening {
        Happening::Refused => OutcomeView::Refused,
        Happening::Accepted => OutcomeView::Accepted,
        Happening::Replied(result) => OutcomeView::Answered(reply_to(request, result)),
        Happening::Abandoned => OutcomeView::Abandoned,
    }
}

/// The outcomes that the session of `request` sees of a sequence of happenings.
pub open spec fn outcomes_of(request: ApiRequestView, happenings: Seq<Happening>) -> Seq<
    OutcomeView,
> {
    Seq::new(happenings.len(), |i: int| outcome_of(request, happenings[i]))
}

/// A settled exchange delivers nothing more, whatever it is told.
pub proof fn settled_exchange_is_silent(exchange: ExchangeView, outcomes: Seq<OutcomeView>)
    requires
        exchange.phase == Phase::Settled,
    ensures
        settlements(exchange, outcomes).len() == 0,
        frames_written(exchange, outcomes).len() == 0,
    decreases outcomes.len(),
{
    if outcomes.len() > 0 {
        settled_exchange_is_silent(exchange, outcomes.skip(1));
    }
}

/// A request is answered at most once: whatever sequence of outcomes an
/// exchange is fed, in whatever phase it starts, it settles with at most one
/// envelope and writes at most one frame, and that frame is the wire form of
/// that envelope.
pub proof fn at_most_one_answer(exchange: ExchangeView, outcomes: Seq<OutcomeView>)
    ensures
        settlements(exchange, outcomes).len() <= 1,
        frames_written(exchange, outcomes).len() <= settlements(exchange, outcomes).len(),
        frames_written(exchange, outcomes).len() == 1 ==> response_frame(
            settlements(exchange, outcomes)[0],
        ) == Some(frames_written(exchange, outcomes)[0]),
    decreases outcomes.len(),
{
    if outcomes.len() > 0 {
        let next = exchange_step(exchange, outcomes[0]).0;
        if settlement(exchange, outcomes[0]) is Some {
            settled_exchange_is_silent(next, outcomes.skip(1));
        } else {
            at_most_one_answer(next, outcomes.skip(1));
        }
    }
}

/// Every envelope that settles an exchange carries the exchange's token,
/// provided that every reply fed to it does.
pub proof fn settlements_carry_token(exchange: ExchangeView, outcomes: Seq<OutcomeView>)
    requires
        forall|i: int|
            0 <= i < outcomes.len() ==> (#[trigger] outcomes[i] matches OutcomeView::Answered(
                reply,
            ) ==> reply.echo == exchange.echo),
    ensures
        forall|j: int|
            0 <= j < settlements(exchange, outcomes).len() ==> (#[trigger] settlements(
                exchange,
                outcomes,
            )[j]).echo == exchange.echo,
    decreases outcomes.len(),
{
    if outcomes.len() > 0 {
        let next = exchange_step(exchange, outcomes[0]).0;
        let tail = outcomes.skip(1);
        assert forall|i: int| 0 <= i < tail.len() implies (#[trigger] tail[i] matches OutcomeView::Answered(
            reply,
        ) ==> reply.echo == next.echo) by {
            assert(tail[i] == outcomes[i + 1]);
        }
        settlements_carry_token(next, tail);
    }
}

/// The echo comes back. For a well-formed request that carries the token
/// `token`, whatever the dispatch channel, the reply channel and the action
/// do, every envelope delivered to the request's connection carries `token`.
pub proof fn echo_is_returned(
    request: ApiRequestView,
    token: Seq<char>,
    happenings: Seq<Happening>,
)
    requires
        request.well_formed(),
        request.echo() == Some(token),
    ensures
        forall|j: int|
            0 <= j < settlements(exchange_for(request), outcomes_of(request, happenings)).len()
                ==> (#[trigger] settlements(
                exchange_for(request),
                outcomes_of(request, happenings),
            )[j]).echo == Some(token),
{
    settlements_carry_token(exchange_for(request), outcomes_of(request, happenings));
}

/// No cross-talk. Two requests with different tokens, on whatever
/// connections and under whatever interleaving, are never settled with the
/// same envelope: no answer to one can be taken for an answer to the other.
pub proof fn no_cross_talk(
    first: ApiRequestView,
    first_happenings: Seq<Happening>,
    second: ApiRequestView,
    second_happenings: Seq<Happening>,
)
    requires
        first.echo() != second.echo(),
    ensures
        forall|i: int, j: int|
            0 <= i < settlements(exchange_for(first), outcomes_of(first, first_happenings)).len()
                && 0 <= j < settlements(
                exchange_for(second),
                outcomes_of(second, second_happenings),
            ).len() ==> #[trigger] settlements(
                exchange_for(first),
                outcomes_of(first, first_happenings),
            )[i] != #[trigger] settlements(
                exchange_for(second),
                outcomes_of(second, second_happenings),
            )[j],
{
    settlements_carry_token(exchange_for(first), outcomes_of(first, first_happenings));
    settlements_carry_token(exchange_for(second), outcomes_of(second, second_happenings));
}

/// A malformed text frame is answered and never dispatched. Whatever an open
/// session does for a text frame that is no request envelope, it hands nothing
/// to the worker; it writes the wire form of a failure with return code 1400
/// that carries the frame's own `echo` member, or nothing where that envelope
/// has no wire form.
pub proof fn malformed_text_is_rejected(frame: Frame, action: FrameAction)
    requires
        frame matches Frame::Text(text) && decoded_request(text@) is Err,
        reaction(frame, action),
    ensures
        !(action is Dispatch),
        frame matches Frame::Text(text) ==> {
            &&& rejection(text@).status == Status::Failed
            &&& rejection(text@).retcode == 1400
            &&& match response_frame(rejection(text@)) {
                Some(answer) => action matches FrameAction::Write(written) && written@ == answer,
                None => action is Ignore,
            }
        },
{
}

/// The worker answers a request that awaits a reply once, with the request's
/// own token, and goes on.
pub proof fn worker_returns_the_token(worker: Processor, request: ApiRequestView)
    requires
        worker.running,
    ensures
        processor_step(worker, InboxView::Request { request, wants_reply: true }).1
            == WorkView::Reply(reply_to(request, acknowledgement())),
        reply_to(request, acknowledgement()).echo == request.echo(),
        processor_step(worker, InboxView::Request { request, wants_reply: true }).0.running,
        processor_step(worker, InboxView::Request { request, wants_reply: false }).1
            == WorkView::Receive,
{
}

/// A reply that nobody awaits any more is no failure: the worker is the same
/// after it as before, and takes the next request.
pub proof fn lost_reply_is_harmless(worker: Processor, delivered: bool)
    requires
        worker.running,
    ensures
        processor_step(worker, InboxView::ReplyDone { delivered }) == (worker, WorkView::Receive),
{
}

} // verus!
