//! The single worker that answers dispatched requests.
//!
//! The worker takes requests in the order in which the dispatch channel hands
//! them over. For each it wraps the result of the action into a response
//! envelope that carries the request's echo token, and replies where the
//! request came with a reply channel.
use crate::action::{ApiRequest, ApiRequestView};
use crate::response::{text_view, MsgRsp, MsgRspView, Status};
use vstd::prelude::*;
use vstd::string::*;

verus! {

/// What carrying out an action yielded. `data` holds JSON text.
#[derive(Clone, Debug)]
pub struct ActionResult {
    pub status: Status,
    pub retcode: i32,
    pub data: Option<String>,
}

/// An action's result as a mathematical value.
pub struct ActionResultView {
    pub status: Status,
    pub retcode: int,
    pub data: Option<Seq<char>>,
}

impl View for ActionResult {
    type V = ActionResultView;

    open spec fn view(&self) -> ActionResultView {
        ActionResultView {
            status: self.status,
            retcode: self.retcode as int,
            data: text_view(self.data),
        }
    }
}

/// The result that acknowledges an action without carrying it out.
pub open spec fn acknowledgement() -> ActionResultView {
    ActionResultView {
        status: Status::Okay,
        retcode: 0,
        data: Some("{\"message\":\"Action processed successfully\"}"@),
    }
}

/// The envelope that answers `request` with `result`: the result as it is,
/// and the request's echo token, unchanged.
pub open spec fn reply_to(request: ApiRequestView, result: ActionResultView) -> MsgRspView {
    MsgRspView {
        status: result.status,
        retcode: result.retcode,
        data: result.data,
        echo: request.echo(),
    }
}

/// Makes the result that acknowledges an action.
pub fn acknowledge() -> (result: ActionResult)
    ensures
        result@ == acknowledgement(),
{
    ActionResult {
        status: Status::Okay,
        retcode: 0,
        data: Some(String::from_str("{\"message\":\"Action processed successfully\"}")),
    }
}

/// Wraps the result of an action into the envelope that answers `request`.
pub fn respond(request: &ApiRequest, result: ActionResult) -> (response: MsgRsp)
    ensures
        response@ == reply_to(request@, result@),
{
    MsgRsp {
        status: result.status,
        retcode: result.retcode,
        data: result.data,
        echo: request.echo(),
    }
}

/// One dispatched request as the worker sees it: the request, and whether it
/// came with a reply channel.
#[derive(Clone, Debug)]
pub struct ActionTuple {
    pub request: ApiRequest,
    pub wants_reply: bool,
}

/// What the worker is told.
#[derive(Clone, Debug)]
pub enum Inbox {
    /// The dispatch channel handed over the next request.
    Request(ActionTuple),
    /// The reply was sent, or thrown away because nobody awaits it any more.
    ReplyDone { delivered: bool },
    /// Every sender of the dispatch channel is gone.
    Closed,
}

/// What the worker is told, as a mathematical value.
pub enum InboxView {
    Request { request: ApiRequestView, wants_reply: bool },
    ReplyDone { delivered: bool },
    Closed,
}

impl View for Inbox {
    type V = InboxView;

    open spec fn view(&self) -> InboxView {
        match self {
            Inbox::Request(tuple) => InboxView::Request {
                request: tuple.request@,
                wants_reply: tuple.wants_reply,
            },
            Inbox::ReplyDone { delivered } => InboxView::ReplyDone { delivered: *delivered },
            Inbox::Closed => InboxView::Closed,
        }
    }
}

/// What the host does next for the worker.
#[derive(Clone, Debug)]
pub enum Work {
    /// Send this envelope on the reply channel of the request just taken,
    /// then report how that went.
    Reply(MsgRsp),
    /// Take the next request from the dispatch channel.
    Receive,
    /// End the worker.
    Stop,
}

/// The worker's next step as a mathematical value.
pub enum WorkView {
    Reply(MsgRspView),
    Receive,
    Stop,
}

impl View for Work {
    type V = WorkView;

    open spec fn view(&self) -> WorkView {
        match self {
            Work::Reply(response) => WorkView::Reply(response@),
            Work::Receive => WorkView::Receive,
            Work::Stop => WorkView::Stop,
        }
    }
}

/// The worker: whether it still runs, and how many requests it has taken.
/// The count stops at `u64::MAX`.
#[derive(Clone, Copy, Debug, PartialEq, Eq, Structural)]
pub struct Processor {
    pub running: bool,
    pub taken: u64,
}

/// How what the worker is told moves it, and what the host does next. A
/// request with a reply channel is answered once, with the acknowledgement and
/// its own echo token; one without is taken and not answered. Whether a reply
/// reached anybody changes nothing. The worker ends when the dispatch channel
/// closes, and stays ended.
pub open spec fn processor_step(worker: Processor, told: InboxView) -> (Processor, WorkView) {
    if !worker.running {
        (worker, WorkView::Stop)
    } else {
        match told {
            InboxView::Request { request, wants_reply } => {
                let next = Processor {
                    running: true,
                    taken: if worker.taken < u64::MAX {
                        (worker.taken + 1) as u64
                    } else {
                        worker.taken
                    },
                };
                if wants_reply {
                    (next, WorkView::Reply(reply_to(request, acknowledgement())))
                } else {
                    (next, WorkView::Receive)
                }
            },
            InboxView::ReplyDone { delivered } => (worker, WorkView::Receive),
            InboxView::Closed => (
                Processor { running: false, taken: worker.taken },
                WorkView::Stop,
            ),
        }
    }
}

impl Processor {
    /// A worker that has taken nothing yet.
    pub fn new() -> (worker: Processor)
        ensures
            worker == (Processor { running: true, taken: 0 }),
    {
        Processor { running: true, taken: 0 }
    }

    /// Takes in what the worker is told and says what to do next.
    pub fn step(&mut self, told: Inbox) -> (work: Work)
        ensures
            (*final(self), work@) == processor_step(*old(self), told@),
    {
        if !self.running {
            return Work::Stop;
        }
        match told {
            Inbox::Request(tuple) => {
                if self.taken < u64::MAX {
                    self.taken = self.taken + 1;
                }
                if tuple.wants_reply {
                    Work::Reply(respond(&tuple.request, acknowledge()))
                } else {
                    Work::Receive
                }
            },
            Inbox::ReplyDone { delivered: _ } => Work::Receive,
            Inbox::Closed => {
                self.running = false;
                Work::Stop
            },
        }
    }
}

} // verus!
