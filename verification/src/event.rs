//! Events that the gateway pushes to every connected client.
use crate::decimal::{decimal_text, render_signed};
use crate::json::{json_quoted, quote_string};
use crate::response::text_view;
use vstd::prelude::*;
use vstd::string::*;

verus! {

/// What every event carries.
#[derive(Clone, Debug)]
pub struct BaseEvent {
    pub time: i64,
    pub self_id: i64,
    pub post_type: String,
}

/// An event as a mathematical value.
pub struct BaseEventView {
    pub time: int,
    pub self_id: int,
    pub post_type: Seq<char>,
}

impl View for BaseEvent {
    type V = BaseEventView;

    open spec fn view(&self) -> BaseEventView {
        BaseEventView {
            time: self.time as int,
            self_id: self.self_id as int,
            post_type: self.post_type@,
        }
    }
}

/// The wire form of an event: a JSON object with `time`, `self_id` and
/// `post_type`, in that order. `None` where `post_type` cannot be written as a
/// JSON string.
pub open spec fn event_text(event: BaseEventView) -> Option<Seq<char>> {
    match json_quoted(event.post_type) {
        None => None,
        Some(quoted) => Some(
            "{\"time\":"@ + decimal_text(event.time) + ",\"self_id\":"@ + decimal_text(
                event.self_id,
            ) + ",\"post_type\":"@ + quoted + "}"@,
        ),
    }
}

impl BaseEvent {
    /// Encodes the event for the wire.
    pub fn encode(&self) -> (text: Option<String>)
        ensures
            text_view(text) == event_text(self@),
    {
        match quote_string(self.post_type.as_str()) {
            None => None,
            Some(quoted) => {
                let mut text = String::from_str("{\"time\":");
                let time = render_signed(self.time);
                text.append(time.as_str());
                text.append(",\"self_id\":");
                let self_id = render_signed(self.self_id);
                text.append(self_id.as_str());
                text.append(",\"post_type\":");
                text.append(quoted.as_str());
                text.append("}");
                Some(text)
            },
        }
    }
}

} // verus!
