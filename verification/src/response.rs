//! The response envelope and its wire form.
use crate::decimal::{decimal_text, render_signed};
use crate::json::{json_value, parse_value};
use vstd::prelude::*;
use vstd::string::*;

verus! {

/// How a request ended.
#[derive(Clone, Copy, Debug, PartialEq, Eq, Structural)]
pub enum Status {
    Okay,
    Async,
    Failed,
}

impl Status {
    /// The word that stands for this status on the wire.
    pub open spec fn text(self) -> Seq<char> {
        match self {
            Status::Okay => "ok"@,
            Status::Async => "async"@,
            Status::Failed => "failed"@,
        }
    }

    /// The word that stands for this status on the wire.
    pub fn as_str(&self) -> (word: &'static str)
        ensures
            word@ == self.text(),
    {
        match self {
            Status::Okay => "ok",
            Status::Async => "async",
            Status::Failed => "failed",
        }
    }
}

/// The answer to one request. `data` and `echo` hold JSON text; `echo` is the
/// token of the request that this answers, unchanged.
#[derive(Clone, Debug)]
pub struct MsgRsp {
    pub status: Status,
    pub retcode: i32,
    pub data: Option<String>,
    pub echo: Option<String>,
}

/// A response envelope as a mathematical value.
pub struct MsgRspView {
    pub status: Status,
    pub retcode: int,
    pub data: Option<Seq<char>>,
    pub echo: Option<Seq<char>>,
}

/// The text in an optional string.
pub open spec fn text_view(text: Option<String>) -> Option<Seq<char>> {
    match text {
        Some(t) => Some(t@),
        None => None,
    }
}

impl View for MsgRsp {
    type V = MsgRspView;

    open spec fn view(&self) -> MsgRspView {
        MsgRspView {
            status: self.status,
            retcode: self.retcode as int,
            data: text_view(self.data),
            echo: text_view(self.echo),
        }
    }
}

/// Why a response envelope has no wire form.
#[derive(Clone, Copy, Debug, PartialEq, Eq, Structural)]
pub enum EncodeError {
    /// `data` is not one JSON value.
    Data,
    /// `echo` is not one JSON value.
    Echo,
}

/// The part of a frame that an optional payload contributes: nothing where
/// there is none, else `label` and the JSON value in the payload. `None` where
/// the payload is not JSON.
pub open spec fn member_part(label: Seq<char>, payload: Option<Seq<char>>) -> Option<Seq<char>> {
    match payload {
        None => Some(Seq::empty()),
        Some(text) => match json_value(text) {
            Some(value) => Some(label + value),
            None => None,
        },
    }
}

/// The wire form of a response envelope: a JSON object with `status` and
/// `retcode`, then `data` and `echo` where the envelope has them.
pub open spec fn response_text(response: MsgRspView) -> Result<Seq<char>, EncodeError> {
    let head = "{\"status\":\""@ + response.status.text() + "\",\"retcode\":"@ + decimal_text(
        response.retcode,
    );
    match member_part(",\"data\":"@, response.data) {
        None => Err(EncodeError::Data),
        Some(data) => match member_part(",\"echo\":"@, response.echo) {
            None => Err(EncodeError::Echo),
            Some(echo) => Ok(head + data + echo + "}"@),
        },
    }
}

/// The wire form of a response envelope where it has one.
pub open spec fn response_frame(response: MsgRspView) -> Option<Seq<char>> {
    match response_text(response) {
        Ok(text) => Some(text),
        Err(_) => None,
    }
}

fn encode_member(label: &str, payload: &Option<String>) -> (part: Option<String>)
    ensures
        text_view(part) == member_part(label@, text_view(*payload)),
{
    match payload {
        None => Some(String::new()),
        Some(text) => match parse_value(text.as_str()) {
            Some(value) => {
                let mut part = String::from_str(label);
                part.append(value.as_str());
                Some(part)
            },
            None => None,
        },
    }
}

/// Encodes a response envelope for the wire. It fails exactly where `data` or
/// `echo` is not JSON, `data` being looked at first.
pub fn encode_response(response: &MsgRsp) -> (encoded: Result<String, EncodeError>)
    ensures
        encoded is Ok == response_text(response@) is Ok,
        encoded matches Ok(text) ==> response_text(response@) == Ok::<Seq<char>, EncodeError>(
            text@,
        ),
        encoded matches Err(e) ==> response_text(response@) == Err::<Seq<char>, EncodeError>(e),
{
    let mut text = String::from_str("{\"status\":\"");
    text.append(response.status.as_str());
    text.append("\",\"retcode\":");
    let retcode = render_signed(response.retcode as i64);
    text.append(retcode.as_str());
    match encode_member(",\"data\":", &response.data) {
        None => Err(EncodeError::Data),
        Some(data) => match encode_member(",\"echo\":", &response.echo) {
            None => Err(EncodeError::Echo),
            Some(echo) => {
                text.append(data.as_str());
                text.append(echo.as_str());
                text.append("}");
                Ok(text)
            },
        },
    }
}

/// Encodes a response envelope, or nothing where it has no wire form.
pub fn frame_response(response: &MsgRsp) -> (frame: Option<String>)
    ensures
        text_view(frame) == response_frame(response@),
{
    match encode_response(response) {
        Ok(text) => Some(text),
        Err(_) => None,
    }
}

} // verus!
