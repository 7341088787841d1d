//! The request envelope and its decoding from a text frame.
use crate::json::{
    extract_member, find_member, json_object, json_string, member_pairs, member_text,
    object_member, parse_object, parse_string, Member,
};
use crate::response::text_view;
use vstd::prelude::*;

verus! {

/// One request of a client: the action it names, and the parameters of that
/// action as JSON text. The relay reads nothing of the parameters but their
/// `echo` member.
#[derive(Clone, Debug)]
pub struct ApiRequest {
    pub action: String,
    pub params: String,
}

/// A request envelope as a mathematical value.
pub struct ApiRequestView {
    pub action: Seq<char>,
    pub params: Seq<char>,
}

impl View for ApiRequest {
    type V = ApiRequestView;

    open spec fn view(&self) -> ApiRequestView {
        ApiRequestView { action: self.action@, params: self.params@ }
    }
}

impl ApiRequestView {
    /// A request names an action.
    pub open spec fn well_formed(self) -> bool {
        self.action.len() > 0
    }

    /// The echo token of the request: member `echo` of its parameters, as the
    /// client wrote it.
    pub open spec fn echo(self) -> Option<Seq<char>> {
        echo_of(self.params)
    }
}

/// The echo token in `params`: the text of member `echo` where `params` is a
/// JSON object that has one.
pub open spec fn echo_of(params: Seq<char>) -> Option<Seq<char>> {
    object_member(params, "echo"@)
}

/// Why a text frame is no request envelope.
#[derive(Clone, Copy, Debug, PartialEq, Eq, Structural)]
pub enum DecodeError {
    /// The frame is not one JSON object.
    NotAnObject,
    /// The object has no member `action`.
    MissingAction,
    /// Member `action` is not a JSON string.
    ActionNotText,
    /// Member `action` is the empty string.
    EmptyAction,
    /// The object has no member `params`.
    MissingParams,
}

/// The request that an action and parameters make, where they make one.
pub open spec fn checked_request(action: Seq<char>, params: Option<Seq<char>>) -> Result<
    ApiRequestView,
    DecodeError,
> {
    if action.len() == 0 {
        Err(DecodeError::EmptyAction)
    } else {
        match params {
            None => Err(DecodeError::MissingParams),
            Some(p) => Ok(ApiRequestView { action, params: p }),
        }
    }
}

/// The request that the members of a JSON object make.
pub open spec fn request_of_members(members: Seq<(Seq<char>, Seq<char>)>) -> Result<
    ApiRequestView,
    DecodeError,
> {
    match member_text(members, "action"@) {
        None => Err(DecodeError::MissingAction),
        Some(literal) => match json_string(literal) {
            None => Err(DecodeError::ActionNotText),
            Some(action) => checked_request(action, member_text(members, "params"@)),
        },
    }
}

/// The request that a text frame holds: the frame is a JSON object whose
/// member `action` is a non-empty string and which has a member `params`.
/// Other members are passed over.
pub open spec fn decoded_request(text: Seq<char>) -> Result<ApiRequestView, DecodeError> {
    match json_object(text) {
        None => Err(DecodeError::NotAnObject),
        Some(members) => request_of_members(members),
    }
}

/// Whether `result` is the outcome that `expected` describes.
pub open spec fn decodes_to(
    result: Result<ApiRequest, DecodeError>,
    expected: Result<ApiRequestView, DecodeError>,
) -> bool {
    match result {
        Ok(request) => expected == Ok::<ApiRequestView, DecodeError>(request@),
        Err(e) => expected == Err::<ApiRequestView, DecodeError>(e),
    }
}

impl ApiRequest {
    /// Makes a request of an action and, where there are any, parameters.
    pub fn checked(action: String, params: Option<String>) -> (result: Result<
        ApiRequest,
        DecodeError,
    >)
        ensures
            decodes_to(result, checked_request(action@, text_view(params))),
            result matches Ok(request) ==> request@.well_formed(),
    {
        if action.as_str().is_empty() {
            Err(DecodeError::EmptyAction)
        } else {
            match params {
                None => Err(DecodeError::MissingParams),
                Some(params) => Ok(ApiRequest { action, params }),
            }
        }
    }

    /// Makes a request of the members of a JSON object.
    pub fn from_members(members: &Vec<Member>) -> (result: Result<ApiRequest, DecodeError>)
        ensures
            decodes_to(result, request_of_members(member_pairs(members@))),
            result matches Ok(request) ==> request@.well_formed(),
    {
        match find_member(members, "action") {
            None => Err(DecodeError::MissingAction),
            Some(literal) => match parse_string(literal.as_str()) {
                None => Err(DecodeError::ActionNotText),
                Some(action) => ApiRequest::checked(action, find_member(members, "params")),
            },
        }
    }

    /// Decodes a text frame.
    pub fn decode(text: &str) -> (result: Result<ApiRequest, DecodeError>)
        ensures
            decodes_to(result, decoded_request(text@)),
            result matches Ok(request) ==> request@.well_formed(),
    {
        match parse_object(text) {
            None => Err(DecodeError::NotAnObject),
            Some(members) => ApiRequest::from_members(&members),
        }
    }

    /// The echo token of this request, unchanged.
    pub fn echo(&self) -> (token: Option<String>)
        ensures
            text_view(token) == self@.echo(),
    {
        extract_member(self.params.as_str(), "echo")
    }
}

/// Every request that decoding yields names an action.
pub proof fn decoded_requests_are_well_formed(text: Seq<char>)
    ensures
        decoded_request(text) matches Ok(request) ==> request.well_formed(),
{
}

} // verus!
