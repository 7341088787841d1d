//! A plain HTTP client's view of the backend: where a message goes, and how
//! it is sent.
use vstd::prelude::*;
use vstd::string::*;

verus! {

/// How a message is sent to the backend.
#[derive(Debug, Clone, Copy)]
pub enum HttpSendMode {
    Query,
    Urlencodeed,
    Json,
}

/// The HTTP verb of a call.
#[derive(Debug, Clone, Copy, PartialEq, Eq, Structural)]
pub enum Verb {
    Get,
    Post,
}

/// Where a call carries its message.
#[derive(Debug, Clone, Copy, PartialEq, Eq, Structural)]
pub enum Carrier {
    /// In the query of the address.
    Query,
    /// In the body, as a form.
    Form,
    /// In the body, as JSON.
    Json,
}

impl HttpSendMode {
    /// The verb that this mode calls with: a query is fetched, a body is
    /// posted.
    pub open spec fn spec_verb(self) -> Verb {
        match self {
            HttpSendMode::Query => Verb::Get,
            _ => Verb::Post,
        }
    }

    /// Where this mode puts the message.
    pub open spec fn spec_carrier(self) -> Carrier {
        match self {
            HttpSendMode::Query => Carrier::Query,
            HttpSendMode::Urlencodeed => Carrier::Form,
            HttpSendMode::Json => Carrier::Json,
        }
    }

    /// The verb that this mode calls with.
    pub fn verb(self) -> (verb: Verb)
        ensures
            verb == self.spec_verb(),
    {
        match self {
            HttpSendMode::Query => Verb::Get,
            _ => Verb::Post,
        }
    }

    /// Where this mode puts the message.
    pub fn carrier(self) -> (carrier: Carrier)
        ensures
            carrier == self.spec_carrier(),
    {
        match self {
            HttpSendMode::Query => Carrier::Query,
            HttpSendMode::Urlencodeed => Carrier::Form,
            HttpSendMode::Json => Carrier::Json,
        }
    }
}

/// The address of the entry for messages of type `msg_type` on `host`.
pub open spec fn endpoint_text(host: Seq<char>, msg_type: Seq<char>) -> Seq<char> {
    host + "/"@ + msg_type
}

/// Writes the address of the entry for messages of type `msg_type` on `host`.
pub fn endpoint(host: &str, msg_type: &str) -> (address: String)
    ensures
        address@ == endpoint_text(host@, msg_type@),
{
    let mut address = String::from_str(host);
    address.append("/");
    address.append(msg_type);
    address
}

} // verus!
