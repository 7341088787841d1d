//! Where an access token travels.
use vstd::prelude::*;
use vstd::std_specs::convert::{FromSpecImpl, TryFromSpecImpl};
use vstd::string::*;

verus! {

/// How a request to the backend carries the access token.
#[derive(Debug, Clone)]
pub enum ForwardMethod {
    /// As the query parameter `access_token`.
    Query(String),
    /// As a bearer token in the `Authorization` header.
    Header(String),
    NoToken,
}

/// How a call from the backend carries the access token.
#[derive(Debug, Clone)]
pub enum BackwardMethod {
    /// As a bearer token in the `Authorization` header.
    Header(String),
    NoToken,
}

/// Why a forward method has no backward counterpart.
#[derive(Debug, Clone)]
pub enum ForwardToBackwardError {
    /// A call from the backend cannot carry the token in its query.
    UnsupportQuery { token: String },
}

impl From<BackwardMethod> for ForwardMethod {
    fn from(value: BackwardMethod) -> (forward: ForwardMethod) {
        match value {
            BackwardMethod::Header(token) => ForwardMethod::Header(token),
            BackwardMethod::NoToken => ForwardMethod::NoToken,
        }
    }
}

impl FromSpecImpl<BackwardMethod> for ForwardMethod {
    open spec fn obeys_from_spec() -> bool {
        true
    }

    open spec fn from_spec(value: BackwardMethod) -> ForwardMethod {
        match value {
            BackwardMethod::Header(token) => ForwardMethod::Header(token),
            BackwardMethod::NoToken => ForwardMethod::NoToken,
        }
    }
}

impl TryFrom<ForwardMethod> for BackwardMethod {
    type Error = ForwardToBackwardError;

    fn try_from(value: ForwardMethod) -> (backward: Result<BackwardMethod, ForwardToBackwardError>) {
        match value {
            ForwardMethod::Query(token) => Err(ForwardToBackwardError::UnsupportQuery { token }),
            ForwardMethod::Header(token) => Ok(BackwardMethod::Header(token)),
            ForwardMethod::NoToken => Ok(BackwardMethod::NoToken),
        }
    }
}

impl TryFromSpecImpl<ForwardMethod> for BackwardMethod {
    open spec fn obeys_try_from_spec() -> bool {
        true
    }

    open spec fn try_from_spec(value: ForwardMethod) -> Result<
        BackwardMethod,
        ForwardToBackwardError,
    > {
        match value {
            ForwardMethod::Query(token) => Err(ForwardToBackwardError::UnsupportQuery { token }),
            ForwardMethod::Header(token) => Ok(BackwardMethod::Header(token)),
            ForwardMethod::NoToken => Ok(BackwardMethod::NoToken),
        }
    }
}

impl ForwardMethod {
    /// The token to send as a bearer token, where this method sends one.
    pub open spec fn bearer_token(self) -> Option<Seq<char>> {
        match self {
            ForwardMethod::Header(token) => Some(token@),
            _ => None,
        }
    }

    /// The token to send in the query, where this method sends one.
    pub open spec fn query_token(self) -> Option<Seq<char>> {
        match self {
            ForwardMethod::Query(token) => Some(token@),
            _ => None,
        }
    }

    /// The token to send as a bearer token, where this method sends one.
    pub fn bearer(&self) -> (token: Option<&String>)
        ensures
            match token {
                Some(t) => self.bearer_token() == Some(t@),
                None => self.bearer_token() is None,
            },
    {
        match self {
            ForwardMethod::Header(token) => Some(token),
            _ => None,
        }
    }
}

/// The text that `std`'s `Debug` writes for the string `text`: the string in
/// double quotes, with the escapes of a Rust string literal.
pub uninterp spec fn debug_quoted(text: Seq<char>) -> Seq<char>;

/// Formats a string slice with `{:?}`, that is by `std`'s `Debug` for `str`.
#[verifier::external_body]
fn debug_quote(text: &str) -> (quoted: String)
    ensures
        quoted@ == debug_quoted(text@),
{
    format!("{:?}", text)
}

impl ForwardToBackwardError {
    /// The error as text: the variant's name and its token, quoted.
    pub open spec fn message(self) -> Seq<char> {
        match self {
            ForwardToBackwardError::UnsupportQuery { token } => "UnsupportQuery { token: "@
                + debug_quoted(token@) + " }"@,
        }
    }

    /// Writes the error as text.
    pub fn describe(&self) -> (text: String)
        ensures
            text@ == self.message(),
    {
        match self {
            ForwardToBackwardError::UnsupportQuery { token } => {
                let mut text = String::from_str("UnsupportQuery { token: ");
                let quoted = debug_quote(token.as_str());
                text.append(quoted.as_str());
                text.append(" }");
                text
            },
        }
    }
}

} // verus!
