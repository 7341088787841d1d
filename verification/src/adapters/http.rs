//! The shape of a call to the backend over HTTP: which entry it names, how
//! the entry's path is written, and what comes back.
use super::auth::ForwardMethod;
use vstd::prelude::*;
use vstd::std_specs::convert::FromSpecImpl;
use vstd::string::*;

verus! {

/// How the body of a call is encoded.
#[derive(Debug, Clone, Copy, PartialEq, Eq, Structural)]
pub enum Method {
    Urlencoded,
    Json,
    Query,
}

/// Either of two shapes that the `data` of a response may have.
#[derive(Debug, Clone)]
pub enum CustomResult<T, E> {
    /// The data that the entry answers with.
    Data(T),
    /// What the backend sent in its place.
    Fault(E),
}

impl<T, E> From<CustomResult<T, E>> for Result<T, E> {
    fn from(result: CustomResult<T, E>) -> (converted: Result<T, E>) {
        match result {
            CustomResult::Data(value) => Ok(value),
            CustomResult::Fault(error) => Err(error),
        }
    }
}

impl<T, E> FromSpecImpl<CustomResult<T, E>> for Result<T, E> {
    open spec fn obeys_from_spec() -> bool {
        true
    }

    open spec fn from_spec(result: CustomResult<T, E>) -> Result<T, E> {
        match result {
            CustomResult::Data(value) => Ok(value),
            CustomResult::Fault(error) => Err(error),
        }
    }
}

impl<T, E> From<Result<T, E>> for CustomResult<T, E> {
    fn from(value: Result<T, E>) -> (converted: CustomResult<T, E>) {
        match value {
            Ok(o) => CustomResult::Data(o),
            Err(e) => CustomResult::Fault(e),
        }
    }
}

impl<T, E> FromSpecImpl<Result<T, E>> for CustomResult<T, E> {
    open spec fn obeys_from_spec() -> bool {
        true
    }

    open spec fn from_spec(value: Result<T, E>) -> CustomResult<T, E> {
        match value {
            Ok(o) => CustomResult::Data(o),
            Err(e) => CustomResult::Fault(e),
        }
    }
}

/// What the backend answers to a call.
#[derive(Debug, Clone)]
pub struct Response<O, E> {
    pub status: String,
    pub retcode: i32,
    pub data: Option<CustomResult<O, E>>,
}

/// The variant of an entry that a call asks for.
#[derive(Debug, Clone, Copy)]
pub enum Mode {
    Default,
    Async,
    RateLimited,
}

impl Mode {
    /// What this mode appends to the name of an entry.
    pub open spec fn suffix(self) -> Seq<char> {
        match self {
            Mode::Default => ""@,
            Mode::Async => "_async"@,
            Mode::RateLimited => "_rate_limited"@,
        }
    }

    /// What this mode appends to the name of an entry.
    pub fn to_suffix(self) -> (suffix: &'static str)
        ensures
            suffix@ == self.suffix(),
    {
        match self {
            Mode::Default => "",
            Mode::Async => "_async",
            Mode::RateLimited => "_rate_limited",
        }
    }
}

/// A request of the catalogue: the entry that it calls, and what the entry
/// answers.
pub trait Entry {
    type Output;

    /// The name of the entry.
    spec fn entry_name() -> Seq<char>;

    /// The name of the entry.
    fn entry() -> (name: &'static str)
        ensures
            name@ == Self::entry_name(),
    ;
}

/// A request that can travel in a query or as a form.
pub trait CqReq: Entry {

}

/// A request that can travel as a JSON body.
pub trait JsonReq: Entry {

}

/// What a token in the query adds to a path, after `separator`.
pub open spec fn token_part(separator: Seq<char>, auth: ForwardMethod) -> Seq<char> {
    match auth.query_token() {
        Some(token) => separator + "access_token="@ + token,
        None => Seq::empty(),
    }
}

/// The path and query of a call that carries its data in the query: the
/// entry with the mode's suffix, the encoded data, and the token where it
/// travels in the query.
pub open spec fn query_path(
    entry: Seq<char>,
    mode: Mode,
    data: Seq<char>,
    auth: ForwardMethod,
) -> Seq<char> {
    "/"@ + entry + mode.suffix() + "?"@ + data + token_part("&"@, auth)
}

/// The path and query of a call that carries its data in the body: the entry
/// with the mode's suffix, and the token where it travels in the query.
pub open spec fn body_path(entry: Seq<char>, mode: Mode, auth: ForwardMethod) -> Seq<char> {
    "/"@ + entry + mode.suffix() + token_part("?"@, auth)
}

fn append_token(path: &mut String, separator: &str, auth: &ForwardMethod)
    ensures
        final(path)@ == old(path)@ + token_part(separator@, *auth),
{
    match auth {
        ForwardMethod::Query(token) => {
            path.append(separator);
            path.append("access_token=");
            path.append(token.as_str());
        },
        _ => {},
    }
}

/// Writes the path and query of a call of entry `R` that carries `data`,
/// already encoded, in the query.
pub fn query_target<R: CqReq>(data: &str, mode: Mode, auth: &ForwardMethod) -> (path: String)
    ensures
        path@ == query_path(R::entry_name(), mode, data@, *auth),
{
    let mut path = String::from_str("/");
    path.append(R::entry());
    path.append(mode.to_suffix());
    path.append("?");
    path.append(data);
    append_token(&mut path, "&", auth);
    path
}

/// Writes the path and query of a call of entry `R` that carries its data as
/// a form.
pub fn form_target<R: CqReq>(mode: Mode, auth: &ForwardMethod) -> (path: String)
    ensures
        path@ == body_path(R::entry_name(), mode, *auth),
{
    let mut path = String::from_str("/");
    path.append(R::entry());
    path.append(mode.to_suffix());
    append_token(&mut path, "?", auth);
    path
}

/// Writes the path and query of a call of entry `R` that carries its data as
/// a JSON body.
pub fn json_target<R: JsonReq>(mode: Mode, auth: &ForwardMethod) -> (path: String)
    ensures
        path@ == body_path(R::entry_name(), mode, *auth),
{
    let mut path = String::from_str("/");
    path.append(R::entry());
    path.append(mode.to_suffix());
    append_token(&mut path, "?", auth);
    path
}

} // verus!
