//! The boundary to the JSON codec.
//!
//! Payloads travel through the relay as JSON text and are never interpreted
//! beyond what is named here: whether a text is one JSON value, which members
//! an object has, which string a JSON string literal denotes, and how a string
//! is written as a literal. Each of these is computed by `serde_json`; the
//! contracts below give the results names and state no more of them than the
//! codec documents.
use vstd::prelude::*;

verus! {

/// The JSON value that `text` holds, as written but without the whitespace
/// around it; `None` where the codec does not read `text` as exactly one JSON
/// value.
pub uninterp spec fn json_value(text: Seq<char>) -> Option<Seq<char>>;

/// The members of the JSON object that `text` holds, ordered by key, each key
/// once, each with the text of its value as written; `None` where the codec
/// does not read `text` as exactly one JSON object. Where the object repeats a
/// key, the last occurrence counts.
pub uninterp spec fn json_object(text: Seq<char>) -> Option<Seq<(Seq<char>, Seq<char>)>>;

/// The string that the JSON string literal `text` denotes; `None` where the
/// codec does not read `text` as exactly one JSON string.
pub uninterp spec fn json_string(text: Seq<char>) -> Option<Seq<char>>;

/// The JSON string literal that denotes `value`, quotes and escapes included;
/// `None` where the codec declines to write it.
pub uninterp spec fn json_quoted(value: Seq<char>) -> Option<Seq<char>>;

/// One member of a JSON object: its key, and the text of its value.
pub struct Member {
    pub key: String,
    pub text: String,
}

/// The members in `list` as pairs of key and value text.
pub open spec fn member_pairs(list: Seq<Member>) -> Seq<(Seq<char>, Seq<char>)> {
    Seq::new(list.len(), |i: int| (list[i].key@, list[i].text@))
}

/// The value text of the first member of `members` whose key is `key`.
pub open spec fn member_text(members: Seq<(Seq<char>, Seq<char>)>, key: Seq<char>) -> Option<
    Seq<char>,
>
    decreases members.len(),
{
    if members.len() == 0 {
        None
    } else if members[0].0 == key {
        Some(members[0].1)
    } else {
        member_text(members.skip(1), key)
    }
}

/// Calls `serde_json::value::RawValue::from_string` and hands back the text of
/// the raw value it yields. The codec accepts exactly the texts that hold one
/// JSON value, and the raw value spans that value without the whitespace
/// around it.
#[verifier::external_body]
pub(crate) fn parse_value(text: &str) -> (value: Option<String>)
    ensures
        value.is_some() == json_value(text@).is_some(),
        value matches Some(v) ==> json_value(text@) == Some(v@),
{
    match serde_json::value::RawValue::from_string(text.to_owned()) {
        Ok(raw) => Some(raw.get().to_owned()),
        Err(_) => None,
    }
}

/// Calls `serde_json::from_str` for a map from `String` to boxed `RawValue`,
/// and hands back its entries in the map's order. The codec accepts exactly
/// the texts that hold one JSON object; each raw value is the member's value
/// as written.
#[verifier::external_body]
pub(crate) fn parse_object(text: &str) -> (members: Option<Vec<Member>>)
    ensures
        members.is_some() == json_object(text@).is_some(),
        members matches Some(list) ==> json_object(text@) == Some(member_pairs(list@)),
{
    match serde_json::from_str::<
        std::collections::BTreeMap<String, Box<serde_json::value::RawValue>>,
    >(text) {
        Ok(map) => Some(
            map.into_iter().map(|(key, raw)| Member { key, text: raw.get().to_owned() }).collect(),
        ),
        Err(_) => None,
    }
}

/// Calls `serde_json::from_str` for a `String`: the codec accepts exactly the
/// texts that hold one JSON string, and yields the string it denotes.
#[verifier::external_body]
pub(crate) fn parse_string(text: &str) -> (value: Option<String>)
    ensures
        value.is_some() == json_string(text@).is_some(),
        value matches Some(v) ==> json_string(text@) == Some(v@),
{
    match serde_json::from_str::<String>(text) {
        Ok(value) => Some(value),
        Err(_) => None,
    }
}

/// Calls `serde_json::to_string` on a string slice, which writes it as a JSON
/// string literal.
#[verifier::external_body]
pub(crate) fn quote_string(value: &str) -> (text: Option<String>)
    ensures
        text.is_some() == json_quoted(value@).is_some(),
        text matches Some(t) ==> json_quoted(value@) == Some(t@),
{
    match serde_json::to_string(value) {
        Ok(text) => Some(text),
        Err(_) => None,
    }
}

/// Looks `key` up among `members`.
pub fn find_member(members: &Vec<Member>, key: &str) -> (found: Option<String>)
    ensures
        found.is_some() == member_text(member_pairs(members@), key@).is_some(),
        found matches Some(text) ==> member_text(member_pairs(members@), key@) == Some(text@),
{
    let wanted = String::from_str(key);
    let ghost pairs = member_pairs(members@);
    let mut i: usize = 0;
    assert(pairs.skip(0) =~= pairs);
    while i < members.len()
        invariant
            i <= members.len(),
            wanted@ == key@,
            pairs == member_pairs(members@),
            member_text(pairs, key@) == member_text(pairs.skip(i as int), key@),
        decreases members.len() - i,
    {
        proof {
            assert(pairs.skip(i as int)[0] == pairs[i as int]);
            assert(pairs.skip(i as int).skip(1) =~= pairs.skip(i as int + 1));
        }
        if members[i].key == wanted {
            return Some(members[i].text.clone());
        }
        i += 1;
    }
    None
}

/// The value text of member `key` of the JSON object that `text` holds; `None`
/// where `text` is no object or the object has no such member.
pub open spec fn object_member(text: Seq<char>, key: Seq<char>) -> Option<Seq<char>> {
    match json_object(text) {
        Some(members) => member_text(members, key),
        None => None,
    }
}

/// Extracts member `key` from the JSON object in `text`, value text unchanged.
pub fn extract_member(text: &str, key: &str) -> (found: Option<String>)
    ensures
        found.is_some() == object_member(text@, key@).is_some(),
        found matches Some(value) ==> object_member(text@, key@) == Some(value@),
{
    match parse_object(text) {
        Some(members) => find_member(&members, key),
        None => None,
    }
}

} // verus!
