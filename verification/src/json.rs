//! JSON documents, read by the `serde_json` crate.

use vstd::prelude::*;

verus! {

/// What the `serde_json` crate reads: the text of the member `key` of the
/// object that `text` holds, where `text` is a JSON document whose top level is
/// an object and the member is a string. Otherwise it is `None`.
pub uninterp spec fn json_string_member(text: Seq<char>, key: Seq<char>) -> Option<Seq<char>>;

/// Parses `text` with `serde_json::from_str` into a `serde_json::Value`, looks
/// `key` up with `Value::get` and reads the member with `Value::as_str`.
/// Nothing of this is proved: the contract only gives the result its name.
/// A text that is no JSON gives `None`.
#[verifier::external_body]
pub(crate) fn string_member(text: &str, key: &str) -> (r: Option<String>)
    ensures
        r.deep_view() == json_string_member(text@, key@),
{
    match serde_json::from_str::<serde_json::Value>(text) {
        Ok(document) => match document.get(key) {
            Some(member) => match member.as_str() {
                Some(found) => Some(found.to_owned()),
                None => None,
            },
            None => None,
        },
        Err(_) => None,
    }
}

} // verus!
