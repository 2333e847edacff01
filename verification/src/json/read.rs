//! Reading JSON text: a document is taken apart into the texts of its
//! members or items, and a text is read as a string or a number.

use std::collections::BTreeMap;

use serde_json::value::RawValue;
use vstd::prelude::*;

use crate::json::member::members_view;
use crate::json::member::texts_view;
use crate::json::member::JsonMember;
use crate::json::member::Member;

verus! {

/// What `serde_json` makes of a document that is to hold one JSON string: the
/// text that the string stands for, or the description of why the document was
/// refused.
pub uninterp spec fn json_string_parse(document: Seq<char>) -> Result<Seq<char>, Seq<char>>;

/// What `serde_json` makes of a document that is to hold one unsigned 64-bit
/// integer: the number, or the description of why the document was refused.
pub uninterp spec fn json_u64_parse(document: Seq<char>) -> Result<u64, Seq<char>>;

/// What `serde_json` makes of a document that is to hold a JSON string or
/// `null`: the text, `None` for `null`, or the description of why the document
/// was refused.
pub uninterp spec fn json_optional_string_parse(document: Seq<char>) -> Result<
    Option<Seq<char>>,
    Seq<char>,
>;

/// What `serde_json` makes of a document that is to hold an unsigned 64-bit
/// integer or `null`: the number, `None` for `null`, or the description of why
/// the document was refused.
pub uninterp spec fn json_optional_u64_parse(document: Seq<char>) -> Result<
    Option<u64>,
    Seq<char>,
>;

/// What `serde_json` makes of a document that is to hold one JSON object: its
/// members, each value as the JSON text it was written as, or the description
/// of why the document was refused. The members come sorted by key; of a key
/// that the document gives twice only the last value is kept.
pub uninterp spec fn json_object_parse(document: Seq<char>) -> Result<Seq<Member>, Seq<char>>;

/// What `serde_json` makes of a document that is to hold one JSON array: its
/// items in their order, each as the JSON text it was written as, or the
/// description of why the document was refused.
pub uninterp spec fn json_array_parse(document: Seq<char>) -> Result<Seq<Seq<char>>, Seq<char>>;

/// Calls `serde_json::from_str` for a `String` and, where it refuses, renders
/// its error. Trusted: the outcome depends on the document alone.
#[verifier::external_body]
pub(crate) fn unquote(document: &str) -> (r: Result<String, String>)
    ensures
        match r {
            Ok(text) => json_string_parse(document@) == Ok::<Seq<char>, Seq<char>>(text@),
            Err(cause) => json_string_parse(document@) == Err::<Seq<char>, Seq<char>>(cause@),
        },
{
    match serde_json::from_str::<String>(document) {
        Ok(text) => Ok(text),
        Err(e) => Err(e.to_string()),
    }
}

/// Calls `serde_json::from_str` for a `u64` and, where it refuses, renders
/// its error. Trusted: the outcome depends on the document alone.
#[verifier::external_body]
pub(crate) fn read_u64(document: &str) -> (r: Result<u64, String>)
    ensures
        match r {
            Ok(number) => json_u64_parse(document@) == Ok::<u64, Seq<char>>(number),
            Err(cause) => json_u64_parse(document@) == Err::<u64, Seq<char>>(cause@),
        },
{
    match serde_json::from_str::<u64>(document) {
        Ok(number) => Ok(number),
        Err(e) => Err(e.to_string()),
    }
}

/// Calls `serde_json::from_str` for an `Option<String>` and, where it
/// refuses, renders its error. Trusted: the outcome depends on the document
/// alone.
#[verifier::external_body]
pub(crate) fn read_optional_string(document: &str) -> (r: Result<Option<String>, String>)
    ensures
        match r {
            Ok(Some(text)) => json_optional_string_parse(document@) == Ok::<
                Option<Seq<char>>,
                Seq<char>,
            >(Some(text@)),
            Ok(None) => json_optional_string_parse(document@) == Ok::<
                Option<Seq<char>>,
                Seq<char>,
            >(None),
            Err(cause) => json_optional_string_parse(document@) == Err::<
                Option<Seq<char>>,
                Seq<char>,
            >(cause@),
        },
{
    match serde_json::from_str::<Option<String>>(document) {
        Ok(text) => Ok(text),
        Err(e) => Err(e.to_string()),
    }
}

/// Calls `serde_json::from_str` for an `Option<u64>` and, where it refuses,
/// renders its error. Trusted: the outcome depends on the document alone.
#[verifier::external_body]
pub(crate) fn read_optional_u64(document: &str) -> (r: Result<Option<u64>, String>)
    ensures
        match r {
            Ok(number) => json_optional_u64_parse(document@) == Ok::<Option<u64>, Seq<char>>(
                number,
            ),
            Err(cause) => json_optional_u64_parse(document@) == Err::<Option<u64>, Seq<char>>(
                cause@,
            ),
        },
{
    match serde_json::from_str::<Option<u64>>(document) {
        Ok(number) => Ok(number),
        Err(e) => Err(e.to_string()),
    }
}

/// Calls `serde_json::from_str` for a map from keys to raw values and, where
/// it refuses, renders its error. Trusted: the outcome depends on the document
/// alone.
#[verifier::external_body]
pub(crate) fn split_object(document: &str) -> (r: Result<Vec<JsonMember>, String>)
    ensures
        match r {
            Ok(members) => json_object_parse(document@) == Ok::<Seq<Member>, Seq<char>>(
                members_view(members@),
            ),
            Err(cause) => json_object_parse(document@) == Err::<Seq<Member>, Seq<char>>(cause@),
        },
{
    match serde_json::from_str::<BTreeMap<String, Box<RawValue>>>(document) {
        Ok(map) => Ok(
            map.into_iter().map(|(key, raw)| JsonMember { key, value: raw.get().to_owned() }).collect(),
        ),
        Err(e) => Err(e.to_string()),
    }
}

/// Calls `serde_json::from_str` for a vector of raw values and, where it
/// refuses, renders its error. Trusted: the outcome depends on the document
/// alone.
#[verifier::external_body]
pub(crate) fn split_array(document: &str) -> (r: Result<Vec<String>, String>)
    ensures
        match r {
            Ok(items) => json_array_parse(document@) == Ok::<Seq<Seq<char>>, Seq<char>>(
                texts_view(items@),
            ),
            Err(cause) => json_array_parse(document@) == Err::<Seq<Seq<char>>, Seq<char>>(cause@),
        },
{
    match serde_json::from_str::<Vec<Box<RawValue>>>(document) {
        Ok(items) => Ok(items.into_iter().map(|raw| raw.get().to_owned()).collect()),
        Err(e) => Err(e.to_string()),
    }
}

} // verus!
