//! The two interchange formats: `application/x-www-form-urlencoded` text for
//! query strings and JSON objects for bodies. Both are produced and read by
//! the serde ecosystem; this module gives their results a name and hands them
//! to the rest of the library as plain text and named fields.

use crate::fields::{as_map, bind_all, distinct_names, entries_of, Entries, Fields};
use std::collections::BTreeMap;
use vstd::prelude::*;

verus! {

/// The query string that `serde_urlencoded` writes for a sequence of named
/// text values, or the text of its error.
pub uninterp spec fn urlencoded_form(entries: Entries) -> Result<Seq<char>, Seq<char>>;

/// The named text values that `serde_urlencoded` reads from a query string,
/// in the order in which they stand there, or the text of its error.
pub uninterp spec fn urldecoded_form(text: Seq<char>) -> Result<Entries, Seq<char>>;

/// The JSON text that `serde_json` writes for an object whose members are the
/// given names with their text values, or the text of its error.
pub uninterp spec fn json_object_text(members: Map<Seq<char>, Seq<char>>) -> Result<
    Seq<char>,
    Seq<char>,
>;

/// The members that `serde_json` reads from the text of a JSON object whose
/// values are all strings, or the text of its error.
pub uninterp spec fn json_text_object(text: Seq<char>) -> Result<Entries, Seq<char>>;

/// An encoder's result as specifications see it.
pub open spec fn text_of(r: Result<String, String>) -> Result<Seq<char>, Seq<char>> {
    match r {
        Ok(text) => Ok(text@),
        Err(reason) => Err(reason@),
    }
}

/// A decoder's result as specifications see it.
pub open spec fn entries_of_result(r: Result<Vec<(String, String)>, String>) -> Result<
    Entries,
    Seq<char>,
> {
    match r {
        Ok(pairs) => Ok(entries_of(pairs@)),
        Err(reason) => Err(reason@),
    }
}

/// What a decoder hands on once its entries are bound into a map.
pub open spec fn bound(r: Result<Entries, Seq<char>>) -> Result<Entries, Seq<char>> {
    match r {
        Ok(entries) => Ok(bind_all(entries)),
        Err(reason) => Err(reason),
    }
}

/// Decoded fields as specifications see them.
pub open spec fn fields_of(r: Result<Fields, String>) -> Result<Entries, Seq<char>> {
    match r {
        Ok(fields) => Ok(fields.entries()),
        Err(reason) => Err(reason@),
    }
}

/// Whether the query string written for these fields is read back as the
/// same names with the same values.
pub open spec fn query_text_reads_back(fields: Entries) -> bool {
    &&& urlencoded_form(fields) matches Ok(text)
    &&& bound(urldecoded_form(text)) matches Ok(back)
    &&& as_map(back) == as_map(fields)
}

/// Whether the JSON text written for these fields is read back as the same
/// names with the same values.
pub open spec fn json_text_reads_back(fields: Entries) -> bool {
    &&& json_object_text(as_map(fields)) matches Ok(text)
    &&& bound(json_text_object(text)) matches Ok(back)
    &&& as_map(back) == as_map(fields)
}

/// Calls `serde_urlencoded::to_string` on the pairs. The result is taken on
/// trust to be a function of the pairs alone; an error comes back as its
/// `Debug` text.
#[verifier::external_body]
fn urlencode(pairs: &Vec<(String, String)>) -> (r: Result<String, String>)
    ensures
        text_of(r) == urlencoded_form(entries_of(pairs@)),
{
    serde_urlencoded::to_string(pairs).map_err(|err| format!("{:?}", err))
}

/// Calls `serde_urlencoded::from_str` for a sequence of pairs. The result is
/// taken on trust to be a function of the text alone; an error comes back as
/// its `Debug` text.
#[verifier::external_body]
fn urldecode(text: &str) -> (r: Result<Vec<(String, String)>, String>)
    ensures
        entries_of_result(r) == urldecoded_form(text@),
{
    serde_urlencoded::from_str::<Vec<(String, String)>>(text).map_err(|err| format!("{:?}", err))
}

/// Calls `serde_json::to_string` on the pairs as an ordered map from name to
/// value. The result is taken on trust to be a function of that map alone; an
/// error comes back as its `Debug` text.
#[verifier::external_body]
fn json_encode(pairs: &Vec<(String, String)>) -> (r: Result<String, String>)
    requires
        distinct_names(entries_of(pairs@)),
    ensures
        text_of(r) == json_object_text(as_map(entries_of(pairs@))),
{
    let object: BTreeMap<&String, &String> = pairs.iter().map(|pair| (&pair.0, &pair.1)).collect();
    serde_json::to_string(&object).map_err(|err| format!("{:?}", err))
}

/// Calls `serde_json::from_str` for an ordered map from name to text value
/// and hands its members out in the map's order. The result is taken on
/// trust to be a function of the text alone, and a map to hold no name twice;
/// an error comes back as its `Debug` text.
#[verifier::external_body]
fn json_decode(text: &str) -> (r: Result<Vec<(String, String)>, String>)
    ensures
        entries_of_result(r) == json_text_object(text@),
        r matches Ok(pairs) ==> distinct_names(entries_of(pairs@)),
{
    let object = serde_json::from_str::<BTreeMap<String, String>>(text);
    object.map(|members| members.into_iter().collect()).map_err(|err| format!("{:?}", err))
}

/// Writes the fields as a query string, in their order.
pub fn encode_query(fields: &Fields) -> (r: Result<String, String>)
    ensures
        text_of(r) == urlencoded_form(fields.entries()),
{
    urlencode(fields.pairs())
}

/// Reads a query string into fields. Of several values under one name the
/// last is kept.
pub fn decode_query(text: &str) -> (r: Result<Fields, String>)
    ensures
        fields_of(r) == bound(urldecoded_form(text@)),
{
    match urldecode(text) {
        Ok(pairs) => Ok(Fields::collect(&pairs)),
        Err(reason) => Err(reason),
    }
}

/// Writes the fields as the text of a JSON object with one string member for
/// each.
pub fn encode_json(fields: &Fields) -> (r: Result<String, String>)
    ensures
        text_of(r) == json_object_text(fields@),
{
    json_encode(fields.pairs())
}

/// Reads the text of a JSON object with string members into fields.
pub fn decode_json(text: &str) -> (r: Result<Fields, String>)
    ensures
        fields_of(r) == bound(json_text_object(text@)),
{
    match json_decode(text) {
        Ok(pairs) => Ok(Fields::collect(&pairs)),
        Err(reason) => Err(reason),
    }
}

/// Tests whether the query string written for the fields is read back as
/// the same names with the same values.
pub fn query_reads_back(fields: &Fields) -> (b: bool)
    ensures
        b == query_text_reads_back(fields.entries()),
{
    match encode_query(fields) {
        Ok(text) => match decode_query(text.as_str()) {
            Ok(back) => back.same_as(fields),
            Err(_) => false,
        },
        Err(_) => false,
    }
}

/// Tests whether the JSON text written for the fields is read back as the
/// same names with the same values.
pub fn json_reads_back(fields: &Fields) -> (b: bool)
    ensures
        b == json_text_reads_back(fields.entries()),
{
    match encode_json(fields) {
        Ok(text) => match decode_json(text.as_str()) {
            Ok(back) => back.same_as(fields),
            Err(_) => false,
        },
        Err(_) => false,
    }
}

} // verus!
