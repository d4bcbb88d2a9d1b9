//! Decoding a JSON response body into one of the record shapes.
//!
//! Parsing the body is done by `serde_json` behind one trusted wrapper; what
//! it yields is named by `json_top_strings`. Everything after the parse —
//! looking a field up by key and assembling the record, or reporting a decode
//! failure — is verified.

use vstd::prelude::*;
use crate::records::{ActivityRecord, FactRecord, FetchError, JokeRecord};

verus! {

/// The top-level members of the JSON object that `body` denotes, in the order
/// `serde_json` yields them: `None` when `body` is not a well-formed JSON
/// object; otherwise each member's key, paired with its text when that member
/// is a JSON string and `None` when it is any other kind of JSON value.
pub uninterp spec fn json_top_strings(body: Seq<char>) -> Option<
    Seq<(Seq<char>, Option<Seq<char>>)>,
>;

/// The view of one optional string.
pub open spec fn opt_str_view(o: Option<String>) -> Option<Seq<char>> {
    match o {
        Some(s) => Some(s@),
        None => None,
    }
}

/// The view of a member list handed out by the parse wrapper.
pub open spec fn fields_view(fs: Seq<(String, Option<String>)>) -> Seq<
    (Seq<char>, Option<Seq<char>>),
> {
    fs.map_values(|p: (String, Option<String>)| (p.0@, opt_str_view(p.1)))
}

/// Relies on `serde_json::from_str::<serde_json::Map<String, serde_json::Value>>`
/// and `serde_json::Value::as_str`: parsing is a function of the body text
/// alone, fails exactly when the body is not a well-formed JSON object, and
/// on success yields the object's members in a fixed order, `as_str` giving
/// the text of exactly the string-valued ones.
#[verifier::external_body]
fn top_level_members(body: &str) -> (r: Option<Vec<(String, Option<String>)>>)
    ensures
        match r {
            Some(v) => json_top_strings(body@) == Some(fields_view(v@)),
            None => json_top_strings(body@) == None::<Seq<(Seq<char>, Option<Seq<char>>)>>,
        },
{
    match serde_json::from_str::<serde_json::Map<String, serde_json::Value>>(body) {
        Ok(m) => Some(
            m.iter().map(|(k, v)| (k.clone(), v.as_str().map(|s| s.to_owned()))).collect(),
        ),
        Err(_) => None,
    }
}

/// The first member of `fs` whose key is `key`: `None` when no member has
/// that key, otherwise that member's optional string.
pub open spec fn spec_lookup(
    fs: Seq<(Seq<char>, Option<Seq<char>>)>,
    key: Seq<char>,
) -> Option<Option<Seq<char>>>
    decreases fs.len(),
{
    if fs.len() == 0 {
        None
    } else if fs[0].0 == key {
        Some(fs[0].1)
    } else {
        spec_lookup(fs.drop_first(), key)
    }
}

/// The view of a lookup's result.
pub open spec fn found_view(r: Option<Option<String>>) -> Option<Option<Seq<char>>> {
    match r {
        Some(o) => Some(opt_str_view(o)),
        None => None,
    }
}

/// Find the member named `key` among the fields of a decoded object.
pub fn lookup_field(fields: &Vec<(String, Option<String>)>, key: &String) -> (r: Option<
    Option<String>,
>)
    ensures
        found_view(r) == spec_lookup(fields_view(fields@), key@),
{
    let ghost fsv = fields_view(fields@);
    proof {
        assert(fsv.skip(0) =~= fsv);
    }
    let mut i: usize = 0;
    while i < fields.len()
        invariant
            i <= fields.len(),
            fsv == fields_view(fields@),
            fsv.len() == fields@.len(),
            spec_lookup(fsv, key@) == spec_lookup(fsv.skip(i as int), key@),
        decreases fields.len() - i,
    {
        proof {
            assert(fsv.skip(i as int)[0] == fsv[i as int]);
            assert(fsv[i as int] == (fields@[i as int].0@, opt_str_view(fields@[i as int].1)));
        }
        if fields[i].0 == *key {
            match &fields[i].1 {
                Some(s) => {
                    return Some(Some(s.clone()));
                },
                None => {
                    return Some(None);
                },
            }
        }
        proof {
            assert(fsv.skip(i as int).drop_first() =~= fsv.skip(i as int + 1));
        }
        i = i + 1;
    }
    proof {
        assert(fsv.skip(i as int) =~= Seq::<(Seq<char>, Option<Seq<char>>)>::empty());
    }
    None
}

/// The message carried by every decode failure.
pub open spec fn decode_msg() -> Seq<char> {
    "could not decode response body"@
}

/// The setup and delivery strings of a joke-shaped object, when both fields
/// are present and are strings.
pub open spec fn spec_joke_fields(fs: Seq<(Seq<char>, Option<Seq<char>>)>) -> Option<
    (Seq<char>, Seq<char>),
> {
    match (spec_lookup(fs, "setup"@), spec_lookup(fs, "delivery"@)) {
        (Some(Some(s)), Some(Some(d))) => Some((s, d)),
        _ => None,
    }
}

/// What decoding `body` as a joke yields: the two field texts, or nothing
/// when the body is not a JSON object or either field is absent or not a
/// string.
pub open spec fn spec_joke_decode(body: Seq<char>) -> Option<(Seq<char>, Seq<char>)> {
    match json_top_strings(body) {
        Some(fs) => spec_joke_fields(fs),
        None => None,
    }
}

/// Whether `r` is the correct outcome of decoding `body` as a joke.
pub open spec fn joke_result_matches(
    r: Result<JokeRecord, FetchError>,
    body: Seq<char>,
) -> bool {
    match spec_joke_decode(body) {
        Some(p) => r matches Ok(rec) && rec.setup@ == p.0 && rec.delivery@ == p.1,
        None => r matches Err(FetchError::Decode(m)) && m@ == decode_msg(),
    }
}

/// Assemble a joke record from the members of a decoded object.
pub fn record_of_joke_fields(fields: &Vec<(String, Option<String>)>) -> (r: Result<
    JokeRecord,
    FetchError,
>)
    ensures
        match spec_joke_fields(fields_view(fields@)) {
            Some(p) => r matches Ok(rec) && rec.setup@ == p.0 && rec.delivery@ == p.1,
            None => r matches Err(FetchError::Decode(m)) && m@ == decode_msg(),
        },
{
    let setup_key: String = "setup".to_owned();
    let delivery_key: String = "delivery".to_owned();
    match (lookup_field(fields, &setup_key), lookup_field(fields, &delivery_key)) {
        (Some(Some(s)), Some(Some(d))) => Ok(JokeRecord { setup: s, delivery: d }),
        _ => Err(FetchError::Decode("could not decode response body".to_owned())),
    }
}

/// Decode a response body into a joke record.
pub fn decode_joke(body: &str) -> (r: Result<JokeRecord, FetchError>)
    ensures
        joke_result_matches(r, body@),
{
    match top_level_members(body) {
        Some(fields) => record_of_joke_fields(&fields),
        None => Err(FetchError::Decode("could not decode response body".to_owned())),
    }
}

/// The activity string of an activity-shaped object.
pub open spec fn spec_activity_decode(body: Seq<char>) -> Option<Seq<char>> {
    match json_top_strings(body) {
        Some(fs) => match spec_lookup(fs, "activity"@) {
            Some(Some(a)) => Some(a),
            _ => None,
        },
        None => None,
    }
}

/// Whether `r` is the correct outcome of decoding `body` as an activity.
pub open spec fn activity_result_matches(
    r: Result<ActivityRecord, FetchError>,
    body: Seq<char>,
) -> bool {
    match spec_activity_decode(body) {
        Some(a) => r matches Ok(rec) && rec.activity@ == a,
        None => r matches Err(FetchError::Decode(m)) && m@ == decode_msg(),
    }
}

/// Decode a response body into an activity record.
pub fn decode_activity(body: &str) -> (r: Result<ActivityRecord, FetchError>)
    ensures
        activity_result_matches(r, body@),
{
    let key: String = "activity".to_owned();
    match top_level_members(body) {
        Some(fields) => match lookup_field(&fields, &key) {
            Some(Some(a)) => Ok(ActivityRecord { activity: a }),
            _ => Err(FetchError::Decode("could not decode response body".to_owned())),
        },
        None => Err(FetchError::Decode("could not decode response body".to_owned())),
    }
}

/// The fact string of a fact-shaped object.
pub open spec fn spec_fact_decode(body: Seq<char>) -> Option<Seq<char>> {
    match json_top_strings(body) {
        Some(fs) => match spec_lookup(fs, "value"@) {
            Some(Some(v)) => Some(v),
            _ => None,
        },
        None => None,
    }
}

/// Whether `r` is the correct outcome of decoding `body` as a fact.
pub open spec fn fact_result_matches(
    r: Result<FactRecord, FetchError>,
    body: Seq<char>,
) -> bool {
    match spec_fact_decode(body) {
        Some(v) => r matches Ok(rec) && rec.value@ == v,
        None => r matches Err(FetchError::Decode(m)) && m@ == decode_msg(),
    }
}

/// Decode a response body into a fact record.
pub fn decode_fact(body: &str) -> (r: Result<FactRecord, FetchError>)
    ensures
        fact_result_matches(r, body@),
{
    let key: String = "value".to_owned();
    match top_level_members(body) {
        Some(fields) => match lookup_field(&fields, &key) {
            Some(Some(v)) => Ok(FactRecord { value: v }),
            _ => Err(FetchError::Decode("could not decode response body".to_owned())),
        },
        None => Err(FetchError::Decode("could not decode response body".to_owned())),
    }
}

/// A well-formed joke-shaped object decodes to exactly its field texts: the
/// record's fields equal the JSON values.
pub proof fn lemma_joke_round_trip(
    body: Seq<char>,
    fs: Seq<(Seq<char>, Option<Seq<char>>)>,
    s: Seq<char>,
    d: Seq<char>,
)
    requires
        json_top_strings(body) == Some(fs),
        spec_lookup(fs, "setup"@) == Some(Some(s)),
        spec_lookup(fs, "delivery"@) == Some(Some(d)),
    ensures
        spec_joke_decode(body) == Some((s, d)),
{
}

/// A well-formed single-string-field object decodes to exactly its field
/// text, for the activity and fact shapes.
pub proof fn lemma_single_field_round_trip(
    body: Seq<char>,
    fs: Seq<(Seq<char>, Option<Seq<char>>)>,
    text: Seq<char>,
)
    requires
        json_top_strings(body) == Some(fs),
    ensures
        spec_lookup(fs, "activity"@) == Some(Some(text)) ==> spec_activity_decode(body)
            == Some(text),
        spec_lookup(fs, "value"@) == Some(Some(text)) ==> spec_fact_decode(body) == Some(text),
{
}

/// A body that is not a well-formed JSON object yields a decode error under
/// every record shape.
pub proof fn lemma_malformed_body_decodes_to_error(body: Seq<char>)
    requires
        json_top_strings(body) is None,
    ensures
        spec_joke_decode(body) is None,
        spec_activity_decode(body) is None,
        spec_fact_decode(body) is None,
{
}

} // verus!
