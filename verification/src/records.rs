//! The fixed record shapes decoded from the JSON bodies, and the error type
//! of a fetch.

use vstd::prelude::*;

verus! {

/// A two-part joke: a setup line and a delivery line.
#[derive(Debug)]
pub struct JokeRecord {
    pub setup: String,
    pub delivery: String,
}

/// An activity suggestion.
#[derive(Debug)]
pub struct ActivityRecord {
    pub activity: String,
}

/// A trivia fact.
#[derive(Debug)]
pub struct FactRecord {
    pub value: String,
}

/// Why a fetch produced no record: the transport failed, or the body could
/// not be decoded into the requested shape. Each variant carries the message
/// shown to the user.
#[derive(Debug)]
pub enum FetchError {
    Transport(String),
    Decode(String),
}

/// The message carried by a fetch error, whichever kind it is.
pub open spec fn spec_message(e: FetchError) -> Seq<char> {
    match e {
        FetchError::Transport(m) => m@,
        FetchError::Decode(m) => m@,
    }
}

impl FetchError {
    /// The user-visible message of this error.
    pub fn message(&self) -> (r: String)
        ensures
            r@ == spec_message(*self),
    {
        match self {
            FetchError::Transport(m) => m.clone(),
            FetchError::Decode(m) => m.clone(),
        }
    }
}

} // verus!
