//! Logged events of a repository, and the identifiers and times that the
//! store takes from outside.

use crate::json::{JsonView, Metadata};
use std::time::{Duration, SystemTime, SystemTimeError, UNIX_EPOCH};
use vstd::prelude::*;
use vstd::string::StringExecFns;

verus! {

/// Whether a character may stand in an address without being escaped: a
/// letter, a digit, `_` or `-`.
pub open spec fn is_url_safe(c: char) -> bool {
    c == '_' || c == '-' || ('0' <= c && c <= '9') || ('a' <= c && c <= 'z') || ('A' <= c && c
        <= 'Z')
}

/// Whether a string has the form of a generated identifier: twenty-one
/// characters, each of them safe in an address.
pub open spec fn is_generated_id(id: Seq<char>) -> bool {
    id.len() == 21 && forall|i: int| 0 <= i < id.len() ==> is_url_safe(#[trigger] id[i])
}

/// A new random identifier, from `nanoid::format` with the generator
/// `nanoid::rngs::default`, the alphabet `nanoid::alphabet::SAFE` and the
/// size 21. Whatever the generator yields, the result has 21 characters of
/// that alphabet; nothing is claimed about which.
#[verifier::external_body]
pub(crate) fn generated_id() -> (id: String)
    ensures
        is_generated_id(id@),
{
    nanoid::format(nanoid::rngs::default, &nanoid::alphabet::SAFE, 21)
}

/// A reading of the system clock. Nothing is seen of what it holds.
#[verifier::external_type_specification]
#[verifier::external_body]
pub struct ExSystemTime(std::time::SystemTime);

/// The failure to measure the time from a later reading to an earlier one.
#[verifier::external_type_specification]
#[verifier::external_body]
pub struct ExSystemTimeError(std::time::SystemTimeError);

/// `SystemTime::now` reads the system clock. Nothing is claimed about the
/// reading.
pub assume_specification[ SystemTime::now ]() -> (now: SystemTime);

/// `Duration::as_secs` gives the whole seconds of a length of time. Nothing
/// is claimed about the number.
pub assume_specification[ Duration::as_secs ](elapsed: &Duration) -> (seconds: u64);

/// The time from the start of 1970 to a reading of the clock, from
/// `SystemTime::duration_since` with `UNIX_EPOCH`; a failure where the
/// reading stands before that. Nothing is claimed about the length.
#[verifier::external_body]
fn since_epoch(reading: &SystemTime) -> (elapsed: Result<Duration, SystemTimeError>) {
    reading.duration_since(UNIX_EPOCH)
}

/// The seconds since the start of 1970 on the system clock; nothing where
/// the clock stands before that.
pub(crate) fn unix_seconds() -> (seconds: Option<u64>) {
    let reading = SystemTime::now();
    match since_epoch(&reading) {
        Ok(elapsed) => Some(elapsed.as_secs()),
        Err(_) => None,
    }
}

/// The seconds on the clock, or zero where the clock stands before 1970.
pub fn clock_seconds(reading: Option<u64>) -> (seconds: u64)
    ensures
        seconds == (match reading {
            Some(s) => s,
            None => 0,
        }),
{
    match reading {
        Some(s) => s,
        None => 0,
    }
}

/// An event that is logged for a repository.
#[derive(Debug)]
pub struct Event {
    pub id: String,
    pub message: String,
    pub unix_timestamp: u64,
    pub metadata: Metadata,
}

/// What an [`Event`] holds.
pub struct EventView {
    pub id: Seq<char>,
    pub message: Seq<char>,
    pub unix_timestamp: u64,
    pub metadata: Map<Seq<char>, JsonView>,
}

impl DeepView for Event {
    type V = EventView;

    open spec fn deep_view(&self) -> EventView {
        EventView {
            id: self.id@,
            message: self.message@,
            unix_timestamp: self.unix_timestamp,
            metadata: self.metadata.deep_view(),
        }
    }
}

impl Clone for Event {
    fn clone(&self) -> (res: Self)
        ensures
            res.deep_view() == self.deep_view(),
    {
        Event {
            id: self.id.clone(),
            message: self.message.clone(),
            unix_timestamp: self.unix_timestamp,
            metadata: self.metadata.clone(),
        }
    }
}

impl Event {
    /// An event with the given identifier and time.
    pub fn with_id(id: String, message: &str, unix_timestamp: u64, metadata: Metadata) -> (event:
        Self)
        ensures
            event.deep_view() == (EventView {
                id: id@,
                message: message@,
                unix_timestamp,
                metadata: metadata.deep_view(),
            }),
    {
        Event { id, message: String::from_str(message), unix_timestamp, metadata }
    }

    /// An event with a new random identifier. Where no time is given, the
    /// event gets the time on the system clock.
    pub fn new(message: &str, unix_timestamp: Option<u64>, metadata: Metadata) -> (event: Self)
        ensures
            is_generated_id(event.id@),
            event.message@ == message@,
            event.metadata.deep_view() == metadata.deep_view(),
            unix_timestamp is Some ==> event.unix_timestamp == unix_timestamp->0,
    {
        let id = generated_id();
        let at = match unix_timestamp {
            Some(t) => t,
            None => clock_seconds(unix_seconds()),
        };
        Event::with_id(id, message, at, metadata)
    }
}

} // verus!
