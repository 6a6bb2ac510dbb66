//! The read marker: the time of the most recent message that the user is
//! taken to have seen.

use std::cmp::Ordering;
use std::str::FromStr;
use vstd::prelude::*;

use crate::message::{
    find_latest, latest_meeting, lemma_latest_meeting, Criterion, Message, Source,
};
use crate::timestamp::{Instant, Precision, Rfc3339Error, Timestamp};
use crate::view::view_of;

verus! {

/// How far a conversation has been read.
#[derive(Clone, Copy, Debug, PartialEq, Eq, Structural, Ord, Hash)]
pub struct ReadMarker(Timestamp);

impl View for ReadMarker {
    type V = Instant;

    closed spec fn view(&self) -> Instant {
        self.0@
    }
}

impl ReadMarker {
    /// The time of the most recent message that is not a status line, in a
    /// conversation given oldest first.
    pub open spec fn latest_in(messages: Seq<Message>) -> Option<Instant> {
        match latest_meeting(messages, Criterion::AnchorsReadMarker) {
            Some(at) => Some(messages[at].server_time@),
            None => None,
        }
    }

    /// The marker for a conversation read to its end: it rests on the most
    /// recent message that is not a status line. A conversation without such
    /// a message, an empty one above all, has no marker.
    pub fn latest(messages: &[Message]) -> (r: Option<ReadMarker>)
        ensures
            view_of(r) == ReadMarker::latest_in(messages@),
            r is None <==> (forall|at: int|
                0 <= at < messages.len() ==> (#[trigger] messages[at]).source
                    == Source::InternalStatus),
    {
        proof {
            lemma_latest_meeting(messages@, Criterion::AnchorsReadMarker);
        }
        match find_latest(messages, Criterion::AnchorsReadMarker) {
            Some(at) => Some(ReadMarker(messages[at].server_time)),
            None => None,
        }
    }

    /// The time the marker stands at.
    pub fn date_time(self) -> (r: Timestamp)
        ensures
            r@ == self@,
    {
        self.0
    }

    /// Reads a marker from RFC 3339 text and brings it to UTC.
    pub fn parse(text: &str) -> (r: Result<ReadMarker, Rfc3339Error>)
        ensures
            match r {
                Ok(marker) => Instant::from_text(text@) == Some(marker@),
                Err(_) => Instant::from_text(text@) is None,
            },
    {
        match Timestamp::from_rfc3339(text) {
            Ok(timestamp) => Ok(ReadMarker(timestamp)),
            Err(error) => Err(error),
        }
    }

    /// The marker as RFC 3339 text in UTC, to the millisecond, ending in `Z`.
    pub fn to_string(&self) -> (text: String)
        ensures
            text@ == self@.text(Precision::Millis),
            self@.in_four_digit_years() ==> Instant::from_text(text@) == Some(
                self@.truncated_to_millis(),
            ),
    {
        self.0.to_rfc3339(Precision::Millis)
    }
}

impl FromStr for ReadMarker {
    type Err = Rfc3339Error;

    /// Reads a marker from RFC 3339 text and brings it to UTC, as `parse` does.
    fn from_str(text: &str) -> (r: Result<ReadMarker, Rfc3339Error>)
        ensures
            match r {
                Ok(marker) => Instant::from_text(text@) == Some(marker@),
                Err(_) => Instant::from_text(text@) is None,
            },
    {
        ReadMarker::parse(text)
    }
}

impl Default for ReadMarker {
    /// The Unix epoch.
    fn default() -> (r: ReadMarker)
        ensures
            r@ == Instant::epoch(),
    {
        ReadMarker(Timestamp::default())
    }
}

impl PartialOrd for ReadMarker {
    /// Chronological order.
    fn partial_cmp(&self, other: &ReadMarker) -> (r: Option<Ordering>) {
        self.0.partial_cmp(&other.0)
    }
}

impl vstd::std_specs::cmp::PartialOrdSpecImpl for ReadMarker {
    open spec fn obeys_partial_cmp_spec() -> bool {
        true
    }

    open spec fn partial_cmp_spec(&self, other: &ReadMarker) -> Option<Ordering> {
        Some(self@.compare(other@))
    }
}

} // verus!
