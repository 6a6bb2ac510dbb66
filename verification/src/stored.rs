//! The form in which a record is stored: its times as RFC 3339 text.
//!
//! A conversation's file holds its record as one JSON object with a member
//! for each field of [`StoredMetadata`], under the field's name; a value
//! that is missing is `null` or left out.

use vstd::prelude::*;

use crate::metadata::{Metadata, MetadataView};
use crate::read_marker::ReadMarker;
use crate::references::{MessageReferences, ReferencesView};
use crate::timestamp::{Instant, Precision, Timestamp};
use crate::view::view_of;

verus! {

/// A [`MessageReferences`] as it is stored.
#[derive(Debug, PartialEq, Eq)]
pub struct StoredReferences {
    /// The time in RFC 3339 form, in full, in UTC.
    pub timestamp: String,
    /// The identifier as it is.
    pub id: Option<String>,
}

/// A [`Metadata`] as it is stored: the times as text, a missing value as `None`.
#[derive(Debug, PartialEq, Eq)]
pub struct StoredMetadata {
    /// The read marker in RFC 3339 form, to the millisecond, in UTC.
    pub read_marker: Option<String>,
    /// The time of the last unread trigger in RFC 3339 form, to the
    /// millisecond, in UTC.
    pub last_triggers_unread: Option<String>,
    /// Where a history query can resume.
    pub chathistory_references: Option<StoredReferences>,
}

/// The mathematical value of a [`StoredReferences`].
pub struct StoredReferencesView {
    pub timestamp: Seq<char>,
    pub id: Option<Seq<char>>,
}

/// The mathematical value of a [`StoredMetadata`].
pub struct StoredMetadataView {
    pub read_marker: Option<Seq<char>>,
    pub last_triggers_unread: Option<Seq<char>>,
    pub chathistory_references: Option<StoredReferencesView>,
}

impl View for StoredReferences {
    type V = StoredReferencesView;

    open spec fn view(&self) -> StoredReferencesView {
        StoredReferencesView { timestamp: self.timestamp@, id: view_of(self.id) }
    }
}

impl View for StoredMetadata {
    type V = StoredMetadataView;

    open spec fn view(&self) -> StoredMetadataView {
        StoredMetadataView {
            read_marker: view_of(self.read_marker),
            last_triggers_unread: view_of(self.last_triggers_unread),
            chathistory_references: view_of(self.chathistory_references),
        }
    }
}

/// The text of a time that may be missing.
pub open spec fn written(instant: Option<Instant>, precision: Precision) -> Option<Seq<char>> {
    match instant {
        Some(instant) => Some(instant.text(precision)),
        None => None,
    }
}

/// The time that a text stands for. A missing text stands for a missing
/// time; the outer `None` is for a text that is not a time.
pub open spec fn read(text: Option<Seq<char>>) -> Option<Option<Instant>> {
    match text {
        Some(text) => match Instant::from_text(text) {
            Some(instant) => Some(Some(instant)),
            None => None,
        },
        None => Some(None),
    }
}

impl ReferencesView {
    /// The references as they are stored, with the time in full.
    pub open spec fn encoded(self) -> StoredReferencesView {
        StoredReferencesView { timestamp: self.timestamp.text(Precision::Full), id: self.id }
    }
}

impl MetadataView {
    /// The record as it is stored: the read marker and the time of the last
    /// unread trigger to the millisecond, the time of the reference in full.
    pub open spec fn encoded(self) -> StoredMetadataView {
        StoredMetadataView {
            read_marker: written(self.read_marker, Precision::Millis),
            last_triggers_unread: written(self.last_triggers_unread, Precision::Millis),
            chathistory_references: match self.chathistory_references {
                Some(references) => Some(references.encoded()),
                None => None,
            },
        }
    }
}

impl StoredReferencesView {
    /// The references that the stored form stands for; `None` where its
    /// time is not in RFC 3339 form.
    pub open spec fn decoded(self) -> Option<ReferencesView> {
        match Instant::from_text(self.timestamp) {
            Some(timestamp) => Some(ReferencesView { timestamp, id: self.id }),
            None => None,
        }
    }
}

impl StoredMetadataView {
    /// The record that the stored form stands for; `None` where one of its
    /// times is not in RFC 3339 form.
    pub open spec fn decoded(self) -> Option<MetadataView> {
        let references = match self.chathistory_references {
            Some(references) => match references.decoded() {
                Some(references) => Some(Some(references)),
                None => None,
            },
            None => Some(None),
        };
        match (read(self.read_marker), read(self.last_triggers_unread), references) {
            (Some(read_marker), Some(last_triggers_unread), Some(chathistory_references)) => Some(
                MetadataView { read_marker, last_triggers_unread, chathistory_references },
            ),
            _ => None,
        }
    }
}

fn clone_text(text: &Option<String>) -> (r: Option<String>)
    ensures
        r == *text,
{
    match text {
        Some(text) => Some(text.clone()),
        None => None,
    }
}

impl MessageReferences {
    /// The references in the form in which they are stored.
    ///
    /// References whose time lies in the years 0000 to 9999 can be read back
    /// from that form as they were.
    pub fn encode(&self) -> (r: StoredReferences)
        ensures
            r@ == self@.encoded(),
            self@.timestamp.in_four_digit_years() ==> r@.decoded() == Some(self@),
    {
        StoredReferences { timestamp: self.timestamp.to_rfc3339(Precision::Full), id: clone_text(&self.id) }
    }

    /// The references that a stored form stands for; `None` where its time
    /// is not in RFC 3339 form.
    pub fn decode(stored: &StoredReferences) -> (r: Option<MessageReferences>)
        ensures
            view_of(r) == stored@.decoded(),
    {
        match Timestamp::from_rfc3339(stored.timestamp.as_str()) {
            Ok(timestamp) => Some(MessageReferences { timestamp, id: clone_text(&stored.id) }),
            Err(_) => None,
        }
    }
}

impl Metadata {
    /// The record in the form in which it is stored.
    ///
    /// A record whose times all lie in the years 0000 to 9999 can be read
    /// back from that form, as `after_write` says.
    pub fn encode(&self) -> (r: StoredMetadata)
        ensures
            r@ == self@.encoded(),
            self@.in_four_digit_years() ==> r@.decoded() == Some(self@.after_write()),
    {
        StoredMetadata {
            read_marker: match &self.read_marker {
                Some(marker) => Some(marker.to_string()),
                None => None,
            },
            last_triggers_unread: match &self.last_triggers_unread {
                Some(timestamp) => Some(timestamp.to_rfc3339(Precision::Millis)),
                None => None,
            },
            chathistory_references: match &self.chathistory_references {
                Some(references) => Some(references.encode()),
                None => None,
            },
        }
    }

    /// The record that a stored form stands for; `None` where one of its
    /// times is not in RFC 3339 form.
    pub fn decode(stored: &StoredMetadata) -> (r: Option<Metadata>)
        ensures
            view_of(r) == stored@.decoded(),
    {
        let read_marker = match &stored.read_marker {
            Some(text) => match ReadMarker::parse(text.as_str()) {
                Ok(marker) => Some(Some(marker)),
                Err(_) => None,
            },
            None => Some(None),
        };
        let last_triggers_unread = match &stored.last_triggers_unread {
            Some(text) => match Timestamp::from_rfc3339(text.as_str()) {
                Ok(timestamp) => Some(Some(timestamp)),
                Err(_) => None,
            },
            None => Some(None),
        };
        let chathistory_references = match &stored.chathistory_references {
            Some(references) => match MessageReferences::decode(references) {
                Some(references) => Some(Some(references)),
                None => None,
            },
            None => Some(None),
        };
        Metadata::assemble(read_marker, last_triggers_unread, chathistory_references)
    }

    /// Puts a record together from its three values as they were read. Each
    /// comes as `Some` of the value, which may itself be missing, or as
    /// `None` where what was stored for it could not be read. A record is
    /// read whole or not at all: one value that could not be read leaves
    /// no record.
    pub fn assemble(
        read_marker: Option<Option<ReadMarker>>,
        last_triggers_unread: Option<Option<Timestamp>>,
        chathistory_references: Option<Option<MessageReferences>>,
    ) -> (r: Option<Metadata>)
        ensures
            r == match (read_marker, last_triggers_unread, chathistory_references) {
                (
                    Some(read_marker),
                    Some(last_triggers_unread),
                    Some(chathistory_references),
                ) => Some(Metadata { read_marker, last_triggers_unread, chathistory_references }),
                _ => None,
            },
    {
        match (read_marker, last_triggers_unread, chathistory_references) {
            (Some(read_marker), Some(last_triggers_unread), Some(chathistory_references)) => Some(
                Metadata { read_marker, last_triggers_unread, chathistory_references },
            ),
            _ => None,
        }
    }
}

impl Clone for StoredReferences {
    fn clone(&self) -> (r: StoredReferences)
        ensures
            r == *self,
    {
        StoredReferences { timestamp: self.timestamp.clone(), id: clone_text(&self.id) }
    }
}

impl Clone for StoredMetadata {
    fn clone(&self) -> (r: StoredMetadata)
        ensures
            r == *self,
    {
        StoredMetadata {
            read_marker: clone_text(&self.read_marker),
            last_triggers_unread: clone_text(&self.last_triggers_unread),
            chathistory_references: match &self.chathistory_references {
                Some(references) => Some(references.clone()),
                None => None,
            },
        }
    }
}

} // verus!
