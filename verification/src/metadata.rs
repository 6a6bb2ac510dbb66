//! The record kept for a conversation, and how it follows from the
//! conversation's messages and the reader's progress.

use vstd::prelude::*;

use crate::message::{find_latest, latest_meeting, Criterion, Message};
use crate::read_marker::ReadMarker;
use crate::references::{MessageReferences, ReferencesView};
use crate::timestamp::{Instant, Timestamp};
use crate::view::view_of;

verus! {

/// What is kept for a conversation.
#[derive(Debug)]
pub struct Metadata {
    /// How far the conversation has been read.
    pub read_marker: Option<ReadMarker>,
    /// The time of the most recent message that marks the conversation as unread.
    pub last_triggers_unread: Option<Timestamp>,
    /// Where a history query can resume.
    pub chathistory_references: Option<MessageReferences>,
}

/// The mathematical value of a [`Metadata`].
pub struct MetadataView {
    pub read_marker: Option<Instant>,
    pub last_triggers_unread: Option<Instant>,
    pub chathistory_references: Option<ReferencesView>,
}

impl View for Metadata {
    type V = MetadataView;

    open spec fn view(&self) -> MetadataView {
        MetadataView {
            read_marker: view_of(self.read_marker),
            last_triggers_unread: view_of(self.last_triggers_unread),
            chathistory_references: view_of(self.chathistory_references),
        }
    }
}

/// A time that may be missing, cut to the millisecond.
pub open spec fn truncated(instant: Option<Instant>) -> Option<Instant> {
    match instant {
        Some(instant) => Some(instant.truncated_to_millis()),
        None => None,
    }
}

/// Whether a time, where there is one, lies in the years 0000 to 9999.
pub open spec fn four_digit_year(instant: Option<Instant>) -> bool {
    match instant {
        Some(instant) => instant.in_four_digit_years(),
        None => true,
    }
}

impl MetadataView {
    /// The record of a conversation of which nothing is known.
    pub open spec fn empty() -> MetadataView {
        MetadataView {
            read_marker: None,
            last_triggers_unread: None,
            chathistory_references: None,
        }
    }

    /// Whether the record has a read marker that is not earlier than `candidate`.
    pub open spec fn keeps_marker(self, candidate: Instant) -> bool {
        match self.read_marker {
            Some(marker) => candidate.at_or_before(marker),
            None => false,
        }
    }

    /// The record with `candidate` for its read marker and the rest as it is.
    pub open spec fn with_marker(self, candidate: Instant) -> MetadataView {
        MetadataView { read_marker: Some(candidate), ..self }
    }

    /// Whether every time in the record lies in the years 0000 to 9999, so
    /// that its text can be read back.
    pub open spec fn in_four_digit_years(self) -> bool {
        &&& four_digit_year(self.read_marker)
        &&& four_digit_year(self.last_triggers_unread)
        &&& match self.chathistory_references {
            Some(references) => references.timestamp.in_four_digit_years(),
            None => true,
        }
    }

    /// What is found of the record once it has been stored and loaded again:
    /// the two times that are stored to the millisecond have lost what lies
    /// below it.
    pub open spec fn after_write(self) -> MetadataView {
        MetadataView {
            read_marker: truncated(self.read_marker),
            last_triggers_unread: truncated(self.last_triggers_unread),
            chathistory_references: self.chathistory_references,
        }
    }

    /// What is found of the record after an update of the read marker to
    /// `candidate`. A marker that is already there and not earlier than
    /// `candidate` stays, and nothing is written. Else the record is written
    /// anew with `candidate` for its marker and the rest as it was found.
    pub open spec fn after_update(self, candidate: Instant) -> MetadataView {
        if self.keeps_marker(candidate) {
            self
        } else {
            self.with_marker(candidate).after_write()
        }
    }
}

/// The time of the most recent message that marks the conversation as
/// unread, in a conversation given oldest first.
pub open spec fn latest_triggers_unread_in(messages: Seq<Message>) -> Option<Instant> {
    match latest_meeting(messages, Criterion::TriggersUnread) {
        Some(at) => Some(messages[at].server_time@),
        None => None,
    }
}

/// What the most recent message that a history query may resume from
/// offers to be referred to by, in a conversation given oldest first.
pub open spec fn latest_can_reference_in(messages: Seq<Message>) -> Option<MessageReferences> {
    match latest_meeting(messages, Criterion::CanReference) {
        Some(at) => Some(messages[at].references),
        None => None,
    }
}

/// The record of a conversation with the given messages, read as far as
/// `read_marker`.
pub open spec fn derived(messages: Seq<Message>, read_marker: Option<Instant>) -> MetadataView {
    MetadataView {
        read_marker,
        last_triggers_unread: latest_triggers_unread_in(messages),
        chathistory_references: view_of(latest_can_reference_in(messages)),
    }
}

/// The time of the most recent message that marks the conversation as
/// unread; `None` where no message does.
pub fn latest_triggers_unread(messages: &[Message]) -> (r: Option<Timestamp>)
    ensures
        view_of(r) == latest_triggers_unread_in(messages@),
{
    match find_latest(messages, Criterion::TriggersUnread) {
        Some(at) => Some(messages[at].server_time),
        None => None,
    }
}

/// What the most recent message that a history query may resume from
/// offers to be referred to by; `None` where there is no such message.
pub fn latest_can_reference(messages: &[Message]) -> (r: Option<MessageReferences>)
    ensures
        r == latest_can_reference_in(messages@),
{
    match find_latest(messages, Criterion::CanReference) {
        Some(at) => Some(messages[at].references.clone()),
        None => None,
    }
}

impl Metadata {
    /// The record of a conversation with the given messages, read as far as
    /// `read_marker`.
    pub fn derive(messages: &[Message], read_marker: Option<ReadMarker>) -> (r: Metadata)
        ensures
            r.read_marker == read_marker,
            view_of(r.last_triggers_unread) == latest_triggers_unread_in(messages@),
            r.chathistory_references == latest_can_reference_in(messages@),
            r@ == derived(messages@, view_of(read_marker)),
    {
        Metadata {
            read_marker,
            last_triggers_unread: latest_triggers_unread(messages),
            chathistory_references: latest_can_reference(messages),
        }
    }

    /// The record with its read marker moved forward to `read_marker` and
    /// the rest as it is; `None` where the record has a marker that is not
    /// earlier than `read_marker`, which then stays.
    pub fn advance(&self, read_marker: &ReadMarker) -> (r: Option<Metadata>)
        ensures
            r is None <==> self@.keeps_marker(read_marker@),
            r matches Some(moved) ==> {
                &&& moved.read_marker == Some(*read_marker)
                &&& moved.last_triggers_unread == self.last_triggers_unread
                &&& moved.chathistory_references == self.chathistory_references
                &&& moved@ == self@.with_marker(read_marker@)
            },
    {
        if let Some(metadata_read_marker) = self.read_marker {
            if metadata_read_marker >= *read_marker {
                return None;
            }
        }
        Some(
            Metadata {
                read_marker: Some(*read_marker),
                last_triggers_unread: self.last_triggers_unread,
                chathistory_references: match &self.chathistory_references {
                    Some(references) => Some(references.clone()),
                    None => None,
                },
            },
        )
    }
}

impl Default for Metadata {
    /// The record of a conversation of which nothing is known.
    fn default() -> (r: Metadata)
        ensures
            r.read_marker is None,
            r.last_triggers_unread is None,
            r.chathistory_references is None,
            r@ == MetadataView::empty(),
    {
        Metadata { read_marker: None, last_triggers_unread: None, chathistory_references: None }
    }
}

impl Clone for Metadata {
    fn clone(&self) -> (r: Metadata)
        ensures
            r == *self,
    {
        Metadata {
            read_marker: self.read_marker,
            last_triggers_unread: self.last_triggers_unread,
            chathistory_references: match &self.chathistory_references {
                Some(references) => Some(references.clone()),
                None => None,
            },
        }
    }
}

} // verus!
