//! References from which a server-side history query can resume.

use std::cmp::Ordering;
use vstd::prelude::*;

use crate::timestamp::{Instant, Timestamp};
use crate::view::view_of;

verus! {

/// A kind of reference that a server may accept in a history query.
#[derive(Clone, Copy, Debug, PartialEq, Eq, Structural, Hash)]
pub enum MessageReferenceType {
    /// By the time of a message.
    Timestamp,
    /// By the identifier of a message.
    MessageId,
}

/// A reference to hand to the server.
#[derive(Debug, PartialEq, Eq)]
pub enum MessageReference {
    /// The time of the message to resume from.
    Timestamp(Timestamp),
    /// The identifier of the message to resume from.
    MessageId(String),
    /// No reference can be given.
    Absent,
}

/// What a message offers to be referred to by: its time, and its identifier
/// where it has one.
///
/// Two values are equal, and are ordered, by `timestamp` alone.
#[derive(Debug)]
pub struct MessageReferences {
    /// When the server saw the message.
    pub timestamp: Timestamp,
    /// The identifier that the server gave the message, if it gave one.
    pub id: Option<String>,
}

/// The mathematical value of a [`MessageReferences`].
pub struct ReferencesView {
    pub timestamp: Instant,
    pub id: Option<Seq<char>>,
}

impl View for MessageReferences {
    type V = ReferencesView;

    open spec fn view(&self) -> ReferencesView {
        ReferencesView { timestamp: self.timestamp@, id: view_of(self.id) }
    }
}

impl MessageReferences {
    /// Whether a reference of the given kind can be made from these.
    pub open spec fn offers(self, kind: MessageReferenceType) -> bool {
        match kind {
            MessageReferenceType::Timestamp => true,
            MessageReferenceType::MessageId => self.id is Some,
        }
    }

    /// The reference of the given kind, where one is offered.
    pub open spec fn reference_of(self, kind: MessageReferenceType) -> MessageReference {
        match kind {
            MessageReferenceType::Timestamp => MessageReference::Timestamp(self.timestamp),
            MessageReferenceType::MessageId => match self.id {
                Some(id) => MessageReference::MessageId(id),
                None => MessageReference::Absent,
            },
        }
    }

    /// The reference of the first kind in `kinds` that is offered, or
    /// `MessageReference::Absent` where none of them is.
    pub open spec fn preferred(self, kinds: Seq<MessageReferenceType>) -> MessageReference
        decreases kinds.len(),
    {
        if kinds.len() == 0 {
            MessageReference::Absent
        } else if self.offers(kinds[0]) {
            self.reference_of(kinds[0])
        } else {
            self.preferred(kinds.drop_first())
        }
    }

    /// The reference to use with a server that accepts the kinds in
    /// `message_reference_types`, most preferred first.
    pub fn message_reference(&self, message_reference_types: &[MessageReferenceType]) -> (r:
        MessageReference)
        ensures
            r == self.preferred(message_reference_types@),
    {
        let mut at: usize = 0;
        assert(message_reference_types@.skip(0) == message_reference_types@);
        while at < message_reference_types.len()
            invariant
                at <= message_reference_types.len(),
                self.preferred(message_reference_types@) == self.preferred(
                    message_reference_types@.skip(at as int),
                ),
            decreases message_reference_types.len() - at,
        {
            let ghost remaining = message_reference_types@.skip(at as int);
            assert(remaining.drop_first() == message_reference_types@.skip(at + 1));
            match message_reference_types[at] {
                MessageReferenceType::MessageId => {
                    if let Some(id) = &self.id {
                        return MessageReference::MessageId(id.clone());
                    }
                },
                MessageReferenceType::Timestamp => {
                    return MessageReference::Timestamp(self.timestamp);
                },
            }
            at += 1;
        }
        MessageReference::Absent
    }

    /// How the two stand in time; the identifiers play no part.
    pub fn cmp(&self, other: &MessageReferences) -> (r: Ordering)
        ensures
            r == self.timestamp@.compare(other.timestamp@),
    {
        match self.timestamp.partial_cmp(&other.timestamp) {
            Some(order) => order,
            None => Ordering::Equal,
        }
    }
}

impl Clone for MessageReference {
    fn clone(&self) -> (r: MessageReference)
        ensures
            r == *self,
    {
        match self {
            MessageReference::Timestamp(timestamp) => MessageReference::Timestamp(*timestamp),
            MessageReference::MessageId(id) => MessageReference::MessageId(id.clone()),
            MessageReference::Absent => MessageReference::Absent,
        }
    }
}

impl Clone for MessageReferences {
    fn clone(&self) -> (r: MessageReferences)
        ensures
            r == *self,
    {
        MessageReferences {
            timestamp: self.timestamp,
            id: match &self.id {
                Some(id) => Some(id.clone()),
                None => None,
            },
        }
    }
}

impl Default for MessageReferences {
    /// The Unix epoch, without an identifier.
    fn default() -> (r: MessageReferences)
        ensures
            r.timestamp@ == Instant::epoch(),
            r.id is None,
    {
        MessageReferences { timestamp: Timestamp::default(), id: None }
    }
}

impl PartialEq for MessageReferences {
    fn eq(&self, other: &MessageReferences) -> (r: bool) {
        self.timestamp == other.timestamp
    }
}

impl vstd::std_specs::cmp::PartialEqSpecImpl for MessageReferences {
    open spec fn obeys_eq_spec() -> bool {
        true
    }

    open spec fn eq_spec(&self, other: &MessageReferences) -> bool {
        self.timestamp == other.timestamp
    }
}

impl Eq for MessageReferences {

}

impl PartialOrd for MessageReferences {
    fn partial_cmp(&self, other: &MessageReferences) -> (r: Option<Ordering>) {
        self.timestamp.partial_cmp(&other.timestamp)
    }
}

impl vstd::std_specs::cmp::PartialOrdSpecImpl for MessageReferences {
    open spec fn obeys_partial_cmp_spec() -> bool {
        true
    }

    open spec fn partial_cmp_spec(&self, other: &MessageReferences) -> Option<Ordering> {
        Some(self.timestamp@.compare(other.timestamp@))
    }
}

} // verus!
