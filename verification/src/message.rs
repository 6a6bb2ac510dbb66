//! What the record keeping reads of a conversation's messages.

use vstd::prelude::*;

use crate::references::MessageReferences;
use crate::timestamp::Timestamp;

verus! {

/// Where a message comes from, as far as the record keeping tells sources apart.
#[derive(Clone, Copy, Debug, PartialEq, Eq, Structural, Hash)]
pub enum Source {
    /// A status line that the client wrote itself.
    InternalStatus,
    /// A line of the client's own log.
    InternalLogs,
    /// Anything else: a server, a channel, a user.
    Other,
}

/// A message of a conversation, reduced to what the message model reports of it.
#[derive(Debug)]
pub struct Message {
    /// When the server saw the message.
    pub server_time: Timestamp,
    /// Where the message comes from.
    pub source: Source,
    /// Whether the message marks its conversation as unread.
    pub triggers_unread: bool,
    /// Whether a history query may resume from the message.
    pub can_reference: bool,
    /// What the message offers to be referred to by.
    pub references: MessageReferences,
}

/// What a scan of a conversation looks for.
#[derive(Clone, Copy, Debug, PartialEq, Eq, Structural, Hash)]
pub enum Criterion {
    /// A message that the read position may rest on: any but a status line.
    /// Status lines come and go; the log has a backlog of its own to keep.
    AnchorsReadMarker,
    /// A message that marks the conversation as unread.
    TriggersUnread,
    /// A message that a history query may resume from.
    CanReference,
}

impl Message {
    /// Whether the message is one that `criterion` looks for.
    pub open spec fn meets(self, criterion: Criterion) -> bool {
        match criterion {
            Criterion::AnchorsReadMarker => self.source != Source::InternalStatus,
            Criterion::TriggersUnread => self.triggers_unread,
            Criterion::CanReference => self.can_reference,
        }
    }

    /// Whether the message is one that `criterion` looks for.
    pub fn satisfies(&self, criterion: Criterion) -> (r: bool)
        ensures
            r == self.meets(criterion),
    {
        match criterion {
            Criterion::AnchorsReadMarker => match self.source {
                Source::InternalStatus => false,
                Source::InternalLogs => true,
                Source::Other => true,
            },
            Criterion::TriggersUnread => self.triggers_unread,
            Criterion::CanReference => self.can_reference,
        }
    }
}

/// The position of the most recent message that meets `criterion`, in a
/// conversation given oldest first; `None` where no message meets it.
pub open spec fn latest_meeting(messages: Seq<Message>, criterion: Criterion) -> Option<int>
    decreases messages.len(),
{
    if messages.len() == 0 {
        None
    } else if messages.last().meets(criterion) {
        Some(messages.len() - 1)
    } else {
        latest_meeting(messages.drop_last(), criterion)
    }
}

/// `latest_meeting` finds a message that meets the criterion and has none
/// after it that does; it finds nothing only where no message meets it.
pub proof fn lemma_latest_meeting(messages: Seq<Message>, criterion: Criterion)
    ensures
        match latest_meeting(messages, criterion) {
            Some(at) => {
                &&& 0 <= at < messages.len()
                &&& messages[at].meets(criterion)
                &&& forall|later: int|
                    at < later < messages.len() ==> !(#[trigger] messages[later]).meets(criterion)
            },
            None => forall|at: int|
                0 <= at < messages.len() ==> !(#[trigger] messages[at]).meets(criterion),
        },
    decreases messages.len(),
{
    if messages.len() > 0 && !messages.last().meets(criterion) {
        let earlier = messages.drop_last();
        lemma_latest_meeting(earlier, criterion);
        assert forall|at: int| 0 <= at < earlier.len() implies earlier[at] == messages[at] by {}
    }
}

/// A message that meets the criterion and has none after it that does is the
/// one that `latest_meeting` finds.
pub proof fn lemma_latest_meeting_is(messages: Seq<Message>, criterion: Criterion, at: int)
    requires
        0 <= at < messages.len(),
        messages[at].meets(criterion),
        forall|later: int|
            at < later < messages.len() ==> !(#[trigger] messages[later]).meets(criterion),
    ensures
        latest_meeting(messages, criterion) == Some(at),
    decreases messages.len(),
{
    if at < messages.len() - 1 {
        let earlier = messages.drop_last();
        lemma_latest_meeting_is(earlier, criterion, at);
    }
}

/// Scans the conversation from its most recent message back to its oldest
/// for one that meets `criterion`.
pub fn find_latest(messages: &[Message], criterion: Criterion) -> (r: Option<usize>)
    ensures
        match r {
            Some(at) => at < messages.len() && latest_meeting(messages@, criterion) == Some(
                at as int,
            ),
            None => latest_meeting(messages@, criterion) is None,
        },
{
    let mut at: usize = messages.len();
    while at > 0
        invariant
            at <= messages.len(),
            forall|later: int|
                at <= later < messages.len() ==> !(#[trigger] messages@[later]).meets(criterion),
        decreases at,
    {
        at -= 1;
        if messages[at].satisfies(criterion) {
            proof {
                lemma_latest_meeting_is(messages@, criterion, at as int);
            }
            return Some(at);
        }
    }
    proof {
        lemma_latest_meeting(messages@, criterion);
    }
    None
}

} // verus!
