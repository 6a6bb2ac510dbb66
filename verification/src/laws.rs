//! What holds of the record keeping as a whole.
//!
//! `save` and `update` say what a later `load` finds in terms of
//! `MetadataView::after_write` and `MetadataView::after_update`. The laws
//! here are about those two, and about how references compare.

use std::cmp::Ordering;
use vstd::prelude::*;
use vstd::std_specs::cmp::{PartialEqSpec, PartialOrdSpec};

use crate::message::{lemma_latest_meeting, Criterion, Message, Source};
use crate::metadata::{
    derived, latest_can_reference_in, latest_triggers_unread_in, truncated, MetadataView,
};
use crate::read_marker::ReadMarker;
use crate::references::{MessageReference, MessageReferenceType, MessageReferences};
use crate::timestamp::{Instant, Timestamp};
use crate::view::view_of;

verus! {

/// A conversation has no read marker to rest on exactly where all its
/// messages are status lines; an empty conversation is one of these.
pub proof fn law_status_lines_anchor_no_marker(messages: Seq<Message>)
    ensures
        ReadMarker::latest_in(messages) is None <==> (forall|at: int|
            0 <= at < messages.len() ==> (#[trigger] messages[at]).source
                == Source::InternalStatus),
        messages.len() == 0 ==> ReadMarker::latest_in(messages) is None,
{
    lemma_latest_meeting(messages, Criterion::AnchorsReadMarker);
}

/// How two references compare, by `==` and by order, is decided by their
/// timestamps: references that agree in time with two others compare as
/// those do, whatever identifiers any of them carries.
pub proof fn law_comparison_ignores_id(
    a: MessageReferences,
    b: MessageReferences,
    c: MessageReferences,
    d: MessageReferences,
)
    requires
        a.timestamp@ == c.timestamp@,
        b.timestamp@ == d.timestamp@,
    ensures
        a.eq_spec(&b) == c.eq_spec(&d),
        a.partial_cmp_spec(&b) == c.partial_cmp_spec(&d),
        a.timestamp@.compare(b.timestamp@) == c.timestamp@.compare(d.timestamp@),
{
    Timestamp::lemma_view_injective(a.timestamp, c.timestamp);
    Timestamp::lemma_view_injective(b.timestamp, d.timestamp);
}

/// Two references are equal exactly where neither is earlier than the
/// other, and the order between them is the order of their timestamps.
pub proof fn law_comparison_is_by_time(a: MessageReferences, b: MessageReferences)
    ensures
        a.eq_spec(&b) <==> a.timestamp@ == b.timestamp@,
        a.eq_spec(&b) <==> a.partial_cmp_spec(&b) == Some(Ordering::Equal),
        a.partial_cmp_spec(&b) == Some(Ordering::Less) <==> a.timestamp@.before(b.timestamp@),
        a.partial_cmp_spec(&b) == Some(Ordering::Greater) <==> b.timestamp@.before(a.timestamp@),
{
    if a.timestamp@ == b.timestamp@ {
        Timestamp::lemma_view_injective(a.timestamp, b.timestamp);
    }
}

/// The order of a preference list decides: the reference made is of the
/// first kind in the list that the references offer, whichever kinds come
/// after it.
pub proof fn law_first_offered_kind_is_preferred(
    references: MessageReferences,
    kinds: Seq<MessageReferenceType>,
    at: int,
)
    requires
        0 <= at < kinds.len(),
        references.offers(kinds[at]),
        forall|before: int| 0 <= before < at ==> !references.offers(#[trigger] kinds[before]),
    ensures
        references.preferred(kinds) == references.reference_of(kinds[at]),
        references.preferred(kinds) != MessageReference::Absent,
    decreases at,
{
    if at > 0 {
        let rest = kinds.drop_first();
        law_first_offered_kind_is_preferred(references, rest, at - 1);
    }
}

/// A preference list without a kind that the references offer, the empty
/// list above all, gives no reference.
pub proof fn law_no_offered_kind_gives_no_reference(
    references: MessageReferences,
    kinds: Seq<MessageReferenceType>,
)
    requires
        forall|at: int| 0 <= at < kinds.len() ==> !references.offers(#[trigger] kinds[at]),
    ensures
        references.preferred(kinds) == MessageReference::Absent,
    decreases kinds.len(),
{
    if kinds.len() > 0 {
        let rest = kinds.drop_first();
        law_no_offered_kind_gives_no_reference(references, rest);
    }
}

/// Cutting to the millisecond keeps the order of instants, and an instant
/// already cut stays as it is.
pub proof fn lemma_truncation_is_monotonic(earlier: Instant, later: Instant)
    requires
        earlier.at_or_before(later),
    ensures
        earlier.truncated_to_millis().at_or_before(later.truncated_to_millis()),
        earlier.truncated_to_millis().at_or_before(earlier),
        earlier.truncated_to_millis().truncated_to_millis() == earlier.truncated_to_millis(),
{
}

/// Writing a record that was just loaded after a write changes nothing
/// more.
pub proof fn lemma_after_write_is_idempotent(found: MetadataView)
    ensures
        found.after_write().after_write() == found.after_write(),
{
    if let Some(marker) = found.read_marker {
        lemma_truncation_is_monotonic(marker, marker);
    }
    if let Some(time) = found.last_triggers_unread {
        lemma_truncation_is_monotonic(time, time);
    }
}

/// An update to an earlier time changes nothing: after an update to
/// `first`, an update to `second`, earlier than `first`, leaves the record
/// as the first update left it. Where the first update moved the marker, the
/// marker stands at `first`, cut to the millisecond.
pub proof fn law_update_is_monotonic(found: MetadataView, first: Instant, second: Instant)
    requires
        second.before(first),
    ensures
        found.after_update(first).after_update(second) == found.after_update(first),
        !found.keeps_marker(first) ==> found.after_update(first).read_marker == Some(
            first.truncated_to_millis(),
        ),
{
    if !found.keeps_marker(first) && !found.after_update(first).keeps_marker(second) {
        // Both updates wrote, so `second` lies in the millisecond of `first`.
        lemma_truncation_is_monotonic(second, first);
        lemma_truncation_is_monotonic(first.truncated_to_millis(), second);
        lemma_after_write_is_idempotent(found.with_marker(first));
    }
}

/// An update made twice leaves the record as the update made once does.
pub proof fn law_update_is_idempotent(found: MetadataView, candidate: Instant)
    ensures
        found.after_update(candidate).after_update(candidate) == found.after_update(candidate),
{
    if !found.keeps_marker(candidate) && !found.after_update(candidate).keeps_marker(candidate) {
        // The marker written was cut below `candidate`, so the update writes again, the same.
        lemma_truncation_is_monotonic(candidate, candidate);
        lemma_after_write_is_idempotent(found.with_marker(candidate));
    }
}

/// A read marker that was stored to the millisecond never moves back: after
/// any update the record has a marker, and it is not earlier than the one
/// found.
pub proof fn law_read_marker_never_moves_back(
    found: MetadataView,
    marker: Instant,
    candidate: Instant,
)
    requires
        found.read_marker == Some(marker),
        marker == marker.truncated_to_millis(),
    ensures
        found.after_update(candidate).read_marker is Some,
        marker.at_or_before(found.after_update(candidate).read_marker->0),
{
    if !found.keeps_marker(candidate) {
        lemma_truncation_is_monotonic(marker, candidate);
    }
}

/// An update keeps a record within the years 0000 to 9999 if the new marker
/// lies within them, so that the next update finds a record it can read.
pub proof fn law_update_stays_in_four_digit_years(found: MetadataView, candidate: Instant)
    requires
        found.in_four_digit_years(),
        candidate.in_four_digit_years(),
    ensures
        found.after_update(candidate).in_four_digit_years(),
{
}

/// What is found after a save: the read marker that was given, cut to the
/// millisecond; the reference of the most recent message that can be
/// referred to, as it was; and the time of the most recent message that
/// marks the conversation as unread, cut to the millisecond, which changes
/// nothing for a time that has no part below the millisecond.
pub proof fn law_save_round_trip(messages: Seq<Message>, read_marker: Option<Instant>)
    ensures
        derived(messages, read_marker).after_write().read_marker == truncated(read_marker),
        derived(messages, read_marker).after_write().last_triggers_unread == truncated(
            latest_triggers_unread_in(messages),
        ),
        derived(messages, read_marker).after_write().chathistory_references == view_of(
            latest_can_reference_in(messages),
        ),
        truncated(latest_triggers_unread_in(messages)) == latest_triggers_unread_in(messages)
            ==> derived(messages, read_marker).after_write().last_triggers_unread
            == latest_triggers_unread_in(messages),
{
}

} // verus!
