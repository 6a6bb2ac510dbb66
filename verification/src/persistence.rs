//! Loading, saving and updating the record of a conversation.
//!
//! The functions here go from what was read of the conversation's file to
//! what is to be written to it; the caller does the reading and the
//! writing. Nothing is kept between calls.

use vstd::prelude::*;

use crate::message::Message;
use crate::metadata::{derived, Metadata, MetadataView};
use crate::read_marker::ReadMarker;
use crate::stored::{StoredMetadata, StoredMetadataView};
use crate::timestamp::Instant;
use crate::view::view_of;

verus! {

/// The record of a conversation, given what was read of the store: the
/// record that the stored form stands for, or the empty record where
/// nothing was stored or what was stored cannot be made sense of.
pub open spec fn loaded(stored: Option<StoredMetadataView>) -> MetadataView {
    match stored {
        Some(stored) => match stored.decoded() {
            Some(metadata) => metadata,
            None => MetadataView::empty(),
        },
        None => MetadataView::empty(),
    }
}

/// What an update of the read marker to `candidate` writes, given what was
/// read of the store; `None` where it writes nothing.
pub open spec fn updated(stored: Option<StoredMetadataView>, candidate: Instant) -> Option<
    StoredMetadataView,
> {
    let found = loaded(stored);
    if found.keeps_marker(candidate) {
        None
    } else {
        Some(found.with_marker(candidate).encoded())
    }
}

/// What the store holds after an update: what the update wrote, or what
/// was there where it wrote nothing.
pub open spec fn store_after(
    stored: Option<StoredMetadataView>,
    write: Option<StoredMetadataView>,
) -> Option<StoredMetadataView> {
    match write {
        Some(write) => Some(write),
        None => stored,
    }
}

/// The record of a conversation, given what was read of its file: `None`
/// for a file that is missing, cannot be read, or does not hold a record.
///
/// Never an error: where nothing was stored, or a stored time is not in
/// RFC 3339 form, the record is the empty one.
pub fn load(stored: Option<&StoredMetadata>) -> (r: Metadata)
    ensures
        r@ == loaded(view_of(stored)),
        stored is None ==> r@ == MetadataView::empty(),
        stored matches Some(stored) && stored@.decoded() is None ==> r@ == MetadataView::empty(),
{
    match stored {
        Some(stored) => match Metadata::decode(stored) {
            Some(metadata) => metadata,
            None => Metadata::default(),
        },
        None => Metadata::default(),
    }
}

/// What to store for a conversation with the given messages, read as far
/// as `read_marker`: the marker as given, the other two values as the
/// messages have them. It replaces whatever the file held.
///
/// Where the times all lie in the years 0000 to 9999, a later `load` finds
/// the marker cut to the millisecond, likewise the time of the last unread
/// trigger, and the reference as it was.
pub fn save(messages: &[Message], read_marker: Option<ReadMarker>) -> (r: StoredMetadata)
    ensures
        r@ == derived(messages@, view_of(read_marker)).encoded(),
        derived(messages@, view_of(read_marker)).in_four_digit_years() ==> loaded(Some(r@))
            == derived(messages@, view_of(read_marker)).after_write(),
{
    Metadata::derive(messages, read_marker).encode()
}

/// What to store when the conversation has been read as far as
/// `read_marker`, given what was read of its file; `None` where the file is
/// to be left as it is.
///
/// The marker only moves forward: where the record found has a marker that
/// is not earlier than `read_marker`, nothing is written. Else the record
/// is written anew with `read_marker` for its marker and the rest as found.
///
/// Where the times of the record found and `read_marker` all lie in the
/// years 0000 to 9999, a later `load` finds what `after_update` says.
pub fn update(stored: Option<&StoredMetadata>, read_marker: &ReadMarker) -> (r: Option<
    StoredMetadata,
>)
    ensures
        view_of(r) == updated(view_of(stored), read_marker@),
        r is None <==> loaded(view_of(stored)).keeps_marker(read_marker@),
        loaded(view_of(stored)).in_four_digit_years() && read_marker@.in_four_digit_years()
            ==> loaded(store_after(view_of(stored), view_of(r))) == loaded(
            view_of(stored),
        ).after_update(read_marker@),
{
    match load(stored).advance(read_marker) {
        Some(replacement) => Some(replacement.encode()),
        None => None,
    }
}

} // verus!
