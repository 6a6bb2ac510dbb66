//! Bookkeeping records kept per conversation of a chat client: the read
//! marker, the time of the last message that raises the unread indicator, and
//! a reference from which a server-side history query can resume.
//!
//! The crate derives these values from a conversation's messages, decides how
//! a stored record changes when the read position moves, and names the file a
//! conversation's record is kept in. Reading and writing that file is left to
//! the caller.

pub mod laws;
pub mod message;
pub mod metadata;
pub mod persistence;
pub mod read_marker;
pub mod references;
pub mod rfc3339;
pub mod scope;
pub mod stored;
pub mod timestamp;
pub mod view;

pub use crate::message::{Message, Source};
pub use crate::metadata::{latest_can_reference, latest_triggers_unread, Metadata};
pub use crate::persistence::{load, save, update};
pub use crate::read_marker::ReadMarker;
pub use crate::references::{MessageReference, MessageReferenceType, MessageReferences};
pub use crate::scope::{file_name, Kind};
pub use crate::stored::{StoredMetadata, StoredReferences};
pub use crate::timestamp::{Precision, Rfc3339Error, Timestamp};
