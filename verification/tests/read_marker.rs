use std::cmp::Ordering;

use history_metadata::{Message, MessageReferences, ReadMarker, Source, Timestamp};

fn message_at(seconds: i64, source: Source) -> Message {
    let server_time = Timestamp::new(seconds, 0).unwrap();
    Message {
        server_time,
        source,
        triggers_unread: false,
        can_reference: false,
        references: MessageReferences { timestamp: server_time, id: None },
    }
}

#[test]
fn latest_of_no_messages_is_none() {
    assert_eq!(ReadMarker::latest(&[]), None);
}

#[test]
fn latest_of_status_messages_alone_is_none() {
    let messages = [
        message_at(1, Source::InternalStatus),
        message_at(2, Source::InternalStatus),
        message_at(3, Source::InternalStatus),
    ];
    assert_eq!(ReadMarker::latest(&messages), None);
    assert_eq!(ReadMarker::latest(&messages[..1]), None);
}

#[test]
fn latest_after_a_status_message_is_the_other_message() {
    let messages = [message_at(100, Source::InternalStatus), message_at(200, Source::Other)];
    let marker = ReadMarker::latest(&messages).unwrap();
    assert_eq!(marker.date_time(), Timestamp::new(200, 0).unwrap());
}

#[test]
fn latest_of_a_log_line_alone_is_that_line() {
    let messages = [message_at(100, Source::InternalLogs)];
    let marker = ReadMarker::latest(&messages).unwrap();
    assert_eq!(marker.date_time(), Timestamp::new(100, 0).unwrap());
}

#[test]
fn latest_skips_status_messages_at_the_end() {
    let messages = [
        message_at(100, Source::Other),
        message_at(200, Source::InternalLogs),
        message_at(300, Source::InternalStatus),
        message_at(400, Source::InternalStatus),
    ];
    let marker = ReadMarker::latest(&messages).unwrap();
    assert_eq!(marker.date_time(), Timestamp::new(200, 0).unwrap());
}

#[test]
fn latest_goes_by_position_not_by_time() {
    let messages = [message_at(900, Source::Other), message_at(100, Source::Other)];
    let marker = ReadMarker::latest(&messages).unwrap();
    assert_eq!(marker.date_time(), Timestamp::new(100, 0).unwrap());
}

#[test]
fn latest_takes_the_last_of_several_eligible_messages() {
    let messages = [
        message_at(100, Source::Other),
        message_at(200, Source::InternalStatus),
        message_at(300, Source::Other),
    ];
    let marker = ReadMarker::latest(&messages).unwrap();
    assert_eq!(marker.date_time(), Timestamp::new(300, 0).unwrap());
}

#[test]
fn a_marker_is_written_to_the_millisecond_in_utc() {
    let marker = ReadMarker::parse("2018-01-26T18:30:09.453829Z").unwrap();
    assert_eq!(marker.to_string(), "2018-01-26T18:30:09.453Z");
    let whole = ReadMarker::parse("2018-01-26T18:30:09Z").unwrap();
    assert_eq!(whole.to_string(), "2018-01-26T18:30:09.000Z");
}

#[test]
fn a_marker_with_an_offset_is_brought_to_utc() {
    let marker = ReadMarker::parse("2018-01-26T19:30:09.453+01:00").unwrap();
    assert_eq!(marker.date_time(), Timestamp::new(1_516_991_409, 453_000_000).unwrap());
    assert_eq!(marker.to_string(), "2018-01-26T18:30:09.453Z");
}

#[test]
fn a_marker_is_read_through_from_str() {
    let marker: ReadMarker = "2018-01-26T18:30:09.453Z".parse().unwrap();
    assert_eq!(marker.date_time().seconds(), 1_516_991_409);
    assert_eq!(marker.date_time().subsec_nanos(), 453_000_000);
    assert_eq!(marker, ReadMarker::parse("2018-01-26T18:30:09.453Z").unwrap());
}

#[test]
fn a_malformed_marker_is_an_error() {
    assert!(ReadMarker::parse("").is_err());
    assert!(ReadMarker::parse("not a time").is_err());
    assert!(ReadMarker::parse("2018-01-26 18:30").is_err());
    assert!("2018-01-26T18:30:09".parse::<ReadMarker>().is_err());
    assert!("2018-01-26T25:30:09Z".parse::<ReadMarker>().is_err());
}

#[test]
fn the_error_carries_what_the_parser_found() {
    let short = ReadMarker::parse("2018").unwrap_err();
    assert_eq!(short.cause.kind(), chrono::format::ParseErrorKind::TooShort);
    let range = ReadMarker::parse("2018-02-30T18:30:09Z").unwrap_err();
    assert_eq!(range.cause.kind(), chrono::format::ParseErrorKind::OutOfRange);
}

#[test]
fn what_is_written_is_read_back_to_the_millisecond() {
    let marker = ReadMarker::parse("2024-05-01T12:00:00.123456789Z").unwrap();
    let read: ReadMarker = marker.to_string().parse().unwrap();
    assert_eq!(read.date_time(), Timestamp::new(1_714_564_800, 123_000_000).unwrap());
    let again: ReadMarker = read.to_string().parse().unwrap();
    assert_eq!(again, read);
}

#[test]
fn markers_are_ordered_by_time() {
    let early = ReadMarker::parse("2024-05-01T12:00:00.000Z").unwrap();
    let late = ReadMarker::parse("2024-05-01T12:00:00.001Z").unwrap();
    assert!(early < late);
    assert!(late > early);
    assert!(early <= early);
    assert!(early >= early);
    assert_eq!(early.partial_cmp(&late), Some(Ordering::Less));
    assert_eq!(early.cmp(&late), Ordering::Less);
    assert_eq!(early.max(late), late);
    assert_ne!(early, late);
}

#[test]
fn markers_with_different_offsets_compare_by_instant() {
    let here = ReadMarker::parse("2024-05-01T12:00:00Z").unwrap();
    let there = ReadMarker::parse("2024-05-01T14:00:00+02:00").unwrap();
    assert_eq!(here, there);
    let earlier = ReadMarker::parse("2024-05-01T12:30:00+02:00").unwrap();
    assert!(earlier < here);
}

#[test]
fn the_default_marker_is_the_epoch() {
    let marker = ReadMarker::default();
    assert_eq!(marker.date_time(), Timestamp::default());
    assert_eq!(marker.to_string(), "1970-01-01T00:00:00.000Z");
}
