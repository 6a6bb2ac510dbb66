use history_metadata::scope::{append_decimal, hashed_file_name};
use history_metadata::{file_name, Kind};

#[test]
fn the_name_of_a_server() {
    assert_eq!(Kind::Server("libera".to_string()).composite_name(), "libera-metadata");
}

#[test]
fn the_name_of_a_channel() {
    let kind = Kind::Channel("libera".to_string(), "#rust".to_string());
    assert_eq!(kind.composite_name(), "liberachannel#rust-metadata");
}

#[test]
fn the_name_of_a_query() {
    let kind = Kind::Query("libera".to_string(), "alice".to_string());
    assert_eq!(kind.composite_name(), "liberanicknamealice-metadata");
}

#[test]
fn the_names_of_logs_and_highlights() {
    assert_eq!(Kind::Logs.composite_name(), "logs-metadata");
    assert_eq!(Kind::Highlights.composite_name(), "highlights-metadata");
}

#[test]
fn the_file_of_the_logs() {
    assert_eq!(file_name(&Kind::Logs), "2782277266135177300.json");
}

#[test]
fn the_file_of_the_highlights() {
    assert_eq!(file_name(&Kind::Highlights), "11839014165225540768.json");
}

#[test]
fn the_file_of_a_server() {
    assert_eq!(file_name(&Kind::Server("libera".to_string())), "8476995173127702211.json");
}

#[test]
fn the_file_of_a_channel() {
    let kind = Kind::Channel("libera".to_string(), "#rust".to_string());
    assert_eq!(file_name(&kind), "3584623930947275331.json");
}

#[test]
fn the_file_of_a_query() {
    let kind = Kind::Query("libera".to_string(), "alice".to_string());
    assert_eq!(file_name(&kind), "10385180577338769751.json");
}

#[test]
fn the_file_of_a_channel_with_letters_beyond_ascii() {
    let kind = Kind::Channel("libera".to_string(), "#café".to_string());
    assert_eq!(file_name(&kind), "178670193236352955.json");
}

#[test]
fn the_file_name_is_the_hash_of_the_name_in_decimal() {
    let kinds = [
        Kind::Server(String::new()),
        Kind::Server("irc.example.org".to_string()),
        Kind::Channel("a".to_string(), "b".to_string()),
        Kind::Query("a".to_string(), "b".to_string()),
        Kind::Logs,
        Kind::Highlights,
    ];
    for kind in kinds {
        let hash = seahash::hash(kind.composite_name().as_bytes());
        assert_eq!(file_name(&kind), format!("{hash}.json"));
    }
}

#[test]
fn the_file_name_is_safe_whatever_the_names_hold() {
    let kind = Kind::Channel("../..".to_string(), "#a/b\\c\0".to_string());
    let name = file_name(&kind);
    let stem = name.strip_suffix(".json").unwrap();
    assert!(!stem.is_empty() && stem.len() <= 20);
    assert!(stem.chars().all(|c| c.is_ascii_digit()));
}

#[test]
fn conversations_that_differ_have_files_that_differ() {
    let channel = Kind::Channel("libera".to_string(), "alice".to_string());
    let query = Kind::Query("libera".to_string(), "alice".to_string());
    let server = Kind::Server("libera".to_string());
    assert_ne!(file_name(&channel), file_name(&query));
    assert_ne!(file_name(&channel), file_name(&server));
    assert_ne!(file_name(&Kind::Logs), file_name(&Kind::Highlights));
}

#[test]
fn names_that_run_together_share_a_file() {
    let one = Kind::Channel("a".to_string(), "channelb".to_string());
    let other = Kind::Channel("achannel".to_string(), "b".to_string());
    assert_ne!(one, other);
    assert_eq!(one.composite_name(), other.composite_name());
    assert_eq!(file_name(&one), file_name(&other));
}

#[test]
fn the_same_conversation_has_the_same_file() {
    let kind = Kind::Channel("libera".to_string(), "#rust".to_string());
    assert_eq!(file_name(&kind), file_name(&kind.clone()));
}

#[test]
fn the_file_for_a_given_hash() {
    assert_eq!(hashed_file_name(0), "0.json");
    assert_eq!(hashed_file_name(7), "7.json");
    assert_eq!(hashed_file_name(1_988_685_042_348_123_509), "1988685042348123509.json");
    assert_eq!(hashed_file_name(u64::MAX), "18446744073709551615.json");
}

#[test]
fn decimal_of_small_and_large_numbers() {
    let samples: [(u64, &str); 9] = [
        (0, "0"),
        (9, "9"),
        (10, "10"),
        (99, "99"),
        (100, "100"),
        (1_234_567_890, "1234567890"),
        (1_000_000_000_000_000_000, "1000000000000000000"),
        (u64::MAX - 1, "18446744073709551614"),
        (u64::MAX, "18446744073709551615"),
    ];
    for (number, expected) in samples {
        let mut text = String::new();
        append_decimal(number, &mut text);
        assert_eq!(text, expected);
    }
}

#[test]
fn decimal_is_written_after_what_is_there() {
    let mut text = "n=".to_string();
    append_decimal(42, &mut text);
    append_decimal(0, &mut text);
    assert_eq!(text, "n=420");
}

#[test]
fn decimal_agrees_with_the_standard_formatting() {
    let mut number: u64 = 1;
    for _ in 0..64 {
        let mut text = String::new();
        append_decimal(number, &mut text);
        assert_eq!(text, number.to_string());
        let mut below = String::new();
        append_decimal(number - 1, &mut below);
        assert_eq!(below, (number - 1).to_string());
        number = number.wrapping_mul(2);
    }
}
