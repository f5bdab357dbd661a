use chrono::{TimeZone, Utc};
use cli_helpers::timestamp::{MAX_EPOCH_MILLIS, SECONDS_CUTOFF};
use cli_helpers::{tz_name_to_offset, Error, Timestamp, Verbosity};

fn expect(secs: i64, nanos: u32) -> (i64, u32) {
    let t = Utc.timestamp_opt(secs, nanos).single().unwrap();
    (t.timestamp(), t.timestamp_subsec_nanos())
}

fn parts(t: Timestamp) -> (i64, u32) {
    (t.seconds(), t.subsec_nanos())
}

fn assert_invalid(input: &str) {
    match Timestamp::parse(input) {
        Err(Error::InvalidTimestamp(s)) => assert_eq!(s, input),
        other => panic!("expected an invalid timestamp, got {:?}", other),
    }
}

#[test]
fn test_prelude() {
    let matches = clap::Command::new("test")
        .arg(
            clap::Arg::new("verbose")
                .long("verbose")
                .short('v')
                .global(true)
                .action(clap::ArgAction::Count),
        )
        .arg(clap::Arg::new("timestamp_a").long("timestamp-a"))
        .arg(clap::Arg::new("timestamp_b").long("timestamp-b"))
        .arg(clap::Arg::new("timestamp_c").long("timestamp-c"))
        .try_get_matches_from([
            "test",
            "-vvvv",
            "--timestamp-a",
            "1692946034",
            "--timestamp-b",
            "Fri Aug 25 08:47:09 AM CEST 2023",
            "--timestamp-c",
            "1692946034632",
        ])
        .unwrap();
    let get = |name: &str| -> Timestamp {
        matches.get_one::<String>(name).unwrap().parse().unwrap()
    };

    assert_eq!(Verbosity::new(matches.get_count("verbose")), Verbosity::new(4));
    assert_eq!(parts(get("timestamp_a")), expect(1692946034, 0));
    assert_eq!(parts(get("timestamp_b")), expect(1692946029, 0));
    assert_eq!(parts(get("timestamp_c")), expect(1692946034, 632000000));
}

#[test]
fn epoch_seconds_example() {
    let t = Timestamp::parse("1692946034").unwrap();
    let expected = Utc.with_ymd_and_hms(2023, 8, 25, 6, 47, 14).single().unwrap();
    assert_eq!(t.seconds(), expected.timestamp());
    assert_eq!(t.subsec_nanos(), 0);
}

#[test]
fn epoch_millis_example() {
    let t = Timestamp::parse("1692946034632").unwrap();
    assert_eq!(parts(t), (1692946034, 632_000_000));
    assert_eq!(t.epoch_millis(), 1692946034632);
}

#[test]
fn calendar_example_cest() {
    let t = Timestamp::parse("Fri Aug 25 08:47:09 AM CEST 2023").unwrap();
    let expected = Utc.with_ymd_and_hms(2023, 8, 25, 6, 47, 9).single().unwrap();
    assert_eq!(parts(t), (expected.timestamp(), 0));
}

#[test]
fn zone_names_shift_by_their_offsets() {
    let utc = Timestamp::parse("Fri Aug 25 08:47:09 AM +0000 2023").unwrap();
    let cest = Timestamp::parse("Fri Aug 25 08:47:09 AM CEST 2023").unwrap();
    let cet = Timestamp::parse("Fri Aug 25 08:47:09 AM CET 2023").unwrap();
    assert_eq!(cest.seconds(), utc.seconds() - 7200);
    assert_eq!(cet.seconds(), utc.seconds() - 3600);
    assert!(cest < cet && cet < utc);
}

#[test]
fn calendar_pm_and_padded_day() {
    let t = Timestamp::parse("Tue Aug  1 01:02:03 PM +0000 2023").unwrap();
    let expected = Utc.with_ymd_and_hms(2023, 8, 1, 13, 2, 3).single().unwrap();
    assert_eq!(t.seconds(), expected.timestamp());
}

#[test]
fn seconds_below_cutoff() {
    assert_eq!(parts(Timestamp::parse("0").unwrap()), (0, 0));
    assert_eq!(parts(Timestamp::parse("+5").unwrap()), (5, 0));
    assert_eq!(parts(Timestamp::parse("999999999999").unwrap()), (999_999_999_999, 0));
    assert_eq!(parts(Timestamp::parse("-999999999999").unwrap()), (-999_999_999_999, 0));
}

#[test]
fn negative_seconds_before_epoch() {
    let t = Timestamp::parse("-5").unwrap();
    assert_eq!(parts(t), expect(-5, 0));
    assert!(t < Timestamp::parse("0").unwrap());
}

#[test]
fn millis_from_cutoff() {
    let text = SECONDS_CUTOFF.to_string();
    let t = Timestamp::parse(&text).unwrap();
    assert_eq!(parts(t), (1_000_000_000, 0));
    assert_eq!(t.epoch_millis(), 1_000_000_000_000);
}

#[test]
fn negative_millis_round_down() {
    let t = Timestamp::parse("-1000000000001").unwrap();
    assert_eq!(parts(t), (-1_000_000_001, 999_000_000));
    assert_eq!(t.epoch_millis(), -1_000_000_000_001);
}

#[test]
fn millis_at_the_ends_of_the_range() {
    let last = Timestamp::parse(&MAX_EPOCH_MILLIS.to_string()).unwrap();
    assert_eq!(last.epoch_millis(), MAX_EPOCH_MILLIS as i128);
    assert_invalid(&(MAX_EPOCH_MILLIS + 1).to_string());
    let first = Timestamp::parse("-8334601228800000").unwrap();
    assert_eq!(parts(first), (-8_334_601_228_800, 0));
    assert_invalid("-8334601228800001");
}

#[test]
fn integer_overflow_is_invalid() {
    assert_invalid("9223372036854775808");
}

#[test]
fn garbage_is_invalid() {
    assert_invalid("not-a-timestamp");
    assert_invalid(" 5");
    assert_invalid("-");
}

#[test]
fn empty_is_invalid() {
    assert_invalid("");
    match "".parse::<Timestamp>() {
        Err(Error::InvalidTimestamp(s)) => assert_eq!(s, ""),
        other => panic!("expected an invalid timestamp, got {:?}", other),
    }
}

#[test]
fn parsing_twice_agrees() {
    for input in ["1692946034", "1692946034632", "Fri Aug 25 08:47:09 AM CEST 2023"] {
        assert_eq!(Timestamp::parse(input).unwrap(), Timestamp::parse(input).unwrap());
    }
    match (Timestamp::parse("bad"), Timestamp::parse("bad")) {
        (Err(Error::InvalidTimestamp(a)), Err(Error::InvalidTimestamp(b))) => assert_eq!(a, b),
        other => panic!("expected two errors, got {:?}", other),
    }
}

#[test]
fn from_str_matches_parse() {
    let t: Timestamp = "1692946034".parse().unwrap();
    assert_eq!(t, Timestamp::parse("1692946034").unwrap());
}

#[test]
fn decode_steps_separately() {
    assert_eq!(parts(Timestamp::decode_epoch("12").unwrap()), (12, 0));
    assert!(Timestamp::decode_epoch("Fri Aug 25 08:47:09 AM CEST 2023").is_none());
    assert!(Timestamp::decode_calendar("12").is_none());
    let t = Timestamp::decode_calendar("Fri Aug 25 08:47:09 AM CEST 2023").unwrap();
    assert_eq!(t.seconds(), 1692946029);
}

#[test]
fn zone_names_rewritten() {
    assert_eq!(tz_name_to_offset("CET"), "+0100");
    assert_eq!(tz_name_to_offset("CEST"), "+0200");
    assert_eq!(tz_name_to_offset("a CET b CEST c CET"), "a +0100 b +0200 c +0100");
    assert_eq!(tz_name_to_offset("no zone"), "no zone");
}

#[test]
fn error_messages() {
    let e = Timestamp::parse("x").unwrap_err();
    assert_eq!(e.message(), "Invalid timestamp format");
}
