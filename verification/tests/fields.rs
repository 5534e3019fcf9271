use rattler::fields::{
    LossyUrl, MultiLine, MultiLineString, Timestamp, TimestampError, VecSkipNone, LAST_SECOND,
};

fn datetime(text: &str) -> chrono::NaiveDateTime {
    chrono::NaiveDateTime::parse_from_str(text, "%Y-%m-%d %H:%M:%S%.f").unwrap()
}

#[test]
fn missing_items_are_skipped() {
    assert_eq!(
        VecSkipNone::deserialize_as(vec![Some(1), None, Some(3), None, None, Some(6)]),
        [1, 3, 6]
    );
    assert_eq!(
        VecSkipNone::deserialize_as(vec![None, Some("a".to_string())]),
        ["a"]
    );
    assert_eq!(
        VecSkipNone::deserialize_as::<u8>(vec![None, None]),
        Vec::<u8>::new()
    );
    assert_eq!(VecSkipNone::deserialize_as::<u8>(vec![]), Vec::<u8>::new());
    assert_eq!(VecSkipNone::deserialize_as(vec![Some(2), Some(1)]), [2, 1]);
}

#[test]
fn urls_are_parsed() {
    let url = LossyUrl::deserialize_as(Some(
        "https://conda.anaconda.org/conda-forge/linux 64".to_string(),
    ))
    .unwrap();
    assert_eq!(
        url.as_str(),
        "https://conda.anaconda.org/conda-forge/linux%2064"
    );
    assert_eq!(url.host_str(), Some("conda.anaconda.org"));
    let url = LossyUrl::deserialize_as(Some("HTTP://Example.COM".to_string())).unwrap();
    assert_eq!(url.as_str(), "http://example.com/");
}

#[test]
fn malformed_urls_count_as_missing() {
    assert_eq!(LossyUrl::deserialize_as(None), None);
    assert_eq!(LossyUrl::deserialize_as(Some("".to_string())), None);
    assert_eq!(
        LossyUrl::deserialize_as(Some("not a url".to_string())),
        None
    );
    assert_eq!(
        LossyUrl::deserialize_as(Some("//missing.scheme/".to_string())),
        None
    );
    assert_eq!(LossyUrl::keep(url::Url::parse("https://[")), None);
    let url = url::Url::parse("https://example.com/").unwrap();
    assert_eq!(LossyUrl::keep(Ok(url.clone())), Some(url));
}

#[test]
fn lines_are_joined_with_line_feeds() {
    let lines =
        |lines: &[&str]| MultiLine::Multi(lines.iter().map(|line| line.to_string()).collect());
    assert_eq!(
        MultiLineString::deserialize_as(MultiLine::Single("one\ntwo".to_string())),
        "one\ntwo"
    );
    assert_eq!(
        MultiLineString::deserialize_as(MultiLine::Single(String::new())),
        ""
    );
    assert_eq!(
        MultiLineString::deserialize_as(lines(&["one", "two", "three"])),
        "one\ntwo\nthree"
    );
    assert_eq!(MultiLineString::deserialize_as(lines(&["one"])), "one");
    assert_eq!(MultiLineString::deserialize_as(lines(&[])), "");
    assert_eq!(MultiLineString::deserialize_as(lines(&["", ""])), "\n");
    assert_eq!(
        MultiLineString::deserialize_as(lines(&["a", "", "b\n"])),
        "a\n\nb\n"
    );
    for case in [&["x", "y"][..], &[], &["", "", ""], &["only"]] {
        assert_eq!(
            MultiLineString::deserialize_as(lines(case)),
            case.join("\n")
        );
    }
}

#[test]
fn small_timestamps_are_seconds() {
    assert_eq!(
        Timestamp::deserialize_as(0),
        Ok(datetime("1970-01-01 00:00:00"))
    );
    assert_eq!(
        Timestamp::deserialize_as(1),
        Ok(datetime("1970-01-01 00:00:01"))
    );
    assert_eq!(
        Timestamp::deserialize_as(1_662_921_288),
        Ok(datetime("2022-09-11 18:34:48"))
    );
    assert_eq!(
        Timestamp::deserialize_as(-1),
        Ok(datetime("1969-12-31 23:59:59"))
    );
    assert_eq!(
        Timestamp::deserialize_as(LAST_SECOND),
        Ok(datetime("9999-12-31 23:59:59"))
    );
    assert_eq!(Timestamp::to_micros(1), Some(1_000_000));
    assert_eq!(
        Timestamp::to_micros(LAST_SECOND),
        Some(253_402_300_799_000_000)
    );
}

#[test]
fn large_timestamps_are_milliseconds() {
    assert_eq!(LAST_SECOND, 253_402_300_799);
    assert_eq!(
        Timestamp::deserialize_as(LAST_SECOND + 1),
        Ok(datetime("1978-01-11 21:31:40.800"))
    );
    assert_eq!(
        Timestamp::deserialize_as(1_662_921_288_123),
        Ok(datetime("2022-09-11 18:34:48.123"))
    );
    assert_eq!(
        Timestamp::to_micros(LAST_SECOND + 1),
        Some(253_402_300_800_000)
    );
}

#[test]
fn timestamps_out_of_range_are_refused() {
    // More microseconds than 64 bits hold.
    assert_eq!(Timestamp::to_micros(i64::MAX), None);
    assert_eq!(Timestamp::to_micros(i64::MIN), None);
    assert_eq!(Timestamp::to_micros(i64::MAX / 1000 + 1), None);
    assert_eq!(
        Timestamp::to_micros(i64::MAX / 1000),
        Some(i64::MAX / 1000 * 1000)
    );
    assert_eq!(Timestamp::to_micros(i64::MIN / 1_000_000 - 1), None);
    assert_eq!(
        Timestamp::deserialize_as(i64::MAX),
        Err(TimestampError::OutOfRange)
    );
    assert_eq!(
        Timestamp::deserialize_as(i64::MIN),
        Err(TimestampError::OutOfRange)
    );
    // Microseconds that fit, for a year that cannot be represented.
    assert_eq!(
        Timestamp::deserialize_as(i64::MAX / 1000),
        Err(TimestampError::OutOfRange)
    );
    assert_eq!(
        Timestamp::deserialize_as(-9_000_000_000_000),
        Err(TimestampError::OutOfRange)
    );
    assert_eq!(
        Timestamp::check_range(None),
        Err(TimestampError::OutOfRange)
    );
    assert_eq!(
        Timestamp::check_range(Some(datetime("2000-01-01 00:00:00"))),
        Ok(datetime("2000-01-01 00:00:00"))
    );
}

#[test]
fn whole_seconds_are_stored_as_seconds() {
    assert_eq!(
        Timestamp::serialize_as(&datetime("2001-09-09 01:46:40")),
        1_000_000_000
    );
    assert_eq!(
        Timestamp::serialize_as(&datetime("2001-09-09 01:46:40.555")),
        1_000_000_000_555
    );
    assert_eq!(Timestamp::serialize_as(&datetime("1970-01-01 00:00:00")), 0);
    assert_eq!(
        Timestamp::serialize_as(&datetime("1970-01-01 00:00:00.001")),
        1
    );
    assert_eq!(
        Timestamp::serialize_as(&datetime("1969-12-31 23:59:59")),
        -1
    );
    assert_eq!(
        Timestamp::serialize_as(&datetime("1969-12-31 23:59:59.500")),
        -500
    );
    assert_eq!(Timestamp::to_stored(2000), 2);
    assert_eq!(Timestamp::to_stored(2001), 2001);
    assert_eq!(Timestamp::to_stored(-3000), -3);
    assert_eq!(Timestamp::to_stored(-2999), -2999);
    assert_eq!(Timestamp::to_stored(999), 999);
    assert_eq!(Timestamp::to_stored(0), 0);
}

#[test]
fn stored_timestamps_are_read_back() {
    for text in [
        "2022-09-11 18:34:48",
        "2022-09-11 18:34:48.123",
        "1990-01-01 00:00:00.001",
    ] {
        let stored = Timestamp::serialize_as(&datetime(text));
        assert_eq!(Timestamp::deserialize_as(stored), Ok(datetime(text)));
    }
}
