use zenoh_backend_s3::timestamp::is_within_clock_range;
use zenoh_backend_s3::timestamp::Timestamp;
use zenoh_backend_s3::timestamp::LAST_MOMENT;

#[test]
fn timestamp_needs_a_clock_other_than_zero() {
    assert_eq!(Timestamp::new(7, 0), None);
    let ts = Timestamp::new(7, 9).unwrap();
    assert_eq!(ts.time(), 7);
    assert_eq!(ts.id(), 9);
}

#[test]
fn timestamp_text_is_time_slash_clock() {
    assert_eq!(Timestamp::new(0, 1).unwrap().to_text(), "1970-01-01T00:00:00.000000000Z/1");
    assert_eq!(
        Timestamp::new(1u64 << 40, 0xabc).unwrap().to_text(),
        "1970-01-01T00:04:16.000000000Z/abc"
    );
    assert_eq!(
        Timestamp::new((1u64 << 32) + (1u64 << 31), 0x1bc0).unwrap().to_text(),
        "1970-01-01T00:00:01.500000000Z/1bc0"
    );
    assert_eq!(
        Timestamp::new(u64::MAX, u128::MAX).unwrap().to_text(),
        "2106-02-07T06:28:15.999999999Z/ffffffffffffffffffffffffffffffff"
    );
}

#[test]
fn timestamp_is_read_from_its_text() {
    assert_eq!(
        Timestamp::parse("1970-01-01T00:00:01.500000000Z/1bc0"),
        Timestamp::new((1u64 << 32) + (1u64 << 31) + 1, 0x1bc0)
    );
    assert_eq!(
        Timestamp::parse("1970-01-01T00:04:16Z/abc"),
        Timestamp::new((1u64 << 40) + 1, 0xabc)
    );
    assert_eq!(
        Timestamp::parse("2105-12-31T23:59:59.999999999Z/1"),
        Timestamp::new(18432913866699571196, 1)
    );
}

#[test]
fn timestamp_text_that_uhlc_cannot_read_gives_none() {
    for text in [
        "",
        "/",
        "1970-01-01T00:00:00Z",
        "1970-01-01T00:00:00Z/",
        "1970-01-01T00:00:00Z/0",
        "1970-01-01T00:00:00Z/0abc",
        "1970-01-01T00:00:00Z/xyz",
        "1969-12-31T23:59:59Z/1",
        "1970-13-01T00:00:00Z/1",
        "yesterday/1",
        "12345/1",
        "1970-01-01T00:00:00Z/100000000000000000000000000000000",
    ] {
        assert_eq!(Timestamp::parse(text), None, "{:?}", text);
    }
}

#[test]
fn clock_range_ends_with_the_last_moment() {
    assert_eq!(LAST_MOMENT, "2106-02-07T06:28:15");
    for text in [
        "",
        "999",
        "1970-01-01T00:00:00Z/1",
        "2105-12-31T23:59:59Z/1",
        "2106-01-01T00:00:00Z/1",
        "2106-01-15T00:00:00Z/1",
        "2106-02-07T06:27:60Z/1",
        "2106-02-07T06:28:15",
        "2106-02-07T06:28:15Z/1",
        "2106-02-07T06:28:15.999999999Z/1",
    ] {
        assert!(is_within_clock_range(text), "{:?}", text);
    }
    for text in [
        "2106-02-07T06:28:16",
        "2106-02-07T06:28:16Z/1",
        "2106-02-07T06:28:60Z/1",
        "2106-02-07T06:29:00Z/1",
        "2106-02-07T07:00:00Z/1",
        "2106-02-08T00:00:00Z/1",
        "2106-03-01T00:00:00Z/1",
        "2106-13-01T00:00:00Z/1",
        "2107-01-01T00:00:00Z/1",
        "3000-01-01T00:00:00Z/1",
        "9999-12-31T23:59:59Z/1",
    ] {
        assert!(!is_within_clock_range(text), "{:?}", text);
    }
}

#[test]
fn clock_range_holds_every_text_that_does_not_begin_with_a_moment() {
    for text in [
        "9999",
        "9999-12-31T23:59:5",
        "9999-12-31 23:59:59Z/1",
        "9999/12/31T23:59:59Z/1",
        "9999-12-31T23.59.59Z/1",
        "99x9-12-31T23:59:59Z/1",
        "9999-12-31T23:59:5x/1",
        "9999-12-3/T23:59:59Z/1",
        "\u{ff19}999-12-31T23:59:59Z/1",
        "9999-12-31T23:59:5\u{e9}Z/1",
    ] {
        assert!(is_within_clock_range(text), "{:?}", text);
        assert_eq!(Timestamp::parse(text), None, "{:?}", text);
    }
}

#[test]
fn timestamp_of_the_year_2106_is_read_up_to_the_last_moment() {
    assert_eq!(
        Timestamp::parse("2106-01-01T00:00:00Z/1"),
        Timestamp::new((4291747200u64 << 32) + 1, 1)
    );
    assert_eq!(
        Timestamp::parse("2106-01-15T00:00:00Z/1"),
        Timestamp::new((4292956800u64 << 32) + 1, 1)
    );
    assert_eq!(
        Timestamp::parse("2106-02-07T06:27:60Z/1"),
        Timestamp::new((4294967279u64 << 32) + 1, 1)
    );
    assert_eq!(
        Timestamp::parse("2106-02-07T06:28:15Z/1"),
        Timestamp::new((4294967295u64 << 32) + 1, 1)
    );
    assert_eq!(
        Timestamp::parse("2106-02-07T06:28:15.999999999Z/ff"),
        Timestamp::new(u64::MAX - 3, 0xff)
    );
}

#[test]
fn timestamp_after_the_last_moment_gives_none() {
    for text in [
        "2106-02-07T06:28:16",
        "2106-02-07T06:28:16Z/1",
        "2106-02-07T06:28:16.000000000Z/1",
        "2106-02-07T06:28:60Z/1",
        "2106-02-07T06:29:00Z/1",
        "2106-02-08T00:00:00Z/1",
        "2106-03-01T00:00:00Z/1",
        "2106-13-01T00:00:00Z/1",
        "2107-01-01T00:00:00Z/1",
        "9999-12-31T23:59:59Z/1",
        "9999-12-31T23:59:59+00:00/1",
    ] {
        assert_eq!(Timestamp::parse(text), None, "{:?}", text);
    }
}

#[test]
fn timestamp_written_in_2106_is_read_back() {
    for (time, id) in [
        ((4291747200u64 << 32) + 1, 1u128),
        ((4292956800u64 << 32) + 1, 0xabc),
        ((4294967295u64 << 32) + 1, 7),
        (u64::MAX - 3, u128::MAX),
    ] {
        let ts = Timestamp::new(time, id).unwrap();
        assert_eq!(Timestamp::parse(&ts.to_text()), Some(ts), "{}", ts.to_text());
    }
    let last = Timestamp::new(u64::MAX, 1).unwrap();
    assert_eq!(last.to_text(), "2106-02-07T06:28:15.999999999Z/1");
    assert_eq!(Timestamp::parse(&last.to_text()), Timestamp::new(u64::MAX - 3, 1));
}

#[test]
fn timestamp_survives_its_text_where_the_time_is_one_that_a_text_gives() {
    for (time, id) in [(1u64, 1u128), ((1u64 << 40) + 1, 0xabc), (18432913866699571196, u128::MAX)] {
        let ts = Timestamp::new(time, id).unwrap();
        assert_eq!(Timestamp::parse(&ts.to_text()), Some(ts));
    }
}

#[test]
fn timestamp_of_time_zero_does_not_survive_its_text() {
    let ts = Timestamp::new(0, 1).unwrap();
    assert_eq!(Timestamp::parse(&ts.to_text()), Timestamp::new(1, 1));
}
