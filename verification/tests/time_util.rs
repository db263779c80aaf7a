use apca::time_util::parse_system_time;
use apca::time_util::parse_system_time_from_str;
use apca::time_util::system_time_from_secs;
use apca::time_util::time_of;
use apca::time_util::Timestamp;

#[test]
fn deserialize_system_time() {
    let times = ["2018-04-01T12:00:00Z", "2018-04-01T12:00:00.000Z"];

    for time in &times {
        let time = parse_system_time(time).unwrap();
        assert_eq!(time, Timestamp { secs: 1522584000, nanos: 0 });
    }
}

#[test]
fn deserialize_system_time_from_str() {
    let times = [
        "2018-04-01T12:00:00Z",
        "2018-04-01T12:00:00.000Z",
        "2018-04-01T08:00:00.000-04:00",
    ];

    for time in &times {
        let time = parse_system_time_from_str(time).unwrap();
        assert_eq!(time, Timestamp { secs: 1522584000, nanos: 0 });
    }
}

#[test]
fn deserialize_system_time_from_secs() {
    let time = system_time_from_secs(1544129220);
    assert_eq!(time, Timestamp { secs: 1544129220, nanos: 0 });
}

/// Fractional seconds are kept, and a time stamp that parses in no
/// format is refused.
#[test]
fn parse_fractions_and_garbage() {
    assert_eq!(
        parse_system_time("2018-04-01T12:00:00.250Z").unwrap(),
        Timestamp { secs: 1522584000, nanos: 250_000_000 }
    );
    assert_eq!(parse_system_time("yesterday"), None);
    assert_eq!(parse_system_time_from_str("2018-04-01 12:00"), None);
    assert_eq!(
        parse_system_time_from_str("1969-12-31T23:59:59.5Z").unwrap(),
        Timestamp { secs: -1, nanos: 500_000_000 }
    );
}

/// Nanoseconds of a whole second carry into the seconds.
#[test]
fn time_of_carries() {
    assert_eq!(time_of(10, 1_500_000_000), Timestamp { secs: 11, nanos: 500_000_000 });
    assert_eq!(time_of(-5, 3), Timestamp { secs: -5, nanos: 3 });
}
