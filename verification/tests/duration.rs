use fetcher::duration_codec::from_string;
use fetcher::duration_codec::to_string;

#[test]
fn to_string_formats_minutes_and_seconds() {
    assert_eq!(to_string(271), "4:31");
    assert_eq!(to_string(0), "0:0");
    assert_eq!(to_string(60), "1:0");
    assert_eq!(to_string(59), "0:59");
    assert_eq!(to_string(3599), "59:59");
    assert_eq!(to_string(739245), "12320:45");
}

#[test]
fn from_string_reads_minutes_and_seconds() {
    assert_eq!(from_string("4:31"), 271);
    assert_eq!(from_string("0:0"), 0);
    assert_eq!(from_string("1:0"), 60);
    assert_eq!(from_string("12320:45"), 739245);
    assert_eq!(from_string("04:05"), 245);
}

#[test]
fn round_trip_single_digit_components() {
    for s in ["0:0", "4:5", "9:9", "0:59", "7:0"] {
        assert_eq!(to_string(from_string(s)), s);
    }
}

#[test]
fn round_trip_multi_digit_components() {
    for s in ["4:31", "59:59", "123:5", "10000:59", "18:40"] {
        assert_eq!(to_string(from_string(s)), s);
    }
}
