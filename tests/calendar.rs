use wwvb_decoder::rtc;
use wwvb_decoder::time::{doy_to_month_day, is_leap_year, Date, Timestamp};
use wwvb_decoder::wwvb;

#[test]
fn gregorian_leap_years() {
    assert!(is_leap_year(2024));
    assert!(is_leap_year(2000));
    assert!(is_leap_year(1972));
    assert!(!is_leap_year(1900));
    assert!(!is_leap_year(2100));
    assert!(!is_leap_year(2023));
    assert!(!is_leap_year(1970));
}

#[test]
fn to_unix_exact_values() {
    assert_eq!(Timestamp::new(1970, 1, 0, 0, 0).to_unix(), 0);
    assert_eq!(Timestamp::new(2024, 1, 0, 0, 0).to_unix(), 1704067200);
    assert_eq!(Timestamp::new(2024, 60, 0, 0, 0).to_unix(), 1709164800);
    assert_eq!(Timestamp::new(2024, 100, 14, 30, 5).to_unix(), 1712673005);
    assert_eq!(Timestamp::new(2106, 38, 6, 28, 15).to_unix(), u32::MAX);
}

#[test]
fn from_unix_exact_values() {
    assert_eq!(Timestamp::from_unix(0), Timestamp::new(1970, 1, 0, 0, 0));
    assert_eq!(Timestamp::from_unix(1709164800), Timestamp::new(2024, 60, 0, 0, 0));
    assert_eq!(Timestamp::from_unix(1735603200), Timestamp::new(2024, 366, 0, 0, 0));
    assert_eq!(Timestamp::from_unix(1735689599), Timestamp::new(2024, 366, 23, 59, 59));
    assert_eq!(Timestamp::from_unix(1735689600), Timestamp::new(2025, 1, 0, 0, 0));
    assert_eq!(Timestamp::from_unix(u32::MAX), Timestamp::new(2106, 38, 6, 28, 15));
}

#[test]
fn unix_round_trip() {
    let samples = [
        Timestamp::new(1970, 1, 0, 0, 0),
        Timestamp::new(1971, 365, 23, 59, 59),
        Timestamp::new(1972, 366, 12, 0, 1),
        Timestamp::new(2000, 60, 1, 2, 3),
        Timestamp::new(2023, 365, 23, 59, 59),
        Timestamp::new(2024, 366, 0, 0, 0),
        Timestamp::new(2024, 359, 8, 15, 30),
        Timestamp::new(2100, 59, 10, 10, 10),
        Timestamp::new(2106, 38, 6, 28, 15),
    ];
    for t in samples {
        assert_eq!(Timestamp::from_unix(t.to_unix()), t);
    }
    for u in [0u32, 1, 86399, 86400, 31535999, 63071999, 1000000000, 4000000000] {
        assert_eq!(Timestamp::from_unix(u).to_unix(), u);
    }
}

#[test]
fn month_walk() {
    assert_eq!(doy_to_month_day(1, false), Some((1, 1)));
    assert_eq!(doy_to_month_day(31, false), Some((1, 31)));
    assert_eq!(doy_to_month_day(32, false), Some((2, 1)));
    assert_eq!(doy_to_month_day(59, false), Some((2, 28)));
    assert_eq!(doy_to_month_day(60, false), Some((3, 1)));
    assert_eq!(doy_to_month_day(60, true), Some((2, 29)));
    assert_eq!(doy_to_month_day(61, true), Some((3, 1)));
    assert_eq!(doy_to_month_day(365, false), Some((12, 31)));
    assert_eq!(doy_to_month_day(366, true), Some((12, 31)));
    assert_eq!(doy_to_month_day(366, false), None);
    assert_eq!(doy_to_month_day(367, true), None);
    assert_eq!(doy_to_month_day(0, true), None);
}

#[test]
fn month_walk_stays_in_range() {
    for leap in [false, true] {
        let lens: [u16; 12] =
            [31, if leap { 29 } else { 28 }, 31, 30, 31, 30, 31, 31, 30, 31, 30, 31];
        let days = if leap { 366 } else { 365 };
        for doy in 1..=days {
            let (m, d) = doy_to_month_day(doy, leap).unwrap();
            assert!((1..=12).contains(&m));
            assert!(d >= 1 && d <= lens[(m - 1) as usize]);
        }
    }
}

#[test]
fn broadcast_date_in_century() {
    assert_eq!(wwvb::to_date(24, 60, true), Some((2024, 2, 29)));
    assert_eq!(wwvb::to_date(23, 60, false), Some((2023, 3, 1)));
    assert_eq!(wwvb::to_date(24, 366, true), Some((2024, 12, 31)));
    assert_eq!(wwvb::to_date(24, 100, true), Some((2024, 4, 9)));
    assert_eq!(wwvb::to_date(0, 1, true), Some((2000, 1, 1)));
    assert_eq!(wwvb::to_date(23, 366, false), None);
    assert_eq!(wwvb::to_date(23, 0, false), None);
}

#[test]
fn timestamp_date() {
    let d = Timestamp::new(2024, 60, 0, 0, 0).to_date();
    assert_eq!(d, Some(Date { year: 2024, month: 2, day: 29 }));
    let d = Timestamp::new(1900, 60, 0, 0, 0).to_date();
    assert_eq!(d, Some(Date { year: 1900, month: 3, day: 1 }));
    assert_eq!(Timestamp::new(2023, 366, 0, 0, 0).to_date(), None);
    assert_eq!(Timestamp::from_unix(1735603200).to_date(), Some(Date { year: 2024, month: 12, day: 31 }));
}

#[test]
fn rtc_conversions() {
    assert_eq!(rtc::to_timestamp(2024, 100, 14, 30), 1712673000);
    assert_eq!(rtc::to_timestamp(1970, 1, 0, 1), 60);
    assert_eq!(rtc::from_timestamp(1712673005), (2024, 100, 14, 30, 5));
    assert_eq!(rtc::from_timestamp(0), (1970, 1, 0, 0, 0));
    assert_eq!(rtc::to_date(2024, 366), Some((2024, 12, 31)));
    assert_eq!(rtc::to_date(2000, 60), Some((2000, 2, 29)));
    assert_eq!(rtc::to_date(2100, 60), Some((2100, 3, 1)));
    assert_eq!(rtc::to_date(2023, 366), None);
}
