use datetimeparse::components::{Error, Week};
use datetimeparse::duration::{DayDuration, SecondDuration, YearDuration};
use datetimeparse::{
    Day, Hour, Minute, Month, Nanosecond, Second, StandardYear, Timeshift, WithNegative, Year,
};

#[test]
fn test_year_4_digits() {
    assert!(StandardYear::new(0).is_ok());
    assert!(StandardYear::new(1).is_ok());
    assert!(StandardYear::new(9999).is_ok());
    assert!(StandardYear::new(10000).is_err());
    assert_eq!(StandardYear::new(1).unwrap().to_string(), "0001");
}

#[test]
fn test_negative_years() {
    assert!(StandardYear::new(-1).is_err());
    assert!(Year::<WithNegative<6>>::new(-1).is_ok());
    assert_eq!(Year::<WithNegative<6>>::new(-1).unwrap().to_string(), "-000001");
}

#[test]
fn test_big_years() {
    assert!(Year::<WithNegative<6>>::new(100000).is_ok());
    assert_eq!(Year::<WithNegative<6>>::new(1).unwrap().to_string(), "+000001");
}

#[test]
fn year_boundaries() {
    assert_eq!(StandardYear::new(9999).unwrap().value(), 9999);
    assert_eq!(StandardYear::new(10000), Err(Error::RangeError));
    assert_eq!(StandardYear::new(-1), Err(Error::RangeError));
    assert_eq!(StandardYear::new(-5000), Err(Error::RangeError));
    assert_eq!(StandardYear::new(i32::MIN), Err(Error::RangeError));
    assert!(Year::<WithNegative<6>>::new(999_999).is_ok());
    assert!(Year::<WithNegative<6>>::new(-999_999).is_ok());
    assert!(Year::<WithNegative<6>>::new(1_000_000).is_err());
    assert_eq!(Year::<WithNegative<6>>::new(0).unwrap().to_string(), "+000000");
    assert_eq!(StandardYear::new(2023).unwrap().to_string(), "2023");
}

#[test]
fn month_boundaries() {
    assert_eq!(Month::new(0), Err(Error::RangeError));
    assert_eq!(Month::new(13), Err(Error::RangeError));
    assert_eq!(Month::new(1).unwrap().value(), 1);
    assert_eq!(Month::new(12).unwrap().value(), 12);
    assert_eq!(Month::new(9).unwrap().to_string(), "09");
}

#[test]
fn day_boundaries() {
    assert!(Day::new(0).is_err());
    assert!(Day::new(32).is_err());
    assert_eq!(Day::new(31).unwrap().value(), 31);
    assert_eq!(Day::new(1).unwrap().to_string(), "01");
}

#[test]
fn hour_boundaries() {
    assert_eq!(Hour::new(24).unwrap().value(), 24);
    assert_eq!(Hour::new(25), Err(Error::RangeError));
    assert_eq!(Hour::new(0).unwrap().to_string(), "00");
}

#[test]
fn minute_boundaries() {
    assert_eq!(Minute::new(60).unwrap().value(), 60);
    assert_eq!(Minute::new(61), Err(Error::RangeError));
}

#[test]
fn second_boundaries() {
    assert_eq!(Second::new(61).unwrap().value(), 61);
    assert_eq!(Second::new(62), Err(Error::RangeError));
    assert_eq!(Second::new(60).unwrap().to_string(), "60");
}

#[test]
fn nanosecond_boundaries_and_text() {
    assert_eq!(Nanosecond::new(999_999_999).unwrap().value(), 999_999_999);
    assert_eq!(Nanosecond::new(1_000_000_000), Err(Error::RangeError));
    assert_eq!(Nanosecond::new(123_400_000).unwrap().to_string(), "1234");
    assert_eq!(Nanosecond::new(0).unwrap().to_string(), "0");
    assert_eq!(Nanosecond::new(1).unwrap().to_string(), "000000001");
    assert_eq!(Nanosecond::new(763_072_000).unwrap().to_string(), "763072");
}

#[test]
fn week_range_and_text() {
    assert!(Week::new(54).is_err());
    assert_eq!(Week::new(53).unwrap().value(), 53);
    assert_eq!(Week::new(5).unwrap().to_string(), "W05");
}

#[test]
fn timeshift_text_and_seconds() {
    let h = Hour::new(12).unwrap();
    let m = Minute::new(2).unwrap();
    assert_eq!(Timeshift::utc().to_string(), "Z");
    assert_eq!(Timeshift::positive_offset(h, m).to_string(), "+12:02");
    assert_eq!(Timeshift::negative_offset(h, m).to_string(), "-12:02");
    assert_eq!(Timeshift::offset(true, h, m), Timeshift::positive_offset(h, m));
    assert_eq!(Timeshift::positive_offset(h, m).seconds_from_east(), 43_320);
    assert_eq!(Timeshift::negative_offset(h, m).seconds_from_east(), -43_320);
    assert_eq!(Timeshift::utc().seconds_from_east(), 0);
}

#[test]
fn timeshift_from_hours_minutes() {
    let t = Timeshift::from_hours_minutes(-12, 2).unwrap();
    assert_eq!(t.to_string(), "-12:02");
    assert_eq!(Timeshift::from_hours_minutes(5, 30).unwrap().to_string(), "+05:30");
    assert_eq!(Timeshift::from_hours_minutes(0, -1), Err(Error::RangeError));
    assert_eq!(Timeshift::from_hours_minutes(25, 0), Err(Error::RangeError));
    assert_eq!(Timeshift::from_hours_minutes(i32::MIN, 0), Err(Error::RangeError));
}

#[test]
fn durations_render_with_unit() {
    assert_eq!(YearDuration::new(5).to_string(), "5Y");
    assert_eq!(DayDuration::new(0).to_string(), "0D");
    assert_eq!(SecondDuration::new(120).to_string(), "120S");
    assert_eq!(YearDuration::new(u64::MAX).value(), u64::MAX);
}

#[test]
fn durations_parse_their_tokens() {
    assert_eq!(YearDuration::from_str("12Y").unwrap().value(), 12);
    assert_eq!(DayDuration::from_str("+3D").unwrap().value(), 3);
    assert_eq!(SecondDuration::from_str("90S").unwrap().to_string(), "90S");
    assert_eq!(YearDuration::from_str("12"), Err(Error::ParseError));
    assert_eq!(YearDuration::from_str(""), Err(Error::ParseError));
    assert_eq!(YearDuration::from_str("Y"), Err(Error::ParseIntError));
    assert_eq!(YearDuration::from_str("1xY"), Err(Error::ParseIntError));
    assert_eq!(YearDuration::from_str("18446744073709551616Y"), Err(Error::ParseIntError));
    let parsed: YearDuration = "7Y".parse().unwrap();
    assert_eq!(parsed, YearDuration::new(7));
}

#[test]
fn timeshift_from_tuple() {
    let t = Timeshift::try_from((-12, 2)).unwrap();
    assert_eq!(
        t,
        Timeshift::negative_offset(Hour::new(12).unwrap(), Minute::new(2).unwrap())
    );
    assert!(Timeshift::try_from((1, 61)).is_err());
}
