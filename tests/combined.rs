use datetimeparse::components::Error;
use datetimeparse::{
    LocalDate, LocalDateTime, LocalTime, PreciseLocalDateTime, PreciseLocalTime,
    PreciseShiftedDateTime, ShiftedDateTime,
};

#[test]
fn test_try_from_tuple() {
    let cd: LocalDate = LocalDate::try_from((2022, 1, 2)).unwrap();
    assert_eq!(cd.to_string(), "2022-01-02")
}

#[test]
fn test_precise_time() {
    let pt: PreciseLocalTime = PreciseLocalTime::try_from((20, 12, 0, 0)).unwrap();
    assert_eq!(pt.to_string(), "20:12:00.0");

    let pt: PreciseLocalTime = PreciseLocalTime::try_from((20, 12, 0, 123_400_000)).unwrap();
    assert_eq!(pt.to_string(), "20:12:00.1234");
}

#[test]
fn test_format_full_datetime() {
    let dt = PreciseShiftedDateTime::try_from((2023, 4, 9, 21, 22, 2, 123_400_000, (12, 2)))
        .unwrap();
    assert_eq!(dt.to_string(), "2023-04-09T21:22:02.1234+12:02");
    let dt = PreciseShiftedDateTime::try_from((2023, 4, 9, 21, 22, 2, 123_400_000, (-12, 2)))
        .unwrap();
    assert_eq!(dt.to_string(), "2023-04-09T21:22:02.1234-12:02")
}

#[test]
fn tuple_conversions_check_ranges() {
    assert_eq!(LocalDate::try_from((2022, 13, 2)), Err(Error::RangeError));
    assert_eq!(LocalDate::try_from((2022, 1, -2)), Err(Error::RangeError));
    assert_eq!(LocalDate::try_from((-1, 1, 2)), Err(Error::RangeError));
    assert_eq!(LocalTime::try_from((25, 0, 0)), Err(Error::RangeError));
    assert_eq!(PreciseLocalTime::try_from((1, 2, 3, 1_000_000_000)), Err(Error::RangeError));
    assert!(ShiftedDateTime::try_from((2023, 4, 9, 21, 22, 2, (0, 61))).is_err());
}

#[test]
fn composite_texts() {
    let t = LocalTime::try_from((9, 8, 58)).unwrap();
    assert_eq!(t.to_string(), "09:08:58");
    let ldt = LocalDateTime::try_from((2023, 9, 17, 9, 8, 58)).unwrap();
    assert_eq!(ldt.to_string(), "2023-09-17T09:08:58");
    let pldt = PreciseLocalDateTime::try_from((2023, 9, 17, 9, 8, 58, 763_072_000)).unwrap();
    assert_eq!(pldt.to_string(), "2023-09-17T09:08:58.763072");
    let sdt = ShiftedDateTime::try_from((2023, 9, 17, 9, 8, 58, (0, 0))).unwrap();
    assert_eq!(sdt.to_string(), "2023-09-17T09:08:58+00:00");
}

#[test]
fn composite_new_keeps_fields() {
    let d = LocalDate::try_from((2022, 1, 2)).unwrap();
    let again = LocalDate::new(d.year, d.month, d.day);
    assert_eq!(again, d);
    let t = LocalTime::new(
        datetimeparse::Hour::new(1).unwrap(),
        datetimeparse::Minute::new(2).unwrap(),
        datetimeparse::Second::new(3).unwrap(),
    );
    assert_eq!(t.to_string(), "01:02:03");
}
