use chrono::{FixedOffset, NaiveDate, NaiveDateTime, NaiveTime};
use datetimeparse::calendar::ConversionError;
use datetimeparse::{
    LocalDate, LocalDateTime, LocalTime, PreciseLocalDateTime, PreciseLocalTime,
    PreciseShiftedDateTime, ShiftedDateTime,
};

fn naive(y: i32, mo: u32, d: u32, h: u32, mi: u32, s: u32) -> NaiveDateTime {
    NaiveDateTime::new(
        NaiveDate::from_ymd_opt(y, mo, d).unwrap(),
        NaiveTime::from_hms_opt(h, mi, s).unwrap(),
    )
}

#[test]
fn dates_that_exist() {
    let d = LocalDate::try_from((2024, 2, 29)).unwrap();
    assert_eq!(d.to_naive_date(), NaiveDate::from_ymd_opt(2024, 2, 29));
    let d = LocalDate::try_from((2000, 2, 29)).unwrap();
    assert_eq!(d.to_naive_date(), NaiveDate::from_ymd_opt(2000, 2, 29));
    let d = LocalDate::try_from((2023, 9, 17)).unwrap();
    assert_eq!(d.to_naive_date(), NaiveDate::from_ymd_opt(2023, 9, 17));
}

#[test]
fn dates_that_do_not_exist() {
    assert_eq!(LocalDate::try_from((2023, 2, 29)).unwrap().to_naive_date(), None);
    assert_eq!(LocalDate::try_from((1900, 2, 29)).unwrap().to_naive_date(), None);
    assert_eq!(LocalDate::try_from((2023, 4, 31)).unwrap().to_naive_date(), None);
}

#[test]
fn clock_times() {
    let t = LocalTime::try_from((23, 59, 59)).unwrap();
    assert_eq!(t.to_naive_time(), NaiveTime::from_hms_opt(23, 59, 59));
    assert_eq!(LocalTime::try_from((24, 0, 0)).unwrap().to_naive_time(), None);
    assert_eq!(LocalTime::try_from((23, 60, 0)).unwrap().to_naive_time(), None);
    assert_eq!(LocalTime::try_from((23, 59, 60)).unwrap().to_naive_time(), None);
    let t = PreciseLocalTime::try_from((9, 8, 58, 763_072_000)).unwrap();
    assert_eq!(t.to_naive_time(), NaiveTime::from_hms_nano_opt(9, 8, 58, 763_072_000));
}

#[test]
fn local_date_times() {
    let v = LocalDateTime::try_from((2023, 9, 17, 9, 8, 58)).unwrap();
    assert_eq!(v.to_naive_date_time(), Some(naive(2023, 9, 17, 9, 8, 58)));
    let v = PreciseLocalDateTime::try_from((2023, 2, 30, 9, 8, 58, 0)).unwrap();
    assert_eq!(v.to_naive_date_time(), None);
}

#[test]
fn offsets_give_utc_and_offset() {
    let v = ShiftedDateTime::try_from((2023, 9, 17, 9, 8, 58, (1, 0))).unwrap();
    let (utc, offset) = v.to_utc_and_offset().unwrap();
    assert_eq!(utc, naive(2023, 9, 17, 8, 8, 58));
    assert_eq!(offset, FixedOffset::east_opt(3600).unwrap());
    let v = ShiftedDateTime::try_from((2023, 9, 17, 0, 30, 0, (-2, 0))).unwrap();
    let (utc, _) = v.to_utc_and_offset().unwrap();
    assert_eq!(utc, naive(2023, 9, 17, 2, 30, 0));
    let v = ShiftedDateTime::try_from((2023, 9, 17, 9, 8, 58, (24, 0))).unwrap();
    assert_eq!(v.to_utc_and_offset(), Err(ConversionError::OffsetOutOfRange));
    let v = ShiftedDateTime::try_from((2023, 2, 30, 9, 8, 58, (1, 0))).unwrap();
    assert_eq!(v.to_utc_and_offset(), Err(ConversionError::InvalidDateTime));
}

#[test]
fn utc_only_for_zero_offsets() {
    let v = ShiftedDateTime::try_from((2023, 9, 17, 9, 8, 58, (12, 2))).unwrap();
    assert_eq!(v.to_naive_utc(), Err(ConversionError::NotUtc));
    let v = ShiftedDateTime::try_from((2023, 9, 17, 9, 8, 58, (0, 0))).unwrap();
    assert_eq!(v.to_naive_utc(), Ok(naive(2023, 9, 17, 9, 8, 58)));
    let v = datetimeparse::parse_rfc3339_datetime("2023-09-17T09:08:58.5Z").unwrap();
    let utc = v.to_naive_utc().unwrap();
    assert_eq!(utc.and_utc().timestamp_subsec_nanos(), 500_000_000);
    let v = PreciseShiftedDateTime::try_from((2023, 9, 17, 24, 0, 0, 0, (0, 0))).unwrap();
    assert_eq!(v.to_naive_utc(), Err(ConversionError::InvalidDateTime));
}

#[test]
fn valid_values_with_offsets_convert() {
    let v = PreciseShiftedDateTime::try_from((9999, 12, 31, 23, 59, 59, 999_999_999, (-23, 59)))
        .unwrap();
    let (utc, offset) = v.to_utc_and_offset().unwrap();
    assert_eq!(offset, FixedOffset::east_opt(-(23 * 3600 + 59 * 60)).unwrap());
    assert_eq!(utc.and_utc().timestamp_subsec_nanos(), 999_999_999);
    let v = PreciseShiftedDateTime::try_from((0, 1, 1, 0, 0, 0, 0, (23, 59))).unwrap();
    assert!(v.to_utc_and_offset().is_ok());
}
