use demo2replay::timestamp::{
    date_field, decode_date, decode_time, time_field, timestamp_fields, LocalStamp,
    UnsupportedYear,
};

#[test]
fn date_field_packs_day_month_year() {
    assert_eq!(date_field(2024, 3, 15), Ok((15 << 9) | (2 << 5) | 14));
    assert_eq!(date_field(2024, 3, 15), Ok(7758));
    assert_eq!(date_field(2009, 1, 1), Ok(0));
    assert_eq!(date_field(2010, 12, 31), Ok(512 + 11 * 32 + 30));
}

#[test]
fn date_field_refuses_years_before_epoch() {
    assert_eq!(date_field(2008, 6, 1), Err(UnsupportedYear { year: 2008 }));
    assert_eq!(date_field(-5, 6, 1), Err(UnsupportedYear { year: -5 }));
}

#[test]
fn date_round_trip_on_examples() {
    for &(y, m, d) in &[(2009, 1, 1), (2024, 3, 15), (2136, 12, 31), (2099, 2, 28)] {
        let f = date_field(y, m, d).unwrap();
        assert_eq!(decode_date(f), (y, m, d));
    }
}

#[test]
fn time_field_packs_minute_over_hour() {
    assert_eq!(time_field(13, 45), 45 * 32 + 13);
    assert_eq!(time_field(0, 0), 0);
    assert_eq!(time_field(23, 59), (59 << 5) | 23);
}

#[test]
fn time_round_trip_on_all_values() {
    for h in 0..24u32 {
        for m in 0..60u32 {
            assert_eq!(decode_time(time_field(h, m)), (h, m));
        }
    }
}

#[test]
fn timestamp_fields_of_a_reading() {
    let stamp = LocalStamp { year: 2024, month: 3, day: 15, hour: 9, minute: 7 };
    let f = timestamp_fields(stamp).unwrap();
    assert_eq!(f.date, 7758);
    assert_eq!(f.time, 7 * 32 + 9);
    let early = LocalStamp { year: 1999, month: 3, day: 15, hour: 9, minute: 7 };
    assert_eq!(timestamp_fields(early), Err(UnsupportedYear { year: 1999 }));
}
