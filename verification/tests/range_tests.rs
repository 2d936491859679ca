use handler_lib::models::errors::StoreError;
use handler_lib::models::interfaces::WeekRequest;
use handler_lib::models::range::{
    calendar_date, resolve_horizon, resolve_span, DateRange, SECONDS_PER_WEEK,
};

const ANCHOR: i64 = 4_102_444_800;

#[test]
fn a_week_has_seven_days_of_seconds() {
    assert_eq!(SECONDS_PER_WEEK, 7 * 24 * 60 * 60);
}

#[test]
fn calendar_date_drops_the_time_of_day() {
    assert_eq!(calendar_date(ANCHOR), Ok("2100-01-01".to_string()));
    assert_eq!(calendar_date(ANCHOR + 3_661), Ok("2100-01-01".to_string()));
    assert_eq!(calendar_date(ANCHOR + 86_399), Ok("2100-01-01".to_string()));
    assert_eq!(calendar_date(ANCHOR + 86_400), Ok("2100-01-02".to_string()));
    assert_eq!(calendar_date(ANCHOR - 1), Ok("2099-12-31".to_string()));
    assert_eq!(calendar_date(0), Ok("1970-01-01".to_string()));
    assert_eq!(calendar_date(-1), Ok("1969-12-31".to_string()));
}

#[test]
fn calendar_date_ends_with_the_four_digit_years() {
    assert_eq!(calendar_date(253_402_300_799), Ok("9999-12-31".to_string()));
    assert_eq!(calendar_date(253_402_300_800), Err(StoreError::Validation));
    assert_eq!(calendar_date(-62_167_219_200), Ok("0000-01-01".to_string()));
    assert_eq!(calendar_date(-62_167_219_201), Err(StoreError::Validation));
    assert_eq!(calendar_date(i64::MAX), Err(StoreError::Validation));
    assert_eq!(calendar_date(i64::MIN), Err(StoreError::Validation));
}

#[test]
fn horizon_runs_from_today_to_the_day_weeks_later() {
    let range = resolve_horizon(ANCHOR + 3_661, &WeekRequest { weeks: 2 }).unwrap();
    assert_eq!(
        range,
        DateRange {
            from: "2100-01-01".to_string(),
            to: "2100-01-15".to_string(),
            upper_inclusive: false,
        }
    );
    let long = resolve_horizon(ANCHOR, &WeekRequest { weeks: 52 }).unwrap();
    assert_eq!(long.to, "2100-12-31");
    assert!(!long.upper_inclusive);
}

#[test]
fn horizon_of_no_weeks_is_empty_but_valid() {
    let range = resolve_horizon(ANCHOR, &WeekRequest { weeks: 0 }).unwrap();
    assert_eq!(range.from, "2100-01-01");
    assert_eq!(range.to, "2100-01-01");
    assert!(!range.upper_inclusive);
}

#[test]
fn horizon_refuses_what_it_cannot_resolve() {
    assert_eq!(resolve_horizon(ANCHOR, &WeekRequest { weeks: -1 }), Err(StoreError::Validation));
    assert_eq!(
        resolve_horizon(ANCHOR, &WeekRequest { weeks: i64::MIN }),
        Err(StoreError::Validation)
    );
    assert_eq!(resolve_horizon(i64::MAX, &WeekRequest { weeks: 1 }), Err(StoreError::Validation));
    assert_eq!(
        resolve_horizon(ANCHOR, &WeekRequest { weeks: i64::MAX }),
        Err(StoreError::Validation)
    );
    assert_eq!(
        resolve_horizon(253_402_300_799, &WeekRequest { weeks: 1 }),
        Err(StoreError::Validation)
    );
    assert_eq!(
        resolve_horizon(253_402_300_800, &WeekRequest { weeks: 0 }),
        Err(StoreError::Validation)
    );
}

#[test]
fn span_covers_both_ends() {
    let range = resolve_span(ANCHOR + 3_661, ANCHOR + 86_400 + 3_661).unwrap();
    assert_eq!(
        range,
        DateRange {
            from: "2100-01-01".to_string(),
            to: "2100-01-02".to_string(),
            upper_inclusive: true,
        }
    );
    assert_eq!(resolve_span(ANCHOR, i64::MAX), Err(StoreError::Validation));
    assert_eq!(resolve_span(i64::MIN, ANCHOR), Err(StoreError::Validation));
}

#[test]
fn ranges_are_built_from_calendar_dates_only() {
    let inclusive = DateRange::inclusive("2100-01-01".to_string(), "2100-01-31".to_string());
    assert_eq!(
        inclusive,
        Ok(DateRange {
            from: "2100-01-01".to_string(),
            to: "2100-01-31".to_string(),
            upper_inclusive: true,
        })
    );
    let horizon = DateRange::horizon("2100-01-01".to_string(), "2100-01-31".to_string());
    assert_eq!(horizon.unwrap().upper_inclusive, false);
    assert_eq!(
        DateRange::inclusive("01/01/2100".to_string(), "2100-01-31".to_string()),
        Err(StoreError::Validation)
    );
    assert_eq!(
        DateRange::inclusive("2100-01-01".to_string(), "2100-02-30".to_string()),
        Err(StoreError::Validation)
    );
    assert_eq!(
        DateRange::horizon("today".to_string(), "2100-01-31".to_string()),
        Err(StoreError::Validation)
    );
    assert_eq!(
        DateRange::horizon("2100-01-01".to_string(), "".to_string()),
        Err(StoreError::Validation)
    );
}

#[test]
fn a_range_written_by_hand_is_checked_too() {
    let good = DateRange {
        from: "2100-01-01".to_string(),
        to: "2100-01-02".to_string(),
        upper_inclusive: true,
    };
    assert!(good.is_valid());
    assert_eq!(good.clone(), good);
    let bad = DateRange {
        from: "2100-01-01".to_string(),
        to: "tomorrow".to_string(),
        upper_inclusive: true,
    };
    assert!(!bad.is_valid());
}

#[test]
fn a_found_date_is_accepted_only_as_a_calendar_date() {
    let checked_date = handler_lib::models::range::checked_date;
    assert_eq!(checked_date(Some("2100-01-01".to_string())), Ok("2100-01-01".to_string()));
    assert_eq!(checked_date(Some("+10000-01-01".to_string())), Err(StoreError::Validation));
    assert_eq!(checked_date(Some("2100-02-29".to_string())), Err(StoreError::Validation));
    assert_eq!(checked_date(Some(String::new())), Err(StoreError::Validation));
    assert_eq!(checked_date(None), Err(StoreError::Validation));
}
