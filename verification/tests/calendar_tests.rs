use handler_lib::models::calendar::{date_key_of, is_valid_date};

#[test]
fn key_of_a_date_is_year_month_day() {
    assert_eq!(date_key_of("2100-01-01"), Some(21_000_101));
    assert_eq!(date_key_of("0000-01-01"), Some(101));
    assert_eq!(date_key_of("9999-12-31"), Some(99_991_231));
    assert_eq!(date_key_of("1999-07-04"), Some(19_990_704));
}

#[test]
fn keys_order_dates_as_the_calendar_does() {
    let dates = ["1999-12-31", "2000-01-01", "2000-01-02", "2000-02-01", "2001-01-01"];
    for pair in dates.windows(2) {
        assert!(date_key_of(pair[0]).unwrap() < date_key_of(pair[1]).unwrap());
        assert!(pair[0] < pair[1]);
    }
}

#[test]
fn texts_of_another_shape_are_no_dates() {
    for text in [
        "",
        "2100-1-1",
        "21000101",
        "2100/01/01",
        "2100-01-01 ",
        " 2100-01-01",
        "2100-01-0a",
        "210O-01-01",
        "2100-01-01T00:00:00Z",
        "+10000-01-01",
        "-0001-12-31",
        "٢١٠٠-٠١-٠١",
        "2100–01–01",
    ] {
        assert_eq!(date_key_of(text), None, "{:?}", text);
        assert!(!is_valid_date(text), "{:?}", text);
    }
}

#[test]
fn months_and_days_must_exist() {
    assert!(is_valid_date("2100-12-31"));
    assert!(!is_valid_date("2100-00-10"));
    assert!(!is_valid_date("2100-13-01"));
    assert!(!is_valid_date("2100-01-00"));
    assert!(!is_valid_date("2100-01-32"));
    assert!(is_valid_date("2100-04-30"));
    assert!(!is_valid_date("2100-04-31"));
    assert!(!is_valid_date("2100-06-31"));
    assert!(!is_valid_date("2100-09-31"));
    assert!(!is_valid_date("2100-11-31"));
    assert!(is_valid_date("2100-07-31"));
    assert!(is_valid_date("2100-08-31"));
}

#[test]
fn february_follows_the_leap_years() {
    assert!(is_valid_date("2024-02-29"));
    assert!(!is_valid_date("2023-02-29"));
    assert!(is_valid_date("2000-02-29"));
    assert!(!is_valid_date("2100-02-29"));
    assert!(is_valid_date("2100-02-28"));
    assert!(!is_valid_date("2024-02-30"));
    assert!(is_valid_date("0000-02-29"));
}
