use resnav::dates::{
    accept_date, date_in_span, days_before, default_start_range, format_date, start_range_from,
    today, Date, DateRange,
};

fn d(year: u32, month: u32, day: u32) -> Date {
    Date { year, month, day }
}

fn range(min: Date, max: Date) -> DateRange {
    DateRange::new(min, max).expect("well-formed range")
}

#[test]
fn date_in_range_is_accepted() {
    let r = range(d(2023, 1, 1), d(2023, 6, 1));
    assert_eq!(accept_date(d(2023, 3, 15), &Some(r)), Some(d(2023, 3, 15)));
    assert_eq!(accept_date(d(2023, 1, 1), &Some(r)), Some(d(2023, 1, 1)));
    assert_eq!(accept_date(d(2023, 6, 1), &Some(r)), Some(d(2023, 6, 1)));
}

#[test]
fn date_outside_range_is_never_returned() {
    let r = range(d(2023, 1, 1), d(2023, 6, 1));
    assert_eq!(accept_date(d(2022, 12, 31), &Some(r)), None);
    assert_eq!(accept_date(d(2023, 6, 2), &Some(r)), None);
    assert_eq!(accept_date(d(2024, 1, 1), &Some(r)), None);
}

#[test]
fn unbounded_prompt_accepts_any_date() {
    assert_eq!(accept_date(d(1999, 12, 31), &None), Some(d(1999, 12, 31)));
}

#[test]
fn reversed_bounds_are_rejected() {
    assert!(DateRange::new(d(2023, 6, 1), d(2023, 1, 1)).is_none());
}

#[test]
fn calendar_validity_follows_month_lengths_and_leap_years() {
    assert!(DateRange::new(d(2024, 2, 29), d(2024, 2, 29)).is_some());
    assert!(DateRange::new(d(2023, 2, 29), d(2023, 2, 29)).is_none());
    assert!(DateRange::new(d(1900, 2, 29), d(1900, 2, 29)).is_none());
    assert!(DateRange::new(d(2000, 2, 29), d(2000, 2, 29)).is_some());
    assert!(DateRange::new(d(2023, 4, 31), d(2023, 4, 31)).is_none());
    assert!(DateRange::new(d(2023, 0, 1), d(2023, 1, 1)).is_none());
    assert!(DateRange::new(d(0, 1, 1), d(1, 1, 1)).is_none());
}

#[test]
fn dates_format_zero_padded() {
    assert_eq!(format_date(&d(2023, 1, 1)), "2023-01-01");
    assert_eq!(format_date(&d(2023, 6, 1)), "2023-06-01");
    assert_eq!(format_date(&d(987, 12, 31)), "0987-12-31");
}

#[test]
fn the_clock_yields_a_valid_date() {
    let t = today().expect("clock within supported span");
    let r = DateRange::new(t, t);
    assert!(r.is_some());
}

#[test]
fn stepping_back_days_stays_on_or_before() {
    let t = d(2024, 3, 1);
    let e = days_before(&t, 365).expect("representable");
    assert_eq!(e, d(2023, 3, 2));
    let same = days_before(&t, 0).expect("representable");
    assert_eq!(same, t);
}

#[test]
fn default_start_span_covers_the_past_year() {
    let r = default_start_range().expect("clock within supported span");
    assert!(DateRange::new(r.minimum_date, r.maximum_date).is_some());
    let t = today().unwrap();
    assert_eq!(r.maximum_date, t);
    assert_eq!(days_before(&r.maximum_date, 365), Some(r.minimum_date));
}

#[test]
fn start_span_lower_bound_is_exactly_a_year_back() {
    let r = start_range_from(d(2024, 3, 1)).expect("representable");
    assert_eq!(r.maximum_date, d(2024, 3, 1));
    assert_eq!(r.minimum_date, d(2023, 3, 2));
}

#[test]
fn triples_outside_the_year_span_are_dropped() {
    assert_eq!(date_in_span(2023, 5, 4), Some(d(2023, 5, 4)));
    assert_eq!(date_in_span(10000, 1, 1), None);
    assert_eq!(date_in_span(0, 1, 1), None);
    assert_eq!(date_in_span(-44, 3, 15), None);
}
