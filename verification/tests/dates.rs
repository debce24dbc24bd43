use catchup::date::Date;

fn date(y: u32, m: u32, d: u32) -> Date {
    Date::new(y, m, d).unwrap()
}

#[test]
fn new_accepts_valid_dates() {
    assert_eq!(date(2024, 2, 29), Date { year: 2024, month: 2, day: 29 });
    assert_eq!(date(2024, 12, 31), Date { year: 2024, month: 12, day: 31 });
    assert_eq!(date(1, 1, 1), Date { year: 1, month: 1, day: 1 });
    assert_eq!(date(9999, 12, 31), Date { year: 9999, month: 12, day: 31 });
}

#[test]
fn new_rejects_invalid_dates() {
    assert!(Date::new(2023, 2, 29).is_none());
    assert!(Date::new(1900, 2, 29).is_none());
    assert!(Date::new(2024, 13, 1).is_none());
    assert!(Date::new(2024, 0, 5).is_none());
    assert!(Date::new(2024, 4, 31).is_none());
    assert!(Date::new(2024, 5, 0).is_none());
    assert!(Date::new(0, 5, 5).is_none());
    assert!(Date::new(10000, 1, 1).is_none());
}

#[test]
fn day_number_counts_from_year_one() {
    assert_eq!(date(1, 1, 1).day_number(), 0);
    assert_eq!(date(1, 1, 8).day_number(), 7);
    assert_eq!(date(1, 12, 31).day_number(), 364);
    assert_eq!(date(2, 1, 1).day_number(), 365);
    assert_eq!(date(5, 1, 1).day_number(), 1461);
    assert_eq!(date(401, 1, 1).day_number(), 146097);
}

#[test]
fn week_earlier_within_a_month() {
    assert_eq!(date(2026, 10, 9).week_earlier(), date(2026, 10, 2));
    assert_eq!(date(2024, 3, 15).week_earlier(), date(2024, 3, 8));
}

#[test]
fn week_earlier_crosses_a_month_boundary() {
    assert_eq!(date(2024, 3, 3).week_earlier(), date(2024, 2, 25));
    assert_eq!(date(2023, 3, 3).week_earlier(), date(2023, 2, 24));
    assert_eq!(date(2026, 5, 1).week_earlier(), date(2026, 4, 24));
}

#[test]
fn week_earlier_crosses_a_year_boundary() {
    assert_eq!(date(2026, 1, 4).week_earlier(), date(2025, 12, 28));
    assert_eq!(date(2024, 1, 7).week_earlier(), date(2023, 12, 31));
    assert_eq!(date(2024, 1, 1).week_earlier(), date(2023, 12, 25));
}

#[test]
fn week_earlier_steps_day_number_back_by_seven() {
    let samples = [
        date(1, 1, 8),
        date(2000, 3, 1),
        date(2100, 3, 1),
        date(2026, 1, 1),
        date(9999, 12, 31),
    ];
    for d in samples {
        assert_eq!(u64::from(d.week_earlier().day_number()), u64::from(d.day_number()) - 7);
    }
}

#[test]
fn ymd_string_zero_pads_every_field() {
    assert_eq!(date(7, 2, 3).ymd_string(), "0007-02-03");
    assert_eq!(date(987, 11, 30).ymd_string(), "0987-11-30");
    assert_eq!(date(2026, 10, 9).ymd_string(), "2026-10-09");
    assert_eq!(date(9999, 12, 31).ymd_string(), "9999-12-31");
}
