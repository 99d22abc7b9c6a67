use rusty_chess::time::{days_in_year, is_leap_year, DateMillis, DisplayMode, Month};

fn parts(date: &DateMillis) -> (u32, Month, u8, u8, u8, u8, u16) {
    (
        date.year,
        date.month,
        date.day,
        date.hours,
        date.minutes,
        date.seconds,
        date.milliseconds,
    )
}

#[test]
fn leap_years_follow_the_rule() {
    assert!(!is_leap_year(1900));
    assert!(is_leap_year(2000));
    assert!(is_leap_year(2024));
    assert!(!is_leap_year(2023));
    assert!(!is_leap_year(2100));
    assert!(is_leap_year(2400));
    assert!(is_leap_year(1972));
    assert!(!is_leap_year(1970));
    assert_eq!(days_in_year(1970), 365);
    assert_eq!(days_in_year(1972), 366);
    assert_eq!(days_in_year(2100), 365);
}

#[test]
fn months_have_numbers_names_and_lengths() {
    let months = [
        (Month::January, "January", 31, 31),
        (Month::February, "February", 28, 29),
        (Month::March, "March", 31, 31),
        (Month::April, "April", 30, 30),
        (Month::May, "May", 31, 31),
        (Month::June, "June", 30, 30),
        (Month::July, "July", 31, 31),
        (Month::August, "August", 31, 31),
        (Month::September, "September", 30, 30),
        (Month::October, "October", 31, 31),
        (Month::November, "November", 30, 30),
        (Month::December, "December", 31, 31),
    ];
    let mut before = 0u16;
    let mut before_leap = 0u16;
    for (i, (month, name, days, leap_days)) in months.into_iter().enumerate() {
        assert_eq!(month.number() as usize, i + 1);
        assert_eq!(month.name(), name);
        assert_eq!(DateMillis::days_in_month(month, false), days);
        assert_eq!(DateMillis::days_in_month(month, true), leap_days);
        // the first and the last day of the month lie in the month
        assert_eq!(DateMillis::day_to_day_before_month_pair(before, false), (month, before));
        assert_eq!(
            DateMillis::day_to_day_before_month_pair(before + days as u16 - 1, false),
            (month, before)
        );
        assert_eq!(
            DateMillis::day_to_day_before_month_pair(before_leap, true),
            (month, before_leap)
        );
        assert_eq!(
            DateMillis::day_to_day_before_month_pair(before_leap + leap_days as u16 - 1, true),
            (month, before_leap)
        );
        before += days as u16;
        before_leap += leap_days as u16;
    }
    assert_eq!(before, 365);
    assert_eq!(before_leap, 366);
    assert_eq!(DateMillis::day_to_day_before_month_pair(58, false), (Month::February, 31));
    assert_eq!(DateMillis::day_to_day_before_month_pair(59, false), (Month::March, 59));
    assert_eq!(DateMillis::day_to_day_before_month_pair(59, true), (Month::February, 31));
    assert_eq!(DateMillis::day_to_day_before_month_pair(60, true), (Month::March, 60));
    // a day beyond the year is placed in December
    assert_eq!(DateMillis::day_to_day_before_month_pair(365, false), (Month::December, 334));
    assert_eq!(DateMillis::day_to_day_before_month_pair(400, true), (Month::December, 335));
}

#[test]
fn counts_become_dates() {
    let cases: [(u64, (u32, Month, u8, u8, u8, u8, u16)); 10] = [
        (0, (1970, Month::January, 1, 0, 0, 0, 0)),
        (999, (1970, Month::January, 1, 0, 0, 0, 999)),
        (86_399_999, (1970, Month::January, 1, 23, 59, 59, 999)),
        (86_400_000, (1970, Month::January, 2, 0, 0, 0, 0)),
        (951_782_400_000, (2000, Month::February, 29, 0, 0, 0, 0)),
        (946_684_799_999, (1999, Month::December, 31, 23, 59, 59, 999)),
        (1_000_000_000_000, (2001, Month::September, 9, 1, 46, 40, 0)),
        (1_709_210_096_789, (2024, Month::February, 29, 12, 34, 56, 789)),
        (4_107_542_400_000, (2100, Month::March, 1, 0, 0, 0, 0)),
        (4_107_542_399_999, (2100, Month::February, 28, 23, 59, 59, 999)),
    ];
    for (millis, expected) in cases {
        let date = DateMillis::new(millis);
        assert_eq!(parts(&date), expected, "{}", millis);
        assert_eq!(date.display_mode, DisplayMode::ISO8601);
        assert_eq!(date.to_unix_millis(), millis);
    }
}

#[test]
fn every_count_has_its_date() {
    // day by day over more than 400 years, and the largest count
    let mut previous = DateMillis::new(0);
    for day in 1..150_000u64 {
        let date = DateMillis::new(day * 86_400_000 + 12_345);
        assert_eq!(date.to_unix_millis(), day * 86_400_000 + 12_345);
        assert!(date.day >= 1);
        assert!(date.day <= DateMillis::days_in_month(date.month, is_leap_year(date.year)));
        // the next day of the month, or the first of the next month
        if date.day != 1 {
            assert_eq!(date.day, previous.day + 1);
            assert_eq!(date.month, previous.month);
            assert_eq!(date.year, previous.year);
        } else if date.month == Month::January {
            assert_eq!(previous.month, Month::December);
            assert_eq!(previous.day, 31);
            assert_eq!(date.year, previous.year + 1);
        } else {
            assert_eq!(date.month.number(), previous.month.number() + 1);
            assert_eq!(
                previous.day,
                DateMillis::days_in_month(previous.month, is_leap_year(previous.year))
            );
        }
        previous = date;
    }
    let last = DateMillis::new(u64::MAX);
    assert_eq!(last.to_unix_millis(), u64::MAX);
    assert_eq!(last.year, 584_556_019);
}

#[test]
fn dates_move_on() {
    let mut date = DateMillis::new(946_684_799_999);
    date.set_display_mode(DisplayMode::Simple);
    date.update(1);
    assert_eq!(parts(&date), (2000, Month::January, 1, 0, 0, 0, 0));
    assert_eq!(date.display_mode, DisplayMode::Simple);
    date.update(0);
    assert_eq!(parts(&date), (2000, Month::January, 1, 0, 0, 0, 0));
    // 59 days, an hour, a minute, a second and a millisecond
    date.update(59 * 86_400_000 + 3_600_000 + 60_000 + 1000 + 1);
    assert_eq!(parts(&date), (2000, Month::February, 29, 1, 1, 1, 1));
    // four hundred years
    date.update(146_097 * 86_400_000);
    assert_eq!(parts(&date), (2400, Month::February, 29, 1, 1, 1, 1));
    date.set_display_mode(DisplayMode::Debug);
    assert_eq!(date.display_mode, DisplayMode::Debug);
    assert_eq!(parts(&date), (2400, Month::February, 29, 1, 1, 1, 1));
}

#[test]
fn dates_are_written() {
    let mut date = DateMillis::new(1_709_210_096_789);
    assert_eq!(date.to_string(), "2024-02-29 12:34:56.789");
    date.set_display_mode(DisplayMode::Simple);
    assert_eq!(date.to_string(), "02-29 12:34:56");
    date.set_display_mode(DisplayMode::Debug);
    assert_eq!(date.to_string(), "2024/February/29 12:34:56.789");
    let mut date = DateMillis::new(0);
    assert_eq!(date.to_string(), "1970-01-01 00:00:00.000");
    date.set_display_mode(DisplayMode::Simple);
    assert_eq!(date.to_string(), "01-01 00:00:00");
    date.set_display_mode(DisplayMode::Debug);
    assert_eq!(date.to_string(), "1970/January/1 0:0:0.0");
    let mut date = DateMillis::new(1_000_000_000_007);
    assert_eq!(date.to_string(), "2001-09-09 01:46:40.007");
    date.set_display_mode(DisplayMode::Debug);
    assert_eq!(date.to_string(), "2001/September/9 1:46:40.7");
    // a year of more than four figures is written in full
    let late = DateMillis::new(u64::MAX);
    assert!(late.to_string().starts_with("584556019-"));
    assert_eq!(late.to_string().len(), "584556019-01-01 00:00:00.000".len());
    // what is written is what the parts say
    for millis in [86_399_999u64, 951_782_400_000, 4_107_542_399_999] {
        let date = DateMillis::new(millis);
        assert_eq!(
            date.to_string(),
            format!(
                "{:04}-{:02}-{:02} {:02}:{:02}:{:02}.{:03}",
                date.year,
                date.month.number(),
                date.day,
                date.hours,
                date.minutes,
                date.seconds,
                date.milliseconds
            )
        );
    }
}
