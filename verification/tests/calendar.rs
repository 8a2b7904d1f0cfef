use personal_finance::calendar::{checked_date_after_months, months_to_date, Date};
use personal_finance::utils::date_after_months;

fn day(year: i32, month: u32, day_of_month: u32) -> Date {
    Date::from_ymd_opt(year, month, day_of_month).unwrap()
}

#[test]
fn test_months_to_date() {
    let to_date = day(2020, 6, 15);
    let from_date = day(2020, 1, 15);

    assert_eq!(months_to_date(&to_date, &from_date), 5);
}

#[test]
fn test_date_after_months() {
    let current_date = day(2020, 6, 15);
    let expected_date = day(2022, 3, 15);
    assert_eq!(date_after_months(&current_date, 21), expected_date);

    let current_date = day(2020, 12, 15);
    let expected_date = day(2021, 12, 15);
    assert_eq!(date_after_months(&current_date, 12), expected_date);
}

#[test]
fn dates_are_days_of_the_calendar() {
    assert!(Date::from_ymd_opt(2015, 3, 14).is_some());
    assert!(Date::from_ymd_opt(2015, 0, 14).is_none());
    assert!(Date::from_ymd_opt(2015, 13, 14).is_none());
    assert!(Date::from_ymd_opt(2015, 3, 0).is_none());
    assert!(Date::from_ymd_opt(2015, 3, 32).is_none());
    assert!(Date::from_ymd_opt(2015, 4, 31).is_none());
    assert!(Date::from_ymd_opt(2015, 2, 29).is_none());
    assert!(Date::from_ymd_opt(2016, 2, 29).is_some());
    assert!(Date::from_ymd_opt(1900, 2, 29).is_none());
    assert!(Date::from_ymd_opt(2000, 2, 29).is_some());
    assert!(Date::from_ymd_opt(-4, 2, 29).is_some());
}

#[test]
fn dates_have_a_first_and_a_last_year() {
    assert!(Date::from_ymd_opt(262142, 12, 31).is_some());
    assert!(Date::from_ymd_opt(262143, 1, 1).is_none());
    assert!(Date::from_ymd_opt(-262143, 1, 1).is_some());
    assert!(Date::from_ymd_opt(-262144, 12, 31).is_none());
}

#[test]
fn a_date_gives_back_its_parts() {
    let date = day(2020, 10, 19);
    assert_eq!(date.year(), 2020);
    assert_eq!(date.month(), 10);
    assert_eq!(date.day(), 19);
}

#[test]
fn months_to_date_ignores_the_day_and_can_be_negative() {
    assert_eq!(months_to_date(&day(2020, 3, 1), &day(2020, 1, 31)), 2);
    assert_eq!(months_to_date(&day(2020, 1, 15), &day(2020, 1, 15)), 0);
    assert_eq!(months_to_date(&day(2019, 11, 15), &day(2020, 1, 15)), -2);
    assert_eq!(months_to_date(&day(2022, 1, 15), &day(2020, 12, 15)), 13);
    assert_eq!(months_to_date(&day(262142, 12, 1), &day(-262143, 1, 1)), 6_291_431);
}

#[test]
fn date_after_months_rolls_the_year_over() {
    assert_eq!(date_after_months(&day(2020, 11, 15), 1), day(2020, 12, 15));
    assert_eq!(date_after_months(&day(2020, 12, 15), 1), day(2021, 1, 15));
    assert_eq!(date_after_months(&day(2020, 12, 15), 0), day(2020, 12, 15));
    assert_eq!(date_after_months(&day(2020, 6, 15), 6), day(2020, 12, 15));
    assert_eq!(date_after_months(&day(2020, 1, 15), 24), day(2022, 1, 15));
    assert_eq!(date_after_months(&day(2020, 1, 31), 32767), day(4750, 8, 31));
}

#[test]
fn date_after_months_goes_back_for_negative_months() {
    assert_eq!(date_after_months(&day(2020, 1, 15), -1), day(2019, 12, 15));
    assert_eq!(date_after_months(&day(2020, 1, 15), -2), day(2019, 11, 15));
    assert_eq!(date_after_months(&day(2020, 6, 15), -18), day(2018, 12, 15));
    assert_eq!(date_after_months(&day(1, 1, 1), -1), day(0, 12, 1));
}

#[test]
fn checked_date_after_months_knows_short_months() {
    assert_eq!(checked_date_after_months(&day(2020, 1, 31), 1), None);
    assert_eq!(checked_date_after_months(&day(2020, 1, 31), 2), Some(day(2020, 3, 31)));
    assert_eq!(checked_date_after_months(&day(2020, 1, 29), 1), Some(day(2020, 2, 29)));
    assert_eq!(checked_date_after_months(&day(2021, 1, 29), 1), None);
    assert_eq!(checked_date_after_months(&day(262142, 12, 1), 1), None);
    assert_eq!(checked_date_after_months(&day(-262143, 1, 1), -1), None);
}

#[test]
fn counting_back_from_a_later_date_gives_the_months_moved() {
    let start = day(2020, 6, 15);
    for months in [-30i16, -7, -1, 0, 1, 6, 7, 21, 1200] {
        let later = date_after_months(&start, months);
        assert_eq!(months_to_date(&later, &start), months as i32);
        assert_eq!(later.day(), 15);
    }
}

#[test]
fn the_calendar_has_the_days_of_the_gregorian_rule() {
    for year in (-820..=2820).chain(262_000..=262_142).chain(-262_143..=-262_000) {
        let leap = year % 4 == 0 && (year % 100 != 0 || year % 400 == 0);
        for month in 0u32..=13 {
            let days = match month {
                1 | 3 | 5 | 7 | 8 | 10 | 12 => 31,
                4 | 6 | 9 | 11 => 30,
                2 => {
                    if leap {
                        29
                    } else {
                        28
                    }
                }
                _ => 0,
            };
            for day_of_month in 0u32..=33 {
                let date = Date::from_ymd_opt(year, month, day_of_month);
                assert_eq!(date.is_some(), 1 <= day_of_month && day_of_month <= days);
                if let Some(date) = date {
                    assert_eq!((date.year(), date.month(), date.day()), (year, month, day_of_month));
                }
            }
        }
    }
    assert!(Date::from_ymd_opt(2020, u32::MAX, 1).is_none());
    assert!(Date::from_ymd_opt(2020, 1, u32::MAX).is_none());
    assert!(Date::from_ymd_opt(i32::MAX, 1, 1).is_none());
    assert!(Date::from_ymd_opt(i32::MIN, 1, 1).is_none());
}
