use caseus_foratus_helveticus::clock::{next_occurrence, reference_now, time_until};
use caseus_foratus_helveticus::{ClockTime, Delay, ReferenceInstant};

fn instant(second_of_day: u32, nanosecond: u32) -> ReferenceInstant {
    ReferenceInstant { year: 2024, month: 12, day: 31, weekday: 1, second_of_day, nanosecond }
}

#[test]
fn clock_time_reads_back_its_components() {
    let t = ClockTime::new(23, 59, 58);
    assert_eq!(t.hour(), 23);
    assert_eq!(t.minute(), 59);
    assert_eq!(t.second(), 58);
    assert_eq!(t.seconds_of_day(), 86_398);
    assert_eq!(ClockTime::new(0, 0, 0).seconds_of_day(), 0);
}

#[test]
fn clock_time_rejects_components_out_of_range() {
    assert!(ClockTime::checked_new(24, 0, 0).is_none());
    assert!(ClockTime::checked_new(0, 60, 0).is_none());
    assert!(ClockTime::checked_new(0, 0, 60).is_none());
    assert_eq!(ClockTime::checked_new(7, 0, 0), Some(ClockTime::new(7, 0, 0)));
}

#[test]
fn target_later_today_is_reached_today() {
    let wait = next_occurrence(&instant(6 * 3600, 0), &ClockTime::new(7, 0, 0));
    assert_eq!(wait, Delay { seconds: 3600, nanoseconds: 0 });
}

#[test]
fn fraction_of_a_second_shortens_the_wait() {
    let wait = next_occurrence(&instant(7 * 3600 - 1, 500_000_000), &ClockTime::new(7, 0, 0));
    assert_eq!(wait, Delay { seconds: 0, nanoseconds: 500_000_000 });
}

#[test]
fn target_equal_to_now_waits_a_whole_day() {
    let wait = next_occurrence(&instant(7 * 3600, 0), &ClockTime::new(7, 0, 0));
    assert_eq!(wait, Delay { seconds: 86_400, nanoseconds: 0 });
}

#[test]
fn target_just_passed_waits_until_tomorrow() {
    let wait = next_occurrence(&instant(7 * 3600, 1), &ClockTime::new(7, 0, 0));
    assert_eq!(wait, Delay { seconds: 86_399, nanoseconds: 999_999_999 });
}

#[test]
fn midnight_target_from_the_evening_crosses_the_year() {
    let wait = next_occurrence(&instant(20 * 3600, 0), &ClockTime::new(0, 0, 0));
    assert_eq!(wait, Delay { seconds: 4 * 3600, nanoseconds: 0 });
}

#[test]
fn wait_lands_on_the_target_time_of_day() {
    let targets = [ClockTime::new(0, 0, 0), ClockTime::new(8, 0, 0), ClockTime::new(23, 59, 59)];
    let nows = [instant(0, 0), instant(0, 1), instant(28_800, 0), instant(86_399, 999_999_999)];
    for target in targets.iter() {
        for now in nows.iter() {
            let wait = next_occurrence(now, target);
            let wait_nanos = wait.seconds as u64 * 1_000_000_000 + wait.nanoseconds as u64;
            let now_nanos = now.second_of_day as u64 * 1_000_000_000 + now.nanosecond as u64;
            let target_nanos = target.seconds_of_day() as u64 * 1_000_000_000;
            let day: u64 = 86_400_000_000_000;
            assert!(wait_nanos > 0);
            assert_eq!((now_nanos + wait_nanos) % day, target_nanos);
            let expected_day = if now_nanos < target_nanos { 0 } else { 1 };
            assert_eq!((now_nanos + wait_nanos) / day, expected_day);
        }
    }
}

#[test]
fn instants_are_valid_where_their_fields_exist() {
    assert!(instant(0, 0).is_valid());
    assert!(instant(86_399, 999_999_999).is_valid());
    assert!(!instant(86_400, 0).is_valid());
    assert!(!instant(0, 1_000_000_000).is_valid());
    let leap_day =
        ReferenceInstant { year: 2023, month: 2, day: 29, weekday: 0, second_of_day: 0, nanosecond: 0 };
    assert!(!leap_day.is_valid());
    let eighth_weekday =
        ReferenceInstant { year: 2024, month: 2, day: 29, weekday: 7, second_of_day: 0, nanosecond: 0 };
    assert!(!eighth_weekday.is_valid());
}

#[test]
fn reference_clock_reads_an_existing_instant() {
    let now = reference_now();
    assert!(now.is_valid());
    assert!(now.year >= 2024);
    assert!(1 <= now.month && now.month <= 12);
    assert!(1 <= now.day && now.day <= 31);
    assert!(now.weekday < 7);
    assert!(now.second_of_day < 86_400);
    assert!(now.nanosecond < 1_000_000_000);
    let date = now.date();
    assert_eq!((date.year, date.month, date.day), (now.year, now.month, now.day));
}

#[test]
fn wait_from_the_reference_clock_is_at_most_a_day() {
    let target = ClockTime::new(20, 0, 0);
    let (now, wait) = time_until(&target);
    assert_eq!(wait, next_occurrence(&now, &target));
    assert!(wait.seconds > 0 || wait.nanoseconds > 0);
    assert!(wait.seconds < 86_400 || (wait.seconds == 86_400 && wait.nanoseconds == 0));
}
