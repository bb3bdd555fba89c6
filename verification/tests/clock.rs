use time_bank_progress::clock::{
    evaluate, format_date, format_time, localize, seconds_remaining_today, snapshot,
    DailyBalanceSnapshot, LocalizedInstant, SECONDS_PER_DAY,
};
use time_bank_progress::instant::{Instant, MAX_UNIX_SECONDS, MIN_UNIX_SECONDS};
use time_bank_progress::timezone::resolve;

fn at(seconds: i64, nanos: u32) -> Instant {
    Instant::new(seconds, nanos).unwrap()
}

fn local(
    weekday: u32,
    day: u32,
    month: u32,
    hour: u32,
    minute: u32,
    second: u32,
    nanosecond: u32,
    abbreviation: &str,
) -> LocalizedInstant {
    LocalizedInstant {
        year: 2024,
        month,
        day,
        weekday,
        hour,
        minute,
        second,
        nanosecond,
        utc_offset_seconds: 0,
        abbreviation: abbreviation.to_string(),
    }
}

fn with_offset(utc_offset_seconds: i32) -> LocalizedInstant {
    LocalizedInstant { utc_offset_seconds, ..local(1, 14, 5, 14, 3, 7, 0, "") }
}

#[test]
fn noon_in_utc() {
    // 2024-05-14T12:00:00.000Z
    let snap = evaluate(at(1_715_688_000, 0), &resolve(Some("UTC")));
    assert_eq!(snap.formatted_date, "Tuesday 14 May");
    assert_eq!(snap.formatted_time, "12:00:00.000 UTC");
    assert_eq!(snap.seconds_remaining_today, 43_200);
}

#[test]
fn late_evening_utc_is_past_midnight_in_paris() {
    // 2024-05-14T22:30:00.000Z
    let snap = evaluate(at(1_715_725_800, 0), &resolve(Some("Europe/Paris")));
    assert_eq!(snap.formatted_date, "Wednesday 15 May");
    assert_eq!(snap.formatted_time, "00:30:00.000 CEST");
    assert_eq!(snap.seconds_remaining_today, 84_600);
}

#[test]
fn the_offset_is_the_one_in_effect_at_the_instant() {
    let paris = resolve(Some("Europe/Paris"));
    // 2024-01-15T11:00:00Z, winter time
    let winter = evaluate(at(1_705_316_400, 0), &paris);
    assert_eq!(winter.formatted_date, "Monday 15 January");
    assert_eq!(winter.formatted_time, "12:00:00.000 CET");
    assert_eq!(winter.seconds_remaining_today, 43_200);
    // 2024-07-15T10:00:00Z, summer time
    let summer = evaluate(at(1_721_037_600, 0), &paris);
    assert_eq!(summer.formatted_date, "Monday 15 July");
    assert_eq!(summer.formatted_time, "12:00:00.000 CEST");
    assert_eq!(summer.seconds_remaining_today, 43_200);
}

#[test]
fn the_clock_jumps_over_the_spring_transition() {
    let paris = resolve(Some("Europe/Paris"));
    // 2024-03-31T00:59:59Z is 01:59:59 CET, one second later it is 03:00:00 CEST
    let before = evaluate(at(1_711_846_799, 0), &paris);
    assert_eq!(before.formatted_date, "Sunday 31 March");
    assert_eq!(before.formatted_time, "01:59:59.000 CET");
    assert_eq!(before.seconds_remaining_today, 86_400 - 7_199);
    let after = evaluate(at(1_711_846_800, 0), &paris);
    assert_eq!(after.formatted_time, "03:00:00.000 CEST");
    assert_eq!(after.seconds_remaining_today, 86_400 - 10_800);
}

#[test]
fn zones_west_of_utc_are_still_on_the_day_before() {
    // 2024-05-14T03:15:20.250Z
    let snap = evaluate(at(1_715_656_520, 250_000_000), &resolve(Some("America/New_York")));
    assert_eq!(snap.formatted_date, "Monday 13 May");
    assert_eq!(snap.formatted_time, "23:15:20.250 EDT");
    assert_eq!(snap.seconds_remaining_today, 86_400 - (23 * 3600 + 15 * 60 + 20));
}

#[test]
fn offsets_of_half_and_quarter_hours() {
    // 2024-05-14T12:00:00Z
    let kolkata = evaluate(at(1_715_688_000, 0), &resolve(Some("Asia/Kolkata")));
    assert_eq!(kolkata.formatted_time, "17:30:00.000 IST");
    assert_eq!(kolkata.seconds_remaining_today, 86_400 - (17 * 3600 + 30 * 60));
    let kathmandu = evaluate(at(1_715_688_000, 0), &resolve(Some("Asia/Kathmandu")));
    assert_eq!(kathmandu.formatted_time, "17:45:00.000 +0545");
    assert_eq!(kathmandu.seconds_remaining_today, 86_400 - (17 * 3600 + 45 * 60));
}

#[test]
fn zones_without_a_lettered_abbreviation_show_their_offset() {
    // 2024-05-14T12:00:00Z
    let snap = evaluate(at(1_715_688_000, 0), &resolve(Some("America/Sao_Paulo")));
    assert_eq!(snap.formatted_date, "Tuesday 14 May");
    assert_eq!(snap.formatted_time, "09:00:00.000 -03");
}

#[test]
fn an_unknown_selection_is_evaluated_in_utc() {
    let snap = evaluate(at(1_715_688_000, 0), &resolve(Some("Nowhere/Land")));
    assert_eq!(snap.formatted_time, "12:00:00.000 UTC");
    let snap = evaluate(at(1_715_688_000, 0), &resolve(None));
    assert_eq!(snap.formatted_time, "12:00:00.000 UTC");
}

#[test]
fn the_whole_allowance_remains_at_local_midnight() {
    // 2024-05-14T00:00:00Z
    let utc = evaluate(at(1_715_644_800, 0), &resolve(Some("UTC")));
    assert_eq!(utc.formatted_time, "00:00:00.000 UTC");
    assert_eq!(utc.seconds_remaining_today, 86_400);
    // 2024-05-13T22:00:00Z is midnight in Paris
    let paris = evaluate(at(1_715_637_600, 0), &resolve(Some("Europe/Paris")));
    assert_eq!(paris.formatted_date, "Tuesday 14 May");
    assert_eq!(paris.formatted_time, "00:00:00.000 CEST");
    assert_eq!(paris.seconds_remaining_today, 86_400);
    // 2024-05-14T15:00:00Z is midnight in Tokyo
    let tokyo = evaluate(at(1_715_698_800, 0), &resolve(Some("Asia/Tokyo")));
    assert_eq!(tokyo.formatted_date, "Wednesday 15 May");
    assert_eq!(tokyo.formatted_time, "00:00:00.000 JST");
    assert_eq!(tokyo.seconds_remaining_today, 86_400);
}

#[test]
fn one_second_remains_just_before_the_next_local_midnight() {
    // 2024-05-14T23:59:59Z
    let utc = evaluate(at(1_715_731_199, 0), &resolve(Some("UTC")));
    assert_eq!(utc.formatted_time, "23:59:59.000 UTC");
    assert_eq!(utc.seconds_remaining_today, 1);
    // 2024-05-14T21:59:59.999999999Z in Paris
    let paris = evaluate(at(1_715_723_999, 999_999_999), &resolve(Some("Europe/Paris")));
    assert_eq!(paris.formatted_date, "Tuesday 14 May");
    assert_eq!(paris.formatted_time, "23:59:59.999 CEST");
    assert_eq!(paris.seconds_remaining_today, 1);
}

#[test]
fn the_fraction_of_a_second_does_not_change_the_balance() {
    let utc = resolve(Some("UTC"));
    let whole = evaluate(at(1_715_688_007, 0), &utc);
    let late = evaluate(at(1_715_688_007, 999_999_999), &utc);
    assert_eq!(whole.seconds_remaining_today, 43_193);
    assert_eq!(late.seconds_remaining_today, 43_193);
}

#[test]
fn milliseconds_are_truncated_not_rounded() {
    let utc = resolve(Some("UTC"));
    assert_eq!(evaluate(at(1_715_688_000, 999_999), &utc).formatted_time, "12:00:00.000 UTC");
    assert_eq!(evaluate(at(1_715_688_000, 1_000_000), &utc).formatted_time, "12:00:00.001 UTC");
    assert_eq!(evaluate(at(1_715_688_000, 512_999_999), &utc).formatted_time, "12:00:00.512 UTC");
    assert_eq!(evaluate(at(1_715_688_000, 999_500_000), &utc).formatted_time, "12:00:00.999 UTC");
    assert_eq!(evaluate(at(1_715_688_000, 999_999_999), &utc).formatted_time, "12:00:00.999 UTC");
}

#[test]
fn evaluating_twice_gives_the_same_reading() {
    let paris = resolve(Some("Europe/Paris"));
    let first = evaluate(at(1_715_725_800, 123_456_789), &paris);
    let second = evaluate(at(1_715_725_800, 123_456_789), &paris);
    assert_eq!(first, second);
    assert_eq!(first.formatted_date.as_bytes(), second.formatted_date.as_bytes());
    assert_eq!(first.formatted_time.as_bytes(), second.formatted_time.as_bytes());
    let again = evaluate(at(1_715_725_800, 123_456_789), &resolve(Some("Europe/Paris")));
    assert_eq!(first, again);
}

#[test]
fn the_balance_stays_within_the_allowance() {
    let zones = ["UTC", "Europe/Paris", "America/New_York", "Asia/Kolkata", "Pacific/Kiritimati",
        "Pacific/Niue", "Australia/Lord_Howe", "Africa/Monrovia", "America/St_Johns"];
    let mut seconds: i64 = -3_000_000_000;
    while seconds < 5_000_000_000 {
        for zone in zones {
            let snap = evaluate(at(seconds, 0), &resolve(Some(zone)));
            assert!(snap.seconds_remaining_today >= 1);
            assert!(snap.seconds_remaining_today <= SECONDS_PER_DAY);
        }
        seconds += 7_654_321;
    }
}

#[test]
fn the_balance_decays_by_one_each_second() {
    let utc = resolve(Some("UTC"));
    let start: i64 = 1_715_644_800;
    let mut second: i64 = 0;
    while second < 86_400 {
        let snap = evaluate(at(start + second, 0), &utc);
        assert_eq!(snap.seconds_remaining_today as i64, 86_400 - second);
        second += 1_237;
    }
    assert_eq!(evaluate(at(start + 86_400, 0), &utc).seconds_remaining_today, 86_400);
}

#[test]
fn the_edges_of_the_supported_span() {
    let utc = resolve(Some("UTC"));
    let first = evaluate(at(MIN_UNIX_SECONDS, 0), &utc);
    assert_eq!(first.formatted_date, "Monday 01 January");
    assert_eq!(first.formatted_time, "00:00:00.000 UTC");
    assert_eq!(first.seconds_remaining_today, 86_400);
    let last = evaluate(at(MAX_UNIX_SECONDS, 999_999_999), &utc);
    assert_eq!(last.formatted_date, "Friday 31 December");
    assert_eq!(last.formatted_time, "23:59:59.999 UTC");
    assert_eq!(last.seconds_remaining_today, 1);
    let east = localize(at(MAX_UNIX_SECONDS, 0), &resolve(Some("Pacific/Kiritimati")));
    assert_eq!(east.year, 10_000);
    assert_eq!((east.month, east.day, east.hour), (1, 1, 13));
    let west = localize(at(MIN_UNIX_SECONDS, 0), &resolve(Some("America/New_York")));
    assert_eq!(west.year, 0);
    assert_eq!((west.month, west.day), (12, 31));
}

#[test]
fn localize_reads_every_field() {
    // 2024-05-14T22:30:07.512345678Z
    let paris = localize(at(1_715_725_807, 512_345_678), &resolve(Some("Europe/Paris")));
    assert_eq!(paris.year, 2024);
    assert_eq!(paris.month, 5);
    assert_eq!(paris.day, 15);
    assert_eq!(paris.weekday, 2);
    assert_eq!(paris.hour, 0);
    assert_eq!(paris.minute, 30);
    assert_eq!(paris.second, 7);
    assert_eq!(paris.nanosecond, 512_345_678);
    assert_eq!(paris.utc_offset_seconds, 7_200);
    assert_eq!(paris.abbreviation, "CEST");
    assert!(paris.is_valid());
}

#[test]
fn localize_reads_the_offset_in_effect() {
    // 2024-05-14T12:00:00Z and 2024-01-15T11:00:00Z
    let summer = at(1_715_688_000, 0);
    let winter = at(1_705_316_400, 0);
    assert_eq!(localize(summer, &resolve(Some("UTC"))).utc_offset_seconds, 0);
    assert_eq!(localize(summer, &resolve(Some("Europe/Paris"))).utc_offset_seconds, 7_200);
    assert_eq!(localize(winter, &resolve(Some("Europe/Paris"))).utc_offset_seconds, 3_600);
    assert_eq!(localize(summer, &resolve(Some("America/New_York"))).utc_offset_seconds, -14_400);
    assert_eq!(localize(winter, &resolve(Some("America/New_York"))).utc_offset_seconds, -18_000);
    assert_eq!(localize(summer, &resolve(Some("Asia/Kolkata"))).utc_offset_seconds, 19_800);
    assert_eq!(localize(summer, &resolve(Some("Asia/Kathmandu"))).utc_offset_seconds, 20_700);
    assert_eq!(localize(summer, &resolve(Some("Pacific/Kiritimati"))).utc_offset_seconds, 50_400);
    assert_eq!(localize(summer, &resolve(Some("Pacific/Niue"))).utc_offset_seconds, -39_600);
}

#[test]
fn the_wall_clock_is_the_utc_second_of_the_day_moved_by_the_offset() {
    let zones = ["UTC", "Europe/Paris", "America/New_York", "Asia/Kolkata", "Pacific/Kiritimati",
        "Pacific/Niue", "Australia/Lord_Howe", "Africa/Monrovia", "America/St_Johns"];
    let mut seconds: i64 = -4_000_000_000;
    while seconds < 6_000_000_000 {
        for zone in zones {
            let local = localize(at(seconds, 0), &resolve(Some(zone)));
            let elapsed = (local.hour * 3600 + local.minute * 60 + local.second) as i64;
            assert_eq!(elapsed, (seconds + local.utc_offset_seconds as i64).rem_euclid(86_400));
            assert_eq!(seconds_remaining_today(&local) as i64, 86_400 - elapsed);
            assert!(local.is_valid());
        }
        seconds += 8_765_432;
    }
}

#[test]
fn localize_differs_from_zone_to_zone() {
    let instant = at(1_715_725_807, 0);
    let paris = localize(instant, &resolve(Some("Europe/Paris")));
    let tokyo = localize(instant, &resolve(Some("Asia/Tokyo")));
    assert_ne!(paris, tokyo);
    assert_eq!((tokyo.day, tokyo.hour, tokyo.minute), (15, 7, 30));
    assert_eq!(tokyo.abbreviation, "JST");
}

#[test]
fn the_date_is_weekday_day_and_month() {
    assert_eq!(format_date(&local(1, 14, 5, 12, 0, 0, 0, "UTC")), "Tuesday 14 May");
    assert_eq!(format_date(&local(0, 1, 1, 0, 0, 0, 0, "UTC")), "Monday 01 January");
    assert_eq!(format_date(&local(2, 9, 2, 0, 0, 0, 0, "UTC")), "Wednesday 09 February");
    assert_eq!(format_date(&local(3, 10, 3, 0, 0, 0, 0, "UTC")), "Thursday 10 March");
    assert_eq!(format_date(&local(4, 19, 4, 0, 0, 0, 0, "UTC")), "Friday 19 April");
    assert_eq!(format_date(&local(5, 20, 6, 0, 0, 0, 0, "UTC")), "Saturday 20 June");
    assert_eq!(format_date(&local(6, 31, 7, 0, 0, 0, 0, "UTC")), "Sunday 31 July");
    assert_eq!(format_date(&local(0, 5, 8, 0, 0, 0, 0, "UTC")), "Monday 05 August");
    assert_eq!(format_date(&local(0, 30, 9, 0, 0, 0, 0, "UTC")), "Monday 30 September");
    assert_eq!(format_date(&local(0, 11, 10, 0, 0, 0, 0, "UTC")), "Monday 11 October");
    assert_eq!(format_date(&local(0, 28, 11, 0, 0, 0, 0, "UTC")), "Monday 28 November");
    assert_eq!(format_date(&local(0, 25, 12, 0, 0, 0, 0, "UTC")), "Monday 25 December");
}

#[test]
fn the_time_is_zero_padded_on_the_24_hour_clock() {
    assert_eq!(format_time(&local(1, 14, 5, 14, 3, 7, 512_000_000, "CEST")), "14:03:07.512 CEST");
    assert_eq!(format_time(&local(1, 14, 5, 0, 0, 0, 0, "UTC")), "00:00:00.000 UTC");
    assert_eq!(format_time(&local(1, 14, 5, 23, 59, 59, 999_999_999, "GMT")), "23:59:59.999 GMT");
    assert_eq!(format_time(&local(1, 14, 5, 9, 10, 5, 7_000_000, "-03")), "09:10:05.007 -03");
    assert_eq!(format_time(&local(1, 14, 5, 13, 0, 40, 60_000_000, "+0545")), "13:00:40.060 +0545");
    assert_eq!(format_time(&local(1, 14, 5, 1, 2, 3, 400_000_000, "")), "01:02:03.400 ");
}

#[test]
fn the_balance_is_the_allowance_less_the_elapsed_seconds() {
    assert_eq!(seconds_remaining_today(&local(1, 14, 5, 0, 0, 0, 0, "UTC")), 86_400);
    assert_eq!(seconds_remaining_today(&local(1, 14, 5, 0, 0, 1, 0, "UTC")), 86_399);
    assert_eq!(seconds_remaining_today(&local(1, 14, 5, 0, 1, 0, 0, "UTC")), 86_340);
    assert_eq!(seconds_remaining_today(&local(1, 14, 5, 1, 0, 0, 0, "UTC")), 82_800);
    assert_eq!(seconds_remaining_today(&local(1, 14, 5, 14, 3, 7, 512_000_000, "UTC")), 35_813);
    assert_eq!(seconds_remaining_today(&local(1, 14, 5, 23, 59, 59, 999_999_999, "UTC")), 1);
}

#[test]
fn a_snapshot_holds_all_three_parts() {
    let snap = snapshot(&local(1, 14, 5, 14, 3, 7, 512_000_000, "CEST"));
    assert_eq!(
        snap,
        DailyBalanceSnapshot {
            formatted_date: "Tuesday 14 May".to_string(),
            formatted_time: "14:03:07.512 CEST".to_string(),
            seconds_remaining_today: 35_813,
        }
    );
}

#[test]
fn validity_checks_every_field() {
    let good = local(1, 14, 5, 14, 3, 7, 512_000_000, "CEST");
    assert!(good.is_valid());
    assert!(local(0, 1, 1, 0, 0, 0, 0, "").is_valid());
    assert!(local(6, 31, 12, 23, 59, 59, 999_999_999, "").is_valid());
    assert!(!local(7, 14, 5, 14, 3, 7, 0, "").is_valid());
    assert!(!local(1, 0, 5, 14, 3, 7, 0, "").is_valid());
    assert!(!local(1, 32, 5, 14, 3, 7, 0, "").is_valid());
    assert!(!local(1, 14, 0, 14, 3, 7, 0, "").is_valid());
    assert!(!local(1, 14, 13, 14, 3, 7, 0, "").is_valid());
    assert!(!local(1, 14, 5, 24, 3, 7, 0, "").is_valid());
    assert!(!local(1, 14, 5, 14, 60, 7, 0, "").is_valid());
    assert!(!local(1, 14, 5, 14, 3, 60, 0, "").is_valid());
    assert!(!local(1, 14, 5, 14, 3, 7, 1_000_000_000, "").is_valid());
    assert!(with_offset(86_399).is_valid());
    assert!(with_offset(-86_399).is_valid());
    assert!(!with_offset(86_400).is_valid());
    assert!(!with_offset(-86_400).is_valid());
}

#[test]
fn instants_outside_the_span_are_refused() {
    assert!(Instant::new(MIN_UNIX_SECONDS, 0).is_some());
    assert!(Instant::new(MIN_UNIX_SECONDS - 1, 0).is_none());
    assert!(Instant::new(MAX_UNIX_SECONDS, 999_999_999).is_some());
    assert!(Instant::new(MAX_UNIX_SECONDS + 1, 0).is_none());
    assert!(Instant::new(0, 999_999_999).is_some());
    assert!(Instant::new(0, 1_000_000_000).is_none());
    assert!(Instant::new(i64::MIN, 0).is_none());
    assert!(Instant::new(i64::MAX, 0).is_none());
    assert!(Instant::new(0, u32::MAX).is_none());
}

#[test]
fn an_instant_keeps_its_parts() {
    let instant = at(1_715_725_807, 512_345_678);
    assert_eq!(instant.seconds(), 1_715_725_807);
    assert_eq!(instant.nanos(), 512_345_678);
    assert_eq!(instant, at(1_715_725_807, 512_345_678));
    assert_ne!(instant, at(1_715_725_807, 512_345_679));
    let before_epoch = at(-1, 5);
    assert_eq!(before_epoch.seconds(), -1);
    assert_eq!(before_epoch.nanos(), 5);
    assert_eq!(MIN_UNIX_SECONDS, -62_135_596_800);
    assert_eq!(MAX_UNIX_SECONDS, 253_402_300_799);
}

#[test]
fn before_the_epoch() {
    // 1969-12-31T23:59:59.5Z
    let snap = evaluate(at(-1, 500_000_000), &resolve(Some("UTC")));
    assert_eq!(snap.formatted_date, "Wednesday 31 December");
    assert_eq!(snap.formatted_time, "23:59:59.500 UTC");
    assert_eq!(snap.seconds_remaining_today, 1);
}
