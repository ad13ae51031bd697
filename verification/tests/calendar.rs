use bonding_core::calendar::{
    checked_term_end, get_date_from_timestamp, get_midnight_timestamp, SECONDS_IN_A_DAY,
};
use bonding_core::dates::{civil_date, date_string, date_to_bytes, is_leap_year, CivilDate};
use bonding_core::mushi_program::utils::{
    get_date_string_from_timestamp, get_liquidation_date_string,
};
use bonding_core::mushi_program::MushiProgramError;

#[test]
fn a_day_has_86400_seconds() {
    assert_eq!(SECONDS_IN_A_DAY, 86_400);
}

#[test]
fn the_start_of_the_day_is_at_or_before_the_timestamp() {
    assert_eq!(get_date_from_timestamp(1_700_000_000), 1_699_920_000);
    assert_eq!(get_date_from_timestamp(1_699_920_000), 1_699_920_000);
    assert_eq!(get_date_from_timestamp(86_399), 0);
    assert_eq!(get_date_from_timestamp(0), 0);
    assert_eq!(get_date_from_timestamp(-1), -86_400);
}

#[test]
fn the_next_midnight_is_after_the_timestamp() {
    assert_eq!(get_midnight_timestamp(1_700_000_000), 1_700_006_400);
    assert_eq!(get_midnight_timestamp(1_700_006_399), 1_700_006_400);
    assert_eq!(get_midnight_timestamp(1_700_006_400), 1_700_092_800);
    assert_eq!(get_midnight_timestamp(0), 86_400);
}

#[test]
fn a_term_ends_on_the_midnight_after_its_last_second() {
    assert_eq!(checked_term_end(1_700_000_000, 0), Some(1_700_006_400));
    assert_eq!(checked_term_end(1_700_000_000, 10), Some(1_700_870_400));
    assert_eq!(checked_term_end(1_700_000_000, 365), Some(1_731_542_400));
    assert_eq!(checked_term_end(i64::MAX, 0), None);
    assert_eq!(checked_term_end(0, u64::MAX), None);
    assert_eq!(checked_term_end(i64::MAX - 86_400, 0), Some(i64::MAX - i64::MAX % 86_400));
}

#[test]
fn leap_years_follow_the_gregorian_rule() {
    assert!(is_leap_year(2024));
    assert!(is_leap_year(2000));
    assert!(!is_leap_year(1900));
    assert!(!is_leap_year(2023));
    assert!(!is_leap_year(2100));
    assert!(is_leap_year(1972));
}

#[test]
fn timestamps_have_their_calendar_date() {
    assert_eq!(civil_date(0), Some(CivilDate { year: 1970, month: 1, day: 1 }));
    assert_eq!(civil_date(86_399), Some(CivilDate { year: 1970, month: 1, day: 1 }));
    assert_eq!(civil_date(86_400), Some(CivilDate { year: 1970, month: 1, day: 2 }));
    assert_eq!(civil_date(1_700_000_000), Some(CivilDate { year: 2023, month: 11, day: 14 }));
    assert_eq!(civil_date(1_709_164_800), Some(CivilDate { year: 2024, month: 2, day: 29 }));
    assert_eq!(civil_date(1_709_251_200), Some(CivilDate { year: 2024, month: 3, day: 1 }));
    assert_eq!(civil_date(1_735_689_599), Some(CivilDate { year: 2024, month: 12, day: 31 }));
    assert_eq!(civil_date(1_735_689_600), Some(CivilDate { year: 2025, month: 1, day: 1 }));
    assert_eq!(civil_date(951_782_400), Some(CivilDate { year: 2000, month: 2, day: 29 }));
    assert_eq!(civil_date(-1), None);
}

#[test]
fn dates_are_written_with_leading_zeros() {
    assert_eq!(date_string(0), Some("1970-01-01".to_string()));
    assert_eq!(date_string(1_700_000_000), Some("2023-11-14".to_string()));
    assert_eq!(date_string(1_709_164_800), Some("2024-02-29".to_string()));
    assert_eq!(date_string(-5), None);
    assert_eq!(get_date_string_from_timestamp(1_700_006_400), Ok("2023-11-15".to_string()));
    assert_eq!(get_liquidation_date_string(1_735_689_600), Ok("2025-01-01".to_string()));
    assert_eq!(get_date_string_from_timestamp(-1), Err(MushiProgramError::InvalidInput));
}

#[test]
fn a_date_is_named_by_its_bytes_lowest_first() {
    assert_eq!(date_to_bytes(0), [0u8; 8]);
    assert_eq!(date_to_bytes(1), [1, 0, 0, 0, 0, 0, 0, 0]);
    assert_eq!(date_to_bytes(1_700_006_400), 1_700_006_400i64.to_le_bytes());
    assert_eq!(date_to_bytes(-1), [255u8; 8]);
    assert_eq!(date_to_bytes(i64::MIN), i64::MIN.to_le_bytes());
    assert_eq!(date_to_bytes(i64::MAX), i64::MAX.to_le_bytes());
    assert_eq!(date_to_bytes(0x0102_0304_0506_0708), [8, 7, 6, 5, 4, 3, 2, 1]);
}
