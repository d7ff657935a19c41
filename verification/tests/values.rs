use sned_server::fresh::{generate_authenticator_value, Fresh, AUTHENTICATOR_LEN};
use sned_server::settings::Settings;
use sned_server::time::{generate_timestamp, now, Timestamp, FIRST_SECOND, LAST_SECOND};

fn at(secs: i64, nanos: u32) -> Timestamp {
    Timestamp { secs, nanos }
}

#[test]
fn seconds_are_added() {
    let noon = at(1_600_000_000, 250_000_000);
    assert_eq!(noon.plus_seconds(300), Some(at(1_600_000_300, 250_000_000)));
    assert_eq!(noon.plus_seconds(-1_600_000_001), Some(at(-1, 250_000_000)));
    assert_eq!(noon.plus_seconds(0), Some(noon));
}

#[test]
fn minutes_are_sixty_seconds() {
    let noon = at(1_600_000_000, 7);
    assert_eq!(noon.plus_minutes(90), Some(at(1_600_005_400, 7)));
    assert_eq!(noon.plus_minutes(-1), Some(at(1_599_999_940, 7)));
}

#[test]
fn the_calendar_ends() {
    assert_eq!(at(LAST_SECOND - 1, 0).plus_seconds(1), Some(at(LAST_SECOND, 0)));
    assert_eq!(at(LAST_SECOND, 0).plus_seconds(1), None);
    assert_eq!(at(FIRST_SECOND + 1, 5).plus_seconds(-1), Some(at(FIRST_SECOND, 5)));
    assert_eq!(at(FIRST_SECOND, 5).plus_seconds(-1), None);
    assert_eq!(at(LAST_SECOND + 1, 0).plus_seconds(-10), None);
    assert_eq!(at(FIRST_SECOND - 1, 0).plus_seconds(10), None);
    assert_eq!(at(0, 1_000_000_000).plus_seconds(1), None);
    assert_eq!(at(0, 0).plus_seconds(i64::MAX), None);
    assert_eq!(at(0, 0).plus_seconds(i64::MIN), None);
    assert_eq!(at(0, 0).plus_minutes(i64::MAX), None);
    assert_eq!(at(0, 0).plus_minutes(i64::MIN), None);
    assert_eq!(at(0, 0).plus_minutes(LAST_SECOND / 60), Some(at(LAST_SECOND - 59, 0)));
    assert_eq!(at(0, 0).plus_minutes(LAST_SECOND / 60 + 1), None);
}

#[test]
fn earlier_times_come_before() {
    assert!(at(1, 0).before(at(2, 0)));
    assert!(at(1, 0).before(at(1, 1)));
    assert!(!at(1, 1).before(at(1, 1)));
    assert!(!at(2, 0).before(at(1, 999_999_999)));
}

#[test]
fn the_clock_shows_a_plausible_time() {
    let precise = generate_timestamp();
    let coarse = now();
    assert!(precise.secs > 1_600_000_000);
    assert!(precise.nanos < 1_000_000_000);
    assert_eq!(coarse.nanos, 0);
    assert!((coarse.secs - precise.secs).abs() <= 2);
}

#[test]
fn authenticators_are_random_letters_and_digits() {
    let one = generate_authenticator_value();
    let other = generate_authenticator_value();
    assert_eq!(one.len(), AUTHENTICATOR_LEN);
    assert_eq!(AUTHENTICATOR_LEN, 16);
    assert!(one.chars().all(|c| c.is_ascii_alphanumeric()));
    assert_ne!(one, other);
}

#[test]
fn what_is_drawn_is_well_formed() {
    let fresh = Fresh::draw();
    let other = Fresh::draw();
    assert_ne!(fresh.id, other.id);
    assert_eq!(fresh.id.len(), 36);
    for (i, c) in fresh.id.chars().enumerate() {
        if i == 8 || i == 13 || i == 18 || i == 23 {
            assert_eq!(c, '-');
        } else {
            assert!(c.is_ascii_digit() || ('a'..='f').contains(&c));
        }
    }
    assert_eq!(fresh.id.chars().nth(14), Some('4'));
    assert_eq!(fresh.authenticator.len(), 16);
    assert_eq!(fresh.now.nanos, 0);
}

fn settings(value: Option<&str>) -> Settings {
    let text = value.map(|s| s.to_string());
    Settings {
        storage_dir: text.clone(),
        require_approval: text.clone(),
        default_file_lifetime_mins: text.clone(),
        default_quota_bytes: text,
    }
}

#[test]
fn numbers_in_settings_are_read() {
    assert_eq!(settings(Some("1048576")).quota_bytes(), Some(1_048_576));
    assert_eq!(settings(Some("+5")).lifetime_mins(), Some(5));
    assert_eq!(settings(Some("-5")).lifetime_mins(), Some(-5));
    assert_eq!(settings(Some("007")).quota_bytes(), Some(7));
    assert_eq!(settings(Some("9223372036854775807")).quota_bytes(), Some(i64::MAX));
    assert_eq!(settings(Some("9223372036854775808")).quota_bytes(), None);
    assert_eq!(settings(Some("-9223372036854775808")).quota_bytes(), Some(i64::MIN));
    assert_eq!(settings(Some("")).quota_bytes(), None);
    assert_eq!(settings(Some("-")).quota_bytes(), None);
    assert_eq!(settings(Some("+")).quota_bytes(), None);
    assert_eq!(settings(Some("--1")).quota_bytes(), None);
    assert_eq!(settings(Some("1 ")).quota_bytes(), None);
    assert_eq!(settings(Some("1k")).quota_bytes(), None);
    assert_eq!(settings(None).quota_bytes(), None);
    assert_eq!(settings(None).lifetime_mins(), None);
}

#[test]
fn approval_is_read() {
    assert_eq!(settings(Some("true")).approval_required(), Some(true));
    assert_eq!(settings(Some("false")).approval_required(), Some(false));
    assert_eq!(settings(Some("yes")).approval_required(), None);
    assert_eq!(settings(None).approval_required(), None);
}
