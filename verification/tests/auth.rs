use std::collections::HashSet;
use std::str::FromStr;

use expiring_keys::auth::{
    generate, verify, AuthError, ExpiringKey, Key, ParseKeyError, AUTH_KEY_LENGTH,
    MAX_RENDERABLE_SECS,
};
use expiring_keys::clock::{Clock, ClockError, Duration};

#[test]
fn auth_key_from_string() {
    let key_string = "YZSl4lMZupRuOpSRC3krIKR5BPB14nrJ";
    let auth_key = Key::from_str(key_string);

    assert!(auth_key.is_ok());
    assert_eq!(auth_key.unwrap().as_str(), key_string);
}

#[test]
fn generate_valid_auth_key() {
    let clock = Clock::System;
    let auth_key = generate(&clock, Duration::new(9999, 0)).unwrap();

    assert!(verify(&auth_key, &clock).is_ok());
}

#[test]
fn generate_and_check_expired_auth_key() {
    // Set the time to the current time.
    let mut clock = Clock::System;
    clock.set_to_system_time();

    // Make key that is valid for 19 seconds.
    let auth_key = generate(&clock, Duration::from_secs(19)).unwrap();

    // Mock the time has passed 10 sec.
    clock.advance(&Duration::from_secs(10)).unwrap();

    assert!(verify(&auth_key, &clock).is_ok());

    // Mock the time has passed another 10 sec.
    clock.advance(&Duration::from_secs(10)).unwrap();

    assert!(verify(&auth_key, &clock).is_err());
}

#[test]
fn parse_accepts_exact_length_and_round_trips() {
    let candidate = "0123456789abcdefghijABCDEFGHIJxy";
    assert_eq!(candidate.len(), AUTH_KEY_LENGTH);

    let key = Key::parse(candidate).unwrap();
    assert_eq!(key.as_str(), candidate);
}

#[test]
fn parse_rejects_wrong_length() {
    let too_short = "0123456789abcdefghijABCDEFGHIJx";
    let too_long = "0123456789abcdefghijABCDEFGHIJxyz";

    assert_eq!(Key::parse("").unwrap_err(), ParseKeyError::WrongLength);
    assert_eq!(Key::parse(too_short).unwrap_err(), ParseKeyError::WrongLength);
    assert_eq!(Key::parse(too_long).unwrap_err(), ParseKeyError::WrongLength);
}

#[test]
fn verify_is_inclusive_at_the_boundary() {
    let mut clock = Clock::Stopped { instant: Duration::from_secs(1000) };
    let auth_key = generate(&clock, Duration::from_secs(19)).unwrap();

    // Exactly at `valid_until` the key still verifies.
    clock.advance(&Duration::from_secs(19)).unwrap();
    assert!(verify(&auth_key, &clock).is_ok());

    // One nanosecond past `valid_until` it is expired.
    clock.advance(&Duration::new(0, 1)).unwrap();
    let expired = verify(&auth_key, &clock).unwrap_err();
    assert!(matches!(expired, AuthError::KeyExpired { .. }));
}

#[test]
fn generate_overflow_is_reported_not_truncated() {
    let clock = Clock::Stopped { instant: Duration::new(u64::MAX, 999_999_999) };

    let result = generate(&clock, Duration::from_secs(1));
    assert_eq!(result.unwrap_err(), ClockError::Overflow);
}

#[test]
fn clock_add_at_the_edge_of_the_range() {
    let clock = Clock::Stopped { instant: Duration::new(u64::MAX, 999_999_998) };

    let reached = clock.add(&Duration::new(0, 1)).unwrap();
    assert_eq!(reached.as_secs(), u64::MAX);
    assert_eq!(reached.subsec_nanos(), 999_999_999);

    assert_eq!(clock.add(&Duration::new(0, 2)).unwrap_err(), ClockError::Overflow);
}

#[test]
fn stopped_clock_advance_returns_the_new_instant() {
    let mut clock = Clock::Stopped { instant: Duration::from_secs(5) };

    let advanced = clock.advance(&Duration::new(3, 250)).unwrap();
    assert_eq!(advanced.as_secs(), 8);
    assert_eq!(advanced.subsec_nanos(), 250);

    // A failed advance leaves the stored instant unchanged.
    let overflow = clock.advance(&Duration::from_secs(u64::MAX));
    assert_eq!(overflow.unwrap_err(), ClockError::Overflow);
    assert_eq!(clock.now().as_secs(), 8);
}

#[test]
fn system_clock_advance_leaves_the_mode_alone() {
    let mut clock = Clock::System;

    assert!(clock.advance(&Duration::from_secs(1)).is_ok());
    assert!(matches!(clock, Clock::System));
}

#[test]
fn set_switches_to_the_given_instant() {
    let mut clock = Clock::System;
    clock.set(Duration::from_secs(42));

    assert_eq!(clock.now().as_secs(), 42);
    assert_eq!(clock.now().subsec_nanos(), 0);
}

#[test]
fn generated_keys_have_the_fixed_format() {
    let key = Key::generate_random();
    let rendered = key.as_str();

    assert_eq!(rendered.chars().count(), AUTH_KEY_LENGTH);
    assert!(rendered.chars().all(|c| c.is_ascii_alphanumeric()));
}

#[test]
fn generated_keys_are_independent() {
    let mut seen: HashSet<String> = HashSet::new();
    for _ in 0..1000 {
        let key = Key::generate_random();
        seen.insert(key.as_str().to_string());
    }

    assert_eq!(seen.len(), 1000);
}

#[test]
fn id_returns_the_token() {
    let clock = Clock::Stopped { instant: Duration::from_secs(0) };
    let auth_key = generate(&clock, Duration::from_secs(1)).unwrap();

    assert_eq!(auth_key.id().as_str(), auth_key.key.as_str());

    let copy = auth_key.clone();
    assert_eq!(copy, auth_key);
}

#[test]
fn display_renders_token_and_utc_timestamp() {
    let key = Key::parse("YZSl4lMZupRuOpSRC3krIKR5BPB14nrJ").unwrap();
    let auth_key = ExpiringKey { key, valid_until: Duration::from_secs(1431648000) };

    assert_eq!(
        auth_key.display_string().unwrap(),
        "key: `YZSl4lMZupRuOpSRC3krIKR5BPB14nrJ`, valid until `2015-05-15 00:00:00 UTC`"
    );
}

#[test]
fn display_covers_the_whole_calendar_and_no_more() {
    let key = Key::parse("YZSl4lMZupRuOpSRC3krIKR5BPB14nrJ").unwrap();

    let last = ExpiringKey {
        key: key.clone(),
        valid_until: Duration::from_secs(MAX_RENDERABLE_SECS),
    };
    assert_eq!(
        last.display_string().unwrap(),
        "key: `YZSl4lMZupRuOpSRC3krIKR5BPB14nrJ`, valid until `+262142-12-31 23:59:59 UTC`"
    );

    let beyond = ExpiringKey {
        key,
        valid_until: Duration::from_secs(MAX_RENDERABLE_SECS + 1),
    };
    assert!(beyond.display_string().is_none());
}

#[test]
fn storage_errors_are_wrapped_with_their_cause() {
    let driver_error = r2d2_sqlite::rusqlite::Error::QueryReturnedNoRows;
    let wrapped = AuthError::from(driver_error);

    assert!(matches!(
        wrapped,
        AuthError::KeyVerificationError { source: r2d2_sqlite::rusqlite::Error::QueryReturnedNoRows }
    ));
}
