use ateam::error::AteamError;
use ateam::pattern::{compile_regex, CompiledRegex};
use ateam::timeutil::{minutes_between, now_epoch_seconds, parse_date_seconds};

#[test]
fn valid_pattern_compiles_and_matches() {
    let c: CompiledRegex = match compile_regex(&Some("^fix".to_string())) {
        Ok(Some(c)) => c,
        _ => panic!("pattern should compile"),
    };
    assert!(c.is_match("fix the bug"));
    assert!(!c.is_match("prefix the bug"));
}

#[test]
fn missing_pattern_compiles_to_nothing() {
    assert!(matches!(compile_regex(&None), Ok(None)));
}

#[test]
fn invalid_pattern_is_reported() {
    match compile_regex(&Some("[".to_string())) {
        Err(AteamError::InvalidRegex { pattern }) => {
            assert_eq!(pattern, "[");
        },
        _ => panic!("an unclosed class must be rejected"),
    }
}

#[test]
fn error_messages() {
    let e = AteamError::InvalidRegex { pattern: "[".to_string() };
    assert_eq!(e.message(), "invalid regular expression");
    assert_eq!(
        AteamError::MissingResponseData { page: 3 }.message(),
        "missing response data"
    );
    assert_eq!(
        AteamError::MissingReviewerData.message(),
        "review request without a readable user"
    );
}

#[test]
fn dates_parse_to_epoch_seconds() {
    assert_eq!(parse_date_seconds("2015-05-15T00:00:00Z"), Some(1431648000));
    assert_eq!(parse_date_seconds("2015-05-15 00:00:00+00:00"), Some(1431648000));
    assert_eq!(parse_date_seconds("not a date"), None);
    assert_eq!(parse_date_seconds(""), None);
}

#[test]
fn ages_come_in_whole_minutes() {
    assert_eq!(minutes_between(0, 3600), 60);
    assert_eq!(minutes_between(0, 119), 1);
    assert_eq!(minutes_between(3600, 0), -60);
    assert_eq!(minutes_between(100, 100), 0);
}

#[test]
fn the_clock_stays_in_calendar_range() {
    let now = now_epoch_seconds();
    assert!(now > -10_000_000_000_000);
    assert!(now < 10_000_000_000_000);
    // this binary was certainly built after 2020
    assert!(now > 1_577_836_800);
}
