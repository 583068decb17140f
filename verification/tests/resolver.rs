use time_resolver::instant::Instant;
use time_resolver::format::format_readable;
use time_resolver::resolve::produce_time_output;
use time_resolver::{
    validate_output_config, ConfigError, OutputMode, TimeError, TimeZoneChoice,
};

#[test]
fn test_no_input_epoch() {
    let res = produce_time_output(None, OutputMode::Epoch).unwrap();
    let expected = chrono::Utc::now().timestamp_millis();
    assert!(res.parse::<i64>().unwrap() * 1000 <= expected)
}

#[test]
fn test_input_rfc3339_readable() {
    let res = produce_time_output(
        Some("2022-02-02T01:00:00Z"),
        OutputMode::Readable(TimeZoneChoice::Local),
    )
    .unwrap();
    assert_eq!(chrono::DateTime::parse_from_rfc3339(res.as_str()).is_ok(), true);
}

#[test]
fn test_input_local_time() {
    let res = produce_time_output(
        Some("2022-02-02 01:00:00"),
        OutputMode::Readable(TimeZoneChoice::Local),
    )
    .unwrap();
    assert_eq!(chrono::DateTime::parse_from_rfc3339(res.as_str()).is_ok(), true);
}

#[test]
fn test_input_relative() {
    let res = produce_time_output(
        Some("2 hours ago"),
        OutputMode::Readable(TimeZoneChoice::Local),
    )
    .unwrap();
    assert_eq!(chrono::DateTime::parse_from_rfc3339(res.as_str()).is_ok(), true);
}

#[test]
fn epoch_of_unix_origin_is_zero() {
    let res = produce_time_output(Some("1970-01-01T00:00:00Z"), OutputMode::Epoch).unwrap();
    assert_eq!(res, "0");
}

#[test]
fn epoch_of_known_timestamp() {
    let res = produce_time_output(Some("2022-02-02T01:00:00Z"), OutputMode::Epoch).unwrap();
    assert_eq!(res, "1643763600");
}

#[test]
fn epoch_respects_explicit_offset() {
    let res = produce_time_output(Some("2022-02-02T01:00:00+01:00"), OutputMode::Epoch).unwrap();
    assert_eq!(res, "1643760000");
}

#[test]
fn epoch_before_origin_is_negative() {
    let res = produce_time_output(Some("1969-12-31T23:59:59Z"), OutputMode::Epoch).unwrap();
    assert_eq!(res, "-1");
}

#[test]
fn millis_of_known_timestamp() {
    let res = produce_time_output(Some("2022-02-02T01:00:00.5Z"), OutputMode::Millis).unwrap();
    assert_eq!(res, "1643763600500");
}

#[test]
fn readable_preserves_the_instant() {
    let res = produce_time_output(
        Some("2022-02-02T01:00:00Z"),
        OutputMode::Readable(TimeZoneChoice::Utc),
    )
    .unwrap();
    let back = chrono::DateTime::parse_from_rfc3339(res.as_str()).unwrap();
    assert_eq!(back.timestamp(), 1643763600);
}

#[test]
fn readable_truncates_to_100ms() {
    let res = produce_time_output(
        Some("2022-02-02T01:00:00.987654321Z"),
        OutputMode::Readable(TimeZoneChoice::Utc),
    )
    .unwrap();
    let back = chrono::DateTime::parse_from_rfc3339(res.as_str()).unwrap();
    assert_eq!(back.timestamp(), 1643763600);
    assert_eq!(back.timestamp_subsec_millis(), 900);
}

#[test]
fn relative_ago_is_about_two_hours_back() {
    let now = chrono::Utc::now().timestamp();
    let res = produce_time_output(Some("2 hours ago"), OutputMode::Epoch).unwrap();
    let v = res.parse::<i64>().unwrap();
    let diff = now - 7200 - v;
    assert!(-5 <= diff && diff <= 5);
}

#[test]
fn relative_later_is_about_ten_seconds_ahead() {
    let now = chrono::Utc::now().timestamp();
    let res = produce_time_output(Some("10 seconds later"), OutputMode::Epoch).unwrap();
    let v = res.parse::<i64>().unwrap();
    let diff = now + 10 - v;
    assert!(-5 <= diff && diff <= 5);
}

#[test]
fn unparseable_input_is_a_parse_error() {
    let res = produce_time_output(Some("not a date"), OutputMode::Epoch);
    assert_eq!(res, Err(TimeError::InputParse));
}

#[test]
fn ambiguous_local_lookup_fails_resolution() {
    let c = time_resolver::civil::Civil {
        year: 2022,
        month: 11,
        day: 6,
        hour: 1,
        minute: 30,
        second: 0,
    };
    let res = time_resolver::resolve::local_civil_to_instant(&c, None);
    assert_eq!(res, Err(TimeError::InputParse));
}

#[test]
fn readable_beyond_year_9999_is_a_format_error() {
    let res = produce_time_output(
        Some("9999-12-31T23:59:59-23:00"),
        OutputMode::Readable(TimeZoneChoice::Utc),
    );
    assert_eq!(res, Err(TimeError::FormatRange));
}

#[test]
fn format_readable_rejects_out_of_range_instants() {
    let far = Instant::new(8_999_999_999_999, 0);
    assert!(format_readable(&far, 0).is_none());
    let early = Instant::new(-8_999_999_999_999, 0);
    assert!(format_readable(&early, 0).is_none());
}

#[test]
fn format_readable_renders_utc_midnight() {
    let origin = Instant::new(0, 0);
    let out = format_readable(&origin, 0).unwrap();
    assert_eq!(out, "1970-01-01T00:00:00+00:00");
}

#[test]
fn format_readable_renders_fraction_and_offset() {
    let t = Instant::new(1643763600, 500_000_000);
    let out = format_readable(&t, 3600).unwrap();
    assert_eq!(out, "2022-02-02T02:00:00.500+01:00");
}

#[test]
fn truncation_keeps_the_100ms_floor() {
    let t = Instant::new(5, 987_654_321).truncate_100ms();
    assert_eq!(t, Instant::new(5, 900_000_000));
    let u = Instant::new(-3, 49_999_999).truncate_100ms();
    assert_eq!(u, Instant::new(-3, 0));
}

#[test]
fn epoch_fields_truncate_toward_negative_infinity() {
    let t = Instant::new(1, 999_999_999);
    assert_eq!(t.epoch_secs(), 1);
    assert_eq!(t.epoch_millis(), 1999);
    let u = Instant::new(-1, 500_000_000);
    assert_eq!(u.epoch_secs(), -1);
    assert_eq!(u.epoch_millis(), -500);
}

#[test]
fn validate_requires_exactly_one_mode() {
    assert_eq!(
        validate_output_config(false, false, false, None),
        Err(ConfigError::NoModeChosen)
    );
    assert_eq!(
        validate_output_config(true, true, false, None),
        Err(ConfigError::MultipleModes)
    );
    assert_eq!(validate_output_config(true, false, false, None), Ok(OutputMode::Epoch));
    assert_eq!(validate_output_config(false, true, false, None), Ok(OutputMode::Millis));
}

#[test]
fn validate_readable_requires_timezone_choice() {
    assert_eq!(
        validate_output_config(false, false, true, None),
        Err(ConfigError::MissingTimeZone)
    );
    assert_eq!(
        validate_output_config(false, false, true, Some(TimeZoneChoice::Utc)),
        Ok(OutputMode::Readable(TimeZoneChoice::Utc))
    );
}

#[test]
fn validate_rejects_timezone_without_readable() {
    assert_eq!(
        validate_output_config(true, false, false, Some(TimeZoneChoice::Local)),
        Err(ConfigError::UnexpectedTimeZone)
    );
}

#[test]
fn space_separator_with_offset_reads_as_rfc3339() {
    let res = produce_time_output(Some("2022-02-02 01:00:00+01:00"), OutputMode::Epoch).unwrap();
    assert_eq!(res, "1643760000");
}

#[test]
fn leap_second_timestamp_is_rejected() {
    let res = produce_time_output(Some("1990-12-31T23:59:60Z"), OutputMode::Epoch);
    assert_eq!(res, Err(TimeError::InputParse));
}

#[test]
fn rfc3339_without_offset_is_rejected() {
    let res = produce_time_output(Some("2022-02-02T01:00:00"), OutputMode::Epoch);
    assert_eq!(res, Err(TimeError::InputParse));
}

#[test]
fn invalid_calendar_day_is_rejected() {
    let res = produce_time_output(Some("2022-02-29T01:00:00Z"), OutputMode::Epoch);
    assert_eq!(res, Err(TimeError::InputParse));
}

#[test]
fn leap_day_of_leap_year_is_accepted() {
    let res = produce_time_output(Some("2020-02-29T00:00:00Z"), OutputMode::Epoch).unwrap();
    assert_eq!(res, "1582934400");
}
