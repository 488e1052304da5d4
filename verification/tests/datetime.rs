use slack_morphism::models::blocks::datetime::{fmt_slack_date, fmt_slack_date_parts, SlackDateTimeFormats};
use slack_morphism::models::common::datetime::{
    from_unix_seconds_micros, parse_civil_date, to_rfc2822, unix_seconds, SlackUtcDateTime,
};
use slack_morphism::models::common::{SlackDate, SlackTextFormat, SlackTs};

const EXPECTED_FALLBACK: &str = "Wed, 1 Jan 2020 00:42:42 +0000";

fn test_date_time() -> SlackUtcDateTime {
    let ts: jiff::Timestamp = "2020-01-01T00:42:42Z".parse().unwrap();
    SlackUtcDateTime::new(ts.as_second(), ts.subsec_nanosecond()).unwrap()
}

#[test]
fn test_fmt_slack_date() {
    let dt = test_date_time();
    assert_eq!(
        fmt_slack_date(&dt, SlackDateTimeFormats::DatePretty.to_string().as_str(), None),
        format!("<!date^1577839362^{{date_pretty}}|{EXPECTED_FALLBACK}>")
    );
}

#[test]
fn test_fmt_slack_date_with_link() {
    let dt = test_date_time();
    assert_eq!(
        fmt_slack_date(
            &dt,
            SlackDateTimeFormats::DateNum.to_string().as_str(),
            Some(&"https://example.net/".to_string())
        ),
        format!("<!date^1577839362^{{date_num}}^https://example.net/|{EXPECTED_FALLBACK}>")
    );
}

#[test]
fn date_time_slack_format_is_the_pretty_date() {
    let dt = test_date_time();
    assert_eq!(dt.to_slack_format(), format!("<!date^1577839362^{{date_pretty}}|{EXPECTED_FALLBACK}>"));
}

#[test]
fn fmt_slack_date_parts_of_negative_timestamps() {
    assert_eq!(
        fmt_slack_date_parts(-5, "fallback", "{time}", None),
        "<!date^-5^{time}|fallback>"
    );
}

#[test]
fn format_tokens() {
    assert_eq!(SlackDateTimeFormats::DateNum.to_string(), "{date_num}");
    assert_eq!(SlackDateTimeFormats::Date.to_string(), "{date}");
    assert_eq!(SlackDateTimeFormats::DateShort.to_string(), "{date_short}");
    assert_eq!(SlackDateTimeFormats::DateLong.to_string(), "{date_long}");
    assert_eq!(SlackDateTimeFormats::DatePretty.to_string(), "{date_pretty}");
    assert_eq!(SlackDateTimeFormats::DateShortPretty.to_string(), "{date_short_pretty}");
    assert_eq!(SlackDateTimeFormats::DateLongPretty.to_string(), "{date_long_pretty}");
    assert_eq!(SlackDateTimeFormats::Time.to_string(), "{time}");
    assert_eq!(SlackDateTimeFormats::TimeSecs.to_string(), "{time_secs}");
}

#[test]
fn rfc2822_and_seconds() {
    let dt = test_date_time();
    assert_eq!(to_rfc2822(&dt), EXPECTED_FALLBACK);
    assert_eq!(unix_seconds(&dt), 1577839362);
}

#[test]
fn test_slack_ts_to_date_time_with_micros() {
    let ts = SlackTs("1577839362.000400".to_string());
    let dt = ts.to_date_time_opt().unwrap();

    assert_eq!(unix_seconds(&dt), 1577839362);
    assert_eq!(Some(dt), from_unix_seconds_micros(1577839362, 400));
    assert_ne!(Some(dt), from_unix_seconds_micros(1577839362, 0));
}

#[test]
fn test_slack_ts_to_date_time_without_fraction() {
    let ts = SlackTs("1577839362".to_string());
    let dt = ts.to_date_time_opt().unwrap();

    assert_eq!(unix_seconds(&dt), 1577839362);
    assert_eq!(Some(dt), from_unix_seconds_micros(1577839362, 0));
}

#[test]
fn test_slack_ts_to_date_time_invalid() {
    assert_eq!(SlackTs("garbage".to_string()).to_date_time_opt(), None);
}

#[test]
fn slack_ts_fraction_is_read_as_six_digits() {
    let short = SlackTs("10.5".to_string()).to_date_time_opt().unwrap();
    assert_eq!(short.subsec_nanosecond(), 500_000_000);
    let long = SlackTs("10.1234567".to_string()).to_date_time_opt().unwrap();
    assert_eq!(long.subsec_nanosecond(), 123_456_000);
    assert_eq!(SlackTs("10.x".to_string()).to_date_time_opt(), None);
    let before_epoch = SlackTs("-1.5".to_string()).to_date_time_opt().unwrap();
    assert_eq!((before_epoch.as_second(), before_epoch.subsec_nanosecond()), (0, -500_000_000));
}

#[test]
fn test_slack_date_to_naive_date() {
    assert!(SlackDate("2020-01-01".to_string()).to_naive_date().is_some());
    assert_eq!(SlackDate("2020-13-01".to_string()).to_naive_date(), None);
    assert_eq!(SlackDate("garbage".to_string()).to_naive_date(), None);
}

#[test]
fn civil_dates_keep_their_fields() {
    let date = parse_civil_date("2024-02-29").unwrap();
    assert_eq!((date.year(), date.month(), date.day()), (2024, 2, 29));
    assert_eq!(parse_civil_date("2023-02-29"), None);
}

#[test]
fn timestamps_out_of_range_are_refused() {
    assert_eq!(SlackUtcDateTime::new(253402207201, 0), None);
    assert!(SlackUtcDateTime::new(253402207200, 0).is_some());
    assert_eq!(from_unix_seconds_micros(0, 999_999).map(|d| d.subsec_nanosecond()), Some(999_999_000));
    assert_eq!(from_unix_seconds_micros(0, 1_000_000), None);
    assert_eq!(from_unix_seconds_micros(0, 2_147_484), None);
}
