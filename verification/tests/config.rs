use ratelimit_bench::config::{CliConfiguration, Configuration};

const SECOND: u128 = 1_000_000_000;

fn cli(duration: Option<&str>) -> CliConfiguration {
    CliConfiguration {
        url: "http://127.0.0.1:8081".to_string(),
        duration: duration.map(|d| d.to_string()),
    }
}

#[test]
fn ten_minutes_without_a_duration() {
    let cfg = Configuration::try_from(cli(None)).unwrap();
    assert_eq!(cfg.url, "http://127.0.0.1:8081");
    assert_eq!(cfg.duration_nanos, 600 * SECOND);
}

#[test]
fn durations_are_parsed() {
    for (text, nanos) in [
        ("10m", 600 * SECOND),
        ("5s", 5 * SECOND),
        ("0s", 0),
        ("42", 42 * SECOND),
        ("1h 30m", 5400 * SECOND),
        ("10 seconds", 10 * SECOND),
        ("1.5s", 1_500_000_000),
        ("250ms", 250_000_000),
        ("3 usecs", 3_000),
        ("30s", 30 * SECOND),
        ("1minute30s", 90 * SECOND),
        ("1 minute 30000 ms", 90 * SECOND),
        ("1e3s", 1000 * SECOND),
        ("1E3s", 1000 * SECOND),
        ("2e+3ms", 2 * SECOND),
        ("5e-1s", 500_000_000),
        ("1.5e3s", 1500 * SECOND),
        ("1e0009ns", SECOND),
        ("1e-9999s", 0),
        ("1e-00001s", 100_000_000),
        ("1e00001s", 10 * SECOND),
        ("0e12345s", 0),
        ("1e-12345s", 0),
        ("1minute30000ms", 90 * SECOND),
    ] {
        let cfg = Configuration::try_from(cli(Some(text))).unwrap();
        assert_eq!(cfg.duration_nanos, nanos, "{}", text);
        assert_eq!(cfg.url, "http://127.0.0.1:8081");
    }
}

#[test]
fn the_error_names_the_text_and_the_reason() {
    assert_eq!(
        Configuration::try_from(cli(Some("abc"))).unwrap_err(),
        "Couldn't parse duration from \"abc\"\n\tNoValueFoundError: no value found in the string \"abc\""
    );
    assert_eq!(
        Configuration::try_from(cli(Some("5 parsecs"))).unwrap_err(),
        "Couldn't parse duration from \"5 parsecs\"\n\tUnknownUnitError: \"parsecs\" is not a known unit"
    );
    assert_eq!(
        Configuration::try_from(cli(Some("1e3x"))).unwrap_err(),
        "Couldn't parse duration from \"1e3x\"\n\tUnknownUnitError: \"x\" is not a known unit"
    );
    assert_eq!(
        Configuration::try_from(cli(Some("5e3"))).unwrap_err(),
        "Couldn't parse duration from \"5e3\"\n\tNoUnitFoundError: no unit found for the value \"5e3\""
    );
    assert_eq!(
        Configuration::try_from(cli(Some(""))).unwrap_err(),
        "Couldn't parse duration from \"\"\n\tNoValueFoundError: no value found in the string \"\""
    );
}

#[test]
fn the_parser_decides_on_exponents() {
    assert_eq!(
        Configuration::try_from(cli(Some("1e99999999999999999999s"))).unwrap_err(),
        "Couldn't parse duration from \"1e99999999999999999999s\"\n\tParseIntError: Failed to parse \"99999999999999999999\" as an integer"
    );
    assert_eq!(
        Configuration::try_from(cli(Some("1e12345s"))).unwrap_err(),
        format!(
            "Couldn't parse duration from \"1e12345s\"\n\tOutOfBoundsError: \"1{}\" cannot be converted to u64",
            "0".repeat(12345)
        )
    );
    assert_eq!(
        Configuration::try_from(cli(Some("-5s"))).unwrap_err(),
        "Couldn't parse duration from \"-5s\"\n\tOutOfBoundsError: \"-5\" cannot be converted to u64"
    );
}

#[test]
fn a_resolved_duration_is_kept() {
    let cfg = Configuration::from_resolved("addr".to_string(), "1s", Ok(SECOND)).unwrap();
    assert_eq!(cfg.url, "addr");
    assert_eq!(cfg.duration_nanos, SECOND);
    assert_eq!(
        Configuration::from_resolved("addr".to_string(), "soon", Err("no".to_string())).unwrap_err(),
        "Couldn't parse duration from \"soon\"\n\tno"
    );
}
