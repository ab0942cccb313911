use ratelimit_bench::report::{push_millis, summary_line, Summary};
use ratelimit_bench::text::{div_ceil, push_decimal, push_fixed_point, push_repeated, push_zero_padded};

fn float_line(label: &str, s: &Summary) -> String {
    format!(
        "{}: hits: {}, mean: {:.3}ms, p50: {:.3}ms, p90: {:.3}ms, p99: {:.3}ms, p999: {:.3}ms, max: {:.3}ms",
        label,
        s.hits,
        s.mean_micros as f64 / 1_000.0,
        s.p50_micros as f64 / 1_000.0,
        s.p90_micros as f64 / 1_000.0,
        s.p99_micros as f64 / 1_000.0,
        s.p999_micros as f64 / 1_000.0,
        s.max_micros as f64 / 1_000.0,
    )
}

#[test]
fn summary_line_of_equal_samples() {
    let s = Summary {
        hits: 100,
        mean_micros: 1002,
        p50_micros: 1003,
        p90_micros: 1003,
        p99_micros: 1003,
        p999_micros: 1003,
        max_micros: 1003,
    };
    assert_eq!(
        summary_line("Ok", &s),
        "Ok: hits: 100, mean: 1.002ms, p50: 1.003ms, p90: 1.003ms, p99: 1.003ms, p999: 1.003ms, max: 1.003ms"
    );
}

#[test]
fn summary_line_of_an_empty_histogram() {
    let s = Summary {
        hits: 0,
        mean_micros: 0,
        p50_micros: 0,
        p90_micros: 0,
        p99_micros: 0,
        p999_micros: 0,
        max_micros: 0,
    };
    assert_eq!(
        summary_line("Overall", &s),
        "Overall: hits: 0, mean: 0.000ms, p50: 0.000ms, p90: 0.000ms, p99: 0.000ms, p999: 0.000ms, max: 0.000ms"
    );
}

#[test]
fn summary_line_matches_float_formatting() {
    let mut v = 3u64;
    for _ in 0..200 {
        let mut next = || {
            v = (v * 48_271) % 2_147_483_647;
            v % 6_000_000
        };
        let s = Summary {
            hits: next(),
            mean_micros: next(),
            p50_micros: next(),
            p90_micros: next(),
            p99_micros: next(),
            p999_micros: next(),
            max_micros: next(),
        };
        assert_eq!(summary_line("Current", &s), float_line("Current", &s));
    }
}

#[test]
fn millis_have_three_decimals() {
    for (micros, text) in [
        (0u64, "0.000"),
        (1, "0.001"),
        (20, "0.020"),
        (999, "0.999"),
        (1000, "1.000"),
        (1234, "1.234"),
        (5_000_000, "5000.000"),
        (u64::MAX, "18446744073709551.615"),
    ] {
        let mut out = String::new();
        push_millis(&mut out, micros);
        assert_eq!(out, text);
    }
}

#[test]
fn decimal_digits() {
    for n in [0u128, 7, 10, 99, 100, 12_345, u64::MAX as u128, u128::MAX] {
        let mut out = String::from("n=");
        push_decimal(&mut out, n);
        assert_eq!(out, format!("n={}", n));
    }
}

#[test]
fn zero_padded_digits() {
    let mut out = String::new();
    push_zero_padded(&mut out, 7, 3);
    assert_eq!(out, "007");
    push_zero_padded(&mut out, 12_345, 2);
    assert_eq!(out, "00745");
    push_zero_padded(&mut out, 9, 0);
    assert_eq!(out, "00745");
}

#[test]
fn fixed_point_figures() {
    for (n, places, text) in [
        (0u128, 0u8, "0."),
        (5, 1, "0.5"),
        (1000, 1, "100.0"),
        (1004, 2, "10.04"),
        (7, 2, "0.07"),
        (123_456, 3, "123.456"),
        (123_456, 5, "1.23456"),
        (123_456, 8, "0.00123456"),
        (u128::MAX, 38, "3.40282366920938463463374607431768211455"),
        (u128::MAX, 39, "0.340282366920938463463374607431768211455"),
        (7, 50, "0.00000000000000000000000000000000000000000000000007"),
    ] {
        let mut out = String::new();
        push_fixed_point(&mut out, n, places);
        assert_eq!(out, text);
    }
}

#[test]
fn repeated_characters() {
    let mut out = String::from("|");
    push_repeated(&mut out, "*", 3);
    push_repeated(&mut out, " ", 2);
    push_repeated(&mut out, "*", 0);
    assert_eq!(out, "|***  ");
}

#[test]
fn rounding_up() {
    assert_eq!(div_ceil(0, 100), 0);
    assert_eq!(div_ceil(1, 100), 1);
    assert_eq!(div_ceil(100, 100), 1);
    assert_eq!(div_ceil(101, 100), 2);
    assert_eq!(div_ceil(80 * 80, 100), 64);
    assert_eq!(div_ceil(80, 3), 27);
}
