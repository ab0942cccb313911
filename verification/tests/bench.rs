use ratelimit_bench::bench::{Action, Bench, Event, Fault, Phase, PERIOD_NANOS};
use ratelimit_bench::outcome::InvalidCode;
use ratelimit_bench::recorder::{RecordOutOfRange, Series};
use ratelimit_bench::report::summary_line;

const SECOND: u128 = 1_000_000_000;

#[test]
fn period_is_one_second() {
    assert_eq!(PERIOD_NANOS, SECOND);
}

#[test]
fn a_run_of_no_duration_issues_no_request() {
    let mut b = Bench::new(0);
    assert_eq!(b.phase(), Phase::Running);
    assert_eq!(b.step(Event::Clock { now_nanos: 0 }), Action::Finish);
    assert_eq!(b.phase(), Phase::Done);
    let r = b.recorder();
    for (label, series) in [
        ("Ok", Series::Okay),
        ("OverLimit", Series::OverLimit),
        ("Unknown", Series::Unknown),
        ("Overall", Series::Overall),
    ] {
        assert_eq!(r.hits(series), 0);
        let line = summary_line(label, &r.summary(series, 0, 0));
        assert_eq!(
            line,
            format!(
                "{}: hits: 0, mean: 0.000ms, p50: 0.000ms, p90: 0.000ms, p99: 0.000ms, p999: 0.000ms, max: 0.000ms",
                label
            )
        );
    }
    assert!(r.chart().is_none());
}

#[test]
fn a_request_is_due_while_time_is_left() {
    let mut b = Bench::new(10 * SECOND);
    assert_eq!(b.step(Event::Clock { now_nanos: 0 }), Action::Issue);
    assert_eq!(b.step(Event::Clock { now_nanos: 10 * SECOND - 1 }), Action::Issue);
    assert_eq!(b.phase(), Phase::Running);
    assert_eq!(b.step(Event::Clock { now_nanos: 10 * SECOND }), Action::Finish);
    assert_eq!(b.phase(), Phase::Done);
}

#[test]
fn a_finished_run_ignores_events() {
    let mut b = Bench::new(SECOND);
    assert_eq!(b.step(Event::Clock { now_nanos: 2 * SECOND }), Action::Finish);
    for event in [
        Event::Clock { now_nanos: 0 },
        Event::Response { code: 1, latency_micros: 10, now_nanos: 3 * SECOND },
        Event::Failure,
        Event::Reported { now_nanos: 3 * SECOND },
    ] {
        assert_eq!(b.step(event), Action::Stop);
        assert_eq!(b.phase(), Phase::Done);
        assert_eq!(b.recorder().hits(Series::Overall), 0);
    }
}

#[test]
fn a_hundred_answers_within_the_limit() {
    let mut b = Bench::new(600 * SECOND);
    for i in 0..100u128 {
        assert_eq!(b.step(Event::Clock { now_nanos: i * 1000 }), Action::Issue);
        assert_eq!(
            b.step(Event::Response { code: 1, latency_micros: 1000, now_nanos: i * 1000 + 500 }),
            Action::Continue
        );
    }
    let r = b.recorder();
    assert_eq!(r.hits(Series::Okay), 100);
    assert_eq!(r.hits(Series::OverLimit), 0);
    assert_eq!(r.hits(Series::Unknown), 0);
    assert_eq!(r.hits(Series::Overall), 100);
    assert_eq!(r.percentile(Series::Okay, 50), 1003);
}

#[test]
fn answers_are_sorted_by_their_code() {
    let mut b = Bench::new(600 * SECOND);
    for (code, latency, times) in [(1, 500, 50), (2, 2000, 30), (0, 100_000, 20)] {
        for _ in 0..times {
            assert_eq!(
                b.step(Event::Response { code, latency_micros: latency, now_nanos: 5 }),
                Action::Continue
            );
        }
    }
    let r = b.recorder();
    assert_eq!(r.hits(Series::Okay), 50);
    assert_eq!(r.hits(Series::OverLimit), 30);
    assert_eq!(r.hits(Series::Unknown), 20);
    assert_eq!(r.hits(Series::Overall), 100);
    assert_eq!(r.percentile(Series::Overall, 99), 100_351);
    assert_eq!(r.max(Series::Okay), 501);
    assert_eq!(r.max(Series::OverLimit), 2007);
    assert_eq!(r.max(Series::Unknown), 100_351);
}

#[test]
fn a_failure_in_transit_aborts_the_run() {
    let mut b = Bench::new(600 * SECOND);
    for i in 0..4u128 {
        assert_eq!(b.step(Event::Clock { now_nanos: i }), Action::Issue);
        assert_eq!(
            b.step(Event::Response { code: 1, latency_micros: 100, now_nanos: i }),
            Action::Continue
        );
    }
    assert_eq!(b.step(Event::Clock { now_nanos: 4 }), Action::Issue);
    assert_eq!(b.step(Event::Failure), Action::Abort(Fault::Transport));
    assert_eq!(b.phase(), Phase::Aborted);
    assert_eq!(b.recorder().hits(Series::Overall), 4);
    assert_eq!(b.step(Event::Clock { now_nanos: 5 }), Action::Stop);
    assert_eq!(b.step(Event::Clock { now_nanos: 700 * SECOND }), Action::Stop);
    assert_eq!(
        b.step(Event::Response { code: 1, latency_micros: 100, now_nanos: 6 }),
        Action::Stop
    );
    assert_eq!(b.phase(), Phase::Aborted);
    assert_eq!(b.recorder().hits(Series::Overall), 4);
}

#[test]
fn an_unknown_code_aborts_the_run() {
    let mut b = Bench::new(600 * SECOND);
    assert_eq!(
        b.step(Event::Response { code: 7, latency_micros: 100, now_nanos: 1 }),
        Action::Abort(Fault::InvalidCode(InvalidCode { code: 7 }))
    );
    assert_eq!(b.phase(), Phase::Aborted);
    assert_eq!(b.recorder().hits(Series::Overall), 0);
}

#[test]
fn a_round_trip_over_five_seconds_aborts_the_run() {
    let mut b = Bench::new(600 * SECOND);
    assert_eq!(
        b.step(Event::Response { code: 1, latency_micros: 5_000_000, now_nanos: 1 }),
        Action::Continue
    );
    assert_eq!(
        b.step(Event::Response { code: 1, latency_micros: 5_000_001, now_nanos: 2 }),
        Action::Abort(Fault::OutOfRange(RecordOutOfRange { latency_micros: 5_000_001 }))
    );
    assert_eq!(b.phase(), Phase::Aborted);
    assert_eq!(b.recorder().hits(Series::Overall), 1);
    assert_eq!(b.recorder().hits(Series::CurrentPeriod), 1);
}

#[test]
fn the_code_is_looked_at_before_the_latency() {
    let mut b = Bench::new(600 * SECOND);
    assert_eq!(
        b.step(Event::Response { code: -3, latency_micros: u64::MAX, now_nanos: 1 }),
        Action::Abort(Fault::InvalidCode(InvalidCode { code: -3 }))
    );
}

#[test]
fn a_summary_is_due_after_more_than_a_second() {
    let mut b = Bench::new(600 * SECOND);
    assert_eq!(
        b.step(Event::Response { code: 1, latency_micros: 100, now_nanos: SECOND }),
        Action::Continue
    );
    assert_eq!(
        b.step(Event::Response { code: 2, latency_micros: 100, now_nanos: SECOND + 1 }),
        Action::Report
    );
    assert_eq!(b.recorder().hits(Series::CurrentPeriod), 2);
    assert_eq!(b.step(Event::Reported { now_nanos: SECOND + 10 }), Action::Continue);
    assert_eq!(b.recorder().hits(Series::CurrentPeriod), 0);
    assert_eq!(b.recorder().hits(Series::Okay), 1);
    assert_eq!(b.recorder().hits(Series::OverLimit), 1);
    assert_eq!(b.recorder().hits(Series::Overall), 2);
    assert_eq!(
        b.step(Event::Response { code: 1, latency_micros: 100, now_nanos: 2 * SECOND + 10 }),
        Action::Continue
    );
    assert_eq!(
        b.step(Event::Response { code: 1, latency_micros: 100, now_nanos: 2 * SECOND + 11 }),
        Action::Report
    );
    assert_eq!(b.recorder().hits(Series::CurrentPeriod), 2);
    assert_eq!(b.recorder().hits(Series::Overall), 4);
}

#[test]
fn a_clock_that_went_back_asks_for_no_summary() {
    let mut b = Bench::new(600 * SECOND);
    assert_eq!(b.step(Event::Reported { now_nanos: 50 * SECOND }), Action::Continue);
    assert_eq!(
        b.step(Event::Response { code: 1, latency_micros: 100, now_nanos: 3 * SECOND }),
        Action::Continue
    );
}

#[test]
fn room_is_left_in_a_fresh_run() {
    let b = Bench::new(SECOND);
    assert!(b.has_room());
}
