//! The benchmark loop as a state machine.
//!
//! The caller issues the requests, reads the clock and prints. After each of
//! these it reports what happened as an `Event`, and `Bench::step` answers
//! with the `Action` that is due. Times are nanoseconds since the start of the
//! run.

use crate::outcome::{classify, is_legal_code, outcome_of, InvalidCode, Outcome};
use crate::outcome::{CODE_OK, CODE_OVER_LIMIT, CODE_UNKNOWN};
use crate::recorder::{enters, lemma_sample_enters, series_of, stored, RecordOutOfRange, Recorder};
use crate::recorder::{Series, Tallies, MAX_LATENCY_MICROS};
use vstd::prelude::*;

verus! {

/// The number of hits that every request adds.
pub const HITS_ADDEND: u32 = 1;

/// The domain that every request names. A request carries no descriptors.
pub fn request_domain() -> (domain: &'static str)
    ensures
        domain@ == "test_namespace"@,
{
    "test_namespace"
}

/// The time between two summaries of the current period, in nanoseconds.
pub const PERIOD_NANOS: u128 = 1_000_000_000;

/// Where a run stands. A run leaves `Running` for `Done` when its time is up,
/// and for `Aborted` on a fault; it leaves neither of the two.
#[derive(Clone, Copy, Debug, PartialEq, Eq, Structural)]
pub enum Phase {
    Running,
    Done,
    Aborted,
}

/// Why a run was aborted.
#[derive(Clone, Copy, Debug, PartialEq, Eq, Structural)]
pub enum Fault {
    /// A request failed in transit.
    Transport,
    /// The service answered with a status code that its protocol lacks.
    InvalidCode(InvalidCode),
    /// A round trip took longer than the histograms can hold.
    OutOfRange(RecordOutOfRange),
}

/// What the caller reports.
#[derive(Clone, Copy, Debug, PartialEq, Eq, Structural)]
pub enum Event {
    /// The clock was read before a request.
    Clock { now_nanos: u128 },
    /// A request was answered with `code` after `latency_micros`; the clock
    /// was read after it.
    Response { code: i32, latency_micros: u64, now_nanos: u128 },
    /// A request failed in transit.
    Failure,
    /// The summary of the current period was printed; the clock was read
    /// after it.
    Reported { now_nanos: u128 },
}

/// What the caller is to do next.
#[derive(Clone, Copy, Debug, PartialEq, Eq, Structural)]
pub enum Action {
    /// Issue a request and report its `Response` or `Failure`.
    Issue,
    /// Read the clock and report it.
    Continue,
    /// Print the summary of the current period and report `Reported`.
    Report,
    /// The time is up: print the final report.
    Finish,
    /// Give up with this fault, without a report.
    Abort(Fault),
    /// The run is over already; the event was ignored.
    Stop,
}

/// The state of a run.
pub ghost struct BenchView {
    pub phase: Phase,
    pub duration_nanos: u128,
    pub last_report_nanos: u128,
    pub tallies: Tallies,
}

/// The time from `since` to `now`; none where the clock went backwards.
pub open spec fn elapsed(now: u128, since: u128) -> nat {
    if now >= since {
        (now - since) as nat
    } else {
        0
    }
}

/// The state after an answer with a legal code and a latency in range, and
/// the action that follows it: the sample is recorded, and a summary is due
/// once more than a period has passed since the last one.
pub open spec fn after_sample(v: BenchView, code: i32, latency_micros: u64, now_nanos: u128) -> (
    BenchView,
    Action,
) {
    (
        BenchView {
            tallies: v.tallies.with_sample(
                outcome_of(code as int)->Some_0,
                stored(latency_micros),
            ),
            ..v
        },
        if elapsed(now_nanos, v.last_report_nanos) > PERIOD_NANOS {
            Action::Report
        } else {
            Action::Continue
        },
    )
}

/// Whether an event puts a sample into the histograms: an answer with a code
/// of the protocol and a latency in range, taken while the run goes on.
pub open spec fn records(v: BenchView, event: Event) -> bool {
    &&& v.phase == Phase::Running
    &&& event is Response
    &&& outcome_of(event->Response_code as int) is Some
    &&& event->Response_latency_micros <= MAX_LATENCY_MICROS
}

/// The state that follows an event, and the action that is due.
pub open spec fn next(v: BenchView, event: Event) -> (BenchView, Action) {
    if v.phase != Phase::Running {
        (v, Action::Stop)
    } else {
        match event {
            Event::Clock { now_nanos } => if now_nanos >= v.duration_nanos {
                (BenchView { phase: Phase::Done, ..v }, Action::Finish)
            } else {
                (v, Action::Issue)
            },
            Event::Response { code, latency_micros, now_nanos } => if outcome_of(code as int)
                is None {
                (
                    BenchView { phase: Phase::Aborted, ..v },
                    Action::Abort(Fault::InvalidCode(InvalidCode { code })),
                )
            } else if latency_micros > MAX_LATENCY_MICROS {
                (
                    BenchView { phase: Phase::Aborted, ..v },
                    Action::Abort(Fault::OutOfRange(RecordOutOfRange { latency_micros })),
                )
            } else {
                after_sample(v, code, latency_micros, now_nanos)
            },
            Event::Failure => (
                BenchView { phase: Phase::Aborted, ..v },
                Action::Abort(Fault::Transport),
            ),
            Event::Reported { now_nanos } => (
                BenchView {
                    last_report_nanos: now_nanos,
                    tallies: v.tallies.with_period_cleared(),
                    ..v
                },
                Action::Continue,
            ),
        }
    }
}

/// A run that is over stays as it is, whatever is reported.
pub proof fn lemma_over_stays(v: BenchView, event: Event)
    requires
        v.phase != Phase::Running,
    ensures
        next(v, event) == (v, Action::Stop),
{
}

/// A run is done only by its time running out, seen when the clock is read
/// before a request; then the final report is due and no histogram changes.
pub proof fn lemma_done_by_clock(v: BenchView, event: Event)
    requires
        v.phase == Phase::Running,
    ensures
        next(v, event).0.phase == Phase::Done <==> (event is Clock && event->Clock_now_nanos
            >= v.duration_nanos),
        next(v, event).1 == Action::Finish <==> next(v, event).0.phase == Phase::Done,
        next(v, event).0.phase == Phase::Done ==> next(v, event).0.tallies == v.tallies,
{
}

/// A run is aborted exactly when an abort is the action, and then no
/// histogram changes. A failure in transit always aborts.
pub proof fn lemma_abort(v: BenchView, event: Event)
    requires
        v.phase == Phase::Running,
    ensures
        next(v, event).0.phase == Phase::Aborted <==> next(v, event).1 is Abort,
        next(v, event).1 is Abort ==> next(v, event).0.tallies == v.tallies,
        event is Failure ==> next(v, event).1 == Action::Abort(Fault::Transport),
{
}

/// An answer with a code of the protocol and a latency in range, taken while
/// the run goes on, aborts nothing. Its code alone chooses the outcome. The
/// sample is counted once in the histogram of that outcome, in the current
/// period and in the overall histogram; the other two histograms stay as
/// they were.
pub proof fn lemma_answer_recorded(
    v: BenchView,
    code: i32,
    latency_micros: u64,
    now_nanos: u128,
    series: Series,
)
    requires
        v.phase == Phase::Running,
        is_legal_code(code as int),
        latency_micros <= MAX_LATENCY_MICROS,
    ensures
        outcome_of(code as int) is Some,
        code == CODE_OK ==> outcome_of(code as int) == Some(Outcome::Okay),
        code == CODE_OVER_LIMIT ==> outcome_of(code as int) == Some(Outcome::OverLimit),
        code == CODE_UNKNOWN ==> outcome_of(code as int) == Some(Outcome::Unknown),
        ({
            let (w, action) = next(v, Event::Response { code, latency_micros, now_nanos });
            let outcome = outcome_of(code as int)->Some_0;
            &&& w.phase == Phase::Running
            &&& action == Action::Report || action == Action::Continue
            &&& w.tallies == v.tallies.with_sample(outcome, stored(latency_micros))
            &&& enters(outcome, series) ==> w.tallies.count(series) == v.tallies.count(series) + 1
            &&& !enters(outcome, series) ==> w.tallies.of(series) == v.tallies.of(series)
            &&& enters(outcome, series) <==> (series == series_of(outcome) || series
                == Series::CurrentPeriod || series == Series::Overall)
        }),
{
    lemma_sample_enters(
        v.tallies,
        outcome_of(code as int)->Some_0,
        stored(latency_micros),
        series,
    );
}

/// A run of no duration is done at the first reading of the clock: no
/// request is issued.
pub proof fn lemma_no_duration(v: BenchView, now_nanos: u128)
    requires
        v.phase == Phase::Running,
        v.duration_nanos == 0,
    ensures
        next(v, Event::Clock { now_nanos }).1 == Action::Finish,
{
}

/// A run: its clock marks and its five histograms.
pub struct Bench {
    phase: Phase,
    duration_nanos: u128,
    last_report_nanos: u128,
    recorder: Recorder,
}

impl View for Bench {
    type V = BenchView;

    closed spec fn view(&self) -> BenchView {
        BenchView {
            phase: self.phase,
            duration_nanos: self.duration_nanos,
            last_report_nanos: self.last_report_nanos,
            tallies: self.recorder@,
        }
    }
}

impl Bench {
    /// The invariant of a run: that of its recorder.
    pub closed spec fn wf(&self) -> bool {
        self.recorder.wf()
    }

    /// A run of `duration_nanos` that starts now, with empty histograms.
    pub fn new(duration_nanos: u128) -> (b: Bench)
        ensures
            b.wf(),
            b@ == (BenchView {
                phase: Phase::Running,
                duration_nanos,
                last_report_nanos: 0,
                tallies: Tallies::empty(),
            }),
    {
        Bench {
            phase: Phase::Running,
            duration_nanos,
            last_report_nanos: 0,
            recorder: Recorder::new(),
        }
    }

    /// Where the run stands.
    pub fn phase(&self) -> (p: Phase)
        ensures
            p == self@.phase,
    {
        self.phase
    }

    /// The histograms of the run.
    pub fn recorder(&self) -> (r: &Recorder)
        requires
            self.wf(),
        ensures
            r.wf(),
            r@ == self@.tallies,
    {
        &self.recorder
    }

    /// Whether the overall histogram has room for one more sample.
    pub fn has_room(&self) -> (b: bool)
        requires
            self.wf(),
        ensures
            b == (self@.tallies.count(Series::Overall) < u64::MAX),
    {
        self.recorder.hits(Series::Overall) < u64::MAX
    }

    /// Takes an event and says what is due. Only an event that puts a sample
    /// into the histograms needs room in them.
    pub fn step(&mut self, event: Event) -> (action: Action)
        requires
            old(self).wf(),
            records(old(self)@, event) ==> old(self)@.tallies.count(Series::Overall) < u64::MAX,
        ensures
            final(self).wf(),
            (final(self)@, action) == next(old(self)@, event),
    {
        match self.phase {
            Phase::Running => {},
            _ => {
                return Action::Stop;
            },
        }
        match event {
            Event::Clock { now_nanos } => {
                if now_nanos >= self.duration_nanos {
                    self.phase = Phase::Done;
                    Action::Finish
                } else {
                    Action::Issue
                }
            },
            Event::Response { code, latency_micros, now_nanos } => {
                let outcome = match classify(code) {
                    Ok(outcome) => outcome,
                    Err(fault) => {
                        self.phase = Phase::Aborted;
                        return Action::Abort(Fault::InvalidCode(fault));
                    },
                };
                match self.recorder.record(outcome, latency_micros) {
                    Ok(()) => {},
                    Err(fault) => {
                        self.phase = Phase::Aborted;
                        return Action::Abort(Fault::OutOfRange(fault));
                    },
                }
                if now_nanos >= self.last_report_nanos && now_nanos - self.last_report_nanos
                    > PERIOD_NANOS {
                    Action::Report
                } else {
                    Action::Continue
                }
            },
            Event::Failure => {
                self.phase = Phase::Aborted;
                Action::Abort(Fault::Transport)
            },
            Event::Reported { now_nanos } => {
                self.recorder.reset_period();
                self.last_report_nanos = now_nanos;
                Action::Continue
            },
        }
    }
}

} // verus!
