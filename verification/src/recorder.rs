//! The five histograms of a run, and the rule by which a sample enters them.

use crate::chart::{chart_of, chart_rows, ChartRow};
use crate::histogram::{digits, kept_value, limit, linear_of, max_of, percentile_of, recorded_of};
use crate::histogram::{samples, LatencyHistogram, EXACT_COUNT};
use crate::outcome::Outcome;
use crate::report::{summary_line, summary_text, Summary};
use vstd::multiset::Multiset;
use vstd::prelude::*;

verus! {

/// The longest round trip that can be recorded, in microseconds: five seconds.
pub const MAX_LATENCY_MICROS: u64 = 5_000_000;

/// The number of significant decimal digits to which latencies are kept.
pub const SIGNIFICANT_DIGITS: u8 = 2;

/// A round trip took longer than `MAX_LATENCY_MICROS`.
#[derive(Clone, Copy, Debug, PartialEq, Eq, Structural)]
pub struct RecordOutOfRange {
    pub latency_micros: u64,
}

/// One of the five histograms of a run.
#[derive(Clone, Copy, Debug, PartialEq, Eq, Structural)]
pub enum Series {
    Okay,
    OverLimit,
    Unknown,
    CurrentPeriod,
    Overall,
}

/// The histogram that belongs to an outcome alone.
pub open spec fn series_of(outcome: Outcome) -> Series {
    match outcome {
        Outcome::Okay => Series::Okay,
        Outcome::OverLimit => Series::OverLimit,
        Outcome::Unknown => Series::Unknown,
    }
}

/// Whether a sample with `outcome` enters `series`: its own histogram, the
/// current period and the overall histogram, and no other.
pub open spec fn enters(outcome: Outcome, series: Series) -> bool {
    series == series_of(outcome) || series == Series::CurrentPeriod || series == Series::Overall
}

/// The value at which the histograms of a run keep a latency.
pub open spec fn stored(latency_micros: u64) -> u64 {
    kept_value(SIGNIFICANT_DIGITS, latency_micros as nat) as u64
}

/// A value is kept at no more than itself, and at less than a 128th of
/// itself below it.
pub proof fn lemma_kept_close(v: nat)
    ensures
        kept_value(SIGNIFICANT_DIGITS, v) <= v,
        128 * (v - kept_value(SIGNIFICANT_DIGITS, v)) <= v,
        v >= 256 ==> 128 * (v - kept_value(SIGNIFICANT_DIGITS, v)) + 128 <= v,
    decreases v,
{
    if v >= 256 {
        lemma_kept_close(v / 2);
    }
}

/// The histograms of a run keep a latency to two significant digits: at a
/// value that is not above it and less than one percent below it.
pub proof fn lemma_stored_close(latency_micros: u64)
    ensures
        stored(latency_micros) <= latency_micros,
        stored(latency_micros) == kept_value(SIGNIFICANT_DIGITS, latency_micros as nat),
        100 * (latency_micros - stored(latency_micros)) <= latency_micros,
        latency_micros < 256 ==> stored(latency_micros) == latency_micros,
{
    lemma_kept_close(latency_micros as nat);
}

/// Whether every sample held is kept at `kept`.
pub open spec fn all_kept_at(held: Multiset<u64>, kept: u64) -> bool {
    forall|s: u64| held.count(s) > 0 ==> s == kept
}

/// Where all samples of a histogram are kept at one value, a value that is
/// kept where a sample is lies at or above it, and less than one percent
/// above it.
pub proof fn lemma_answer_near(held: Multiset<u64>, kept: u64, answer: u64)
    requires
        all_kept_at(held, kept),
        held.count(stored(answer)) > 0,
    ensures
        stored(answer) == kept,
        kept <= answer,
        100 * (answer - kept) <= answer,
{
    lemma_stored_close(answer);
}

/// The value at which the histograms of a run keep a latency.
pub fn stored_value(latency_micros: u64) -> (kept: u64)
    ensures
        kept == stored(latency_micros),
    decreases latency_micros,
{
    proof {
        lemma_stored_close(latency_micros);
        lemma_stored_close(latency_micros / 2);
    }
    if latency_micros < 256 {
        latency_micros
    } else {
        2 * stored_value(latency_micros / 2)
    }
}

/// The percentile `percent` of a histogram of a run that holds `held`.
pub open spec fn percentile(held: Multiset<u64>, percent: u8) -> u64 {
    percentile_of(SIGNIFICANT_DIGITS, held, percent)
}

/// The summary of a histogram of a run that holds `held`. The mean and the
/// 99.9th percentile are not whole-number questions to the histogram; they
/// are taken as given.
pub open spec fn summary_of(held: Multiset<u64>, mean_micros: u64, p999_micros: u64) -> Summary {
    Summary {
        hits: held.len() as u64,
        mean_micros,
        p50_micros: percentile(held, 50),
        p90_micros: percentile(held, 90),
        p99_micros: percentile(held, 99),
        p999_micros,
        max_micros: max_of(SIGNIFICANT_DIGITS, held),
    }
}

/// The width of the chart's steps: a tenth of the 99th percentile, rounded
/// down.
pub open spec fn chart_step(overall: Multiset<u64>) -> u64 {
    percentile(overall, 99) / 10
}

/// The chart of the overall histogram. There is none while the histogram is
/// empty, and none where the step comes out as 0.
pub open spec fn chart_view(overall: Multiset<u64>) -> Option<Seq<ChartRow>> {
    if overall.len() == 0 || chart_step(overall) == 0 {
        None
    } else {
        Some(
            chart_of(
                linear_of(
                    MAX_LATENCY_MICROS,
                    SIGNIFICANT_DIGITS,
                    overall,
                    chart_step(overall),
                ),
                overall.len(),
            ),
        )
    }
}

/// The two figures of a summary that the histogram gives only in fractions:
/// its mean, rounded to whole microseconds, and its 99.9th percentile.
#[derive(Clone, Copy, Debug, PartialEq, Eq, Structural)]
pub struct Tail {
    pub mean_micros: u64,
    pub p999_micros: u64,
}

/// The label under which a histogram is reported.
pub open spec fn label_text(series: Series) -> Seq<char> {
    match series {
        Series::Okay => "Ok"@,
        Series::OverLimit => "OverLimit"@,
        Series::Unknown => "Unknown"@,
        Series::CurrentPeriod => "Current"@,
        Series::Overall => "Overall"@,
    }
}

/// The summary line of one of the histograms.
pub open spec fn series_line(t: Tallies, series: Series, tail: Tail) -> Seq<char> {
    summary_text(label_text(series), summary_of(t.of(series), tail.mean_micros, tail.p999_micros))
}

/// The lines of the final report above the chart: a banner, the summaries of
/// the three outcomes and of the overall histogram, and an empty line.
pub open spec fn final_summary_lines(
    t: Tallies,
    okay: Tail,
    over_limit: Tail,
    unknown: Tail,
    overall: Tail,
) -> Seq<Seq<char>> {
    seq![
        ""@,
        ""@,
        " ============== Done! ================="@,
        ""@,
        series_line(t, Series::Okay, okay),
        series_line(t, Series::OverLimit, over_limit),
        series_line(t, Series::Unknown, unknown),
        series_line(t, Series::Overall, overall),
        ""@,
    ]
}

/// The texts of a list of lines.
pub open spec fn texts(lines: Seq<String>) -> Seq<Seq<char>> {
    Seq::new(lines.len(), |i: int| lines[i]@)
}

/// The label under which a histogram is reported.
pub fn label(series: Series) -> (l: &'static str)
    ensures
        l@ == label_text(series),
{
    match series {
        Series::Okay => "Ok",
        Series::OverLimit => "OverLimit",
        Series::Unknown => "Unknown",
        Series::CurrentPeriod => "Current",
        Series::Overall => "Overall",
    }
}

/// What the five histograms hold.
pub ghost struct Tallies {
    pub okay: Multiset<u64>,
    pub over_limit: Multiset<u64>,
    pub unknown: Multiset<u64>,
    pub current_period: Multiset<u64>,
    pub overall: Multiset<u64>,
}

impl Tallies {
    /// Five empty histograms.
    pub open spec fn empty() -> Tallies {
        Tallies {
            okay: Multiset::empty(),
            over_limit: Multiset::empty(),
            unknown: Multiset::empty(),
            current_period: Multiset::empty(),
            overall: Multiset::empty(),
        }
    }

    /// What one of the histograms holds.
    pub open spec fn of(self, series: Series) -> Multiset<u64> {
        match series {
            Series::Okay => self.okay,
            Series::OverLimit => self.over_limit,
            Series::Unknown => self.unknown,
            Series::CurrentPeriod => self.current_period,
            Series::Overall => self.overall,
        }
    }

    /// The number of samples in one of the histograms.
    pub open spec fn count(self, series: Series) -> nat {
        self.of(series).len()
    }

    /// The histograms after a sample with `outcome`, kept at `kept`, was
    /// recorded.
    pub open spec fn with_sample(self, outcome: Outcome, kept: u64) -> Tallies {
        Tallies {
            okay: if outcome == Outcome::Okay {
                self.okay.insert(kept)
            } else {
                self.okay
            },
            over_limit: if outcome == Outcome::OverLimit {
                self.over_limit.insert(kept)
            } else {
                self.over_limit
            },
            unknown: if outcome == Outcome::Unknown {
                self.unknown.insert(kept)
            } else {
                self.unknown
            },
            current_period: self.current_period.insert(kept),
            overall: self.overall.insert(kept),
        }
    }

    /// The histograms after the current period was cleared.
    pub open spec fn with_period_cleared(self) -> Tallies {
        Tallies { current_period: Multiset::empty(), ..self }
    }

    /// What holds of the five histograms throughout a run: every sample of the
    /// overall histogram is in the histogram of exactly one outcome, and the
    /// current period holds samples of the overall histogram only.
    pub open spec fn balanced(self) -> bool {
        &&& self.overall == self.okay.add(self.over_limit).add(self.unknown)
        &&& self.current_period.subset_of(self.overall)
    }
}

/// A sample enters exactly the histograms that `enters` names, once each, and
/// leaves the others as they were.
pub proof fn lemma_sample_enters(t: Tallies, outcome: Outcome, kept: u64, series: Series)
    ensures
        enters(outcome, series) ==> t.with_sample(outcome, kept).of(series) == t.of(series).insert(
            kept,
        ) && t.with_sample(outcome, kept).count(series) == t.count(series) + 1,
        !enters(outcome, series) ==> t.with_sample(outcome, kept).of(series) == t.of(series),
{
    broadcast use vstd::multiset::group_multiset_properties;

}

/// In an empty histogram all samples are kept at any one value.
pub proof fn lemma_empty_kept_at(series: Series, at: u64)
    ensures
        all_kept_at(Tallies::empty().of(series), at),
{
    broadcast use vstd::multiset::group_multiset_axioms;

}

/// A histogram whose samples are all kept at one value stays so when a
/// sample that enters it is kept at that value, and when a sample passes it
/// by.
pub proof fn lemma_sample_kept_at(
    t: Tallies,
    outcome: Outcome,
    kept: u64,
    series: Series,
    at: u64,
)
    requires
        all_kept_at(t.of(series), at),
        enters(outcome, series) ==> kept == at,
    ensures
        all_kept_at(t.with_sample(outcome, kept).of(series), at),
{
    broadcast use vstd::multiset::group_multiset_axioms;
    broadcast use vstd::multiset::group_multiset_properties;

}

/// Clearing the current period empties it and leaves the other four
/// histograms as they were.
pub proof fn lemma_period_cleared(t: Tallies, series: Series)
    ensures
        t.with_period_cleared().count(Series::CurrentPeriod) == 0,
        series != Series::CurrentPeriod ==> t.with_period_cleared().of(series) == t.of(series),
{
    broadcast use vstd::multiset::group_multiset_axioms;

}

/// A part holds no more samples than the whole.
pub proof fn lemma_subset_len(part: Multiset<u64>, whole: Multiset<u64>)
    requires
        part.subset_of(whole),
    ensures
        part.len() <= whole.len(),
{
    broadcast use vstd::multiset::group_multiset_axioms;

    assert(whole =~= part.add(whole.sub(part)));
}

/// Five empty histograms are balanced.
pub proof fn lemma_empty_balanced()
    ensures
        Tallies::empty().balanced(),
{
    broadcast use vstd::multiset::group_multiset_axioms;

    let e = Tallies::empty();
    assert(e.overall =~= e.okay.add(e.over_limit).add(e.unknown));
}

/// Recording and clearing keep the histograms balanced, and in balanced
/// histograms the counts of the three outcomes add up to the overall count.
pub proof fn lemma_balance_kept(t: Tallies, outcome: Outcome, kept: u64)
    requires
        t.balanced(),
    ensures
        t.with_sample(outcome, kept).balanced(),
        t.with_period_cleared().balanced(),
        t.count(Series::Overall) == t.count(Series::Okay) + t.count(Series::OverLimit) + t.count(
            Series::Unknown,
        ),
        t.count(Series::CurrentPeriod) <= t.count(Series::Overall),
{
    broadcast use vstd::multiset::group_multiset_axioms;
    broadcast use vstd::multiset::group_multiset_properties;

    let u = t.with_sample(outcome, kept);
    assert(u.overall =~= u.okay.add(u.over_limit).add(u.unknown));
    lemma_subset_len(t.current_period, t.overall);
}

/// The five histograms of a run.
pub struct Recorder {
    okay: LatencyHistogram,
    over_limit: LatencyHistogram,
    unknown: LatencyHistogram,
    current_period: LatencyHistogram,
    overall: LatencyHistogram,
}

/// Whether a histogram is one of a run: made for `MAX_LATENCY_MICROS` and
/// `SIGNIFICANT_DIGITS`.
pub closed spec fn shaped(h: LatencyHistogram) -> bool {
    limit(h) == MAX_LATENCY_MICROS && digits(h) == SIGNIFICANT_DIGITS
}

impl View for Recorder {
    type V = Tallies;

    closed spec fn view(&self) -> Tallies {
        Tallies {
            okay: samples(self.okay),
            over_limit: samples(self.over_limit),
            unknown: samples(self.unknown),
            current_period: samples(self.current_period),
            overall: samples(self.overall),
        }
    }
}

impl Recorder {
    /// The invariant of a recorder: its histograms have the shape of a run,
    /// they are balanced, and their counts fit in `u64`.
    pub closed spec fn wf(&self) -> bool {
        &&& shaped(self.okay)
        &&& shaped(self.over_limit)
        &&& shaped(self.unknown)
        &&& shaped(self.current_period)
        &&& shaped(self.overall)
        &&& self@.balanced()
        &&& self@.overall.len() <= u64::MAX
    }

    /// A well-formed recorder is balanced, and none of its histograms holds
    /// more samples than `u64::MAX`.
    pub proof fn lemma_wf(&self, series: Series)
        requires
            self.wf(),
        ensures
            self@.balanced(),
            self@.count(series) <= self@.count(Series::Overall) <= u64::MAX,
    {
        lemma_balance_kept(self@, Outcome::Okay, 0);
    }

    /// Five empty histograms.
    pub fn new() -> (r: Recorder)
        ensures
            r.wf(),
            r@ == Tallies::empty(),
    {
        let r = Recorder {
            okay: LatencyHistogram::new_with_max(MAX_LATENCY_MICROS, SIGNIFICANT_DIGITS).unwrap(),
            over_limit: LatencyHistogram::new_with_max(
                MAX_LATENCY_MICROS,
                SIGNIFICANT_DIGITS,
            ).unwrap(),
            unknown: LatencyHistogram::new_with_max(
                MAX_LATENCY_MICROS,
                SIGNIFICANT_DIGITS,
            ).unwrap(),
            current_period: LatencyHistogram::new_with_max(
                MAX_LATENCY_MICROS,
                SIGNIFICANT_DIGITS,
            ).unwrap(),
            overall: LatencyHistogram::new_with_max(
                MAX_LATENCY_MICROS,
                SIGNIFICANT_DIGITS,
            ).unwrap(),
        };
        proof {
            lemma_empty_balanced();
            broadcast use vstd::multiset::group_multiset_axioms;

        }
        r
    }

    /// Records one sample: into the histogram of its outcome, into the current
    /// period and into the overall histogram. A latency above
    /// `MAX_LATENCY_MICROS` is refused, and then no histogram changes.
    pub fn record(&mut self, outcome: Outcome, latency_micros: u64) -> (r: Result<
        (),
        RecordOutOfRange,
    >)
        requires
            old(self).wf(),
            latency_micros <= MAX_LATENCY_MICROS ==> old(self)@.count(Series::Overall) < u64::MAX,
        ensures
            final(self).wf(),
            r is Err <==> latency_micros > MAX_LATENCY_MICROS,
            r is Err ==> r == Err::<(), RecordOutOfRange>(RecordOutOfRange { latency_micros })
                && final(self)@ == old(self)@,
            r is Ok ==> final(self)@ == old(self)@.with_sample(outcome, stored(latency_micros)),
            r is Ok ==> final(self)@.count(series_of(outcome)) == old(self)@.count(
                series_of(outcome),
            ) + 1,
            r is Ok ==> final(self)@.count(Series::CurrentPeriod) == old(self)@.count(
                Series::CurrentPeriod,
            ) + 1,
            r is Ok ==> final(self)@.count(Series::Overall) == old(self)@.count(Series::Overall)
                + 1,
    {
        if latency_micros > MAX_LATENCY_MICROS {
            return Err(RecordOutOfRange { latency_micros });
        }
        proof {
            self.lemma_wf(Series::Okay);
            self.lemma_wf(Series::OverLimit);
            self.lemma_wf(Series::Unknown);
            self.lemma_wf(Series::CurrentPeriod);
            lemma_balance_kept(self@, outcome, stored(latency_micros));
            lemma_sample_enters(self@, outcome, stored(latency_micros), series_of(outcome));
            lemma_sample_enters(self@, outcome, stored(latency_micros), Series::CurrentPeriod);
            lemma_sample_enters(self@, outcome, stored(latency_micros), Series::Overall);
        }
        let own = match outcome {
            Outcome::Okay => self.okay.record(latency_micros),
            Outcome::OverLimit => self.over_limit.record(latency_micros),
            Outcome::Unknown => self.unknown.record(latency_micros),
        };
        let period = self.current_period.record(latency_micros);
        let overall = self.overall.record(latency_micros);
        assert(own is Ok && period is Ok && overall is Ok);
        Ok(())
    }

    /// Clears the current period. The other four histograms stay as they are.
    pub fn reset_period(&mut self)
        requires
            old(self).wf(),
        ensures
            final(self).wf(),
            final(self)@ == old(self)@.with_period_cleared(),
            final(self)@.count(Series::CurrentPeriod) == 0,
    {
        proof {
            lemma_balance_kept(self@, Outcome::Okay, 0);
            lemma_period_cleared(self@, Series::Overall);
        }
        self.current_period.reset();
    }

    fn series(&self, series: Series) -> (h: &LatencyHistogram)
        requires
            self.wf(),
        ensures
            shaped(*h),
            samples(*h) == self@.of(series),
    {
        match series {
            Series::Okay => &self.okay,
            Series::OverLimit => &self.over_limit,
            Series::Unknown => &self.unknown,
            Series::CurrentPeriod => &self.current_period,
            Series::Overall => &self.overall,
        }
    }

    /// The number of samples in one of the histograms.
    pub fn hits(&self, series: Series) -> (n: u64)
        requires
            self.wf(),
        ensures
            n == self@.count(series),
    {
        proof {
            self.lemma_wf(series);
        }
        self.series(series).len()
    }

    /// The highest value counted together with the largest sample of one of
    /// the histograms, so a value that is kept where a sample is; 0 while the
    /// histogram is empty.
    pub fn max(&self, series: Series) -> (m: u64)
        requires
            self.wf(),
        ensures
            m == max_of(SIGNIFICANT_DIGITS, self@.of(series)),
            self@.count(series) == 0 ==> m == 0,
            self@.count(series) > 0 ==> self@.of(series).count(stored(m)) > 0,
    {
        self.series(series).max()
    }

    /// A whole percentile of one of the histograms. Asked twice of the same
    /// samples it gives the same value. It is never above the maximum, and 0
    /// while the histogram is empty. While the histogram holds at most
    /// `EXACT_COUNT` samples, the value is kept where a sample is, and a
    /// higher percentile never gives a lower value.
    pub fn percentile(&self, series: Series, percent: u8) -> (v: u64)
        requires
            self.wf(),
        ensures
            v == percentile(self@.of(series), percent),
            v <= max_of(SIGNIFICANT_DIGITS, self@.of(series)),
            self@.count(series) == 0 ==> v == 0,
            0 < self@.count(series) <= EXACT_COUNT ==> self@.of(series).count(stored(v)) > 0,
            self@.count(series) <= EXACT_COUNT ==> forall|above: u8|
                percent <= above ==> v <= #[trigger] percentile(self@.of(series), above),
    {
        proof {
            self.lemma_wf(series);
        }
        let v = self.series(series).value_at_percentile(percent);
        assert(self@.count(series) <= EXACT_COUNT ==> forall|above: u8|
            percent <= above ==> v <= #[trigger] percentile(self@.of(series), above)) by {
            if self@.count(series) <= EXACT_COUNT {
                assert forall|above: u8| percent <= above implies v <= #[trigger] percentile(
                    self@.of(series),
                    above,
                ) by {
                    assert(v <= percentile_of(SIGNIFICANT_DIGITS, self@.of(series), above));
                }
            }
        }
        v
    }

    /// The values of one of the histograms that have a count, each with its
    /// count.
    pub fn recorded(&self, series: Series) -> (r: Vec<(u64, u64)>)
        requires
            self.wf(),
        ensures
            r@ == recorded_of(SIGNIFICANT_DIGITS, self@.of(series)),
    {
        self.series(series).iter_recorded()
    }

    /// The summary of one of the histograms, given its mean and its 99.9th
    /// percentile.
    pub fn summary(&self, series: Series, mean_micros: u64, p999_micros: u64) -> (s: Summary)
        requires
            self.wf(),
        ensures
            s == summary_of(self@.of(series), mean_micros, p999_micros),
            s.p50_micros <= s.max_micros && s.p90_micros <= s.max_micros && s.p99_micros
                <= s.max_micros,
            self@.count(series) <= EXACT_COUNT ==> s.p50_micros <= s.p90_micros <= s.p99_micros,
            self@.count(series) == 0 ==> s.hits == 0 && s.p50_micros == 0 && s.p90_micros == 0
                && s.p99_micros == 0 && s.max_micros == 0,
            self@.count(series) > 0 ==> self@.of(series).count(stored(s.max_micros)) > 0,
            0 < self@.count(series) <= EXACT_COUNT ==> self@.of(series).count(
                stored(s.p50_micros),
            ) > 0 && self@.of(series).count(stored(s.p90_micros)) > 0 && self@.of(series).count(
                stored(s.p99_micros),
            ) > 0,
    {
        proof {
            self.lemma_wf(series);
        }
        let h = self.series(series);
        Summary {
            hits: h.len(),
            mean_micros,
            p50_micros: h.value_at_percentile(50),
            p90_micros: h.value_at_percentile(90),
            p99_micros: h.value_at_percentile(99),
            p999_micros,
            max_micros: h.max(),
        }
    }

    /// The summary line of one of the histograms, given its mean and its
    /// 99.9th percentile.
    pub fn summary_line(&self, series: Series, tail: Tail) -> (line: String)
        requires
            self.wf(),
        ensures
            line@ == series_line(self@, series, tail),
    {
        summary_line(label(series), &self.summary(series, tail.mean_micros, tail.p999_micros))
    }

    /// The final report above the chart, line by line, given the mean and the
    /// 99.9th percentile of the four histograms it sums up.
    pub fn final_summary(&self, okay: Tail, over_limit: Tail, unknown: Tail, overall: Tail) -> (lines:
        Vec<String>)
        requires
            self.wf(),
        ensures
            texts(lines@) == final_summary_lines(self@, okay, over_limit, unknown, overall),
    {
        proof {
            reveal_strlit("");
        }
        let mut lines: Vec<String> = Vec::new();
        lines.push(String::new());
        lines.push(String::new());
        lines.push(String::from_str(" ============== Done! ================="));
        lines.push(String::new());
        lines.push(self.summary_line(Series::Okay, okay));
        lines.push(self.summary_line(Series::OverLimit, over_limit));
        lines.push(self.summary_line(Series::Unknown, unknown));
        lines.push(self.summary_line(Series::Overall, overall));
        lines.push(String::new());
        assert(""@ =~= Seq::<char>::empty());
        assert(texts(lines@) =~= final_summary_lines(
            self@,
            okay,
            over_limit,
            unknown,
            overall,
        ));
        lines
    }

    /// The chart of the overall histogram, if it has one.
    pub fn chart(&self) -> (r: Option<Vec<ChartRow>>)
        requires
            self.wf(),
        ensures
            r is Some <==> chart_view(self@.overall) is Some,
            r is Some ==> r->Some_0@ == chart_view(self@.overall)->Some_0,
    {
        proof {
            self.lemma_wf(Series::Overall);
        }
        let total = self.overall.len();
        let step = self.overall.value_at_percentile(99) / 10;
        if total == 0 || step == 0 {
            return None;
        }
        let steps = self.overall.iter_linear(step);
        Some(chart_rows(&steps, total))
    }
}

} // verus!
