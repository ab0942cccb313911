//! The one-line summary of a histogram.

use crate::text::{decimal, fixed_point, push_decimal, push_fixed_point};
use vstd::prelude::*;

verus! {

/// The figures that a summary line shows. Latencies are in microseconds.
#[derive(Clone, Copy, Debug, PartialEq, Eq, Structural)]
pub struct Summary {
    pub hits: u64,
    pub mean_micros: u64,
    pub p50_micros: u64,
    pub p90_micros: u64,
    pub p99_micros: u64,
    pub p999_micros: u64,
    pub max_micros: u64,
}

/// A latency of whole microseconds, written in milliseconds with three
/// decimals.
pub open spec fn millis(micros: nat) -> Seq<char> {
    fixed_point(micros, 3)
}

/// The summary line of a histogram: its label, the number of samples, and the
/// mean, four percentiles and the maximum in milliseconds.
pub open spec fn summary_text(label: Seq<char>, s: Summary) -> Seq<char> {
    label + ": hits: "@ + decimal(s.hits as nat) + ", mean: "@ + millis(s.mean_micros as nat)
        + "ms, p50: "@ + millis(s.p50_micros as nat) + "ms, p90: "@ + millis(s.p90_micros as nat)
        + "ms, p99: "@ + millis(s.p99_micros as nat) + "ms, p999: "@ + millis(
        s.p999_micros as nat,
    ) + "ms, max: "@ + millis(s.max_micros as nat) + "ms"@
}

/// Appends a latency in milliseconds with three decimals.
pub fn push_millis(out: &mut String, micros: u64)
    ensures
        final(out)@ == old(out)@ + millis(micros as nat),
{
    push_fixed_point(out, micros as u128, 3);
}

/// Writes the summary line of a histogram.
pub fn summary_line(label: &str, s: &Summary) -> (line: String)
    ensures
        line@ == summary_text(label@, *s),
{
    let mut line = String::new();
    line.append(label);
    line.append(": hits: ");
    push_decimal(&mut line, s.hits as u128);
    line.append(", mean: ");
    push_millis(&mut line, s.mean_micros);
    line.append("ms, p50: ");
    push_millis(&mut line, s.p50_micros);
    line.append("ms, p90: ");
    push_millis(&mut line, s.p90_micros);
    line.append("ms, p99: ");
    push_millis(&mut line, s.p99_micros);
    line.append("ms, p999: ");
    push_millis(&mut line, s.p999_micros);
    line.append("ms, max: ");
    push_millis(&mut line, s.max_micros);
    line.append("ms");
    assert(line@ =~= summary_text(label@, *s));
    line
}

} // verus!
