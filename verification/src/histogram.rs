//! The latency histogram, as this crate sees it.
//!
//! The histogram itself is the one of the `hdrhistogram` crate. Nothing in this
//! file is proved: each function states what the rest of the crate takes for
//! granted about one call into that crate.

use crate::chart::count_sum;
use hdrhistogram::{CreationError, Histogram, RecordError};
use vstd::multiset::Multiset;
use vstd::prelude::*;

verus! {

/// `hdrhistogram::RecordError`: why a histogram refused a value. It is passed
/// on unopened.
#[verifier::external_type_specification]
#[verifier::external_body]
pub struct ExRecordError(RecordError);

/// `hdrhistogram::CreationError`: why a histogram was not made. It is passed
/// on unopened.
#[verifier::external_type_specification]
#[verifier::external_body]
pub struct ExCreationError(CreationError);

/// A `hdrhistogram::Histogram<u64>` that tells values from 1 on and never
/// resizes. The verifier does not look inside; what it knows of a value is
/// what `samples`, `limit` and `digits` say.
#[verifier::external_body]
pub struct LatencyHistogram {
    inner: Histogram<u64>,
}

/// The samples that a histogram counts, each at the value it is kept at.
pub uninterp spec fn samples(h: LatencyHistogram) -> Multiset<u64>;

/// The highest value that a histogram was made to track.
pub uninterp spec fn limit(h: LatencyHistogram) -> u64;

/// The number of significant decimal digits that a histogram keeps.
pub uninterp spec fn digits(h: LatencyHistogram) -> u8;

/// The number of values, from 0 on, that a histogram of `digits` significant
/// digits keeps apart one by one: the least power of two that is at least
/// twice ten to the power `digits`. A histogram has at most 5 digits.
pub open spec fn unit_span(digits: u8) -> nat {
    if digits == 0 {
        2
    } else if digits == 1 {
        32
    } else if digits == 2 {
        256
    } else if digits == 3 {
        2048
    } else if digits == 4 {
        32768
    } else {
        262144
    }
}

/// `Histogram::lowest_equivalent`: the value at which a histogram of `digits`
/// significant digits keeps the sample `v`, which is the lowest of the values
/// that it counts together with `v`. Below `unit_span` a value is kept as it
/// is; from there on the values kept are twice as far apart each time the
/// values double.
pub open spec fn kept_value(digits: u8, v: nat) -> nat
    decreases v,
{
    if v < unit_span(digits) {
        v
    } else {
        2 * kept_value(digits, v / 2)
    }
}

/// `Histogram::max`, as a function of what the histogram holds.
pub uninterp spec fn max_of(digits: u8, held: Multiset<u64>) -> u64;

/// `Histogram::value_at_percentile`, as a function of what the histogram holds.
pub uninterp spec fn percentile_of(digits: u8, held: Multiset<u64>, percent: u8) -> u64;

/// `Histogram::iter_linear`, as a function of what the histogram holds: for
/// each step, the value iterated to and the count since the step before.
pub uninterp spec fn linear_of(limit: u64, digits: u8, held: Multiset<u64>, step: u64) -> Seq<
    (u64, u64),
>;

/// `Histogram::iter_recorded`, as a function of what the histogram holds: for
/// each value with a count, the value iterated to and that count.
pub uninterp spec fn recorded_of(digits: u8, held: Multiset<u64>) -> Seq<(u64, u64)>;

/// The largest count that the histogram's fractions hold exactly: up to it a
/// percentile is asked of the very count that was recorded.
pub const EXACT_COUNT: u64 = 0x20_0000_0000_0000;

/// The largest step that `iter_linear` is asked for here, and the largest
/// limit of a histogram that it is asked of.
pub const LINEAR_MAX: u64 = 0x3fff_ffff_ffff_ffff;

impl LatencyHistogram {
    /// `Histogram::new_with_max`. It refuses a `high` under 2 and more than 5
    /// digits, and nothing else where `usize` has 32 bits or more. The new
    /// histogram is empty.
    #[verifier::external_body]
    pub(crate) fn new_with_max(high: u64, digits: u8) -> (r: Result<
        LatencyHistogram,
        CreationError,
    >)
        ensures
            high >= 2 && digits <= 5 ==> r is Ok,
            r is Ok ==> samples(r->Ok_0) == Multiset::<u64>::empty(),
            r is Ok ==> limit(r->Ok_0) == high && self::digits(r->Ok_0) == digits,
    {
        match Histogram::new_with_max(high, digits) {
            Ok(inner) => Ok(LatencyHistogram { inner }),
            Err(e) => Err(e),
        }
    }

    /// `Histogram::record`. A value up to the limit is always taken; the
    /// histogram may take or refuse one above it. A value that is taken is
    /// counted once, at the value it is kept at; a refusal changes nothing.
    /// Counts saturate at `u64::MAX`, so a full histogram is left out.
    #[verifier::external_body]
    pub(crate) fn record(&mut self, v: u64) -> (r: Result<(), RecordError>)
        requires
            samples(*old(self)).len() < u64::MAX,
        ensures
            limit(*final(self)) == limit(*old(self)),
            digits(*final(self)) == digits(*old(self)),
            v <= limit(*old(self)) ==> r is Ok,
            r is Ok ==> samples(*final(self)) == samples(*old(self)).insert(
                kept_value(digits(*old(self)), v as nat) as u64,
            ),
            r is Err ==> samples(*final(self)) == samples(*old(self)),
    {
        self.inner.record(v)
    }

    /// `Histogram::reset`: forgets every sample and keeps the configuration.
    #[verifier::external_body]
    pub(crate) fn reset(&mut self)
        ensures
            samples(*final(self)) == Multiset::<u64>::empty(),
            limit(*final(self)) == limit(*old(self)),
            digits(*final(self)) == digits(*old(self)),
    {
        self.inner.reset()
    }

    /// `Histogram::len`: the number of samples counted, exact while it is
    /// under `u64::MAX`.
    #[verifier::external_body]
    pub(crate) fn len(&self) -> (n: u64)
        requires
            samples(*self).len() <= u64::MAX,
        ensures
            n == samples(*self).len(),
    {
        self.inner.len()
    }

    /// `Histogram::max`: the highest value counted together with the largest
    /// sample, so a value that is kept where a sample is; 0 for an empty
    /// histogram.
    #[verifier::external_body]
    pub(crate) fn max(&self) -> (m: u64)
        ensures
            m == max_of(digits(*self), samples(*self)),
            samples(*self).len() == 0 ==> m == 0,
            samples(*self).len() > 0 ==> samples(*self).count(
                kept_value(digits(*self), m as nat) as u64,
            ) > 0,
    {
        self.inner.max()
    }

    /// `Histogram::value_at_percentile`, for a whole percentile: the highest
    /// value counted together with the sample below which `percent` of a
    /// hundred samples lie. It is 0 for an empty histogram and never above
    /// the maximum. The histogram multiplies its count as a fraction: while
    /// the count is at most `EXACT_COUNT` that is exact, and then the value
    /// is kept where a sample is, and a higher percentile never gives a lower
    /// value.
    #[verifier::external_body]
    pub(crate) fn value_at_percentile(&self, percent: u8) -> (v: u64)
        requires
            samples(*self).len() <= u64::MAX,
        ensures
            v == percentile_of(digits(*self), samples(*self), percent),
            v <= max_of(digits(*self), samples(*self)),
            samples(*self).len() == 0 ==> v == 0,
            0 < samples(*self).len() <= EXACT_COUNT ==> samples(*self).count(
                kept_value(digits(*self), v as nat) as u64,
            ) > 0,
            samples(*self).len() <= EXACT_COUNT ==> forall|above: u8|
                percent <= above ==> v <= #[trigger] percentile_of(
                    digits(*self),
                    samples(*self),
                    above,
                ),
    {
        self.inner.value_at_percentile(percent.into())
    }

    /// `Histogram::iter_linear`, run to its end. Each sample is counted in at
    /// most one step, so the counts add up to no more than the histogram's
    /// count. The call panics on a step of 0; its running bound goes one step
    /// past the values the histogram can hold, and the two limits keep that
    /// sum within `u64`.
    #[verifier::external_body]
    pub(crate) fn iter_linear(&self, step: u64) -> (r: Vec<(u64, u64)>)
        requires
            0 < step <= LINEAR_MAX,
            limit(*self) <= LINEAR_MAX,
            samples(*self).len() <= u64::MAX,
        ensures
            r@ == linear_of(limit(*self), digits(*self), samples(*self), step),
            count_sum(r@) <= samples(*self).len(),
    {
        self.inner.iter_linear(step).map(
            |v| (v.value_iterated_to(), v.count_since_last_iteration()),
        ).collect()
    }

    /// `Histogram::iter_recorded`, run to its end.
    #[verifier::external_body]
    pub(crate) fn iter_recorded(&self) -> (r: Vec<(u64, u64)>)
        ensures
            r@ == recorded_of(digits(*self), samples(*self)),
    {
        self.inner.iter_recorded().map(|v| (v.value_iterated_to(), v.count_at_value())).collect()
    }
}

} // verus!
