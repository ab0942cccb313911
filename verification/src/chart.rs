//! The chart of the latency distribution: one row for each step of a linear
//! walk through the overall histogram, up to the step at which more than
//! 99.9% of the samples have been passed.

use crate::text::{ceil_div, div_ceil, left_aligned, lemma_ceil_div_bound, push_repeated};
use crate::text::repeated;
use vstd::prelude::*;

verus! {

/// The width of a full bar: so many stars stand for all samples.
pub const BAR_WIDTH: u8 = 80;

/// The sum of the counts of a walk's steps. A step is a pair of the value
/// iterated to and the count of samples since the step before.
pub open spec fn count_sum(steps: Seq<(u64, u64)>) -> nat
    decreases steps.len(),
{
    if steps.len() == 0 {
        0
    } else {
        count_sum(steps.drop_last()) + steps.last().1 as nat
    }
}

/// The number of samples passed once step `i` is done.
pub open spec fn cumulative(steps: Seq<(u64, u64)>, i: int) -> nat {
    count_sum(steps.take(i + 1))
}

/// Whether `passed` samples are more than 99.9% of `total`.
pub open spec fn crosses(passed: nat, total: nat) -> bool {
    passed * 1000 > total * 999
}

/// The first step at or after `from` with which more than 99.9% of the
/// samples are passed; the number of steps if there is none.
pub open spec fn crossing_from(steps: Seq<(u64, u64)>, total: nat, from: nat) -> nat
    decreases steps.len() - from,
{
    if from >= steps.len() {
        steps.len()
    } else if crosses(cumulative(steps, from as int), total) {
        from
    } else {
        crossing_from(steps, total, from + 1)
    }
}

/// The number of rows in the chart: the steps up to and including the first
/// that crosses 99.9%, or all of them if none does.
pub open spec fn shown_len(steps: Seq<(u64, u64)>, total: nat) -> nat {
    let k = crossing_from(steps, total, 0);
    if k < steps.len() {
        k + 1
    } else {
        steps.len()
    }
}

/// One row of the chart.
#[derive(Clone, Copy, Debug, PartialEq, Eq, Structural)]
pub struct ChartRow {
    /// The upper bound of the step in microseconds: one more than the value
    /// iterated to.
    pub bound_micros: u128,
    /// The length of the bar.
    pub stars: u8,
    /// The number of samples passed once the step is done.
    pub passed: u64,
}

/// The row of step `i`: its bar has `BAR_WIDTH` stars for all samples and is
/// rounded up to whole stars.
pub open spec fn row_at(steps: Seq<(u64, u64)>, total: nat, i: int) -> ChartRow {
    ChartRow {
        bound_micros: (steps[i].0 + 1) as u128,
        stars: ceil_div(steps[i].1 as nat * BAR_WIDTH as nat, total) as u8,
        passed: cumulative(steps, i) as u64,
    }
}

/// The chart of a walk through a histogram of `total` samples.
pub open spec fn chart_of(steps: Seq<(u64, u64)>, total: nat) -> Seq<ChartRow> {
    Seq::new(shown_len(steps, total), |i: int| row_at(steps, total, i))
}

/// A bar in its field: `stars` stars at the left end of `BAR_WIDTH`
/// characters.
pub open spec fn bar_text(stars: u8) -> Seq<char> {
    left_aligned(repeated('*', stars as nat), BAR_WIDTH as nat)
}

/// The count up to a step is the count up to the step before plus its own.
pub proof fn lemma_cumulative_step(steps: Seq<(u64, u64)>, i: int)
    requires
        0 <= i < steps.len(),
    ensures
        cumulative(steps, i) == (if i == 0 {
            0
        } else {
            cumulative(steps, i - 1)
        }) + steps[i].1,
        cumulative(steps, i) <= count_sum(steps),
    decreases steps.len() - i,
{
    let upto = steps.take(i + 1);
    assert(upto.drop_last() =~= steps.take(i));
    assert(upto.last() == steps[i]);
    if i == 0 {
        assert(count_sum(steps.take(0)) == 0);
    }
    if i + 1 == steps.len() {
        assert(steps.take(i + 1) =~= steps);
    } else {
        lemma_cumulative_step(steps, i + 1);
    }
}

/// Where no step from `from` up to `to` crosses, the first crossing at or
/// after `from` is the first at or after `to`.
pub proof fn lemma_crossing_skips(steps: Seq<(u64, u64)>, total: nat, from: nat, to: nat)
    requires
        from <= to <= steps.len(),
        forall|i: int| from <= i < to ==> !crosses(cumulative(steps, i), total),
    ensures
        crossing_from(steps, total, from) == crossing_from(steps, total, to),
    decreases to - from,
{
    if from < to {
        lemma_crossing_skips(steps, total, from + 1, to);
    }
}

/// Keeps the items up to and including the first for which `f` holds, and
/// drops those after it. Where `f` holds of none, all are kept. `f` is asked
/// about each kept item once, in order, and about no other.
pub fn break_once<T, F: Fn(&T) -> bool>(items: Vec<T>, f: F) -> (kept: Vec<T>)
    requires
        forall|i: int| 0 <= i < items.len() ==> call_requires(f, (&#[trigger] items[i],)),
    ensures
        kept.len() <= items.len(),
        kept@ == items@.take(kept.len() as int),
        forall|i: int| 0 <= i < kept.len() - 1 ==> call_ensures(f, (&#[trigger] items[i],), false),
        kept.len() < items.len() ==> kept.len() > 0 && call_ensures(
            f,
            (&items[kept.len() - 1],),
            true,
        ),
{
    let mut items = items;
    let ghost all = items@;
    let n = items.len();
    let mut i: usize = 0;
    let mut found = false;
    while i < n && !found
        invariant
            items@ == all,
            n == all.len(),
            i <= n,
            forall|j: int| 0 <= j < all.len() ==> call_requires(f, (&#[trigger] all[j],)),
            found ==> i > 0 && call_ensures(f, (&all[i - 1],), true),
            forall|j: int| 0 <= j < i - 1 ==> call_ensures(f, (&#[trigger] all[j],), false),
            !found && i > 0 ==> call_ensures(f, (&all[i - 1],), false),
        decreases n - i + (if found { 0int } else { 1int }),
    {
        found = f(&items[i]);
        i += 1;
    }
    items.truncate(i);
    items
}

/// One step of a walk together with the count of samples passed with it.
struct Passed {
    value: u64,
    count: u64,
    passed: u64,
}

/// Whether `passed` samples are more than 99.9% of `total`.
fn is_crossing(passed: u64, total: u64) -> (b: bool)
    ensures
        b == crosses(passed as nat, total as nat),
{
    passed as u128 * 1000 > total as u128 * 999
}

/// Computes the chart of a walk through a histogram of `total` samples.
pub fn chart_rows(steps: &Vec<(u64, u64)>, total: u64) -> (rows: Vec<ChartRow>)
    requires
        total > 0,
        count_sum(steps@) <= total,
    ensures
        rows@ == chart_of(steps@, total as nat),
{
    let mut running: Vec<Passed> = Vec::new();
    let mut passed: u64 = 0;
    let mut i: usize = 0;
    while i < steps.len()
        invariant
            i <= steps.len(),
            running.len() == i,
            count_sum(steps@) <= total,
            passed == (if i == 0 {
                0
            } else {
                cumulative(steps@, i - 1)
            }),
            forall|j: int|
                0 <= j < i ==> (#[trigger] running[j]).value == steps[j].0 && running[j].count
                    == steps[j].1 && running[j].passed == cumulative(steps@, j),
        decreases steps.len() - i,
    {
        proof {
            lemma_cumulative_step(steps@, i as int);
        }
        passed = passed + steps[i].1;
        running.push(Passed { value: steps[i].0, count: steps[i].1, passed });
        i += 1;
    }
    let ghost all = running@;
    let over = |p: &Passed| -> (b: bool)
        ensures
            b == crosses(p.passed as nat, total as nat),
        { is_crossing(p.passed, total) };
    let kept = break_once(running, over);
    proof {
        let n = kept.len() as nat;
        assert forall|j: int| 0 <= j < n - 1 implies !crosses(
            cumulative(steps@, j),
            total as nat,
        ) by {
            assert(call_ensures(over, (&all[j],), false));
        }
        lemma_crossing_skips(steps@, total as nat, 0, (if n == 0 {
            0
        } else {
            n - 1
        }) as nat);
        if n < steps.len() {
            assert(call_ensures(over, (&all[n - 1],), true));
        } else if n > 0 {
            if !crosses(cumulative(steps@, n - 1), total as nat) {
                lemma_crossing_skips(steps@, total as nat, (n - 1) as nat, n);
            }
        }
        assert(n == shown_len(steps@, total as nat));
    }
    let mut rows: Vec<ChartRow> = Vec::new();
    let mut k: usize = 0;
    while k < kept.len()
        invariant
            k <= kept.len() <= steps.len(),
            total > 0,
            count_sum(steps@) <= total,
            kept@ == all.take(kept.len() as int),
            all.len() == steps.len(),
            forall|j: int|
                0 <= j < all.len() ==> (#[trigger] all[j]).value == steps[j].0 && all[j].count
                    == steps[j].1 && all[j].passed == cumulative(steps@, j),
            rows.len() == k,
            forall|j: int| 0 <= j < k ==> #[trigger] rows[j] == row_at(steps@, total as nat, j),
        decreases kept.len() - k,
    {
        let p = &kept[k];
        proof {
            lemma_cumulative_step(steps@, k as int);
            assert(kept[k as int] == all[k as int]);
            assert(p.count <= p.passed <= total);
            assert(p.count as nat * 80 <= total as nat * 80) by (nonlinear_arith)
                requires
                    p.count <= total,
            ;
            lemma_ceil_div_bound(p.count as nat * 80, total as nat, 80);
        }
        let stars = div_ceil(p.count as u128 * (BAR_WIDTH as u128), total as u128);
        rows.push(
            ChartRow { bound_micros: p.value as u128 + 1, stars: stars as u8, passed: p.passed },
        );
        k += 1;
    }
    assert(rows@ =~= chart_of(steps@, total as nat));
    rows
}

/// Writes a bar in its field.
pub fn bar(stars: u8) -> (text: String)
    ensures
        text@ == bar_text(stars),
{
    proof {
        reveal_strlit("*");
        reveal_strlit(" ");
    }
    let mut text = String::new();
    push_repeated(&mut text, "*", stars as usize);
    if stars < BAR_WIDTH {
        push_repeated(&mut text, " ", (BAR_WIDTH - stars) as usize);
    }
    proof {
        assert(repeated('*', stars as nat).len() == stars);
        assert(text@ =~= bar_text(stars));
    }
    text
}

} // verus!
