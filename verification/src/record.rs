//! The record of a finished run and the formulas behind its four figures.
//!
//! Every figure is kept as a whole number of millionths, so `1_500_000` stands
//! for one and a half. Where a formula divides, the quotient is cut off
//! towards zero at the sixth decimal place.

use crate::session::State;
use vstd::prelude::*;

verus! {

/// How many millionths make one.
pub const MICROS: i64 = 1_000_000;

/// The outcome of one completed run, each figure in millionths.
#[derive(Clone, Copy, Debug, PartialEq, Eq, Structural)]
pub struct TraceRun {
    /// Words per minute.
    pub wpm: i64,
    /// The share of the cells that took no wrong key; one is `MICROS`.
    pub accuracy: i64,
    pub total_points: i64,
    /// The time the run took, in seconds.
    pub seconds: i64,
}

/// `num / den` cut off towards zero, for a positive `den`.
pub open spec fn truncated_quotient(num: int, den: int) -> int
    recommends
        den > 0,
{
    if num >= 0 {
        num / den
    } else {
        -((-num) / den)
    }
}

/// `(cells - errors) / cells`, in millionths. It is negative where more wrong
/// keys were typed than the paragraph has cells.
pub open spec fn accuracy_micros(cells: int, errors: int) -> int
    recommends
        cells > 0,
{
    truncated_quotient((cells - errors) * 1_000_000, cells)
}

/// `millis / 1000` seconds, in millionths.
pub open spec fn seconds_micros(millis: int) -> int {
    millis * 1000
}

/// `words / (seconds / 60)` where `seconds` is `millis / 1000`, in millionths.
pub open spec fn wpm_micros(words: int, millis: int) -> int
    recommends
        millis > 0,
{
    truncated_quotient(words * 60_000 * 1_000_000, millis)
}

/// `(wpm + accuracy * wpm) / 2`, all three in millionths.
pub open spec fn points_micros(wpm: int, accuracy: int) -> int {
    truncated_quotient(wpm * (1_000_000 + accuracy), 2_000_000)
}

/// The figure can be kept in a record.
pub open spec fn fits(v: int) -> bool {
    i64::MIN <= v <= i64::MAX
}

/// The record of a run over `cells` cells with `errors` wrong keys and
/// `words` words that took `millis` milliseconds. There is none where the
/// paragraph is empty, where no time has passed, or where a figure is too
/// large to keep.
pub open spec fn run_of(cells: int, errors: int, words: int, millis: int) -> Option<TraceRun> {
    let accuracy = accuracy_micros(cells, errors);
    let wpm = wpm_micros(words, millis);
    let seconds = seconds_micros(millis);
    let total_points = points_micros(wpm, accuracy);
    if cells > 0 && millis > 0 && fits(accuracy) && fits(wpm) && fits(seconds) && fits(
        total_points,
    ) {
        Some(
            TraceRun {
                wpm: wpm as i64,
                accuracy: accuracy as i64,
                total_points: total_points as i64,
                seconds: seconds as i64,
            },
        )
    } else {
        None
    }
}

/// With no more wrong keys than cells the accuracy lies between zero and
/// one, and it is one exactly when no key was wrong.
pub proof fn law_accuracy_range(cells: int, errors: int)
    requires
        cells > 0,
        0 <= errors <= cells,
    ensures
        0 <= accuracy_micros(cells, errors) <= 1_000_000,
        accuracy_micros(cells, errors) == 1_000_000 <==> errors == 0,
{
    let num = (cells - errors) * 1_000_000;
    assert(0 <= num / cells <= 1_000_000 && (num / cells == 1_000_000 <==> errors == 0))
        by (nonlinear_arith)
        requires
            cells > 0,
            0 <= errors <= cells,
            num == (cells - errors) * 1_000_000,
    ;
}

/// With every key right the points are the words per minute.
pub proof fn law_points_at_full_accuracy(wpm: int)
    requires
        wpm >= 0,
    ensures
        points_micros(wpm, 1_000_000) == wpm,
{
    assert((wpm * (1_000_000 + 1_000_000)) / 2_000_000 == wpm) by (nonlinear_arith)
        requires
            wpm >= 0,
    ;
}

/// A product is no further from zero than the product of the bounds of its
/// factors.
proof fn lemma_product_bound(a: int, b: int, x: int, y: int)
    requires
        -x <= a <= x,
        -y <= b <= y,
    ensures
        -(x * y) <= a * b <= x * y,
{
    assert(-(x * y) <= a * b <= x * y) by (nonlinear_arith)
        requires
            -x <= a <= x,
            -y <= b <= y,
    ;
}

/// `num / den` cut off towards zero.
fn quotient(num: i128, den: i128) -> (q: i128)
    requires
        den > 0,
        num > i128::MIN,
    ensures
        q == truncated_quotient(num as int, den as int),
{
    if num >= 0 {
        let q = (num as u128) / (den as u128);
        q as i128
    } else {
        let q = ((-num) as u128) / (den as u128);
        -(q as i128)
    }
}

/// The figure as a record keeps it, if it can be kept.
pub(crate) fn narrow(v: i128) -> (kept: Option<i64>)
    ensures
        kept == if fits(v as int) {
            Some(v as i64)
        } else {
            None
        },
{
    if v >= i64::MIN as i128 && v <= i64::MAX as i128 {
        Some(v as i64)
    } else {
        None
    }
}

/// The record of a run from its four counts.
pub fn measure(cells: usize, errors: usize, words: usize, millis: i128) -> (run: Option<TraceRun>)
    requires
        -0x1_0000_0000_0000_0000 < millis < 0x1_0000_0000_0000_0000,
    ensures
        run == run_of(cells as int, errors as int, words as int, millis as int),
{
    if cells == 0 || millis <= 0 {
        return None;
    }
    let accuracy = match narrow(quotient((cells as i128 - errors as i128) * 1_000_000, cells as i128)) {
        Some(v) => v,
        None => { return None; },
    };
    let wpm = match narrow(quotient(words as i128 * 60_000 * 1_000_000, millis)) {
        Some(v) => v,
        None => { return None; },
    };
    let seconds = match narrow(millis * 1000) {
        Some(v) => v,
        None => { return None; },
    };
    let factor: i128 = 1_000_000 + accuracy as i128;
    proof {
        lemma_product_bound(
            wpm as int,
            factor as int,
            0x8000_0000_0000_0000int,
            0x8000_0000_0000_0000int + 1_000_000int,
        );
    }
    let total_points = match narrow(quotient(wpm as i128 * factor, 2_000_000)) {
        Some(v) => v,
        None => { return None; },
    };
    Some(TraceRun { wpm, accuracy, total_points, seconds })
}

impl State {
    /// The time from the start of the attempt to `end`, in milliseconds.
    pub open spec fn spec_elapsed(&self, end: int) -> int {
        end - self@.initial_time
    }

    /// The record that the session would leave if it ended at `end`: the live
    /// figures of a session in progress.
    pub fn metrics_at(&self, end: i64) -> (run: Option<TraceRun>)
        ensures
            run == run_of(
                self@.cells.len() as int,
                self@.total_error_count,
                self@.word_count,
                self.spec_elapsed(end as int),
            ),
    {
        let millis = end as i128 - self.player.statistics.initial_time as i128;
        measure(
            self.chars.len(),
            self.player.statistics.total_error_count,
            self.player.statistics.word_count,
            millis,
        )
    }

    /// How much of the paragraph is typed, in whole percent.
    pub open spec fn spec_progress_percent(&self) -> int {
        if self@.cells.len() == 0 {
            0
        } else if self@.index >= self@.cells.len() {
            100
        } else {
            self@.index * 100 / (self@.cells.len() as int)
        }
    }

    /// How much of the paragraph is typed, in whole percent, rounded down;
    /// zero for an empty paragraph.
    pub fn progress_percent(&self) -> (percent: u16)
        ensures
            percent == self.spec_progress_percent(),
            percent <= 100,
    {
        let cells = self.chars.len();
        let index = self.player.index;
        if cells == 0 {
            0
        } else if index >= cells {
            100
        } else {
            let percent = (index as u128 * 100) / (cells as u128);
            assert(percent < 100) by (nonlinear_arith)
                requires
                    percent == (index as int * 100) / (cells as int),
                    0 <= index < cells,
            ;
            percent as u16
        }
    }

    /// The record of the session, from its start to its end time.
    pub fn create_run(&self) -> (run: Option<TraceRun>)
        ensures
            run == run_of(
                self@.cells.len() as int,
                self@.total_error_count,
                self@.word_count,
                self.spec_elapsed(self@.end_time),
            ),
    {
        self.metrics_at(self.player.statistics.end_time)
    }
}

} // verus!
