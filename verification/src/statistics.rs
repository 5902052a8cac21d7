//! The whole-number part of the statistics of a log: what is summed, counted
//! and put in order before an average or a percentile is taken.

use crate::model::brightness::{BrightnessEvent, BrightnessEventView};
use crate::model::session::{
    counts_in_statistics, ReadingMetric, ReadingSession, ReadingSessionView, ReadingSessions,
};
use crate::seqs::{lemma_filter_none, lemma_filter_step, views};
use crate::time::{elapsed_seconds, seconds_between};
use vstd::prelude::*;
use vstd::relations::{sorted_by, total_ordering};
use vstd::seq_lib::lemma_sorted_unique;

verus! {

/// The order of numbers as a relation.
pub open spec fn smallest_first() -> spec_fn(u64, u64) -> bool {
    |a: u64, b: u64| a <= b
}

/// The order of numbers is total.
pub proof fn lemma_numbers_totally_ordered()
    ensures
        total_ordering(smallest_first()),
{
}

/// Puts numbers in ascending order.
pub fn sort_numbers(numbers: &Vec<u64>) -> (r: Vec<u64>)
    ensures
        r@ == numbers@.sort_by(smallest_first()),
        sorted_by(r@, smallest_first()),
        r@.to_multiset() == numbers@.to_multiset(),
        r@.len() == numbers@.len(),
{
    broadcast use vstd::seq_lib::group_to_multiset_ensures;

    let ghost leq = smallest_first();
    let mut sorted: Vec<u64> = Vec::new();
    let mut k: usize = 0;
    assert(numbers@.take(0) =~= Seq::<u64>::empty());
    while k < numbers.len()
        invariant
            k <= numbers@.len(),
            leq == smallest_first(),
            sorted_by(sorted@, leq),
            sorted@.to_multiset() == numbers@.take(k as int).to_multiset(),
            sorted@.len() == k,
        decreases numbers@.len() - k,
    {
        let next = numbers[k];
        let mut at: usize = 0;
        while at < sorted.len() && sorted[at] <= next
            invariant
                at <= sorted@.len(),
                forall|j: int| 0 <= j < at ==> (#[trigger] sorted@[j]) <= next,
            decreases sorted@.len() - at,
        {
            at += 1;
        }
        let ghost before = sorted@;
        sorted.insert(at, next);
        proof {
            assert(numbers@.take(k + 1) =~= numbers@.take(k as int).push(next));
            vstd::seq_lib::to_multiset_build(numbers@.take(k as int), next);
            vstd::seq_lib::to_multiset_insert(before, at as int, next);
            assert forall|i: int, j: int| 0 <= i < j < sorted@.len() implies #[trigger] leq(
                sorted@[i],
                sorted@[j],
            ) by {
                if j < at {
                    assert(leq(before[i], before[j]));
                } else if j == at {
                    assert(before[i] <= next);
                } else if i == at {
                    assert(leq(before[at as int], before[j - 1]) || at as int == j - 1);
                } else if i < at {
                    assert(leq(before[i], before[j - 1]));
                } else {
                    assert(leq(before[i - 1], before[j - 1]));
                }
            }
        }
        k += 1;
    }
    proof {
        assert(numbers@.take(k as int) =~= numbers@);
        lemma_numbers_totally_ordered();
        numbers@.lemma_sort_by_ensures(leq);
        lemma_sorted_unique(sorted@, numbers@.sort_by(leq), leq);
    }
    sorted
}

/// What a session measures under `metric`; nothing for a counter that the
/// session does not have. The progress made is the end progress less the
/// start progress, and nothing where the end is below the start.
pub open spec fn measure(session: ReadingSessionView, metric: ReadingMetric) -> u64 {
    match metric {
        ReadingMetric::SecondsRead => match session.seconds_read {
            Some(seconds) => seconds,
            None => 0,
        },
        ReadingMetric::PagesTurned => match session.pages_turned {
            Some(pages) => pages,
            None => 0,
        },
        ReadingMetric::ButtonPressCount => match session.button_press_count {
            Some(presses) => presses,
            None => 0,
        },
        ReadingMetric::Progress => {
            let end = match session.end_progress {
                Some(end) => end,
                None => 0,
            };
            if end >= session.start_progress {
                (end - session.start_progress) as u64
            } else {
                0
            }
        },
    }
}

/// The measure of a session under `metric`, as a function on sessions.
pub open spec fn measured_by(metric: ReadingMetric) -> spec_fn(ReadingSession) -> u64 {
    |session: ReadingSession| measure(session@, metric)
}

/// The sum of numbers.
pub open spec fn sum(numbers: Seq<u64>) -> nat
    decreases numbers.len(),
{
    if numbers.len() == 0 {
        0
    } else {
        sum(numbers.drop_last()) + numbers.last() as nat
    }
}

/// A sum of `n` numbers is at most `n` times the largest number there is.
proof fn lemma_sum_bound(numbers: Seq<u64>)
    ensures
        sum(numbers) <= numbers.len() * u64::MAX,
    decreases numbers.len(),
{
    if numbers.len() > 0 {
        lemma_sum_bound(numbers.drop_last());
        assert((numbers.len() - 1) * u64::MAX + u64::MAX == numbers.len() * u64::MAX)
            by (nonlinear_arith);
    }
}

impl ReadingSessions {
    /// The measures under `metric` of the sessions that count in statistics,
    /// in the order of the sessions.
    pub open spec fn measures(&self, metric: ReadingMetric) -> Seq<u64> {
        self.valid_items().map_values(measured_by(metric))
    }

    /// The measures under `metric` of the sessions that count in statistics,
    /// in the order of the sessions.
    pub fn metric_values(&self, metric: ReadingMetric) -> (r: Vec<u64>)
        ensures
            r@ == self.measures(metric),
    {
        let sessions = self.get_sessions();
        let ghost valid = counts_in_statistics();
        let ghost by = measured_by(metric);
        let mut values: Vec<u64> = Vec::new();
        let mut i: usize = 0;
        proof {
            lemma_filter_none(sessions@.take(0), valid);
            assert(values@ =~= sessions@.take(0).filter(valid).map_values(by));
        }
        while i < sessions.len()
            invariant
                i <= sessions@.len(),
                valid == counts_in_statistics(),
                by == measured_by(metric),
                values@ == sessions@.take(i as int).filter(valid).map_values(by),
            decreases sessions@.len() - i,
        {
            let session = &sessions[i];
            proof {
                lemma_filter_step(sessions@, valid, i as int);
            }
            if session.is_valid() {
                let value: u64 = match metric {
                    ReadingMetric::SecondsRead => match session.seconds_read {
                        Some(seconds) => seconds,
                        None => 0,
                    },
                    ReadingMetric::PagesTurned => match session.pages_turned {
                        Some(pages) => pages,
                        None => 0,
                    },
                    ReadingMetric::ButtonPressCount => match session.button_press_count {
                        Some(presses) => presses,
                        None => 0,
                    },
                    ReadingMetric::Progress => {
                        let end: u8 = match session.end_progress {
                            Some(end) => end,
                            None => 0,
                        };
                        if end >= session.start_progress {
                            (end - session.start_progress) as u64
                        } else {
                            0
                        }
                    },
                };
                values.push(value);
            }
            i += 1;
        }
        proof {
            assert(sessions@.take(i as int) =~= sessions@);
        }
        values
    }

    /// The measures under `metric` of the sessions that count in statistics,
    /// smallest first: what a percentile is read from.
    pub fn sorted_metric_values(&self, metric: ReadingMetric) -> (r: Vec<u64>)
        ensures
            r@ == self.measures(metric).sort_by(smallest_first()),
            sorted_by(r@, smallest_first()),
            r@.to_multiset() == self.measures(metric).to_multiset(),
    {
        let values = self.metric_values(metric);
        sort_numbers(&values)
    }

    /// The seconds read in the sessions that count in statistics, summed, and
    /// the number of those sessions: what the average reading time is the
    /// quotient of.
    pub fn seconds_read_total(&self) -> (r: (u128, usize))
        ensures
            r.0 == sum(self.measures(ReadingMetric::SecondsRead)),
            r.1 == self.measures(ReadingMetric::SecondsRead).len(),
    {
        let values = self.metric_values(ReadingMetric::SecondsRead);
        let mut total: u128 = 0;
        let mut i: usize = 0;
        while i < values.len()
            invariant
                i <= values@.len(),
                total == sum(values@.take(i as int)),
            decreases values@.len() - i,
        {
            proof {
                lemma_sum_bound(values@.take(i as int));
                assert(values@.take(i + 1).drop_last() =~= values@.take(i as int));
                assert(i * u64::MAX + u64::MAX <= u128::MAX) by (nonlinear_arith)
                    requires
                        i <= usize::MAX,
                ;
            }
            total = total + values[i] as u128;
            i += 1;
        }
        assert(values@.take(i as int) =~= values@);
        (total, values.len())
    }
}

/// What the time-weighted average of a light history is taken from.
#[derive(Clone, Copy, Debug, PartialEq, Eq, Structural)]
pub enum LevelAverage {
    /// The history is empty: there is no level.
    Empty,
    /// The level itself is the average: the only level of the history, or the
    /// last one of a history in which no time passes.
    Level(u8),
    /// The average is `weighted` divided by `seconds`: each level but the
    /// last, times the seconds for which it lasted, summed; and those seconds,
    /// summed. `seconds` is not zero. A sum of products beyond the range of
    /// `weighted` stays at the largest value of the range.
    Weighted { weighted: u128, seconds: u128 },
}

/// The seconds for which the level at place `at` lasted: the whole seconds
/// to the next event, where time moves forward; else nothing.
pub open spec fn lasting(events: Seq<BrightnessEventView>, at: int) -> nat {
    match seconds_between(events[at].timestamp, events[at + 1].timestamp) {
        Some(seconds) => if seconds > 0 {
            seconds as nat
        } else {
            0
        },
        None => 0,
    }
}

/// The seconds for which the first `n` levels lasted, summed.
pub open spec fn seconds_sum(events: Seq<BrightnessEventView>, n: int) -> nat
    decreases n,
{
    if n <= 0 {
        0
    } else {
        seconds_sum(events, n - 1) + lasting(events, n - 1)
    }
}

/// Each of the first `n` levels times the seconds for which it lasted,
/// summed.
pub open spec fn weighted_sum(events: Seq<BrightnessEventView>, n: int) -> nat
    decreases n,
{
    if n <= 0 {
        0
    } else {
        weighted_sum(events, n - 1) + events[n - 1].brightness.percentage as nat * lasting(
            events,
            n - 1,
        )
    }
}

/// `n`, or the largest `u128` where `n` is larger.
pub open spec fn capped_u128(n: nat) -> u128 {
    if n > u128::MAX {
        u128::MAX
    } else {
        n as u128
    }
}

/// What the time-weighted average of the levels of `events` is taken from.
pub open spec fn level_average(events: Seq<BrightnessEventView>) -> LevelAverage {
    if events.len() == 0 {
        LevelAverage::Empty
    } else if events.len() == 1 {
        LevelAverage::Level(events[0].brightness.percentage)
    } else if seconds_sum(events, events.len() - 1) == 0 {
        LevelAverage::Level(events.last().brightness.percentage)
    } else {
        LevelAverage::Weighted {
            weighted: capped_u128(weighted_sum(events, events.len() - 1)),
            seconds: seconds_sum(events, events.len() - 1) as u128,
        }
    }
}

/// The largest product of a level and the seconds for which it lasted.
pub const LARGEST_TERM: u128 = 2_351_959_869_397_967_830_785;

/// A level times the seconds for which it lasted is at most
/// [`LARGEST_TERM`].
proof fn lemma_term_bound(level: nat, passed: nat)
    requires
        level <= u8::MAX,
        passed <= i64::MAX,
    ensures
        level * passed <= LARGEST_TERM,
{
    assert(level * passed <= 255 * 9_223_372_036_854_775_807) by (nonlinear_arith)
        requires
            level <= 255,
            passed <= 9_223_372_036_854_775_807,
    ;
}

/// The seconds of `n` levels, summed, stay within the range of the
/// accumulator.
proof fn lemma_seconds_bound(events: Seq<BrightnessEventView>, n: int)
    requires
        0 <= n <= usize::MAX,
    ensures
        seconds_sum(events, n) <= n * i64::MAX,
        n * i64::MAX <= u128::MAX,
    decreases n,
{
    if n > 0 {
        lemma_seconds_bound(events, n - 1);
        assert((n - 1) * i64::MAX + i64::MAX == n * i64::MAX) by (nonlinear_arith);
    }
    assert(n * i64::MAX <= u128::MAX) by (nonlinear_arith)
        requires
            0 <= n <= 0xffff_ffff_ffff_ffff,
    ;
}

/// One level more adds the seconds for which it lasted to the one sum, and
/// its product with them to the other.
proof fn lemma_level_step(events: Seq<BrightnessEventView>, i: int)
    requires
        0 <= i < usize::MAX,
    ensures
        seconds_sum(events, i + 1) == seconds_sum(events, i) + lasting(events, i),
        weighted_sum(events, i + 1) == weighted_sum(events, i) + events[i].brightness.percentage
            as nat * lasting(events, i),
        seconds_sum(events, i + 1) <= u128::MAX,
        lasting(events, i) <= i64::MAX,
        events[i].brightness.percentage as nat * lasting(events, i) <= LARGEST_TERM,
{
    lemma_seconds_bound(events, i + 1);
    lemma_term_bound(events[i].brightness.percentage as nat, lasting(events, i));
}

/// Adding to a capped sum and capping again is capping the whole sum.
proof fn lemma_capped_add(total: nat, more: nat)
    requires
        more <= u128::MAX,
    ensures
        capped_u128(total + more) == if capped_u128(total) + more > u128::MAX {
            u128::MAX
        } else {
            (capped_u128(total) + more) as u128
        },
{
}

/// What the time-weighted average of the levels of a history is taken from.
pub fn time_weighted_level(events: &Vec<BrightnessEvent>) -> (r: LevelAverage)
    ensures
        r == level_average(views(events@)),
{
    let ghost all = views(events@);
    if events.len() == 0 {
        return LevelAverage::Empty;
    }
    if events.len() == 1 {
        assert(all[0] == events@[0]@);
        return LevelAverage::Level(events[0].brightness.percentage);
    }
    let mut weighted: u128 = 0;
    let mut seconds: u128 = 0;
    let mut i: usize = 0;
    let last = events.len() - 1;
    while i < last
        invariant
            i <= last,
            last == events@.len() - 1,
            all == views(events@),
            weighted == capped_u128(weighted_sum(all, i as int)),
            seconds == seconds_sum(all, i as int),
        decreases last - i,
    {
        let current = &events[i];
        let next = &events[i + 1];
        let ghost term = all[i as int].brightness.percentage as nat * lasting(all, i as int);
        proof {
            assert(all[i as int] == current@);
            assert(all[i + 1] == next@);
            lemma_level_step(all, i as int);
            lemma_capped_add(weighted_sum(all, i as int), term);
        }
        let passed: u128 = match elapsed_seconds(current.timestamp, next.timestamp) {
            Some(passed) => if passed > 0 {
                passed as u128
            } else {
                0
            },
            None => 0,
        };
        assert(passed == lasting(all, i as int));
        let level = current.brightness.percentage as u128;
        assert(level * passed == term);
        weighted = weighted.saturating_add(level * passed);
        seconds = seconds + passed;
        i += 1;
    }
    if seconds == 0 {
        assert(all.last() == events@[last as int]@);
        LevelAverage::Level(events[last].brightness.percentage)
    } else {
        LevelAverage::Weighted { weighted, seconds }
    }
}

/// The levels of a light history, smallest first: what a percentile is read
/// from.
pub fn sorted_levels(events: &Vec<BrightnessEvent>) -> (r: Vec<u64>)
    ensures
        r@ == levels(views(events@)).sort_by(smallest_first()),
        sorted_by(r@, smallest_first()),
        r@.len() == events@.len(),
{
    let ghost all = views(events@);
    let mut values: Vec<u64> = Vec::new();
    let mut i: usize = 0;
    while i < events.len()
        invariant
            i <= events@.len(),
            all == views(events@),
            values@ == levels(all.take(i as int)),
        decreases events@.len() - i,
    {
        values.push(events[i].brightness.percentage as u64);
        i += 1;
    }
    assert(all.take(i as int) =~= all);
    sort_numbers(&values)
}

/// The levels of light events, in the order of the events.
pub open spec fn levels(events: Seq<BrightnessEventView>) -> Seq<u64> {
    Seq::new(events.len(), |i: int| events[i].brightness.percentage as u64)
}

} // verus!
