//! Availability figures derived from recent history.
//!
//! Both figures are defined on the empty history too: a monitor without any
//! record counts as fully available, with an average duration of zero.

use crate::history::MonitorPing;
use crate::monitor::Monitor;
use vstd::prelude::*;

verus! {

/// Number of most recent records over which availability is reported.
pub const UPTIME_WINDOW: i64 = 30;

/// Uptime reported for a monitor without history, in percent.
pub const UPTIME_OF_EMPTY: i64 = 100;

/// Number of records that mark a failed probe.
pub open spec fn bad_count(pings: Seq<MonitorPing>) -> nat {
    pings.filter(|ping: MonitorPing| ping.bad).len()
}

/// Sum of the durations of all records, in milliseconds.
pub open spec fn total_duration(pings: Seq<MonitorPing>) -> int
    decreases pings.len(),
{
    if pings.len() == 0 {
        0
    } else {
        total_duration(pings.drop_last()) + pings.last().duration_ms
    }
}

/// Quotient of `a` by a positive `b`, rounded toward zero.
pub open spec fn quotient_toward_zero(a: int, b: int) -> int {
    if a >= 0 {
        a / b
    } else {
        -((-a) / b)
    }
}

/// Share of records that are not bad, in percent, rounded down; 100 for the
/// empty history.
pub open spec fn uptime_percentage(pings: Seq<MonitorPing>) -> int {
    if pings.len() == 0 {
        UPTIME_OF_EMPTY as int
    } else {
        ((pings.len() - bad_count(pings)) * 100) / (pings.len() as int)
    }
}

/// Arithmetic mean of the durations, rounded toward zero; 0 for the empty
/// history.
pub open spec fn average_duration(pings: Seq<MonitorPing>) -> int {
    if pings.len() == 0 {
        0
    } else {
        quotient_toward_zero(total_duration(pings), pings.len() as int)
    }
}

/// Counting the bad records of a history one record at a time.
pub proof fn lemma_bad_count_step(pings: Seq<MonitorPing>, i: int)
    requires
        0 <= i < pings.len(),
    ensures
        bad_count(pings.take(i + 1)) == bad_count(pings.take(i)) + if pings[i].bad {
            1nat
        } else {
            0nat
        },
        bad_count(pings.take(i + 1)) <= i + 1,
        bad_count(pings.take(0)) == 0,
{
    let bad = |ping: MonitorPing| ping.bad;
    let longer = pings.take(i + 1);
    assert(longer.drop_last() =~= pings.take(i));
    assert(longer.last() == pings[i]);
    reveal(Seq::filter);
    assert(longer.filter(bad) == if bad(pings[i]) {
        pings.take(i).filter(bad).push(pings[i])
    } else {
        pings.take(i).filter(bad)
    });
    pings.take(i).lemma_filter_len(bad);
    assert(pings.take(0).filter(bad) =~= Seq::<MonitorPing>::empty());
}

/// No history has more bad records than records.
pub proof fn lemma_bad_count_bound(pings: Seq<MonitorPing>)
    ensures
        bad_count(pings) <= pings.len(),
{
    pings.lemma_filter_len(|ping: MonitorPing| ping.bad);
}

/// Summing the durations of a history one record at a time.
pub proof fn lemma_total_duration_step(pings: Seq<MonitorPing>, i: int)
    requires
        0 <= i < pings.len(),
    ensures
        total_duration(pings.take(i + 1)) == total_duration(pings.take(i)) + pings[i].duration_ms,
        total_duration(pings.take(0)) == 0,
{
    assert(pings.take(i + 1).drop_last() =~= pings.take(i));
}

/// The uptime percentage is a percentage.
pub proof fn lemma_uptime_percentage_range(pings: Seq<MonitorPing>)
    ensures
        0 <= uptime_percentage(pings) <= 100,
{
    lemma_bad_count_bound(pings);
    if pings.len() > 0 {
        let n = pings.len() as int;
        let good = n - bad_count(pings);
        assert(0 <= (good * 100) / n <= 100) by (nonlinear_arith)
            requires
                0 <= good <= n,
                n > 0,
        ;
    }
}

/// A history in which no duration is negative has no negative average.
pub proof fn lemma_average_duration_nonnegative(pings: Seq<MonitorPing>)
    requires
        forall|i: int| 0 <= i < pings.len() ==> (#[trigger] pings[i]).duration_ms >= 0,
    ensures
        total_duration(pings) >= 0,
        average_duration(pings) >= 0,
    decreases pings.len(),
{
    if pings.len() > 0 {
        lemma_average_duration_nonnegative(pings.drop_last());
        let total = total_duration(pings);
        let n = pings.len() as int;
        assert(total / n >= 0) by (nonlinear_arith)
            requires
                total >= 0,
                n > 0,
        ;
    }
}

impl Monitor {
    /// Uptime over the given records, in percent: the share of records that
    /// are not bad, rounded down, and 100 where there is no record.
    pub fn get_uptime_percentage(pings: &Vec<MonitorPing>) -> (percentage: i64)
        ensures
            percentage == uptime_percentage(pings@),
            0 <= percentage <= 100,
    {
        let total: usize = pings.len();
        if total == 0 {
            return UPTIME_OF_EMPTY;
        }
        let mut bad: usize = 0;
        let mut i: usize = 0;
        while i < total
            invariant
                total == pings.len(),
                0 <= i <= total,
                bad == bad_count(pings@.take(i as int)),
                bad <= i,
            decreases total - i,
        {
            proof {
                lemma_bad_count_step(pings@, i as int);
            }
            if pings[i].bad {
                bad = bad + 1;
            }
            i = i + 1;
        }
        proof {
            assert(pings@.take(total as int) =~= pings@);
            lemma_uptime_percentage_range(pings@);
        }
        let good: u128 = (total - bad) as u128;
        let percentage: u128 = (good * 100) / (total as u128);
        percentage as i64
    }

    /// Average probe duration over the given records, in milliseconds,
    /// rounded toward zero, and 0 where there is no record.
    pub fn get_average_ping_duration(pings: &Vec<MonitorPing>) -> (average: i64)
        ensures
            average == average_duration(pings@),
            (forall|i: int| 0 <= i < pings.len() ==> (#[trigger] pings[i]).duration_ms >= 0)
                ==> average >= 0,
    {
        let total: usize = pings.len();
        if total == 0 {
            return 0;
        }
        let mut sum: i128 = 0;
        let mut i: usize = 0;
        while i < total
            invariant
                total == pings.len(),
                0 <= i <= total,
                sum == total_duration(pings@.take(i as int)),
                i * (i64::MIN as int) <= sum <= i * (i64::MAX as int),
            decreases total - i,
        {
            proof {
                lemma_total_duration_step(pings@, i as int);
                assert((i + 1) * (i64::MIN as int) == i * (i64::MIN as int) + i64::MIN) by (nonlinear_arith);
                assert((i + 1) * (i64::MAX as int) == i * (i64::MAX as int) + i64::MAX) by (nonlinear_arith);
                assert(i * (i64::MAX as int) <= usize::MAX * (i64::MAX as int)) by (nonlinear_arith)
                    requires
                        i <= usize::MAX,
                ;
                assert(i * (i64::MIN as int) >= usize::MAX * (i64::MIN as int)) by (nonlinear_arith)
                    requires
                        i <= usize::MAX,
                ;
            }
            sum = sum + pings[i].duration_ms as i128;
            i = i + 1;
        }
        let count: i128 = total as i128;
        proof {
            assert(pings@.take(total as int) =~= pings@);
            if forall|i: int| 0 <= i < pings.len() ==> (#[trigger] pings[i]).duration_ms >= 0 {
                lemma_average_duration_nonnegative(pings@);
            }
            let bound = i64::MAX as int + 1;
            let s = sum as int;
            let n = count as int;
            if s >= 0 {
                assert(0 <= s / n <= i64::MAX) by (nonlinear_arith)
                    requires
                        0 <= s <= n * (i64::MAX as int),
                        n > 0,
                ;
            } else {
                assert(0 <= (-s) / n <= bound) by (nonlinear_arith)
                    requires
                        0 < -s <= n * bound,
                        n > 0,
                ;
            }
        }
        if sum >= 0 {
            (sum / count) as i64
        } else {
            (-((-sum) / count)) as i64
        }
    }
}

/// Availability figures of one monitor, recomputed from history whenever
/// they are asked for.
#[derive(Debug, Clone, Copy, PartialEq, Eq, Structural)]
pub struct MonitorStats {
    id: i64,
    average_response_ms: i64,
    uptime_percentage_24h: i64,
    uptime_percentage_30d: i64,
}

/// Mathematical content of a [`MonitorStats`].
pub struct MonitorStatsView {
    pub id: int,
    pub average_response_ms: int,
    pub uptime_percentage_24h: int,
    pub uptime_percentage_30d: int,
}

impl MonitorStatsView {
    /// The figures of monitor `id` for the records of its last day and of
    /// its last thirty days. The average duration is taken over the last
    /// day.
    pub open spec fn of(id: int, day: Seq<MonitorPing>, month: Seq<MonitorPing>) -> MonitorStatsView {
        MonitorStatsView {
            id,
            average_response_ms: average_duration(day),
            uptime_percentage_24h: uptime_percentage(day),
            uptime_percentage_30d: uptime_percentage(month),
        }
    }
}

impl View for MonitorStats {
    type V = MonitorStatsView;

    closed spec fn view(&self) -> MonitorStatsView {
        MonitorStatsView {
            id: self.id as int,
            average_response_ms: self.average_response_ms as int,
            uptime_percentage_24h: self.uptime_percentage_24h as int,
            uptime_percentage_30d: self.uptime_percentage_30d as int,
        }
    }
}

impl MonitorStats {
    /// Computes the figures of monitor `id` from the records of its last
    /// day and of its last thirty days.
    pub fn from_samples(
        id: i64,
        day: &Vec<MonitorPing>,
        month: &Vec<MonitorPing>,
    ) -> (stats: MonitorStats)
        ensures
            stats@ == MonitorStatsView::of(id as int, day@, month@),
    {
        MonitorStats {
            id,
            average_response_ms: Monitor::get_average_ping_duration(day),
            uptime_percentage_24h: Monitor::get_uptime_percentage(day),
            uptime_percentage_30d: Monitor::get_uptime_percentage(month),
        }
    }

    /// Rebuilds the figures of monitor `id` from the columns of a stored
    /// row.
    pub fn from_row(
        id: i64,
        average_response_ms: i64,
        uptime_percentage_24h: i64,
        uptime_percentage_30d: i64,
    ) -> (stats: MonitorStats)
        ensures
            stats@ == (MonitorStatsView {
                id: id as int,
                average_response_ms: average_response_ms as int,
                uptime_percentage_24h: uptime_percentage_24h as int,
                uptime_percentage_30d: uptime_percentage_30d as int,
            }),
    {
        MonitorStats { id, average_response_ms, uptime_percentage_24h, uptime_percentage_30d }
    }

    /// Identifier of the monitor that the figures are about.
    pub fn id(&self) -> (id: i64)
        ensures
            id == self@.id,
    {
        self.id
    }

    /// Average probe duration over the last day, in milliseconds.
    pub fn average_response_ms(&self) -> (average: i64)
        ensures
            average == self@.average_response_ms,
    {
        self.average_response_ms
    }

    /// Uptime over the last day, in percent.
    pub fn uptime_percentage_24h(&self) -> (percentage: i64)
        ensures
            percentage == self@.uptime_percentage_24h,
    {
        self.uptime_percentage_24h
    }

    /// Uptime over the last thirty days, in percent.
    pub fn uptime_percentage_30d(&self) -> (percentage: i64)
        ensures
            percentage == self@.uptime_percentage_30d,
    {
        self.uptime_percentage_30d
    }
}

/// A monitor as it is shown in a list: with its uptime over the recent
/// records and with whether its latest probe found it up.
#[derive(Debug)]
pub struct MonitorListItem {
    pub monitor: Monitor,
    pub uptime_percentage: i64,
    pub up: bool,
}

/// Whether the latest record of a history, the first of `recent`, shows the
/// monitor as up. A monitor without history does not count as up.
pub open spec fn latest_is_up(recent: Seq<MonitorPing>) -> bool {
    recent.len() > 0 && recent[0]@.is_up()
}

impl MonitorListItem {
    /// Makes the list item of `monitor` from its most recent records, latest
    /// first.
    pub fn new(monitor: Monitor, recent: &Vec<MonitorPing>) -> (item: MonitorListItem)
        ensures
            item.monitor == monitor,
            item.uptime_percentage == uptime_percentage(recent@),
            item.up == latest_is_up(recent@),
    {
        let up = if recent.len() > 0 {
            recent[0].is_up()
        } else {
            false
        };
        MonitorListItem { monitor, uptime_percentage: Monitor::get_uptime_percentage(recent), up }
    }
}

} // verus!
