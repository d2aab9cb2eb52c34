//! How the difficulty of an epoch may change over a run of epochs.
//!
//! From one epoch to the next the epoch difficulty changes by at most a factor
//! `tau`. The trend between two epochs records in which direction the
//! difficulty moved; from it follow the bounds that a claimed total difficulty
//! has to respect.

use crate::u256::{max_u256, U256};
use vstd::prelude::*;

verus! {

/// `x * tau`, capped at 2^256 - 1.
pub open spec fn saturating_product(x: nat, tau: nat) -> nat {
    if x * tau > max_u256() {
        max_u256()
    } else {
        x * tau
    }
}

/// `x` after `steps` multiplications by `tau`, each of them capped at
/// 2^256 - 1.
pub open spec fn raised(x: nat, tau: nat, steps: nat) -> nat
    decreases steps,
{
    if steps == 0 {
        x
    } else {
        saturating_product(raised(x, tau, (steps - 1) as nat), tau)
    }
}

/// `x` after `steps` divisions by `tau`, each of them rounded down.
///
/// This is not `x / tau^steps`: every step truncates.
pub open spec fn lowered(x: nat, tau: nat, steps: nat) -> nat
    decreases steps,
{
    if steps == 0 {
        x
    } else {
        lowered(x, tau, (steps - 1) as nat) / tau
    }
}

/// `(x + 1) / 2`: half of `x`, rounded up.
pub open spec fn half_up(x: nat) -> nat {
    (x + 1) / 2
}

/// The direction in which the epoch difficulty moved between two epochs.
#[derive(Clone, Copy, Debug)]
pub enum EpochDifficultyTrend {
    Unchanged,
    Increased { start: U256, end: U256 },
    Decreased { start: U256, end: U256 },
}

/// Which bound of the total difficulty is estimated.
#[derive(Clone, Copy, Debug)]
pub enum EstimatedLimit {
    Min,
    Max,
}

/// A run of epochs over which the difficulty moves in one direction.
#[derive(Clone, Copy, Debug)]
pub enum EpochCountGroupByTrend {
    Increased(u64),
    Decreased(u64),
}

/// A number of epochs, split in two runs: `start` comes first, `end` second.
#[derive(Clone, Copy, Debug)]
pub struct EpochDifficultyTrendDetails {
    pub start: EpochCountGroupByTrend,
    pub end: EpochCountGroupByTrend,
}

impl EpochCountGroupByTrend {
    /// The number of epochs in the run.
    pub open spec fn count(self) -> u64 {
        match self {
            EpochCountGroupByTrend::Increased(count) => count,
            EpochCountGroupByTrend::Decreased(count) => count,
        }
    }

    /// The epoch difficulty `steps` epochs into the run, entered at `curr`.
    pub open spec fn value_after(self, curr: nat, tau: nat, steps: nat) -> nat {
        match self {
            EpochCountGroupByTrend::Increased(_) => raised(curr, tau, steps),
            EpochCountGroupByTrend::Decreased(_) => lowered(curr, tau, steps),
        }
    }

    /// The sum of the epoch difficulties of the first `steps` epochs of the
    /// run, entered at `curr`. The difficulty `curr` itself is not counted.
    pub open spec fn sum_after(self, curr: nat, tau: nat, steps: nat) -> nat
        decreases steps,
    {
        if steps == 0 {
            0
        } else {
            self.sum_after(curr, tau, (steps - 1) as nat) + self.value_after(curr, tau, steps)
        }
    }

    /// Whether walking the run divides by `tau`.
    pub open spec fn divides(self) -> bool {
        self is Decreased && self.count() > 0
    }

    /// The run with one epoch less.
    pub fn subtract1(self) -> (r: Self)
        requires
            self.count() > 0,
        ensures
            r.count() == self.count() - 1,
            r is Increased <==> self is Increased,
    {
        match self {
            EpochCountGroupByTrend::Increased(count) => EpochCountGroupByTrend::Increased(
                count - 1,
            ),
            EpochCountGroupByTrend::Decreased(count) => EpochCountGroupByTrend::Decreased(
                count - 1,
            ),
        }
    }

    /// The number of epochs in the run.
    pub fn epochs_count(self) -> (r: u64)
        ensures
            r == self.count(),
    {
        match self {
            EpochCountGroupByTrend::Increased(count) => count,
            EpochCountGroupByTrend::Decreased(count) => count,
        }
    }
}

impl EpochDifficultyTrendDetails {
    /// The number of epochs in both runs together.
    pub open spec fn total(self) -> nat {
        (self.start.count() + self.end.count()) as nat
    }

    /// The split with its last epoch taken away: from the second run, or from
    /// the first where the second is empty.
    pub open spec fn without_last_epoch(self) -> Self {
        if self.end.count() == 0 {
            EpochDifficultyTrendDetails {
                start: match self.start {
                    EpochCountGroupByTrend::Increased(c) => EpochCountGroupByTrend::Increased(
                        (c - 1) as u64,
                    ),
                    EpochCountGroupByTrend::Decreased(c) => EpochCountGroupByTrend::Decreased(
                        (c - 1) as u64,
                    ),
                },
                end: self.end,
            }
        } else {
            EpochDifficultyTrendDetails {
                start: self.start,
                end: match self.end {
                    EpochCountGroupByTrend::Increased(c) => EpochCountGroupByTrend::Increased(
                        (c - 1) as u64,
                    ),
                    EpochCountGroupByTrend::Decreased(c) => EpochCountGroupByTrend::Decreased(
                        (c - 1) as u64,
                    ),
                },
            }
        }
    }

    /// The sum of the epoch difficulties met when both runs are walked from
    /// the epoch difficulty `start`, which itself is not counted.
    pub open spec fn difficulty_sum(self, start: nat, tau: nat) -> nat {
        self.start.sum_after(start, tau, self.start.count() as nat) + self.end.sum_after(
            self.start.value_after(start, tau, self.start.count() as nat),
            tau,
            self.end.count() as nat,
        )
    }

    /// Takes the last epoch away.
    pub fn remove_last_epoch(self) -> (r: Self)
        requires
            self.total() >= 1,
        ensures
            r == self.without_last_epoch(),
            r.total() == self.total() - 1,
    {
        let EpochDifficultyTrendDetails { start, end } = self;
        if end.epochs_count() == 0 {
            EpochDifficultyTrendDetails { start: start.subtract1(), end }
        } else {
            EpochDifficultyTrendDetails { start, end: end.subtract1() }
        }
    }

    /// The number of epochs in both runs together.
    pub fn total_epochs_count(&self) -> (r: u64)
        requires
            self.total() <= u64::MAX,
        ensures
            r == self.total(),
    {
        self.start.epochs_count() + self.end.epochs_count()
    }
}

/// The direction of a change, with the two epoch difficulties as numbers.
pub enum TrendView {
    Unchanged,
    Increased { start: nat, end: nat },
    Decreased { start: nat, end: nat },
}

impl View for EpochDifficultyTrend {
    type V = TrendView;

    open spec fn view(&self) -> TrendView {
        match self {
            EpochDifficultyTrend::Unchanged => TrendView::Unchanged,
            EpochDifficultyTrend::Increased { start, end } => TrendView::Increased {
                start: start@,
                end: end@,
            },
            EpochDifficultyTrend::Decreased { start, end } => TrendView::Decreased {
                start: start@,
                end: end@,
            },
        }
    }
}

impl TrendView {
    /// The trend from the epoch difficulty `start` to the epoch difficulty
    /// `end`.
    pub open spec fn between(start: nat, end: nat) -> Self {
        if start == end {
            TrendView::Unchanged
        } else if start < end {
            TrendView::Increased { start, end }
        } else {
            TrendView::Decreased { start, end }
        }
    }

    /// A trend is well formed if its two difficulties lie as its direction
    /// says.
    pub open spec fn wf(self) -> bool {
        match self {
            TrendView::Unchanged => true,
            TrendView::Increased { start, end } => start < end,
            TrendView::Decreased { start, end } => start > end,
        }
    }

    /// Both difficulties fit in 256 bits.
    pub open spec fn bounded(self) -> bool {
        match self {
            TrendView::Unchanged => true,
            TrendView::Increased { start, end } => start <= max_u256() && end <= max_u256(),
            TrendView::Decreased { start, end } => start <= max_u256() && end <= max_u256(),
        }
    }

    /// Whether the difficulty has got as far as `end` after `steps` epochs in
    /// which it changed by the full factor `tau`.
    pub open spec fn reaches_end(self, tau: u64, steps: nat) -> bool {
        match self {
            TrendView::Unchanged => true,
            TrendView::Increased { start, end } => raised(start, tau as nat, steps)
                >= end,
            TrendView::Decreased { start, end } => lowered(start, tau as nat, steps)
                <= end,
        }
    }

    /// Whether `end` lies within the factor `tau` per epoch of `start`, over
    /// `epochs_switch_count` switches of epoch.
    pub open spec fn within_tau(self, tau: u64, epochs_switch_count: u64) -> bool {
        match self {
            TrendView::Unchanged => true,
            TrendView::Increased { start, end } => end <= raised(
                start,
                tau as nat,
                epochs_switch_count as nat,
            ),
            TrendView::Decreased { start, end } => end >= lowered(
                start,
                tau as nat,
                epochs_switch_count as nat,
            ),
        }
    }

    /// The least `k` with `from <= k < limit` such that `k + 1` full steps
    /// reach `end`, if there is one.
    pub open spec fn least_exponent_from(self, tau: u64, from: u64, limit: u64) -> Option<u64>
        decreases limit - from,
    {
        if from >= limit {
            None
        } else if self.reaches_end(tau, (from + 1) as nat) {
            Some(from)
        } else {
            self.least_exponent_from(tau, (from + 1) as u64, limit)
        }
    }

    /// The exponent `k` of `tau` that the change from `start` to `end` takes:
    /// 0 where nothing changed, else the least `k < limit` such that `k + 1`
    /// full steps reach `end`.
    pub open spec fn tau_exponent(self, tau: u64, limit: u64) -> Option<u64> {
        match self {
            TrendView::Unchanged => Some(0),
            _ => self.least_exponent_from(tau, 0, limit),
        }
    }

    /// Whether walking the trend for `steps` epochs divides by `tau`.
    pub open spec fn divides(self, steps: u64) -> bool {
        self is Decreased && steps > 0
    }

    /// How `n` epochs split in a run of increase and a run of decrease, so
    /// that the total difficulty becomes as small (`Min`) or as large (`Max`)
    /// as a change of exponent `k` allows.
    pub open spec fn split(self, limit: EstimatedLimit, n: u64, k: u64) -> EpochDifficultyTrendDetails {
        let half: int = match self {
            TrendView::Unchanged => half_up(n as nat) as int,
            _ => half_up((n - k) as nat) as int,
        };
        let decreased: int = match (limit, self) {
            (EstimatedLimit::Min, TrendView::Unchanged) => half,
            (EstimatedLimit::Max, TrendView::Unchanged) => n - half,
            (EstimatedLimit::Min, TrendView::Increased { .. }) => half,
            (EstimatedLimit::Max, TrendView::Increased { .. }) => n - (half + k),
            (EstimatedLimit::Min, TrendView::Decreased { .. }) => half + k,
            (EstimatedLimit::Max, TrendView::Decreased { .. }) => half,
        };
        let increased: int = n - decreased;
        match limit {
            EstimatedLimit::Min => EpochDifficultyTrendDetails {
                start: EpochCountGroupByTrend::Decreased(decreased as u64),
                end: EpochCountGroupByTrend::Increased(increased as u64),
            },
            EstimatedLimit::Max => EpochDifficultyTrendDetails {
                start: EpochCountGroupByTrend::Increased(increased as u64),
                end: EpochCountGroupByTrend::Decreased(decreased as u64),
            },
        }
    }
}

impl EpochDifficultyTrend {
    /// Classifies the change from `start_epoch_difficulty` to
    /// `end_epoch_difficulty`.
    pub fn new(start_epoch_difficulty: &U256, end_epoch_difficulty: &U256) -> (r: Self)
        ensures
            r@ == TrendView::between(start_epoch_difficulty@, end_epoch_difficulty@),
            r@.wf(),
    {
        if start_epoch_difficulty.equals(end_epoch_difficulty) {
            EpochDifficultyTrend::Unchanged
        } else if start_epoch_difficulty.lt(end_epoch_difficulty) {
            EpochDifficultyTrend::Increased {
                start: *start_epoch_difficulty,
                end: *end_epoch_difficulty,
            }
        } else {
            EpochDifficultyTrend::Decreased {
                start: *start_epoch_difficulty,
                end: *end_epoch_difficulty,
            }
        }
    }

    /// Whether the end difficulty lies within the factor `tau` per epoch of
    /// the start difficulty.
    ///
    /// A decrease over at least one switch divides by `tau`, which must not
    /// be zero then.
    pub fn check_tau(&self, tau: u64, epochs_switch_count: u64) -> (r: bool)
        requires
            self@.divides(epochs_switch_count) ==> tau != 0,
        ensures
            r == self@.within_tau(tau, epochs_switch_count),
    {
        match self {
            EpochDifficultyTrend::Unchanged => true,
            EpochDifficultyTrend::Increased { start, end } => {
                let mut end_max: U256 = *start;
                let tau_u256 = U256::from_u64(tau);
                let mut i: u64 = 0;
                while i < epochs_switch_count
                    invariant
                        i <= epochs_switch_count,
                        tau_u256@ == tau,
                        end_max@ == raised(start@, tau as nat, i as nat),
                    decreases epochs_switch_count - i,
                {
                    end_max = end_max.saturating_mul(&tau_u256);
                    i += 1;
                }
                end.le(&end_max)
            },
            EpochDifficultyTrend::Decreased { start, end } => {
                let mut end_min: U256 = *start;
                let mut i: u64 = 0;
                while i < epochs_switch_count
                    invariant
                        i <= epochs_switch_count,
                        epochs_switch_count > 0 ==> tau != 0,
                        end_min@ == lowered(start@, tau as nat, i as nat),
                    decreases epochs_switch_count - i,
                {
                    end_min = end_min.div_u64(tau);
                    i += 1;
                }
                end.ge(&end_min)
            },
        }
    }

    /// The exponent `k` of `tau` that the change takes, if it is below
    /// `limit`; 0 where nothing changed.
    ///
    /// A decrease, searched with a `limit` above zero, divides by `tau`, which
    /// must not be zero then.
    pub fn calculate_tau_exponent(&self, tau: u64, limit: u64) -> (r: Option<u64>)
        requires
            self@.divides(limit) ==> tau != 0,
        ensures
            r == self@.tau_exponent(tau, limit),
    {
        match self {
            EpochDifficultyTrend::Unchanged => Some(0),
            EpochDifficultyTrend::Increased { start, end } => {
                let mut tmp: U256 = *start;
                let tau_u256 = U256::from_u64(tau);
                let mut k: u64 = 0;
                while k < limit
                    invariant
                        k <= limit,
                        *self == (EpochDifficultyTrend::Increased { start: *start, end: *end }),
                        tau_u256@ == tau,
                        tmp@ == raised(start@, tau as nat, k as nat),
                        self@.tau_exponent(tau, limit) == self@.least_exponent_from(tau, k, limit),
                    decreases limit - k,
                {
                    tmp = tmp.saturating_mul(&tau_u256);
                    if tmp.ge(end) {
                        return Some(k);
                    }
                    k += 1;
                }
                None
            },
            EpochDifficultyTrend::Decreased { start, end } => {
                let mut tmp: U256 = *start;
                let mut k: u64 = 0;
                while k < limit
                    invariant
                        k <= limit,
                        *self == (EpochDifficultyTrend::Decreased { start: *start, end: *end }),
                        limit > 0 ==> tau != 0,
                        tmp@ == lowered(start@, tau as nat, k as nat),
                        self@.tau_exponent(tau, limit) == self@.least_exponent_from(tau, k, limit),
                    decreases limit - k,
                {
                    tmp = tmp.div_u64(tau);
                    if tmp.le(end) {
                        return Some(k);
                    }
                    k += 1;
                }
                None
            },
        }
    }

    /// Splits `n` epochs in two runs, one of decrease and one of increase, and
    /// says how long each is.
    ///
    /// For the lower bound the difficulty first decreases, then increases; for
    /// the upper bound it first increases, then decreases. Of a trend that is
    /// not `Unchanged`, `k` of the `n` epochs are taken up by the change
    /// itself, so `k` is at most `n`.
    pub fn split_epochs(&self, limit: EstimatedLimit, n: u64, k: u64) -> (r:
        EpochDifficultyTrendDetails)
        requires
            !(self is Unchanged) ==> k <= n,
        ensures
            r == self@.split(limit, n, k),
            r.total() == n,
    {
        let rest: u64 = match self {
            EpochDifficultyTrend::Unchanged => n,
            _ => n - k,
        };
        let half: u64 = rest / 2 + rest % 2;
        let (increased, decreased): (u64, u64) = match (limit, self) {
            (EstimatedLimit::Min, EpochDifficultyTrend::Unchanged) => (n - half, half),
            (EstimatedLimit::Max, EpochDifficultyTrend::Unchanged) => (half, n - half),
            (EstimatedLimit::Min, EpochDifficultyTrend::Increased { .. }) => (n - half, half),
            (EstimatedLimit::Max, EpochDifficultyTrend::Increased { .. }) => (
                half + k,
                n - (half + k),
            ),
            (EstimatedLimit::Min, EpochDifficultyTrend::Decreased { .. }) => (
                n - (half + k),
                half + k,
            ),
            (EstimatedLimit::Max, EpochDifficultyTrend::Decreased { .. }) => (n - half, half),
        };
        match limit {
            EstimatedLimit::Min => EpochDifficultyTrendDetails {
                start: EpochCountGroupByTrend::Decreased(decreased),
                end: EpochCountGroupByTrend::Increased(increased),
            },
            EstimatedLimit::Max => EpochDifficultyTrendDetails {
                start: EpochCountGroupByTrend::Increased(increased),
                end: EpochCountGroupByTrend::Decreased(decreased),
            },
        }
    }

    /// The sum of the epoch difficulties over the epochs of `details`, walked
    /// from `start_epoch_difficulty`: a bound of the total difficulty.
    ///
    /// The sum must fit in 256 bits. A run of decrease divides by `tau`, which
    /// must not be zero then.
    pub fn calculate_total_difficulty_limit(
        &self,
        start_epoch_difficulty: &U256,
        tau: u64,
        details: &EpochDifficultyTrendDetails,
    ) -> (r: U256)
        requires
            details.start.divides() || details.end.divides() ==> tau != 0,
            details.difficulty_sum(start_epoch_difficulty@, tau as nat) <= max_u256(),
        ensures
            r@ == details.difficulty_sum(start_epoch_difficulty@, tau as nat),
    {
        match details.checked_difficulty_sum(start_epoch_difficulty, tau) {
            Some(total) => total,
            None => {
                proof {
                    assert(false);
                }
                U256::zero()
            },
        }
    }
}

impl EpochCountGroupByTrend {
    /// Walks the run from the epoch difficulty `curr` and adds the epoch
    /// difficulties met to `total`. Gives the epoch difficulty at the end of
    /// the run and the new total, or `None` where the total does not fit in
    /// 256 bits.
    fn walk(self, curr: U256, total: U256, tau: u64) -> (r: Option<(U256, U256)>)
        requires
            self.divides() ==> tau != 0,
        ensures
            match r {
                Some((c, t)) => c@ == self.value_after(curr@, tau as nat, self.count() as nat)
                    && t@ == total@ + self.sum_after(curr@, tau as nat, self.count() as nat),
                None => total@ + self.sum_after(curr@, tau as nat, self.count() as nat)
                    > max_u256(),
            },
    {
        let count: u64 = self.epochs_count();
        let tau_u256 = U256::from_u64(tau);
        let mut c: U256 = curr;
        let mut t: U256 = total;
        let mut i: u64 = 0;
        while i < count
            invariant
                i <= count,
                count == self.count(),
                self.divides() ==> tau != 0,
                tau_u256@ == tau,
                c@ == self.value_after(curr@, tau as nat, i as nat),
                t@ == total@ + self.sum_after(curr@, tau as nat, i as nat),
            decreases count - i,
        {
            c = match self {
                EpochCountGroupByTrend::Increased(_) => c.saturating_mul(&tau_u256),
                EpochCountGroupByTrend::Decreased(_) => c.div_u64(tau),
            };
            match t.checked_add(&c) {
                Some(sum) => {
                    t = sum;
                },
                None => {
                    proof {
                        lemma_sum_after_monotone(
                            self,
                            curr@,
                            tau as nat,
                            (i + 1) as nat,
                            count as nat,
                        );
                    }
                    return None;
                },
            }
            i += 1;
        }
        Some((c, t))
    }
}

impl EpochDifficultyTrendDetails {
    /// The sum of the epoch difficulties met when both runs are walked from
    /// `start_epoch_difficulty`, or `None` where that sum does not fit in 256
    /// bits.
    ///
    /// A run of decrease divides by `tau`, which must not be zero then.
    pub fn checked_difficulty_sum(&self, start_epoch_difficulty: &U256, tau: u64) -> (r: Option<
        U256,
    >)
        requires
            self.start.divides() || self.end.divides() ==> tau != 0,
        ensures
            match r {
                Some(total) => total@ == self.difficulty_sum(
                    start_epoch_difficulty@,
                    tau as nat,
                ),
                None => self.difficulty_sum(start_epoch_difficulty@, tau as nat) > max_u256(),
            },
    {
        match self.start.walk(*start_epoch_difficulty, U256::zero(), tau) {
            None => None,
            Some((curr, total)) => match self.end.walk(curr, total, tau) {
                None => None,
                Some((_, total)) => Some(total),
            },
        }
    }
}

/// The sum over a run grows with the number of epochs walked.
pub proof fn lemma_sum_after_monotone(
    group: EpochCountGroupByTrend,
    curr: nat,
    tau: nat,
    a: nat,
    b: nat,
)
    requires
        a <= b,
    ensures
        group.sum_after(curr, tau, a) <= group.sum_after(curr, tau, b),
    decreases b,
{
    if a < b {
        lemma_sum_after_monotone(group, curr, tau, a, (b - 1) as nat);
    }
}

/// Growth never leaves the 256-bit range.
pub proof fn lemma_raised_bounded(x: nat, tau: nat, steps: nat)
    requires
        x <= max_u256(),
    ensures
        raised(x, tau, steps) <= max_u256(),
    decreases steps,
{
    if steps > 0 {
        lemma_raised_bounded(x, tau, (steps - 1) as nat);
    }
}

/// With a factor of at least one, more steps of growth never give less.
pub proof fn lemma_raised_monotone(x: nat, tau: nat, a: nat, b: nat)
    requires
        x <= max_u256(),
        tau >= 1,
        a <= b,
    ensures
        raised(x, tau, a) <= raised(x, tau, b),
    decreases b,
{
    if a < b {
        lemma_raised_monotone(x, tau, a, (b - 1) as nat);
        lemma_raised_bounded(x, tau, (b - 1) as nat);
        let prev = raised(x, tau, (b - 1) as nat);
        assert(prev * tau >= prev) by (nonlinear_arith)
            requires
                tau >= 1,
        ;
    }
}

/// With a factor of zero, every step of growth gives zero.
pub proof fn lemma_raised_by_zero(x: nat, steps: nat)
    requires
        steps >= 1,
    ensures
        raised(x, 0, steps) == 0,
    decreases steps,
{
    let prev = raised(x, 0, (steps - 1) as nat);
    assert(prev * 0 == 0) by (nonlinear_arith);
}

/// With a factor of at least one, more steps of decrease never give more.
pub proof fn lemma_lowered_monotone(x: nat, tau: nat, a: nat, b: nat)
    requires
        tau >= 1,
        a <= b,
    ensures
        lowered(x, tau, a) >= lowered(x, tau, b),
    decreases b,
{
    if a < b {
        lemma_lowered_monotone(x, tau, a, (b - 1) as nat);
        let prev = lowered(x, tau, (b - 1) as nat);
        assert(prev / tau <= prev) by (nonlinear_arith)
            requires
                tau >= 1,
        ;
    }
}

/// What the search for the least exponent finds: the first `k` from `from`
/// on for which `k + 1` full steps reach the end difficulty.
pub proof fn lemma_least_exponent(trend: TrendView, tau: u64, from: u64, limit: u64)
    ensures
        match trend.least_exponent_from(tau, from, limit) {
            Some(k) => from <= k < limit && trend.reaches_end(tau, (k + 1) as nat) && forall|
                steps: nat,
            |
                from < steps <= k ==> !trend.reaches_end(tau, steps),
            None => forall|steps: nat| from < steps <= limit ==> !trend.reaches_end(tau, steps),
        },
    decreases limit - from,
{
    if from < limit && !trend.reaches_end(tau, (from + 1) as nat) {
        lemma_least_exponent(trend, tau, (from + 1) as u64, limit);
    }
}

/// Once the end difficulty is reached, it stays reached: more full steps
/// only move the difficulty further.
pub proof fn lemma_reaches_end_monotone(trend: TrendView, tau: u64, a: nat, b: nat)
    requires
        trend.bounded(),
        tau >= 1,
        a <= b,
        trend.reaches_end(tau, a),
    ensures
        trend.reaches_end(tau, b),
{
    match trend {
        TrendView::Unchanged => {},
        TrendView::Increased { start, end } => {
            lemma_raised_monotone(start, tau as nat, a, b);
        },
        TrendView::Decreased { start, end } => {
            lemma_lowered_monotone(start, tau as nat, a, b);
        },
    }
}

/// For a trend that changed: the search for the exponent of `tau` finds one
/// below `n` exactly when the end difficulty lies within the factor `tau` per
/// epoch over `n` switches of epoch.
pub proof fn lemma_tau_exponent_iff_within_tau(trend: TrendView, tau: u64, n: u64)
    requires
        trend.wf(),
        trend.bounded(),
        !(trend is Unchanged),
        trend.divides(n) ==> tau != 0,
    ensures
        trend.within_tau(tau, n) <==> (trend.tau_exponent(tau, n) is Some && trend.tau_exponent(
            tau,
            n,
        ).unwrap() < n),
{
    lemma_least_exponent(trend, tau, 0, n);
    match trend.tau_exponent(tau, n) {
        Some(k) => {
            if tau == 0 {
                match trend {
                    TrendView::Increased { start, end } => {
                        lemma_raised_by_zero(start, (k + 1) as nat);
                        if n >= 1 {
                            lemma_raised_by_zero(start, n as nat);
                        }
                    },
                    _ => {},
                }
            } else {
                lemma_reaches_end_monotone(trend, tau, (k + 1) as nat, n as nat);
            }
        },
        None => {
            if n >= 1 {
                assert(!trend.reaches_end(tau, n as nat));
            }
        },
    }
}

/// However `n` epochs are split, the two runs hold `n` epochs together.
pub proof fn lemma_split_keeps_total(
    trend: TrendView,
    limit: EstimatedLimit,
    n: u64,
    k: u64,
)
    requires
        !(trend is Unchanged) ==> k <= n,
    ensures
        trend.split(limit, n, k).total() == n,
{
}

/// Taking the last epoch away leaves one epoch less, and takes it from a run
/// that has one: neither run grows.
pub proof fn lemma_remove_last_epoch_total(details: EpochDifficultyTrendDetails)
    requires
        details.total() >= 1,
    ensures
        details.without_last_epoch().total() == details.total() - 1,
        details.without_last_epoch().start.count() <= details.start.count(),
        details.without_last_epoch().end.count() <= details.end.count(),
{
}

} // verus!
