//! Checks on the difficulties that two headers claim: the bound on how fast
//! the epoch difficulty may change, and the total difficulty between them.

use crate::epoch::EpochNumberWithFraction;
use crate::status::{
    decimal, epoch_text, number_hex, push_decimal, push_epoch, push_number_hex, Status, StatusCode,
};
use crate::trend::{EpochDifficultyTrend, EstimatedLimit, TrendView};
use crate::u256::{max_u256, U256};
use vstd::prelude::*;
use vstd::string::StringExecFns;

verus! {

/// The difficulty of a block whose header holds `compact_target`, as
/// `ckb_types::utilities::compact_to_difficulty` decodes it.
pub uninterp spec fn compact_target_difficulty(compact_target: u32) -> nat;

/// Calls `ckb_types::utilities::compact_to_difficulty`. Trusted: the result is
/// a function of the compact target alone.
#[verifier::external_body]
pub(crate) fn compact_to_difficulty(compact_target: u32) -> (r: U256)
    ensures
        r@ == compact_target_difficulty(compact_target),
{
    U256 { limbs: ckb_types::utilities::compact_to_difficulty(compact_target).0 }
}

/// The outcome of the check on the change of the epoch difficulty between two
/// headers, of which `start_difficulty` and `end_difficulty` are the block
/// difficulties.
///
/// Within one epoch the compact targets must agree, and then nothing
/// changed. Across epochs it is `Ok(true)` where the end epoch difficulty
/// does *not* lie within the factor `tau` per epoch of the start epoch
/// difficulty. It is `None` where the check cannot be computed: the end epoch
/// lies before the start epoch, an epoch difficulty does not fit in 256 bits,
/// or a decrease is to be measured with a `tau` of zero.
pub open spec fn tau_verdict(
    start_epoch: EpochNumberWithFraction,
    start_compact_target: u32,
    start_difficulty: nat,
    end_epoch: EpochNumberWithFraction,
    end_compact_target: u32,
    end_difficulty: nat,
    tau: u64,
) -> Option<Result<bool, StatusCode>> {
    if start_epoch.number == end_epoch.number {
        if start_compact_target != end_compact_target {
            Some(Err(StatusCode::InvalidCompactTarget))
        } else {
            Some(Ok(false))
        }
    } else {
        let start_epoch_difficulty = start_difficulty * (start_epoch.length as nat);
        let end_epoch_difficulty = end_difficulty * (end_epoch.length as nat);
        let trend = TrendView::between(start_epoch_difficulty, end_epoch_difficulty);
        let switches = (end_epoch.number - start_epoch.number) as u64;
        if start_epoch_difficulty > max_u256() || end_epoch_difficulty > max_u256()
            || start_epoch.number > end_epoch.number || (trend.divides(switches) && tau == 0) {
            None
        } else {
            Some(Ok(!trend.within_tau(tau, switches)))
        }
    }
}

/// Whether the result `r` is what the verdict `expected` asks for.
pub open spec fn tau_result_matches(
    r: Option<Result<bool, Status>>,
    expected: Option<Result<bool, StatusCode>>,
) -> bool {
    match (r, expected) {
        (None, None) => true,
        (Some(Ok(a)), Some(Ok(b))) => a == b,
        (Some(Err(status)), Some(Err(code))) => status@ == (code, None::<Seq<char>>),
        _ => false,
    }
}

/// Checks how fast the epoch difficulty changed between two headers, given
/// their block difficulties. See [`tau_verdict`].
pub fn verify_tau_with_difficulties(
    start_epoch: EpochNumberWithFraction,
    start_compact_target: u32,
    start_block_difficulty: &U256,
    end_epoch: EpochNumberWithFraction,
    end_compact_target: u32,
    end_block_difficulty: &U256,
    tau: u64,
) -> (r: Option<Result<bool, Status>>)
    ensures
        tau_result_matches(
            r,
            tau_verdict(
                start_epoch,
                start_compact_target,
                start_block_difficulty@,
                end_epoch,
                end_compact_target,
                end_block_difficulty@,
                tau,
            ),
        ),
{
    if start_epoch.number() == end_epoch.number() {
        if start_compact_target != end_compact_target {
            return Some(Err(StatusCode::InvalidCompactTarget.into_status()));
        }
        Some(Ok(false))
    } else {
        let start_epoch_difficulty = match start_block_difficulty.checked_mul(
            &U256::from_u64(start_epoch.length()),
        ) {
            Some(d) => d,
            None => {
                return None;
            },
        };
        let end_epoch_difficulty = match end_block_difficulty.checked_mul(
            &U256::from_u64(end_epoch.length()),
        ) {
            Some(d) => d,
            None => {
                return None;
            },
        };
        if start_epoch.number() > end_epoch.number() {
            return None;
        }
        let epochs_switch_count: u64 = end_epoch.number() - start_epoch.number();
        let epoch_difficulty_trend = EpochDifficultyTrend::new(
            &start_epoch_difficulty,
            &end_epoch_difficulty,
        );
        if tau == 0 && start_epoch_difficulty.gt(&end_epoch_difficulty) {
            return None;
        }
        Some(Ok(!epoch_difficulty_trend.check_tau(tau, epochs_switch_count)))
    }
}

/// Checks how fast the epoch difficulty changed between two headers, given
/// their compact targets. See [`tau_verdict`].
pub fn verify_tau(
    start_epoch: EpochNumberWithFraction,
    start_compact_target: u32,
    end_epoch: EpochNumberWithFraction,
    end_compact_target: u32,
    tau: u64,
) -> (r: Option<Result<bool, Status>>)
    ensures
        tau_result_matches(
            r,
            tau_verdict(
                start_epoch,
                start_compact_target,
                compact_target_difficulty(start_compact_target),
                end_epoch,
                end_compact_target,
                compact_target_difficulty(end_compact_target),
                tau,
            ),
        ),
{
    let start_block_difficulty = compact_to_difficulty(start_compact_target);
    let end_block_difficulty = compact_to_difficulty(end_compact_target);
    verify_tau_with_difficulties(
        start_epoch,
        start_compact_target,
        &start_block_difficulty,
        end_epoch,
        end_compact_target,
        &end_block_difficulty,
        tau,
    )
}

/// Why a claimed total difficulty does not fit the difficulties observed,
/// with the numbers that show it.
pub enum TotalDifficultyFault {
    /// The total difficulty went down, from `start` to `end`.
    Decreased { start: nat, end: nat },
    /// Within one epoch, the gain is not the block difficulty times the number
    /// of blocks.
    NotTheProduct { gain: nat, calculated: nat, difficulty: nat, count: u64 },
    /// The epoch difficulty changed faster than `tau` per epoch allows, from
    /// `start` to `end`.
    ChangedTooFast { start: nat, end: nat },
    /// Between neighbouring epochs, the gain is not the sum over the blocks of
    /// the two epochs.
    NotTheSum {
        gain: nat,
        calculated: nat,
        start_difficulty: nat,
        start_count: u64,
        end_difficulty: nat,
        end_count: u64,
    },
    /// The gain lies outside the bounds that the change of the epoch
    /// difficulty leaves.
    OutOfRange { gain: nat, unaligned: nat, aligned_min: nat, aligned_max: nat },
}

/// The words that name the two epochs between which a fault was found.
pub open spec fn during(
    start_epoch: EpochNumberWithFraction,
    end_epoch: EpochNumberWithFraction,
) -> Seq<char> {
    " during epochs (["@ + epoch_text(start_epoch) + ","@ + epoch_text(end_epoch) + "])"@
}

impl TotalDifficultyFault {
    /// The words that report the fault, found between the two epochs.
    pub open spec fn message(
        self,
        start_epoch: EpochNumberWithFraction,
        end_epoch: EpochNumberWithFraction,
    ) -> Seq<char> {
        (match self {
            TotalDifficultyFault::Decreased { start, end } =>
                "failed since total difficulty is decreased from "@ + number_hex(start) + " to "@
                    + number_hex(end),
            TotalDifficultyFault::NotTheProduct { gain, calculated, difficulty, count } =>
                "failed since total difficulty is "@ + number_hex(gain)
                    + " but the calculated is "@ + number_hex(calculated) + " (= "@ + number_hex(
                    difficulty,
                ) + " * "@ + decimal(count as nat) + ")"@,
            TotalDifficultyFault::ChangedTooFast { start, end } =>
                "failed since the epoch difficulty changed too fast ("@ + number_hex(start)
                    + "->"@ + number_hex(end) + ")"@,
            TotalDifficultyFault::NotTheSum {
                gain,
                calculated,
                start_difficulty,
                start_count,
                end_difficulty,
                end_count,
            } => "failed since total difficulty is "@ + number_hex(gain)
                + " but the calculated is "@ + number_hex(calculated) + " (= "@ + number_hex(
                start_difficulty,
            ) + " * "@ + decimal(start_count as nat) + " + "@ + number_hex(end_difficulty)
                + " * "@ + decimal(end_count as nat) + ")"@,
            TotalDifficultyFault::OutOfRange { gain, unaligned, aligned_min, aligned_max } =>
                "failed since total difficulty ("@ + number_hex(gain) + ") isn't in the range ("@
                    + number_hex(unaligned) + "+["@ + number_hex(aligned_min) + ","@ + number_hex(
                    aligned_max,
                ) + "])"@,
        }) + during(start_epoch, end_epoch)
    }
}

/// Appends the words that name two epochs.
fn push_during(
    text: &mut String,
    start_epoch: &EpochNumberWithFraction,
    end_epoch: &EpochNumberWithFraction,
)
    ensures
        final(text)@ == old(text)@ + during(*start_epoch, *end_epoch),
{
    text.append(" during epochs ([");
    push_epoch(text, start_epoch);
    text.append(",");
    push_epoch(text, end_epoch);
    text.append("])");
    assert(final(text)@ =~= old(text)@ + during(*start_epoch, *end_epoch));
}

fn decreased_message(
    start: &U256,
    end: &U256,
    start_epoch: &EpochNumberWithFraction,
    end_epoch: &EpochNumberWithFraction,
) -> (r: String)
    ensures
        r@ == (TotalDifficultyFault::Decreased { start: start@, end: end@ }).message(
            *start_epoch,
            *end_epoch,
        ),
{
    let mut text = String::from_str("failed since total difficulty is decreased from ");
    push_number_hex(&mut text, start);
    text.append(" to ");
    push_number_hex(&mut text, end);
    push_during(&mut text, start_epoch, end_epoch);
    assert(text@ =~= (TotalDifficultyFault::Decreased { start: start@, end: end@ }).message(
        *start_epoch,
        *end_epoch,
    ));
    text
}

fn product_message(
    gain: &U256,
    calculated: &U256,
    difficulty: &U256,
    count: u64,
    start_epoch: &EpochNumberWithFraction,
    end_epoch: &EpochNumberWithFraction,
) -> (r: String)
    ensures
        r@ == (TotalDifficultyFault::NotTheProduct {
            gain: gain@,
            calculated: calculated@,
            difficulty: difficulty@,
            count,
        }).message(*start_epoch, *end_epoch),
{
    let mut text = String::from_str("failed since total difficulty is ");
    push_number_hex(&mut text, gain);
    text.append(" but the calculated is ");
    push_number_hex(&mut text, calculated);
    text.append(" (= ");
    push_number_hex(&mut text, difficulty);
    text.append(" * ");
    push_decimal(&mut text, count);
    text.append(")");
    push_during(&mut text, start_epoch, end_epoch);
    assert(text@ =~= (TotalDifficultyFault::NotTheProduct {
        gain: gain@,
        calculated: calculated@,
        difficulty: difficulty@,
        count,
    }).message(*start_epoch, *end_epoch));
    text
}

fn too_fast_message(
    start: &U256,
    end: &U256,
    start_epoch: &EpochNumberWithFraction,
    end_epoch: &EpochNumberWithFraction,
) -> (r: String)
    ensures
        r@ == (TotalDifficultyFault::ChangedTooFast { start: start@, end: end@ }).message(
            *start_epoch,
            *end_epoch,
        ),
{
    let mut text = String::from_str("failed since the epoch difficulty changed too fast (");
    push_number_hex(&mut text, start);
    text.append("->");
    push_number_hex(&mut text, end);
    text.append(")");
    push_during(&mut text, start_epoch, end_epoch);
    assert(text@ =~= (TotalDifficultyFault::ChangedTooFast { start: start@, end: end@ }).message(
        *start_epoch,
        *end_epoch,
    ));
    text
}

fn sum_message(
    gain: &U256,
    calculated: &U256,
    start_difficulty: &U256,
    start_count: u64,
    end_difficulty: &U256,
    end_count: u64,
    start_epoch: &EpochNumberWithFraction,
    end_epoch: &EpochNumberWithFraction,
) -> (r: String)
    ensures
        r@ == (TotalDifficultyFault::NotTheSum {
            gain: gain@,
            calculated: calculated@,
            start_difficulty: start_difficulty@,
            start_count,
            end_difficulty: end_difficulty@,
            end_count,
        }).message(*start_epoch, *end_epoch),
{
    let mut text = String::from_str("failed since total difficulty is ");
    push_number_hex(&mut text, gain);
    text.append(" but the calculated is ");
    push_number_hex(&mut text, calculated);
    text.append(" (= ");
    push_number_hex(&mut text, start_difficulty);
    text.append(" * ");
    push_decimal(&mut text, start_count);
    text.append(" + ");
    push_number_hex(&mut text, end_difficulty);
    text.append(" * ");
    push_decimal(&mut text, end_count);
    text.append(")");
    push_during(&mut text, start_epoch, end_epoch);
    assert(text@ =~= (TotalDifficultyFault::NotTheSum {
        gain: gain@,
        calculated: calculated@,
        start_difficulty: start_difficulty@,
        start_count,
        end_difficulty: end_difficulty@,
        end_count,
    }).message(*start_epoch, *end_epoch));
    text
}

fn range_message(
    gain: &U256,
    unaligned: &U256,
    aligned_min: &U256,
    aligned_max: &U256,
    start_epoch: &EpochNumberWithFraction,
    end_epoch: &EpochNumberWithFraction,
) -> (r: String)
    ensures
        r@ == (TotalDifficultyFault::OutOfRange {
            gain: gain@,
            unaligned: unaligned@,
            aligned_min: aligned_min@,
            aligned_max: aligned_max@,
        }).message(*start_epoch, *end_epoch),
{
    let mut text = String::from_str("failed since total difficulty (");
    push_number_hex(&mut text, gain);
    text.append(") isn't in the range (");
    push_number_hex(&mut text, unaligned);
    text.append("+[");
    push_number_hex(&mut text, aligned_min);
    text.append(",");
    push_number_hex(&mut text, aligned_max);
    text.append("])");
    push_during(&mut text, start_epoch, end_epoch);
    assert(text@ =~= (TotalDifficultyFault::OutOfRange {
        gain: gain@,
        unaligned: unaligned@,
        aligned_min: aligned_min@,
        aligned_max: aligned_max@,
    }).message(*start_epoch, *end_epoch));
    text
}

/// The sum of the block difficulties of the two partial epochs at the ends:
/// the blocks after the start block in its epoch, and the blocks of the end
/// epoch up to the end block.
pub open spec fn unaligned_difficulty(
    start_epoch: EpochNumberWithFraction,
    start_difficulty: nat,
    end_epoch: EpochNumberWithFraction,
    end_difficulty: nat,
) -> int {
    start_difficulty * (start_epoch.length - start_epoch.index - 1) + end_difficulty * (
    end_epoch.index + 1)
}

/// A bound of the sum of the epoch difficulties of the whole epochs strictly
/// between the start epoch and the end epoch, `n` switches apart, for a change
/// of exponent `k`: the last of the `n` epochs is the end epoch, which is left
/// out.
pub open spec fn aligned_difficulty(
    trend: TrendView,
    limit: EstimatedLimit,
    start_epoch_difficulty: nat,
    tau: u64,
    n: u64,
    k: u64,
) -> nat {
    trend.split(limit, n, k).without_last_epoch().difficulty_sum(
        start_epoch_difficulty,
        tau as nat,
    )
}

/// Whether estimating a bound divides by `tau`.
pub open spec fn aligned_difficulty_divides(
    trend: TrendView,
    limit: EstimatedLimit,
    n: u64,
    k: u64,
) -> bool {
    let details = trend.split(limit, n, k).without_last_epoch();
    details.start.divides() || details.end.divides()
}

/// The outcome of the check of the total difficulty at the end header
/// against the total difficulty at the start header, given the block
/// difficulties at both.
///
/// With `gain` for the difference of the two total difficulties:
/// - The total difficulty must not go down.
/// - Within one epoch, `gain` is the block difficulty times the number of
///   blocks between the two.
/// - Across epochs the exponent `k` of the change of the epoch difficulty
///   must exist below the number `n` of switches. For `n == 1`, `gain` is the
///   unaligned difficulty. Else `gain` lies between the unaligned difficulty
///   plus the lower bound, and the unaligned difficulty plus the upper bound,
///   of the epochs in between.
///
/// It is `None` where the check cannot be computed: a count of blocks or
/// epochs would be negative, a value that is needed does not fit in 256 bits
/// (in 64 bits, for the index of the end block plus one), or a division by a
/// `tau` of zero is called for. The steps are taken in the order given here,
/// and the first that cannot be computed decides.
pub open spec fn total_difficulty_verdict(
    start_epoch: EpochNumberWithFraction,
    start_difficulty: nat,
    start_total_difficulty: nat,
    end_epoch: EpochNumberWithFraction,
    end_difficulty: nat,
    end_total_difficulty: nat,
    tau: u64,
) -> Option<Result<(), TotalDifficultyFault>> {
    let gain = end_total_difficulty - start_total_difficulty;
    if start_total_difficulty > end_total_difficulty {
        Some(
            Err(
                TotalDifficultyFault::Decreased {
                    start: start_total_difficulty,
                    end: end_total_difficulty,
                },
            ),
        )
    } else if start_epoch.number == end_epoch.number {
        let calculated = start_difficulty * (end_epoch.index - start_epoch.index);
        if end_epoch.index < start_epoch.index || calculated > max_u256() {
            None
        } else if gain != calculated {
            Some(
                Err(
                    TotalDifficultyFault::NotTheProduct {
                        gain: gain as nat,
                        calculated: calculated as nat,
                        difficulty: start_difficulty,
                        count: (end_epoch.index - start_epoch.index) as u64,
                    },
                ),
            )
        } else {
            Some(Ok(()))
        }
    } else {
        let start_epoch_difficulty = start_difficulty * (start_epoch.length as nat);
        let end_epoch_difficulty = end_difficulty * (end_epoch.length as nat);
        let trend = TrendView::between(start_epoch_difficulty, end_epoch_difficulty);
        let n = (end_epoch.number - start_epoch.number) as u64;
        if start_epoch_difficulty > max_u256() || end_epoch_difficulty > max_u256()
            || start_epoch.number > end_epoch.number || (trend.divides(n) && tau == 0) {
            None
        } else {
            match trend.tau_exponent(tau, n) {
                None => Some(
                    Err(
                        TotalDifficultyFault::ChangedTooFast {
                            start: start_epoch_difficulty,
                            end: end_epoch_difficulty,
                        },
                    ),
                ),
                Some(k) => {
                    let unaligned = unaligned_difficulty(
                        start_epoch,
                        start_difficulty,
                        end_epoch,
                        end_difficulty,
                    );
                    if start_epoch.length <= start_epoch.index || end_epoch.index == u64::MAX
                        || start_difficulty * (start_epoch.length - start_epoch.index - 1)
                        > max_u256() || end_difficulty * (end_epoch.index + 1) > max_u256()
                        || unaligned > max_u256() {
                        None
                    } else if n == 1 {
                        if gain != unaligned {
                            Some(
                                Err(
                                    TotalDifficultyFault::NotTheSum {
                                        gain: gain as nat,
                                        calculated: unaligned as nat,
                                        start_difficulty,
                                        start_count: (start_epoch.length - start_epoch.index
                                            - 1) as u64,
                                        end_difficulty,
                                        end_count: (end_epoch.index + 1) as u64,
                                    },
                                ),
                            )
                        } else {
                            Some(Ok(()))
                        }
                    } else {
                        let aligned_min = aligned_difficulty(
                            trend,
                            EstimatedLimit::Min,
                            start_epoch_difficulty,
                            tau,
                            n,
                            k,
                        );
                        let aligned_max = aligned_difficulty(
                            trend,
                            EstimatedLimit::Max,
                            start_epoch_difficulty,
                            tau,
                            n,
                            k,
                        );
                        if (aligned_difficulty_divides(trend, EstimatedLimit::Min, n, k) && tau
                            == 0) || aligned_min > max_u256() || (aligned_difficulty_divides(
                            trend,
                            EstimatedLimit::Max,
                            n,
                            k,
                        ) && tau == 0) || aligned_max > max_u256() || unaligned + aligned_min
                            > max_u256() || unaligned + aligned_max > max_u256() {
                            None
                        } else if gain < unaligned + aligned_min || gain > unaligned
                            + aligned_max {
                            Some(
                                Err(
                                    TotalDifficultyFault::OutOfRange {
                                        gain: gain as nat,
                                        unaligned: unaligned as nat,
                                        aligned_min,
                                        aligned_max,
                                    },
                                ),
                            )
                        } else {
                            Some(Ok(()))
                        }
                    }
                },
            }
        }
    }
}

/// Whether `r` is what the verdict `expected` asks for.
pub open spec fn total_difficulty_result_matches(
    r: Option<Result<(), String>>,
    expected: Option<Result<(), TotalDifficultyFault>>,
    start_epoch: EpochNumberWithFraction,
    end_epoch: EpochNumberWithFraction,
) -> bool {
    match (r, expected) {
        (None, None) => true,
        (Some(Ok(())), Some(Ok(()))) => true,
        (Some(Err(text)), Some(Err(fault))) => text@ == fault.message(start_epoch, end_epoch),
        _ => false,
    }
}

/// Checks the total difficulty at the end header against the total
/// difficulty at the start header, given the block difficulties at both. See
/// [`total_difficulty_verdict`].
pub fn verify_total_difficulty_with_difficulties(
    start_epoch: EpochNumberWithFraction,
    start_block_difficulty: &U256,
    start_total_difficulty: &U256,
    end_epoch: EpochNumberWithFraction,
    end_block_difficulty: &U256,
    end_total_difficulty: &U256,
    tau: u64,
) -> (r: Option<Result<(), String>>)
    ensures
        total_difficulty_result_matches(
            r,
            total_difficulty_verdict(
                start_epoch,
                start_block_difficulty@,
                start_total_difficulty@,
                end_epoch,
                end_block_difficulty@,
                end_total_difficulty@,
                tau,
            ),
            start_epoch,
            end_epoch,
        ),
{
    let total_difficulty = match end_total_difficulty.checked_sub(start_total_difficulty) {
        Some(gain) => gain,
        None => {
            return Some(
                Err(
                    decreased_message(
                        start_total_difficulty,
                        end_total_difficulty,
                        &start_epoch,
                        &end_epoch,
                    ),
                ),
            );
        },
    };
    if start_epoch.number() == end_epoch.number() {
        if end_epoch.index() < start_epoch.index() {
            return None;
        }
        let total_blocks_count: u64 = end_epoch.index() - start_epoch.index();
        let total_difficulty_calculated = match start_block_difficulty.checked_mul(
            &U256::from_u64(total_blocks_count),
        ) {
            Some(product) => product,
            None => {
                return None;
            },
        };
        if !total_difficulty.equals(&total_difficulty_calculated) {
            return Some(
                Err(
                    product_message(
                        &total_difficulty,
                        &total_difficulty_calculated,
                        start_block_difficulty,
                        total_blocks_count,
                        &start_epoch,
                        &end_epoch,
                    ),
                ),
            );
        }
        Some(Ok(()))
    } else {
        let start_epoch_difficulty = match start_block_difficulty.checked_mul(
            &U256::from_u64(start_epoch.length()),
        ) {
            Some(product) => product,
            None => {
                return None;
            },
        };
        let end_epoch_difficulty = match end_block_difficulty.checked_mul(
            &U256::from_u64(end_epoch.length()),
        ) {
            Some(product) => product,
            None => {
                return None;
            },
        };
        if start_epoch.number() > end_epoch.number() {
            return None;
        }
        let epochs_switch_count: u64 = end_epoch.number() - start_epoch.number();
        let epoch_difficulty_trend = EpochDifficultyTrend::new(
            &start_epoch_difficulty,
            &end_epoch_difficulty,
        );
        if tau == 0 && start_epoch_difficulty.gt(&end_epoch_difficulty) {
            return None;
        }
        // How far the epoch difficulty moved, as an exponent of tau.
        let k: u64 = match epoch_difficulty_trend.calculate_tau_exponent(tau, epochs_switch_count) {
            Some(k) => k,
            None => {
                return Some(
                    Err(
                        too_fast_message(
                            &start_epoch_difficulty,
                            &end_epoch_difficulty,
                            &start_epoch,
                            &end_epoch,
                        ),
                    ),
                );
            },
        };
        // The blocks of the two partial epochs at the ends.
        if start_epoch.length() <= start_epoch.index() || end_epoch.index() == u64::MAX {
            return None;
        }
        let start_epoch_blocks_count: u64 = start_epoch.length() - start_epoch.index() - 1;
        let end_epoch_blocks_count: u64 = end_epoch.index() + 1;
        let start_part = match start_block_difficulty.checked_mul(
            &U256::from_u64(start_epoch_blocks_count),
        ) {
            Some(product) => product,
            None => {
                return None;
            },
        };
        let end_part = match end_block_difficulty.checked_mul(
            &U256::from_u64(end_epoch_blocks_count),
        ) {
            Some(product) => product,
            None => {
                return None;
            },
        };
        let unaligned_difficulty_calculated = match start_part.checked_add(&end_part) {
            Some(sum) => sum,
            None => {
                return None;
            },
        };
        if epochs_switch_count == 1 {
            if !total_difficulty.equals(&unaligned_difficulty_calculated) {
                return Some(
                    Err(
                        sum_message(
                            &total_difficulty,
                            &unaligned_difficulty_calculated,
                            start_block_difficulty,
                            start_epoch_blocks_count,
                            end_block_difficulty,
                            end_epoch_blocks_count,
                            &start_epoch,
                            &end_epoch,
                        ),
                    ),
                );
            }
            Some(Ok(()))
        } else {
            let n: u64 = epochs_switch_count;
            proof {
                crate::trend::lemma_least_exponent(epoch_difficulty_trend@, tau, 0, n);
            }
            let details_min = epoch_difficulty_trend.split_epochs(
                EstimatedLimit::Min,
                n,
                k,
            ).remove_last_epoch();
            if tau == 0 && (details_min.start.epochs_count() > 0
                || details_min.end.epochs_count() > 0) {
                return None;
            }
            let aligned_difficulty_min = match details_min.checked_difficulty_sum(
                &start_epoch_difficulty,
                tau,
            ) {
                Some(sum) => sum,
                None => {
                    return None;
                },
            };
            let details_max = epoch_difficulty_trend.split_epochs(
                EstimatedLimit::Max,
                n,
                k,
            ).remove_last_epoch();
            if tau == 0 && (details_max.start.epochs_count() > 0
                || details_max.end.epochs_count() > 0) {
                return None;
            }
            let aligned_difficulty_max = match details_max.checked_difficulty_sum(
                &start_epoch_difficulty,
                tau,
            ) {
                Some(sum) => sum,
                None => {
                    return None;
                },
            };
            let total_difficulty_min = match unaligned_difficulty_calculated.checked_add(
                &aligned_difficulty_min,
            ) {
                Some(sum) => sum,
                None => {
                    return None;
                },
            };
            let total_difficulty_max = match unaligned_difficulty_calculated.checked_add(
                &aligned_difficulty_max,
            ) {
                Some(sum) => sum,
                None => {
                    return None;
                },
            };
            if total_difficulty.lt(&total_difficulty_min) || total_difficulty.gt(
                &total_difficulty_max,
            ) {
                return Some(
                    Err(
                        range_message(
                            &total_difficulty,
                            &unaligned_difficulty_calculated,
                            &aligned_difficulty_min,
                            &aligned_difficulty_max,
                            &start_epoch,
                            &end_epoch,
                        ),
                    ),
                );
            }
            Some(Ok(()))
        }
    }
}

/// Checks the total difficulty at the end header against the total
/// difficulty at the start header, given the compact targets of both. See
/// [`total_difficulty_verdict`].
pub fn verify_total_difficulty(
    start_epoch: EpochNumberWithFraction,
    start_compact_target: u32,
    start_total_difficulty: &U256,
    end_epoch: EpochNumberWithFraction,
    end_compact_target: u32,
    end_total_difficulty: &U256,
    tau: u64,
) -> (r: Option<Result<(), String>>)
    ensures
        total_difficulty_result_matches(
            r,
            total_difficulty_verdict(
                start_epoch,
                compact_target_difficulty(start_compact_target),
                start_total_difficulty@,
                end_epoch,
                compact_target_difficulty(end_compact_target),
                end_total_difficulty@,
                tau,
            ),
            start_epoch,
            end_epoch,
        ),
{
    let start_block_difficulty = compact_to_difficulty(start_compact_target);
    let end_block_difficulty = compact_to_difficulty(end_compact_target);
    verify_total_difficulty_with_difficulties(
        start_epoch,
        &start_block_difficulty,
        start_total_difficulty,
        end_epoch,
        &end_block_difficulty,
        end_total_difficulty,
        tau,
    )
}

} // verus!
