use block_samples::trend::{
    EpochCountGroupByTrend, EpochDifficultyTrend, EpochDifficultyTrendDetails, EstimatedLimit,
};
use block_samples::u256::U256;

fn u(x: u64) -> U256 {
    U256::from_u64(x)
}

fn max() -> U256 {
    U256 { limbs: [u64::MAX; 4] }
}

fn count(group: EpochCountGroupByTrend) -> (bool, u64) {
    match group {
        EpochCountGroupByTrend::Increased(n) => (true, n),
        EpochCountGroupByTrend::Decreased(n) => (false, n),
    }
}

#[test]
fn new_classifies_by_comparison() {
    assert!(matches!(EpochDifficultyTrend::new(&u(5), &u(5)), EpochDifficultyTrend::Unchanged));
    match EpochDifficultyTrend::new(&u(5), &u(9)) {
        EpochDifficultyTrend::Increased { start, end } => {
            assert_eq!(start, u(5));
            assert_eq!(end, u(9));
        }
        _ => panic!("expected an increase"),
    }
    match EpochDifficultyTrend::new(&u(9), &u(5)) {
        EpochDifficultyTrend::Decreased { start, end } => {
            assert_eq!(start, u(9));
            assert_eq!(end, u(5));
        }
        _ => panic!("expected a decrease"),
    }
}

#[test]
fn new_compares_high_limbs_first() {
    let low = U256 { limbs: [u64::MAX, 0, 0, 0] };
    let high = U256 { limbs: [0, 1, 0, 0] };
    assert!(matches!(EpochDifficultyTrend::new(&low, &high), EpochDifficultyTrend::Increased { .. }));
    assert!(matches!(EpochDifficultyTrend::new(&high, &low), EpochDifficultyTrend::Decreased { .. }));
}

#[test]
fn check_tau_unchanged_is_true() {
    assert!(EpochDifficultyTrend::Unchanged.check_tau(2, 0));
    assert!(EpochDifficultyTrend::Unchanged.check_tau(0, 7));
}

#[test]
fn check_tau_increase_against_power() {
    let trend = EpochDifficultyTrend::new(&u(10), &u(40));
    assert!(!trend.check_tau(2, 0));
    assert!(!trend.check_tau(2, 1));
    assert!(trend.check_tau(2, 2));
    assert!(trend.check_tau(2, 3));
    let trend = EpochDifficultyTrend::new(&u(10), &u(41));
    assert!(!trend.check_tau(2, 2));
    assert!(trend.check_tau(2, 3));
}

#[test]
fn check_tau_increase_saturates() {
    let start = U256 { limbs: [0, 0, 0, 1 << 62] };
    let trend = EpochDifficultyTrend::new(&start, &max());
    assert!(!trend.check_tau(2, 1));
    assert!(trend.check_tau(2, 2));
    assert!(trend.check_tau(2, 100));
}

#[test]
fn check_tau_decrease_divides_step_by_step() {
    let trend = EpochDifficultyTrend::new(&u(100), &u(12));
    assert!(!trend.check_tau(2, 0));
    assert!(!trend.check_tau(2, 2));
    // 100 / 2 / 2 / 2 = 12
    assert!(trend.check_tau(2, 3));
    let trend = EpochDifficultyTrend::new(&u(100), &u(11));
    assert!(!trend.check_tau(2, 3));
    // 100 / 2 / 2 / 2 / 2 = 6
    assert!(trend.check_tau(2, 4));
}

#[test]
fn check_tau_with_factor_zero_and_increase() {
    let trend = EpochDifficultyTrend::new(&u(1), &u(2));
    assert!(!trend.check_tau(0, 0));
    assert!(!trend.check_tau(0, 5));
}

#[test]
fn tau_exponent_unchanged_is_zero() {
    assert_eq!(EpochDifficultyTrend::Unchanged.calculate_tau_exponent(2, 0), Some(0));
    assert_eq!(EpochDifficultyTrend::Unchanged.calculate_tau_exponent(2, 9), Some(0));
}

#[test]
fn tau_exponent_increase() {
    let trend = EpochDifficultyTrend::new(&u(10), &u(35));
    assert_eq!(trend.calculate_tau_exponent(2, 0), None);
    assert_eq!(trend.calculate_tau_exponent(2, 1), None);
    assert_eq!(trend.calculate_tau_exponent(2, 2), Some(1));
    assert_eq!(trend.calculate_tau_exponent(2, 10), Some(1));
    let trend = EpochDifficultyTrend::new(&u(10), &u(20));
    assert_eq!(trend.calculate_tau_exponent(2, 10), Some(0));
}

#[test]
fn tau_exponent_decrease() {
    let trend = EpochDifficultyTrend::new(&u(100), &u(12));
    assert_eq!(trend.calculate_tau_exponent(2, 2), None);
    assert_eq!(trend.calculate_tau_exponent(2, 3), Some(2));
    let trend = EpochDifficultyTrend::new(&u(100), &u(50));
    assert_eq!(trend.calculate_tau_exponent(2, 1), Some(0));
}

#[test]
fn tau_exponent_below_limit_iff_check_tau() {
    let values: [u64; 7] = [1, 2, 3, 10, 35, 100, 1000];
    for &start in values.iter() {
        for &end in values.iter() {
            if start == end {
                continue;
            }
            let trend = EpochDifficultyTrend::new(&u(start), &u(end));
            for tau in 1u64..4 {
                for n in 0u64..12 {
                    let found = match trend.calculate_tau_exponent(tau, n) {
                        Some(k) => k < n,
                        None => false,
                    };
                    assert_eq!(found, trend.check_tau(tau, n), "{} {} {} {}", start, end, tau, n);
                }
            }
        }
    }
}

#[test]
fn split_epochs_follows_the_table() {
    let unchanged = EpochDifficultyTrend::Unchanged;
    let increased = EpochDifficultyTrend::new(&u(1), &u(2));
    let decreased = EpochDifficultyTrend::new(&u(2), &u(1));
    // n = 9, k = 2: half of 9 is 5, half of 7 is 4.
    let d = unchanged.split_epochs(EstimatedLimit::Min, 9, 2);
    assert_eq!((count(d.start), count(d.end)), ((false, 5), (true, 4)));
    let d = unchanged.split_epochs(EstimatedLimit::Max, 9, 2);
    assert_eq!((count(d.start), count(d.end)), ((true, 5), (false, 4)));
    let d = increased.split_epochs(EstimatedLimit::Min, 9, 2);
    assert_eq!((count(d.start), count(d.end)), ((false, 4), (true, 5)));
    let d = increased.split_epochs(EstimatedLimit::Max, 9, 2);
    assert_eq!((count(d.start), count(d.end)), ((true, 6), (false, 3)));
    let d = decreased.split_epochs(EstimatedLimit::Min, 9, 2);
    assert_eq!((count(d.start), count(d.end)), ((false, 6), (true, 3)));
    let d = decreased.split_epochs(EstimatedLimit::Max, 9, 2);
    assert_eq!((count(d.start), count(d.end)), ((true, 5), (false, 4)));
}

#[test]
fn split_epochs_keeps_the_total() {
    let trends = [
        EpochDifficultyTrend::Unchanged,
        EpochDifficultyTrend::new(&u(1), &u(2)),
        EpochDifficultyTrend::new(&u(2), &u(1)),
    ];
    for trend in trends.iter() {
        for n in 0u64..20 {
            for k in 0u64..=n {
                for limit in [EstimatedLimit::Min, EstimatedLimit::Max] {
                    let details = trend.split_epochs(limit, n, k);
                    assert_eq!(details.total_epochs_count(), n);
                }
            }
        }
    }
}

#[test]
fn split_epochs_at_the_largest_count() {
    let d = EpochDifficultyTrend::Unchanged.split_epochs(EstimatedLimit::Min, u64::MAX, 0);
    assert_eq!((count(d.start), count(d.end)), ((false, 1 << 63), (true, (1 << 63) - 1)));
}

#[test]
fn remove_last_epoch_takes_from_the_end() {
    let details = EpochDifficultyTrendDetails {
        start: EpochCountGroupByTrend::Decreased(3),
        end: EpochCountGroupByTrend::Increased(2),
    };
    let less = details.remove_last_epoch();
    assert_eq!((count(less.start), count(less.end)), ((false, 3), (true, 1)));
    assert_eq!(less.total_epochs_count(), details.total_epochs_count() - 1);
}

#[test]
fn remove_last_epoch_takes_from_the_start_when_the_end_is_empty() {
    let details = EpochDifficultyTrendDetails {
        start: EpochCountGroupByTrend::Increased(3),
        end: EpochCountGroupByTrend::Decreased(0),
    };
    let less = details.remove_last_epoch();
    assert_eq!((count(less.start), count(less.end)), ((true, 2), (false, 0)));
    assert_eq!(less.total_epochs_count(), 2);
}

#[test]
fn subtract1_and_epochs_count() {
    assert_eq!(count(EpochCountGroupByTrend::Increased(4).subtract1()), (true, 3));
    assert_eq!(count(EpochCountGroupByTrend::Decreased(1).subtract1()), (false, 0));
    assert_eq!(EpochCountGroupByTrend::Decreased(7).epochs_count(), 7);
}

#[test]
fn total_difficulty_limit_walks_both_runs() {
    let trend = EpochDifficultyTrend::Unchanged;
    let details = EpochDifficultyTrendDetails {
        start: EpochCountGroupByTrend::Decreased(2),
        end: EpochCountGroupByTrend::Increased(1),
    };
    // 100 -> 50 -> 25 -> 50: 50 + 25 + 50
    assert_eq!(trend.calculate_total_difficulty_limit(&u(100), 2, &details), u(125));
    let details = EpochDifficultyTrendDetails {
        start: EpochCountGroupByTrend::Increased(3),
        end: EpochCountGroupByTrend::Decreased(2),
    };
    // 7 -> 21 -> 63 -> 189 -> 63 -> 21
    assert_eq!(trend.calculate_total_difficulty_limit(&u(7), 3, &details), u(21 + 63 + 189 + 63 + 21));
}

#[test]
fn total_difficulty_limit_of_no_epochs_is_zero() {
    let details = EpochDifficultyTrendDetails {
        start: EpochCountGroupByTrend::Decreased(0),
        end: EpochCountGroupByTrend::Increased(0),
    };
    assert_eq!(details.checked_difficulty_sum(&u(100), 0), Some(U256::zero()));
}

#[test]
fn checked_difficulty_sum_tells_overflow() {
    let details = EpochDifficultyTrendDetails {
        start: EpochCountGroupByTrend::Increased(2),
        end: EpochCountGroupByTrend::Decreased(0),
    };
    // The first step saturates at the maximum, the second adds it twice.
    assert_eq!(details.checked_difficulty_sum(&max(), 2), None);
    let details = EpochDifficultyTrendDetails {
        start: EpochCountGroupByTrend::Increased(1),
        end: EpochCountGroupByTrend::Decreased(0),
    };
    assert_eq!(details.checked_difficulty_sum(&max(), 2), Some(max()));
}
