use block_samples::difficulty::{
    verify_tau, verify_tau_with_difficulties, verify_total_difficulty,
    verify_total_difficulty_with_difficulties,
};
use block_samples::epoch::EpochNumberWithFraction;
use block_samples::status::StatusCode;
use block_samples::u256::U256;
use ckb_types::utilities::{compact_to_difficulty, difficulty_to_compact};

const TAU: u64 = 2;

fn u(x: u64) -> U256 {
    U256::from_u64(x)
}

fn lib(x: ckb_types::U256) -> U256 {
    U256 { limbs: x.0 }
}

fn epoch(number: u64, index: u64, length: u64) -> EpochNumberWithFraction {
    EpochNumberWithFraction::new(number, index, length)
}

fn target_of(difficulty: u64) -> u32 {
    difficulty_to_compact(ckb_types::U256::from(difficulty))
}

type OutsideEpoch = ckb_types::core::EpochNumberWithFraction;

fn big(x: u64) -> ckb_types::U256 {
    ckb_types::U256::from(x)
}

fn during(start: (u64, u64, u64), end: (u64, u64, u64)) -> String {
    format!(
        " during epochs ([{:#},{:#}])",
        OutsideEpoch::new_unchecked(start.0, start.1, start.2),
        OutsideEpoch::new_unchecked(end.0, end.1, end.2)
    )
}

fn ok() -> Option<Result<(), String>> {
    Some(Ok(()))
}

fn is_err(r: Option<Result<(), String>>) -> bool {
    matches!(r, Some(Err(_)))
}

#[test]
fn tau_same_epoch_same_target() {
    let r = verify_tau(epoch(5, 2, 100), 0x1e08_3126, epoch(5, 7, 100), 0x1e08_3126, TAU);
    assert_eq!(r, Some(Ok(false)));
}

#[test]
fn tau_same_epoch_different_targets() {
    let r = verify_tau(epoch(5, 2, 100), 0x1e08_3126, epoch(5, 7, 100), 0x1e08_3127, TAU);
    match r {
        Some(Err(status)) => {
            assert_eq!(status.code, StatusCode::InvalidCompactTarget);
            assert_eq!(status.context, None);
        }
        _ => panic!("expected a status"),
    }
}

#[test]
fn tau_flag_is_set_when_the_bound_is_violated() {
    // Epoch difficulties 1000 and 2000: within the factor 2 over one switch.
    let r = verify_tau_with_difficulties(epoch(5, 0, 100), 1, &u(10), epoch(6, 0, 100), 2, &u(20), TAU);
    assert_eq!(r, Some(Ok(false)));
    // Epoch difficulties 1000 and 2001: not within it.
    let r = verify_tau_with_difficulties(epoch(5, 0, 100), 1, &u(10), epoch(6, 0, 87), 2, &u(23), TAU);
    assert_eq!(r, Some(Ok(true)));
    // Over two switches it is.
    let r = verify_tau_with_difficulties(epoch(5, 0, 100), 1, &u(10), epoch(7, 0, 87), 2, &u(23), TAU);
    assert_eq!(r, Some(Ok(false)));
}

#[test]
fn tau_flag_for_a_decrease() {
    // 1000 -> 500 is within the factor, 1000 -> 499 is not.
    let r = verify_tau_with_difficulties(epoch(5, 0, 100), 1, &u(10), epoch(6, 0, 100), 2, &u(5), TAU);
    assert_eq!(r, Some(Ok(false)));
    let r = verify_tau_with_difficulties(epoch(5, 0, 100), 1, &u(10), epoch(6, 0, 499), 2, &u(1), TAU);
    assert_eq!(r, Some(Ok(true)));
}

#[test]
fn tau_uses_the_decoded_difficulty() {
    let low = target_of(1_000);
    let high = target_of(1_000_000);
    assert_eq!(lib(compact_to_difficulty(low)), u(1_000));
    assert_eq!(lib(compact_to_difficulty(high)), u(1_000_000));
    assert_eq!(verify_tau(epoch(1, 0, 10), low, epoch(2, 0, 10), high, TAU), Some(Ok(true)));
    assert_eq!(verify_tau(epoch(1, 0, 10), low, epoch(11, 0, 10), high, TAU), Some(Ok(false)));
    assert_eq!(verify_tau(epoch(1, 0, 10), high, epoch(2, 0, 10), low, TAU), Some(Ok(true)));
}

#[test]
fn tau_cannot_be_computed() {
    let max = U256 { limbs: [u64::MAX; 4] };
    // The epoch difficulty does not fit.
    assert_eq!(verify_tau_with_difficulties(epoch(1, 0, 10), 1, &max, epoch(2, 0, 10), 2, &u(1), TAU), None);
    assert_eq!(verify_tau_with_difficulties(epoch(1, 0, 10), 1, &u(1), epoch(2, 0, 10), 2, &max, TAU), None);
    // The end epoch lies before the start epoch.
    assert_eq!(verify_tau_with_difficulties(epoch(2, 0, 10), 1, &u(1), epoch(1, 0, 10), 2, &u(1), TAU), None);
    // A decrease with a factor of zero.
    assert_eq!(verify_tau_with_difficulties(epoch(1, 0, 10), 1, &u(2), epoch(2, 0, 10), 2, &u(1), 0), None);
    // An increase with a factor of zero exceeds the bound.
    assert_eq!(verify_tau_with_difficulties(epoch(1, 0, 10), 1, &u(1), epoch(2, 0, 10), 2, &u(2), 0), Some(Ok(true)));
}

#[test]
fn total_difficulty_within_one_epoch() {
    let target = 0x1e08_3126;
    let block = compact_to_difficulty(target);
    let start = ckb_types::U256::from(1_000_000u64);
    let gain = block.clone() * 5u64;
    let end = start.clone() + gain;
    let run = |end: ckb_types::U256| {
        verify_total_difficulty(epoch(5, 2, 100), target, &lib(start.clone()), epoch(5, 7, 100), target, &lib(end), TAU)
    };
    assert_eq!(run(end.clone()), ok());
    let more = run(end.clone() + 1u64);
    assert_eq!(
        more,
        Some(Err(format!(
            "failed since total difficulty is {:#x} but the calculated is {:#x} (= {:#x} * {}){}",
            block.clone() * 5u64 + 1u64,
            block.clone() * 5u64,
            block,
            5,
            during((5, 2, 100), (5, 7, 100))
        )))
    );
    assert!(is_err(run(end - 1u64)));
}

#[test]
fn total_difficulty_must_not_decrease() {
    let r = verify_total_difficulty_with_difficulties(epoch(5, 2, 100), &u(10), &u(100), epoch(5, 7, 100), &u(10), &u(99), TAU);
    let words = format!(
        "failed since total difficulty is decreased from {:#x} to {:#x}{}",
        big(100),
        big(99),
        during((5, 2, 100), (5, 7, 100))
    );
    assert_eq!(words, "failed since total difficulty is decreased from 0x64 to 0x63 during epochs ([5(2/100),5(7/100)])");
    assert_eq!(r, Some(Err(words)));
}

#[test]
fn total_difficulty_across_one_switch_is_exact() {
    let start_target = target_of(1_000);
    let end_target = target_of(1_500);
    let start_block = compact_to_difficulty(start_target);
    let end_block = compact_to_difficulty(end_target);
    // start: index 90 of 100, end: index 4 of 120.
    let gain = start_block.clone() * (100u64 - 90 - 1) + end_block.clone() * (4u64 + 1);
    let start = ckb_types::U256::from(77u64);
    let end = start.clone() + gain;
    let run = |end: ckb_types::U256| {
        verify_total_difficulty(epoch(5, 90, 100), start_target, &lib(start.clone()), epoch(6, 4, 120), end_target, &lib(end), TAU)
    };
    assert_eq!(run(end.clone()), ok());
    assert_eq!(
        run(end.clone() + 1u64),
        Some(Err(format!(
            "failed since total difficulty is {:#x} but the calculated is {:#x} (= {:#x} * {} + {:#x} * {}){}",
            end.clone() + 1u64 - start.clone(),
            end.clone() - start.clone(),
            start_block,
            9,
            end_block,
            5,
            during((5, 90, 100), (6, 4, 120))
        )))
    );
    assert!(is_err(run(end - 1u64)));
}

#[test]
fn total_difficulty_changed_too_fast() {
    // Epoch difficulties 1000 and 5000 over two switches: 1000 * 2 * 2 < 5000.
    let r = verify_total_difficulty_with_difficulties(epoch(5, 0, 100), &u(10), &u(0), epoch(7, 0, 100), &u(50), &u(1_000_000), TAU);
    assert_eq!(
        r,
        Some(Err(format!(
            "failed since the epoch difficulty changed too fast ({:#x}->{:#x}){}",
            big(1000),
            big(5000),
            during((5, 0, 100), (7, 0, 100))
        )))
    );
}

#[test]
fn total_difficulty_across_epochs_lies_in_a_range() {
    // Epochs of 10 blocks, block difficulty 10 at both ends: the epoch
    // difficulty is 100 and unchanged, three switches apart.
    // Unaligned: 10 * (10 - 3 - 1) + 10 * (5 + 1) = 120.
    // Lower bound: 3 epochs split in 2 of decrease and 1 of increase, less the
    // last: 100 -> 50 -> 25: 75. Upper bound: 100 -> 200 -> 400: 600.
    let run = |gain: u64| {
        verify_total_difficulty_with_difficulties(epoch(5, 3, 10), &u(10), &u(1000), epoch(8, 5, 10), &u(10), &u(1000 + gain), TAU)
    };
    assert_eq!(run(120 + 75), ok());
    assert_eq!(run(120 + 600), ok());
    assert_eq!(run(120 + 300), ok());
    for gain in [120 + 74, 120 + 601] {
        assert_eq!(
            run(gain),
            Some(Err(format!(
                "failed since total difficulty ({:#x}) isn't in the range ({:#x}+[{:#x},{:#x}]){}",
                big(gain),
                big(120),
                big(75),
                big(600),
                during((5, 3, 10), (8, 5, 10))
            )))
        );
    }
}

#[test]
fn total_difficulty_range_for_an_increase() {
    // Epoch difficulty 100 -> 400 over 4 switches: the exponent is 1.
    // Unaligned: 10 * 9 + 40 * 1 = 130.
    // Lower: 4 epochs, 2 of decrease then 2 of increase, less the last:
    // 100 -> 50 -> 25 -> 50: 125.
    // Upper: 3 of increase then 1 of decrease, less the last:
    // 100 -> 200 -> 400 -> 800: 1400.
    let run = |gain: u64| {
        verify_total_difficulty_with_difficulties(epoch(1, 0, 10), &u(10), &u(0), epoch(5, 0, 10), &u(40), &u(gain), TAU)
    };
    assert_eq!(run(130 + 125), ok());
    assert_eq!(run(130 + 1400), ok());
    assert!(is_err(run(130 + 124)));
    assert!(is_err(run(130 + 1401)));
}

#[test]
fn total_difficulty_range_for_a_decrease() {
    // Epoch difficulty 400 -> 100 over 5 switches: the exponent is 1.
    // Unaligned: 40 * 9 + 10 * 1 = 370.
    // Lower: 3 of decrease then 2 of increase, less the last:
    // 400 -> 200 -> 100 -> 50 -> 100: 450.
    // Upper: 3 of increase then 2 of decrease, less the last:
    // 400 -> 800 -> 1600 -> 3200 -> 1600: 7200.
    let run = |gain: u64| {
        verify_total_difficulty_with_difficulties(epoch(1, 0, 10), &u(40), &u(0), epoch(6, 0, 10), &u(10), &u(gain), TAU)
    };
    assert_eq!(run(370 + 450), ok());
    assert_eq!(run(370 + 7200), ok());
    assert!(is_err(run(370 + 449)));
    assert!(is_err(run(370 + 7201)));
}

#[test]
fn total_difficulty_cannot_be_computed() {
    let max = U256 { limbs: [u64::MAX; 4] };
    // The end block lies before the start block in their epoch.
    assert_eq!(verify_total_difficulty_with_difficulties(epoch(5, 7, 100), &u(10), &u(0), epoch(5, 2, 100), &u(10), &u(50), TAU), None);
    // The product does not fit.
    assert_eq!(verify_total_difficulty_with_difficulties(epoch(5, 2, 100), &max, &u(0), epoch(5, 7, 100), &max, &u(50), TAU), None);
    // The start block lies outside its epoch.
    assert_eq!(verify_total_difficulty_with_difficulties(epoch(5, 100, 100), &u(10), &u(0), epoch(6, 7, 100), &u(10), &u(50), TAU), None);
    // The end epoch lies before the start epoch.
    assert_eq!(verify_total_difficulty_with_difficulties(epoch(6, 2, 100), &u(10), &u(0), epoch(5, 7, 100), &u(10), &u(50), TAU), None);
    // The upper bound does not fit: a huge epoch difficulty, many epochs.
    let huge = U256 { limbs: [0, 0, 0, 1 << 59] };
    assert_eq!(verify_total_difficulty_with_difficulties(epoch(1, 0, 10), &huge, &u(0), epoch(9, 0, 10), &huge, &u(50), TAU), None);
}

#[test]
fn large_numbers_in_the_words() {
    let start = U256 { limbs: [0x12, 0, 0xabc, 0] };
    let end = U256 { limbs: [u64::MAX, 0x1, 0, 0] };
    let r = verify_total_difficulty_with_difficulties(epoch(0, 0, 0), &u(0), &start, epoch(0xff_ffff, 0xffff, 0xffff), &u(0), &end, TAU);
    assert_eq!(
        r,
        Some(Err(format!(
            "failed since total difficulty is decreased from {:#x} to {:#x}{}",
            ckb_types::U256(start.limbs),
            ckb_types::U256(end.limbs),
            during((0, 0, 0), (0xff_ffff, 0xffff, 0xffff))
        )))
    );
    let text = r.unwrap().unwrap_err();
    assert!(text.contains("from 0xabc00000000000000000000000000000012 to 0x1ffffffffffffffff during"));
    let top = U256 { limbs: [0, 0, 0, 0xf0] };
    let r = verify_total_difficulty_with_difficulties(epoch(1, 0, 1), &u(0), &top, epoch(1, 0, 1), &u(0), &u(0), TAU);
    assert!(r.unwrap().unwrap_err().contains(&format!("from {:#x} to 0x0 during", ckb_types::U256(top.limbs))));
}
