use block_samples::matching::{match_sampled_blocks, SampledBlock, LAST_N_BLOCKS};
use block_samples::status::StatusCode;
use block_samples::u256::U256;

fn u(x: u64) -> U256 {
    U256::from_u64(x)
}

fn block(before: u64, difficulty: u64) -> SampledBlock {
    SampledBlock {
        chain_root_valid: true,
        total_difficulty_before: u(before),
        block_difficulty: u(difficulty),
    }
}

fn list(values: &[u64]) -> Vec<U256> {
    values.iter().map(|v| u(*v)).collect()
}

#[test]
fn each_difficulty_has_its_sample() {
    // Blocks cover [100, 110], [200, 210], [300, 310]; the last blocks begin
    // at 1000.
    let samples = vec![block(100, 10), block(200, 10), block(300, 10)];
    let r = match_sampled_blocks(&u(1000), &list(&[105, 200, 310]), &block(995, 10), 3, &samples);
    assert_eq!(r, Ok(()));
}

#[test]
fn a_sample_that_covers_no_difficulty_is_turned_down() {
    let samples = vec![block(100, 10), block(200, 10)];
    let r = match_sampled_blocks(&u(1000), &list(&[105, 211]), &block(995, 10), 3, &samples);
    assert_eq!(r, Err(StatusCode::InvalidTotalDifficultyForSamples));
}

#[test]
fn difficulties_below_a_sample_are_passed_over() {
    // 50 and 60 have no sample; 105 is covered.
    let samples = vec![block(100, 10)];
    let r = match_sampled_blocks(&u(1000), &list(&[50, 60, 105]), &block(995, 10), 3, &samples);
    assert_eq!(r, Ok(()));
    // Nothing is covered once the difficulties in front are passed over.
    let r = match_sampled_blocks(&u(1000), &list(&[50, 60]), &block(995, 10), 3, &samples);
    assert_eq!(r, Err(StatusCode::InvalidTotalDifficultyForSamples));
}

#[test]
fn one_sample_takes_every_difficulty_in_its_range() {
    let samples = vec![block(100, 10), block(110, 10)];
    // 101 and 109 both fall to the first sample; the second has none left.
    let r = match_sampled_blocks(&u(1000), &list(&[101, 109]), &block(995, 10), 3, &samples);
    assert_eq!(r, Err(StatusCode::InvalidTotalDifficultyForSamples));
    let r = match_sampled_blocks(&u(1000), &list(&[101, 109, 115]), &block(995, 10), 3, &samples);
    assert_eq!(r, Ok(()));
}

#[test]
fn the_ends_of_a_range_count() {
    let samples = vec![block(100, 10)];
    assert_eq!(match_sampled_blocks(&u(1000), &list(&[100]), &block(995, 10), 3, &samples), Ok(()));
    assert_eq!(match_sampled_blocks(&u(1000), &list(&[110]), &block(995, 10), 3, &samples), Ok(()));
    assert_eq!(
        match_sampled_blocks(&u(1000), &list(&[111]), &block(995, 10), 3, &samples),
        Err(StatusCode::InvalidTotalDifficultyForSamples)
    );
    assert_eq!(
        match_sampled_blocks(&u(1000), &list(&[99]), &block(995, 10), 3, &samples),
        Err(StatusCode::InvalidTotalDifficultyForSamples)
    );
}

#[test]
fn invalid_chain_root_of_the_first_last_block() {
    let mut first = block(995, 10);
    first.chain_root_valid = false;
    let r = match_sampled_blocks(&u(1000), &list(&[]), &first, 3, &vec![]);
    assert_eq!(r, Err(StatusCode::InvalidChainRootForSamples));
}

#[test]
fn invalid_chain_root_of_a_sample() {
    let mut bad = block(200, 10);
    bad.chain_root_valid = false;
    let samples = vec![block(100, 10), bad];
    let r = match_sampled_blocks(&u(1000), &list(&[105, 205]), &block(995, 10), 3, &samples);
    assert_eq!(r, Err(StatusCode::InvalidChainRootForSamples));
}

#[test]
fn an_earlier_uncovered_sample_comes_before_a_later_invalid_root() {
    let mut bad = block(200, 10);
    bad.chain_root_valid = false;
    let samples = vec![block(100, 10), bad];
    let r = match_sampled_blocks(&u(1000), &list(&[150, 205]), &block(995, 10), 3, &samples);
    assert_eq!(r, Err(StatusCode::InvalidTotalDifficultyForSamples));
}

#[test]
fn many_last_blocks_below_the_boundary() {
    let count = LAST_N_BLOCKS as usize + 1;
    // The first of the last blocks ends at 999, below the boundary 1000.
    let r = match_sampled_blocks(&u(1000), &list(&[]), &block(990, 9), count, &vec![]);
    assert_eq!(r, Err(StatusCode::InvalidChainRootForSamples));
    // With no more last blocks than the limit the response passes.
    let r = match_sampled_blocks(&u(1000), &list(&[]), &block(990, 9), count - 1, &vec![]);
    assert_eq!(r, Ok(()));
    // At the boundary it passes with many last blocks too.
    let r = match_sampled_blocks(&u(1000), &list(&[]), &block(990, 10), count, &vec![]);
    assert_eq!(r, Ok(()));
}

#[test]
fn below_the_boundary_later_difficulties_are_left_out() {
    // The first of the last blocks ends at 500, below the boundary: only
    // the difficulties below 500 are looked for.
    let samples = vec![block(100, 10), block(600, 10)];
    let r = match_sampled_blocks(&u(1000), &list(&[105, 605]), &block(490, 10), 3, &samples);
    assert_eq!(r, Err(StatusCode::InvalidTotalDifficultyForSamples));
    let samples = vec![block(100, 10)];
    let r = match_sampled_blocks(&u(1000), &list(&[105, 605]), &block(490, 10), 3, &samples);
    assert_eq!(r, Ok(()));
    // At or above the boundary all difficulties are looked for.
    let samples = vec![block(100, 10), block(600, 10)];
    let r = match_sampled_blocks(&u(1000), &list(&[105, 605]), &block(990, 10), 3, &samples);
    assert_eq!(r, Ok(()));
}

#[test]
fn total_difficulty_after_a_block_saturates() {
    let max = U256 { limbs: [u64::MAX; 4] };
    let sample = SampledBlock {
        chain_root_valid: true,
        total_difficulty_before: U256 { limbs: [0, 0, 0, u64::MAX] },
        block_difficulty: max,
    };
    let first = SampledBlock {
        chain_root_valid: true,
        total_difficulty_before: max,
        block_difficulty: u(1),
    };
    let r = match_sampled_blocks(&max, &vec![max], &first, 3, &vec![sample]);
    assert_eq!(r, Ok(()));
}
