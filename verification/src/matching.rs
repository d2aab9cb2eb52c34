//! Whether the sampled blocks of a response are the ones that the request
//! asked for.
//!
//! A request commits to a list of total difficulties. For each of them the
//! server returns the block during which the chain reached it: the block whose
//! range of total difficulty, from before it to after it, holds the
//! difficulty asked for.

use crate::difficulty::{compact_target_difficulty, compact_to_difficulty};
use crate::header::VerifiableHeaderWithChainRoot;
use crate::messages::GetBlockSamples;
use crate::status::{Status, StatusCode};
use crate::u256::{max_u256, U256};
use vstd::prelude::*;

verus! {

/// The most blocks that the run of last blocks holds when it is complete.
pub const LAST_N_BLOCKS: u64 = 100;

/// What the matching reads of a block that came with a chain root.
#[derive(Clone, Copy, Debug, PartialEq, Eq)]
pub struct SampledBlock {
    /// Whether the header commits to the chain root that came with it.
    pub chain_root_valid: bool,
    /// The total difficulty of the chain before the block.
    pub total_difficulty_before: U256,
    /// The difficulty of the block itself.
    pub block_difficulty: U256,
}

/// A sampled block as plain values: whether its chain root is valid, the
/// total difficulty before it (`lower`), and its own difficulty.
pub struct SampleView {
    pub valid: bool,
    pub lower: nat,
    pub difficulty: nat,
}

/// `a + b`, capped at 2^256 - 1.
pub open spec fn saturating_sum(a: nat, b: nat) -> nat {
    if a + b > max_u256() {
        max_u256()
    } else {
        a + b
    }
}

impl SampleView {
    /// The total difficulty after the block, capped at 2^256 - 1.
    pub open spec fn upper(self) -> nat {
        saturating_sum(self.lower, self.difficulty)
    }
}

impl View for SampledBlock {
    type V = SampleView;

    open spec fn view(&self) -> SampleView {
        SampleView {
            valid: self.chain_root_valid,
            lower: self.total_difficulty_before@,
            difficulty: self.block_difficulty@,
        }
    }
}

/// The numbers that a list of difficulties stands for.
pub open spec fn difficulty_values(difficulties: Seq<U256>) -> Seq<nat> {
    Seq::new(difficulties.len(), |i: int| difficulties[i]@)
}

/// The views of a list of sampled blocks.
pub open spec fn sample_views(blocks: Seq<SampledBlock>) -> Seq<SampleView> {
    Seq::new(blocks.len(), |i: int| blocks[i]@)
}

/// The first index from `from` on, below `end`, whose difficulty is not below
/// `bound`; `end` if there is none.
pub open spec fn first_not_below(difficulties: Seq<nat>, bound: nat, from: int, end: int) -> int
    decreases end - from,
{
    if from >= end || difficulties[from] >= bound {
        from
    } else {
        first_not_below(difficulties, bound, from + 1, end)
    }
}

/// The first index from `from` on, below `end`, whose difficulty is above
/// `bound`; `end` if there is none.
pub open spec fn first_above(difficulties: Seq<nat>, bound: nat, from: int, end: int) -> int
    decreases end - from,
{
    if from >= end || difficulties[from] > bound {
        from
    } else {
        first_above(difficulties, bound, from + 1, end)
    }
}

/// Whether one of the difficulties from index `from` up to, not including,
/// index `to` is at least `bound`.
pub open spec fn any_at_least(difficulties: Seq<nat>, bound: nat, from: int, to: int) -> bool {
    exists|j: int| from <= j < to && difficulties[j] >= bound
}

/// The outcome of walking the samples from sample `next` on, where the
/// difficulties from index `front` up to index `end` still wait for a sample.
///
/// Each sample takes up the difficulties in front that are not above its
/// range. One of them has to lie in its range: those below it have no
/// sample. The chain root of each sample has to be valid.
pub open spec fn samples_verdict(
    samples: Seq<SampleView>,
    next: int,
    difficulties: Seq<nat>,
    front: int,
    end: int,
) -> Result<(), StatusCode>
    decreases samples.len() - next,
{
    if next >= samples.len() {
        Ok(())
    } else if !samples[next].valid {
        Err(StatusCode::InvalidChainRootForSamples)
    } else {
        let stop = first_above(difficulties, samples[next].upper(), front, end);
        if !any_at_least(difficulties, samples[next].lower, front, stop) {
            Err(StatusCode::InvalidTotalDifficultyForSamples)
        } else {
            samples_verdict(samples, next + 1, difficulties, stop, end)
        }
    }
}

/// The outcome of matching a response against the request.
///
/// The first of the last blocks has to come with a valid chain root. Where
/// the total difficulty after it is below the boundary, only the difficulties
/// below that total difficulty are looked for among the samples, and the last
/// blocks must not be more than [`LAST_N_BLOCKS`]. Then the samples are
/// walked: see [`samples_verdict`].
pub open spec fn match_verdict(
    difficulty_boundary: nat,
    difficulties: Seq<nat>,
    first_last_n: SampleView,
    last_n_count: nat,
    samples: Seq<SampleView>,
) -> Result<(), StatusCode> {
    let below = first_last_n.upper() < difficulty_boundary;
    let end = if below {
        first_not_below(difficulties, first_last_n.upper(), 0, difficulties.len() as int)
    } else {
        difficulties.len() as int
    };
    if !first_last_n.valid {
        Err(StatusCode::InvalidChainRootForSamples)
    } else if last_n_count > LAST_N_BLOCKS && below {
        Err(StatusCode::InvalidChainRootForSamples)
    } else {
        samples_verdict(samples, 0, difficulties, 0, end)
    }
}

/// Whether the difficulties are in ascending order.
pub open spec fn ascending(difficulties: Seq<nat>) -> bool {
    forall|i: int, j: int| 0 <= i <= j < difficulties.len() ==> difficulties[i] <= difficulties[j]
}

/// Where the index found by [`first_not_below`] lies, and what lies before
/// it: difficulties below the bound.
pub proof fn lemma_first_not_below(difficulties: Seq<nat>, bound: nat, from: int, end: int)
    requires
        0 <= from <= end <= difficulties.len(),
    ensures
        from <= first_not_below(difficulties, bound, from, end) <= end,
        forall|j: int|
            from <= j < first_not_below(difficulties, bound, from, end) ==> difficulties[j]
                < bound,
        first_not_below(difficulties, bound, from, end) < end ==> difficulties[first_not_below(
            difficulties,
            bound,
            from,
            end,
        )] >= bound,
    decreases end - from,
{
    if from < end && difficulties[from] < bound {
        lemma_first_not_below(difficulties, bound, from + 1, end);
    }
}

/// Of difficulties in ascending order, the ones looked for below a bound are
/// all the ones below that bound: none of those left out is below it.
pub proof fn lemma_ascending_keeps_all_below(difficulties: Seq<nat>, bound: nat)
    requires
        ascending(difficulties),
    ensures
        forall|j: int|
            0 <= j < difficulties.len() ==> (j < first_not_below(
                difficulties,
                bound,
                0,
                difficulties.len() as int,
            ) <==> difficulties[j] < bound),
{
    lemma_first_not_below(difficulties, bound, 0, difficulties.len() as int);
}

/// Each difficulty has its own sample: sample `i` is valid, its range holds
/// difficulty `i`, and ends below the next difficulty.
pub open spec fn one_sample_each(difficulties: Seq<nat>, samples: Seq<SampleView>) -> bool {
    &&& samples.len() == difficulties.len()
    &&& forall|i: int|
        0 <= i < samples.len() ==> (#[trigger] samples[i]).valid && samples[i].lower
            <= difficulties[i] <= samples[i].upper()
    &&& forall|i: int|
        0 <= i < samples.len() - 1 ==> (#[trigger] samples[i]).upper() < difficulties[i + 1]
}

/// Walking samples of which each difficulty has its own finds nothing wrong,
/// from any sample on.
pub proof fn lemma_walk_of_one_sample_each(
    difficulties: Seq<nat>,
    samples: Seq<SampleView>,
    next: int,
)
    requires
        one_sample_each(difficulties, samples),
        0 <= next <= samples.len(),
    ensures
        samples_verdict(samples, next, difficulties, next, difficulties.len() as int) == Ok::<
            (),
            StatusCode,
        >(()),
    decreases samples.len() - next,
{
    if next < samples.len() {
        let end = difficulties.len() as int;
        let upper = samples[next].upper();
        reveal_with_fuel(first_above, 2);
        assert(first_above(difficulties, upper, next, end) == next + 1);
        assert(any_at_least(difficulties, samples[next].lower, next, next + 1)) by {
            assert(difficulties[next] >= samples[next].lower);
        }
        lemma_walk_of_one_sample_each(difficulties, samples, next + 1);
    }
}

/// A response matches its request where the first of the last blocks is
/// valid and reaches the difficulty boundary, and each difficulty asked for
/// has its own sample: what a server that holds the chain sends.
pub proof fn lemma_one_sample_each_matches(
    difficulty_boundary: nat,
    difficulties: Seq<nat>,
    first_last_n: SampleView,
    last_n_count: nat,
    samples: Seq<SampleView>,
)
    requires
        first_last_n.valid,
        first_last_n.upper() >= difficulty_boundary,
        one_sample_each(difficulties, samples),
    ensures
        match_verdict(difficulty_boundary, difficulties, first_last_n, last_n_count, samples)
            == Ok::<(), StatusCode>(()),
{
    lemma_walk_of_one_sample_each(difficulties, samples, 0);
}

/// Matches the sampled blocks of a response against the difficulties of the
/// request, given what was found of each block. See [`match_verdict`].
pub fn match_sampled_blocks(
    difficulty_boundary: &U256,
    difficulties: &Vec<U256>,
    first_last_n: &SampledBlock,
    last_n_count: usize,
    samples: &Vec<SampledBlock>,
) -> (r: Result<(), StatusCode>)
    ensures
        r == match_verdict(
            difficulty_boundary@,
            difficulty_values(difficulties@),
            first_last_n@,
            last_n_count as nat,
            sample_views(samples@),
        ),
{
    let ghost values = difficulty_values(difficulties@);
    let ghost views = sample_views(samples@);
    let ghost goal = match_verdict(
        difficulty_boundary@,
        values,
        first_last_n@,
        last_n_count as nat,
        views,
    );
    if !first_last_n.chain_root_valid {
        return Err(StatusCode::InvalidChainRootForSamples);
    }
    let total_difficulty = first_last_n.total_difficulty_before.saturating_add(
        &first_last_n.block_difficulty,
    );
    let below = total_difficulty.lt(difficulty_boundary);
    // Below the boundary, only the difficulties that the chain has reached
    // by the first of the last blocks can have a sample.
    let mut end: usize = difficulties.len();
    if below {
        end = 0;
        while end < difficulties.len() && difficulties[end].lt(&total_difficulty)
            invariant
                end <= difficulties.len(),
                values == difficulty_values(difficulties@),
                first_not_below(values, total_difficulty@, 0, difficulties.len() as int)
                    == first_not_below(
                    values,
                    total_difficulty@,
                    end as int,
                    difficulties.len() as int,
                ),
            decreases difficulties.len() - end,
        {
            end += 1;
        }
    }
    if last_n_count as u64 > LAST_N_BLOCKS && below {
        return Err(StatusCode::InvalidChainRootForSamples);
    }
    let mut front: usize = 0;
    let mut next: usize = 0;
    while next < samples.len()
        invariant
            next <= samples.len(),
            front <= end <= difficulties.len(),
            values == difficulty_values(difficulties@),
            views == sample_views(samples@),
            goal == match_verdict(
                difficulty_boundary@,
                values,
                first_last_n@,
                last_n_count as nat,
                views,
            ),
            goal == samples_verdict(views, next as int, values, front as int, end as int),
        decreases samples.len() - next,
    {
        let sample = &samples[next];
        if !sample.chain_root_valid {
            return Err(StatusCode::InvalidChainRootForSamples);
        }
        let total_difficulty_lhs = sample.total_difficulty_before;
        let total_difficulty_rhs = total_difficulty_lhs.saturating_add(&sample.block_difficulty);
        let ghost start = front;
        let mut is_valid = false;
        while front < end && !difficulties[front].gt(&total_difficulty_rhs)
            invariant
                start <= front <= end <= difficulties.len(),
                values == difficulty_values(difficulties@),
                first_above(values, total_difficulty_rhs@, start as int, end as int)
                    == first_above(values, total_difficulty_rhs@, front as int, end as int),
                is_valid == any_at_least(values, total_difficulty_lhs@, start as int, front as int),
            decreases end - front,
        {
            if difficulties[front].ge(&total_difficulty_lhs) {
                is_valid = true;
            }
            proof {
                let lower = total_difficulty_lhs@;
                if values[front as int] >= lower {
                    assert(any_at_least(values, lower, start as int, front + 1));
                } else if any_at_least(values, lower, start as int, front + 1) {
                    let j = choose|j: int| start <= j < front + 1 && values[j] >= lower;
                    assert(start <= j < front && values[j] >= lower);
                }
            }
            front += 1;
        }
        if !is_valid {
            return Err(StatusCode::InvalidTotalDifficultyForSamples);
        }
        next += 1;
    }
    Ok(())
}

impl VerifiableHeaderWithChainRoot {
    /// What the matching reads of this block: whether the header commits to
    /// its chain root, the total difficulty before the block, and the
    /// difficulty of the block.
    pub open spec fn summary(self, mmr_activated_epoch: u64) -> SampleView {
        SampleView {
            valid: self.header.commits_to(self.chain_root, mmr_activated_epoch),
            lower: self.chain_root.total_difficulty@,
            difficulty: compact_target_difficulty(self.header.header.compact_target),
        }
    }

    /// Finds what the matching reads of this block.
    ///
    /// An epoch number has 24 bits.
    pub fn summarize(&self, mmr_activated_epoch: u64) -> (r: SampledBlock)
        requires
            mmr_activated_epoch < 0x100_0000,
        ensures
            r@ == self.summary(mmr_activated_epoch),
    {
        SampledBlock {
            chain_root_valid: self.header.is_valid(mmr_activated_epoch, &self.chain_root),
            total_difficulty_before: self.chain_root.total_difficulty,
            block_difficulty: compact_to_difficulty(self.header.header.compact_target),
        }
    }
}

/// The summaries of a list of blocks.
pub open spec fn summaries(
    blocks: Seq<VerifiableHeaderWithChainRoot>,
    mmr_activated_epoch: u64,
) -> Seq<SampleView> {
    Seq::new(blocks.len(), |i: int| blocks[i].summary(mmr_activated_epoch))
}

/// Checks that a response matches the request that it answers: the
/// difficulty boundary, and the difficulties asked for. See
/// [`match_verdict`]; a status that turns the response down has no context.
///
/// There is at least one last block, and an epoch number has 24 bits.
pub fn check_if_response_is_matched(
    mmr_activated_epoch: u64,
    prev_request: &GetBlockSamples,
    sampled_headers: &Vec<VerifiableHeaderWithChainRoot>,
    last_n_headers: &Vec<VerifiableHeaderWithChainRoot>,
) -> (r: Result<(), Status>)
    requires
        mmr_activated_epoch < 0x100_0000,
        last_n_headers.len() > 0,
    ensures
        match match_verdict(
            prev_request.difficulty_boundary@,
            difficulty_values(prev_request.difficulties@),
            last_n_headers[0].summary(mmr_activated_epoch),
            last_n_headers.len() as nat,
            summaries(sampled_headers@, mmr_activated_epoch),
        ) {
            Ok(()) => r is Ok,
            Err(code) => r matches Err(status) && status@ == (code, None::<Seq<char>>),
        },
{
    let first_last_n = last_n_headers[0].summarize(mmr_activated_epoch);
    let mut samples: Vec<SampledBlock> = Vec::new();
    let mut i: usize = 0;
    while i < sampled_headers.len()
        invariant
            i <= sampled_headers.len(),
            mmr_activated_epoch < 0x100_0000,
            samples.len() == i,
            forall|j: int|
                0 <= j < i ==> samples[j]@ == sampled_headers[j].summary(mmr_activated_epoch),
        decreases sampled_headers.len() - i,
    {
        samples.push(sampled_headers[i].summarize(mmr_activated_epoch));
        i += 1;
    }
    assert(sample_views(samples@) =~= summaries(sampled_headers@, mmr_activated_epoch));
    match match_sampled_blocks(
        &prev_request.difficulty_boundary,
        &prev_request.difficulties,
        &first_last_n,
        last_n_headers.len(),
        &samples,
    ) {
        Ok(()) => Ok(()),
        Err(code) => Err(code.into_status()),
    }
}

} // verus!
