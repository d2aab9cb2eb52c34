//! The proof that headers belong to the chain under a chain root.
//!
//! All headers of a chain are the leaves of a Merkle Mountain Range, and the
//! chain root is its root. A proof shows that some headers are among the
//! leaves, and the tip of the chain commits to the chain root in its
//! extension.

use crate::header::{Byte32, DigestView, Header, HeaderDigest, VerifiableHeader};
use crate::status::{decimal, hex, push_hex, text_with_number, Status, StatusCode};
use crate::u256::{limb_of, limbs_value, max_u256, U256};
use ckb_types::packed;
use ckb_types::prelude::{Builder, Entity};
use ckb_types::utilities::merkle_mountain_range::HeaderDigest as DigestCheck;
use ckb_types::utilities::merkle_mountain_range::MMRProof;
use vstd::bytes::{
    lemma_auto_spec_u32_to_from_le_bytes, lemma_auto_spec_u64_to_from_le_bytes,
    spec_u64_from_le_bytes, spec_u64_to_le_bytes,
};
use vstd::prelude::*;
use vstd::string::StringExecFns;

verus! {

/// The largest leaf index that the arithmetic of the Merkle Mountain Range
/// takes: 2^62 - 2.
pub const MAX_LEAF_INDEX: u64 = 0x3fff_ffff_ffff_fffe;

/// The number of ones in the binary form of `n`.
pub open spec fn ones(n: nat) -> nat
    decreases n,
{
    if n == 0 {
        0
    } else {
        n % 2 + ones(n / 2)
    }
}

/// The number of zeros at the low end of the binary form of `n`, for `n`
/// above zero.
pub open spec fn low_zeros(n: nat) -> nat
    decreases n,
{
    if n == 0 || n % 2 == 1 {
        0
    } else {
        1 + low_zeros(n / 2)
    }
}

/// The number of nodes of a Merkle Mountain Range whose last leaf has index
/// `leaf_index`: each of the `leaf_index + 1` leaves adds two nodes, but for
/// one node less per peak.
pub open spec fn mmr_size(leaf_index: u64) -> int {
    2 * (leaf_index + 1) - ones((leaf_index + 1) as nat)
}

/// The position, among the nodes of a Merkle Mountain Range, of the leaf with
/// index `leaf_index`.
pub open spec fn leaf_position(leaf_index: u64) -> int {
    mmr_size(leaf_index) - low_zeros((leaf_index + 1) as nat) - 1
}

/// The size of a Merkle Mountain Range and the position of its last leaf
/// lie within 63 bits, for a leaf index up to [`MAX_LEAF_INDEX`].
pub proof fn lemma_mmr_size_in_range(leaf_index: u64)
    requires
        leaf_index <= MAX_LEAF_INDEX,
    ensures
        1 <= mmr_size(leaf_index) < 0x7fff_ffff_ffff_ffff,
        0 <= leaf_position(leaf_index) < mmr_size(leaf_index),
{
    lemma_ones_bounds((leaf_index + 1) as nat);
    lemma_low_zeros_bound((leaf_index + 1) as nat);
}

/// A number above zero has at least one one, and no more ones than its
/// value.
pub proof fn lemma_ones_bounds(n: nat)
    ensures
        ones(n) <= n,
        n > 0 ==> ones(n) >= 1,
    decreases n,
{
    if n > 0 {
        lemma_ones_bounds(n / 2);
    }
}

/// A number above zero has no more zeros at its low end than its value less
/// its ones allows.
pub proof fn lemma_low_zeros_bound(n: nat)
    requires
        n > 0,
    ensures
        low_zeros(n) + ones(n) <= n,
    decreases n,
{
    lemma_ones_bounds(n / 2);
    if n % 2 == 0 {
        lemma_low_zeros_bound(n / 2);
    }
}

/// Calls `leaf_index_to_mmr_size` of `ckb-merkle-mountain-range`. Trusted:
/// twice the number of leaves, less the number of ones in the binary form of
/// that number. `requires` keeps the arithmetic of the call, and of what is
/// done with its result, within 64 bits.
#[verifier::external_body]
fn leaf_index_to_mmr_size(index: u64) -> (r: u64)
    requires
        index <= MAX_LEAF_INDEX,
    ensures
        r == mmr_size(index),
{
    ckb_merkle_mountain_range::leaf_index_to_mmr_size(index)
}

/// Calls `leaf_index_to_pos` of `ckb-merkle-mountain-range`. Trusted: the
/// size of the range that ends with this leaf, less one, less the number of
/// zeros at the low end of the number of leaves.
#[verifier::external_body]
fn leaf_index_to_pos(index: u64) -> (r: u64)
    requires
        index <= MAX_LEAF_INDEX,
    ensures
        r == leaf_position(index),
{
    ckb_merkle_mountain_range::leaf_index_to_pos(index)
}

/// The end number that an encoded digest holds.
pub open spec fn encoded_end_number(bytes: Seq<u8>) -> u64 {
    spec_u64_from_le_bytes(bytes.subrange(72, 80))
}

/// The total difficulty that an encoded digest holds.
pub open spec fn encoded_total_difficulty(bytes: Seq<u8>) -> nat {
    limbs_value(
        seq![
            spec_u64_from_le_bytes(bytes.subrange(32, 40)),
            spec_u64_from_le_bytes(bytes.subrange(40, 48)),
            spec_u64_from_le_bytes(bytes.subrange(48, 56)),
            spec_u64_from_le_bytes(bytes.subrange(56, 64)),
        ],
    )
}

/// The sum of the total difficulties that the first `n` encoded digests
/// hold.
pub open spec fn encoded_difficulty_sum(digests: Seq<Vec<u8>>, n: nat) -> nat
    decreases n,
{
    if n == 0 {
        0
    } else {
        encoded_difficulty_sum(digests, (n - 1) as nat) + encoded_total_difficulty(
            digests[n - 1]@,
        )
    }
}

/// Whether each of the encoded digests has 120 bytes and an end number below
/// 2^64 - 1.
pub open spec fn well_encoded(digests: Seq<Vec<u8>>) -> bool {
    forall|i: int|
        0 <= i < digests.len() ==> (#[trigger] digests[i])@.len() == 120 && encoded_end_number(
            digests[i]@,
        ) < u64::MAX
}

/// The byte sequences that a list of encoded digests holds.
pub open spec fn byte_sequences(digests: Seq<Vec<u8>>) -> Seq<Seq<u8>> {
    Seq::new(digests.len(), |i: int| digests[i]@)
}

/// What an encoded digest says of the digest that it encodes.
pub proof fn lemma_decode_encoded(d: DigestView)
    requires
        d.children_hash.len() == 32,
        d.total_difficulty <= max_u256(),
    ensures
        d.encoded().len() == 120,
        encoded_end_number(d.encoded()) == d.end_number,
        encoded_total_difficulty(d.encoded()) == d.total_difficulty,
{
    lemma_auto_spec_u64_to_from_le_bytes();
    lemma_auto_spec_u32_to_from_le_bytes();
    let e = d.encoded();
    let v = d.total_difficulty;
    assert(e.subrange(32, 40) =~= spec_u64_to_le_bytes(limb_of(v, 0)));
    assert(e.subrange(40, 48) =~= spec_u64_to_le_bytes(limb_of(v, 1)));
    assert(e.subrange(48, 56) =~= spec_u64_to_le_bytes(limb_of(v, 2)));
    assert(e.subrange(56, 64) =~= spec_u64_to_le_bytes(limb_of(v, 3)));
    assert(e.subrange(72, 80) =~= spec_u64_to_le_bytes(d.end_number));
}

/// Whether a proof holds, as `MerkleProof::verify` of
/// `ckb-merkle-mountain-range` decides it for the header digests of
/// `ckb-types`: whether the root computed from the leaves, given by their
/// positions and encoded digests, and from the encoded digests of the proof,
/// is `root`. It is an error, told in words, where no root can be computed.
pub uninterp spec fn mmr_proof_verdict(
    mmr_size: u64,
    proof: Seq<Seq<u8>>,
    root: Seq<u8>,
    positions: Seq<u64>,
    leaves: Seq<Seq<u8>>,
) -> Result<bool, Seq<char>>;

/// Calls `MerkleProof::verify` of `ckb-merkle-mountain-range`, on a proof made
/// by `MerkleProof::new` of digests read by `HeaderDigest::from_slice` of
/// `ckb-types`. Trusted: the outcome is a function of the arguments alone.
/// `requires` keeps the arithmetic of the call within its bounds: digests of
/// 120 bytes, positions and sizes below 2^63 - 1, end numbers below 2^64 - 1
/// and total difficulties whose sum fits in 256 bits.
#[verifier::external_body]
fn verify_proof(
    mmr_size: u64,
    proof: &Vec<Vec<u8>>,
    root: &Vec<u8>,
    positions: &Vec<u64>,
    leaves: &Vec<Vec<u8>>,
) -> (r: Result<bool, String>)
    requires
        1 <= mmr_size < 0x7fff_ffff_ffff_ffff,
        root@.len() == 120,
        positions@.len() == leaves@.len(),
        forall|i: int| 0 <= i < positions@.len() ==> positions@[i] < 0x7fff_ffff_ffff_ffff,
        well_encoded(proof@),
        well_encoded(leaves@),
        encoded_difficulty_sum(proof@, proof@.len()) + encoded_difficulty_sum(
            leaves@,
            leaves@.len(),
        ) <= max_u256(),
    ensures
        match r {
            Ok(holds) => mmr_proof_verdict(
                mmr_size,
                byte_sequences(proof@),
                root@,
                positions@,
                byte_sequences(leaves@),
            ) == Ok::<bool, Seq<char>>(holds),
            Err(text) => mmr_proof_verdict(
                mmr_size,
                byte_sequences(proof@),
                root@,
                positions@,
                byte_sequences(leaves@),
            ) == Err::<bool, Seq<char>>(text@),
        },
{
    let unpack = |b: &Vec<u8>| packed::HeaderDigest::from_slice(b).unwrap();
    let items = proof.iter().map(unpack).collect();
    let leaves = positions.iter().zip(leaves.iter()).map(|l| (*l.0, unpack(l.1))).collect();
    match MMRProof::new(mmr_size, items).verify(unpack(root), leaves) {
        Ok(holds) => Ok(holds),
        Err(fault) => Err(format!("{}", fault)),
    }
}

/// Calls `HeaderDigest::verify` of `ckb-types` on a digest of one block.
/// Trusted: such a digest passes exactly if its total difficulty is the
/// difficulty that its compact target stands for.
#[verifier::external_body]
fn verify_leaf_digest(digest: &HeaderDigest) -> (r: Result<(), String>)
    requires
        digest.start_number == digest.end_number,
        digest.start_epoch == digest.end_epoch,
        digest.start_compact_target == digest.end_compact_target,
    ensures
        r is Ok <==> digest.total_difficulty@ == crate::difficulty::compact_target_difficulty(
            digest.start_compact_target,
        ),
{
    let d = digest;
    packed::HeaderDigest::new_builder().children_hash(&d.children_hash)
        .total_difficulty(ckb_types::U256(d.total_difficulty.limbs))
        .start_number(d.start_number).end_number(d.end_number)
        .start_epoch(d.start_epoch).end_epoch(d.end_epoch)
        .start_timestamp(d.start_timestamp).end_timestamp(d.end_timestamp)
        .start_compact_target(d.start_compact_target).end_compact_target(d.end_compact_target)
        .build().verify()
}

/// The sum of the total difficulties of the first `n` digests.
pub open spec fn difficulty_total(digests: Seq<DigestView>, n: nat) -> nat
    decreases n,
{
    if n == 0 {
        0
    } else {
        difficulty_total(digests, (n - 1) as nat) + digests[n - 1].total_difficulty
    }
}

/// The sum over more digests is no smaller.
pub proof fn lemma_difficulty_total_monotone(digests: Seq<DigestView>, a: nat, b: nat)
    requires
        a <= b,
    ensures
        difficulty_total(digests, a) <= difficulty_total(digests, b),
    decreases b,
{
    if a < b {
        lemma_difficulty_total_monotone(digests, a, (b - 1) as nat);
    }
}

/// The digests of a proof as plain values.
pub open spec fn digest_views(digests: Seq<HeaderDigest>) -> Seq<DigestView> {
    Seq::new(digests.len(), |i: int| digests[i]@)
}

/// The digests of the blocks of a list of headers.
pub open spec fn leaf_digests(headers: Seq<Header>) -> Seq<DigestView> {
    Seq::new(headers.len(), |i: int| headers[i].spec_digest())
}

/// The encodings of a list of digests.
pub open spec fn encodings(digests: Seq<DigestView>) -> Seq<Seq<u8>> {
    Seq::new(digests.len(), |i: int| digests[i].encoded())
}

/// The positions of the blocks of a list of headers among the nodes of the
/// Merkle Mountain Range.
pub open spec fn leaf_positions(headers: Seq<Header>) -> Seq<u64> {
    Seq::new(headers.len(), |i: int| leaf_position(headers[i].number) as u64)
}

/// Whether the block numbers of a proof lie within what its arithmetic
/// takes: the end number of the chain root and the numbers of the headers up
/// to [`MAX_LEAF_INDEX`], the end numbers of the digests of the proof below
/// 2^64 - 1.
pub open spec fn numbers_in_range(
    chain_root: HeaderDigest,
    proof: Seq<HeaderDigest>,
    headers: Seq<Header>,
) -> bool {
    &&& chain_root.end_number <= MAX_LEAF_INDEX
    &&& forall|i: int| 0 <= i < proof.len() ==> (#[trigger] proof[i]).end_number < u64::MAX
    &&& forall|i: int| 0 <= i < headers.len() ==> (#[trigger] headers[i]).number <= MAX_LEAF_INDEX
}

/// Whether the total difficulties of a proof, those of its digests and those
/// of the blocks of the headers, have a sum that fits in 256 bits.
pub open spec fn difficulties_in_range(proof: Seq<HeaderDigest>, headers: Seq<Header>) -> bool {
    difficulty_total(digest_views(proof), proof.len()) + difficulty_total(
        leaf_digests(headers),
        headers.len(),
    ) <= max_u256()
}

/// The words that report a proof with a block number out of range.
pub open spec fn out_of_range_message() -> Seq<char> {
    "failed to verify the proof since a block number is out of range"@
}

/// The words that report a proof from which no root can be computed.
pub open spec fn faulty_proof_message(fault: Seq<char>) -> Seq<char> {
    "failed to verify the proof since "@ + fault
}

/// The words that report a proof whose root is not the chain root.
pub open spec fn wrong_root_message() -> Seq<char> {
    "failed to verify the mmr proof since the result is false"@
}

/// The words that report a tip, by its block number and its hash, that does
/// not commit to the chain root.
pub open spec fn extra_hash_message(number: u64, hash: Seq<u8>) -> Seq<char> {
    "failed to verify extra hash for block-"@ + decimal(number as nat) + " ("@ + hex(hash) + ")"@
}

/// What follows from the outcome of the proof and from whether the tip
/// commits to the chain root: nothing where the proof holds and the tip
/// commits, else the code `FailedToVerifyTheProof` with what failed first.
pub open spec fn proof_verdict(
    outcome: Result<bool, Seq<char>>,
    tip_commits: bool,
    tip_number: u64,
    tip_hash: Seq<u8>,
) -> Result<(), (StatusCode, Option<Seq<char>>)> {
    match outcome {
        Err(fault) => Err(
            (StatusCode::FailedToVerifyTheProof, Some(faulty_proof_message(fault))),
        ),
        Ok(false) => Err((StatusCode::FailedToVerifyTheProof, Some(wrong_root_message()))),
        Ok(true) => if tip_commits {
            Ok(())
        } else {
            Err(
                (
                    StatusCode::FailedToVerifyTheProof,
                    Some(extra_hash_message(tip_number, tip_hash)),
                ),
            )
        },
    }
}

/// Whether the result `r` is what `expected` asks for.
pub open spec fn status_matches(
    r: Result<(), Status>,
    expected: Result<(), (StatusCode, Option<Seq<char>>)>,
) -> bool {
    match (r, expected) {
        (Ok(()), Ok(())) => true,
        (Err(status), Err(view)) => status@ == view,
        _ => false,
    }
}

/// Says what follows from the outcome of the proof and from whether the tip
/// commits to the chain root. See [`proof_verdict`].
pub fn conclude_proof(
    outcome: Result<bool, String>,
    tip_commits: bool,
    tip_number: u64,
    tip_hash: &Byte32,
) -> (r: Result<(), Status>)
    ensures
        status_matches(
            r,
            proof_verdict(
                match outcome {
                    Ok(holds) => Ok(holds),
                    Err(fault) => Err(fault@),
                },
                tip_commits,
                tip_number,
                tip_hash@,
            ),
        ),
{
    match outcome {
        Err(fault) => {
            let mut errmsg = String::from_str("failed to verify the proof since ");
            errmsg.append(fault.as_str());
            Err(StatusCode::FailedToVerifyTheProof.with_context(errmsg))
        },
        Ok(false) => {
            let errmsg = String::from_str(
                "failed to verify the mmr proof since the result is false",
            );
            Err(StatusCode::FailedToVerifyTheProof.with_context(errmsg))
        },
        Ok(true) => {
            if tip_commits {
                Ok(())
            } else {
                let mut errmsg = text_with_number(
                    "failed to verify extra hash for block-",
                    tip_number,
                );
                errmsg.append(" (");
                push_hex(&mut errmsg, tip_hash.as_slice());
                errmsg.append(")");
                Err(StatusCode::FailedToVerifyTheProof.with_context(errmsg))
            }
        },
    }
}

/// The outcome of checking a proof. A proof with a block number out of range
/// (see [`numbers_in_range`]) is turned down. Else it is `None` where the
/// total difficulties do not add up within 256 bits (see
/// [`difficulties_in_range`]), and otherwise what follows from the outcome of
/// the proof (see [`mmr_proof_verdict`]) and from whether `last_header`
/// commits to `chain_root`.
pub open spec fn mmr_verdict(
    mmr_activated_epoch: u64,
    last_header: VerifiableHeader,
    chain_root: HeaderDigest,
    proof: Seq<HeaderDigest>,
    headers: Seq<Header>,
) -> Option<Result<(), (StatusCode, Option<Seq<char>>)>> {
    if !numbers_in_range(chain_root, proof, headers) {
        Some(Err((StatusCode::FailedToVerifyTheProof, Some(out_of_range_message()))))
    } else if !difficulties_in_range(proof, headers) {
        None
    } else {
        Some(
            proof_verdict(
                mmr_proof_verdict(
                    mmr_size(chain_root.end_number) as u64,
                    encodings(digest_views(proof)),
                    chain_root@.encoded(),
                    leaf_positions(headers),
                    encodings(leaf_digests(headers)),
                ),
                last_header.commits_to(chain_root, mmr_activated_epoch),
                last_header.header.number,
                last_header.header.hash@,
            ),
        )
    }
}

/// Encodes the digests of a proof, and adds up their total difficulties.
/// Gives `None` where the sum does not fit in 256 bits.
fn encode_proof(proof: &Vec<HeaderDigest>) -> (r: Option<(Vec<Vec<u8>>, U256)>)
    requires
        forall|i: int| 0 <= i < proof.len() ==> (#[trigger] proof[i]).end_number < u64::MAX,
    ensures
        match r {
            Some((encoded, total)) => {
                &&& total@ == difficulty_total(digest_views(proof@), proof.len() as nat)
                &&& total@ == encoded_difficulty_sum(encoded@, encoded.len() as nat)
                &&& well_encoded(encoded@)
                &&& byte_sequences(encoded@) == encodings(digest_views(proof@))
            },
            None => difficulty_total(digest_views(proof@), proof.len() as nat) > max_u256(),
        },
{
    let ghost views = digest_views(proof@);
    let mut encoded: Vec<Vec<u8>> = Vec::new();
    let mut total: U256 = U256::zero();
    let mut i: usize = 0;
    while i < proof.len()
        invariant
            i <= proof.len(),
            views == digest_views(proof@),
            encoded.len() == i,
            forall|j: int| 0 <= j < proof.len() ==> (#[trigger] proof[j]).end_number < u64::MAX,
            total@ == difficulty_total(views, i as nat),
            total@ == encoded_difficulty_sum(encoded@, i as nat),
            well_encoded(encoded@),
            forall|j: int| 0 <= j < i ==> (#[trigger] encoded[j])@ == views[j].encoded(),
        decreases proof.len() - i,
    {
        let digest = &proof[i];
        let bytes = digest.encode();
        proof {
            crate::u256::lemma_view_bound(digest.total_difficulty);
            lemma_decode_encoded(digest@);
            lemma_encoded_sum_unchanged(encoded@, encoded@.push(bytes), i as nat);
        }
        match total.checked_add(&digest.total_difficulty) {
            Some(sum) => {
                total = sum;
            },
            None => {
                proof {
                    lemma_difficulty_total_monotone(views, (i + 1) as nat, proof.len() as nat);
                }
                return None;
            },
        }
        encoded.push(bytes);
        i += 1;
    }
    assert(byte_sequences(encoded@) =~= encodings(views));
    Some((encoded, total))
}

/// The sum over the first `n` encoded digests reads only those.
pub proof fn lemma_encoded_sum_unchanged(a: Seq<Vec<u8>>, b: Seq<Vec<u8>>, n: nat)
    requires
        n <= a.len(),
        n <= b.len(),
        forall|j: int| 0 <= j < n ==> a[j] == b[j],
    ensures
        encoded_difficulty_sum(a, n) == encoded_difficulty_sum(b, n),
    decreases n,
{
    if n > 0 {
        lemma_encoded_sum_unchanged(a, b, (n - 1) as nat);
    }
}

/// Finds the positions and the encoded digests of the blocks of `headers`,
/// and adds their difficulties to `start`. Gives `None` where the sum does
/// not fit in 256 bits.
fn encode_leaves(headers: &Vec<Header>, start: U256) -> (r: Option<(Vec<u64>, Vec<Vec<u8>>)>)
    requires
        forall|i: int| 0 <= i < headers.len() ==> (#[trigger] headers[i]).number <= MAX_LEAF_INDEX,
    ensures
        match r {
            Some((positions, encoded)) => {
                &&& start@ + difficulty_total(leaf_digests(headers@), headers.len() as nat)
                    <= max_u256()
                &&& difficulty_total(leaf_digests(headers@), headers.len() as nat)
                    == encoded_difficulty_sum(encoded@, encoded.len() as nat)
                &&& well_encoded(encoded@)
                &&& byte_sequences(encoded@) == encodings(leaf_digests(headers@))
                &&& positions@ == leaf_positions(headers@)
                &&& positions.len() == headers.len()
                &&& encoded.len() == headers.len()
                &&& forall|i: int|
                    0 <= i < positions.len() ==> positions[i] < 0x7fff_ffff_ffff_ffff
            },
            None => start@ + difficulty_total(leaf_digests(headers@), headers.len() as nat)
                > max_u256(),
        },
{
    let ghost views = leaf_digests(headers@);
    let mut positions: Vec<u64> = Vec::new();
    let mut encoded: Vec<Vec<u8>> = Vec::new();
    let mut total: U256 = start;
    let mut i: usize = 0;
    while i < headers.len()
        invariant
            i <= headers.len(),
            views == leaf_digests(headers@),
            encoded.len() == i,
            positions.len() == i,
            forall|j: int|
                0 <= j < headers.len() ==> (#[trigger] headers[j]).number <= MAX_LEAF_INDEX,
            total@ == start@ + difficulty_total(views, i as nat),
            difficulty_total(views, i as nat) == encoded_difficulty_sum(encoded@, i as nat),
            well_encoded(encoded@),
            forall|j: int| 0 <= j < i ==> (#[trigger] encoded[j])@ == views[j].encoded(),
            forall|j: int| 0 <= j < i ==> positions[j] == leaf_position(headers[j].number),
            forall|j: int| 0 <= j < i ==> positions[j] < 0x7fff_ffff_ffff_ffff,
        decreases headers.len() - i,
    {
        let header = &headers[i];
        let position = leaf_index_to_pos(header.number());
        proof {
            lemma_mmr_size_in_range(header.number);
        }
        let digest = header.digest();
        if verify_leaf_digest(&digest).is_err() {
            // The digest of one block always passes.
            proof {
                assert(false);
            }
            return None;
        }
        let bytes = digest.encode();
        proof {
            crate::u256::lemma_view_bound(digest.total_difficulty);
            lemma_decode_encoded(digest@);
            lemma_encoded_sum_unchanged(encoded@, encoded@.push(bytes), i as nat);
        }
        match total.checked_add(&digest.total_difficulty) {
            Some(sum) => {
                total = sum;
            },
            None => {
                proof {
                    lemma_difficulty_total_monotone(views, (i + 1) as nat, headers.len() as nat);
                }
                return None;
            },
        }
        positions.push(position);
        encoded.push(bytes);
        i += 1;
    }
    assert(byte_sequences(encoded@) =~= encodings(views));
    Some((positions, encoded))
}

/// Whether the block numbers of a proof lie within what its arithmetic
/// takes. See [`numbers_in_range`].
fn check_numbers(chain_root: &HeaderDigest, proof: &Vec<HeaderDigest>, headers: &Vec<Header>) -> (r:
    bool)
    ensures
        r == numbers_in_range(*chain_root, proof@, headers@),
{
    if chain_root.end_number > MAX_LEAF_INDEX {
        return false;
    }
    let mut i: usize = 0;
    while i < proof.len()
        invariant
            i <= proof.len(),
            forall|j: int| 0 <= j < i ==> (#[trigger] proof[j]).end_number < u64::MAX,
        decreases proof.len() - i,
    {
        if proof[i].end_number == u64::MAX {
            return false;
        }
        i += 1;
    }
    let mut k: usize = 0;
    while k < headers.len()
        invariant
            k <= headers.len(),
            forall|j: int| 0 <= j < k ==> (#[trigger] headers[j]).number <= MAX_LEAF_INDEX,
        decreases headers.len() - k,
    {
        if headers[k].number > MAX_LEAF_INDEX {
            return false;
        }
        k += 1;
    }
    true
}

/// Checks that `headers` belong to the chain under `chain_root`, and that
/// `last_header`, the tip of that chain, commits to `chain_root`. See
/// [`mmr_verdict`].
///
/// An epoch number has 24 bits.
pub fn verify_mmr_proof(
    mmr_activated_epoch: u64,
    last_header: &VerifiableHeader,
    chain_root: &HeaderDigest,
    raw_proof: &Vec<HeaderDigest>,
    headers: &Vec<Header>,
) -> (r: Option<Result<(), Status>>)
    requires
        mmr_activated_epoch < 0x100_0000,
    ensures
        match mmr_verdict(mmr_activated_epoch, *last_header, *chain_root, raw_proof@, headers@) {
            None => r is None,
            Some(expected) => r matches Some(status) && status_matches(status, expected),
        },
{
    if !check_numbers(chain_root, raw_proof, headers) {
        let errmsg = String::from_str(
            "failed to verify the proof since a block number is out of range",
        );
        return Some(Err(StatusCode::FailedToVerifyTheProof.with_context(errmsg)));
    }
    let mmr_size = leaf_index_to_mmr_size(chain_root.end_number);
    proof {
        lemma_mmr_size_in_range(chain_root.end_number);
    }
    let (proof_items, total) = match encode_proof(raw_proof) {
        Some(encoded) => encoded,
        None => {
            return None;
        },
    };
    let (positions, leaves) = match encode_leaves(headers, total) {
        Some(encoded) => encoded,
        None => {
            return None;
        },
    };
    let root = chain_root.encode();
    let outcome = verify_proof(mmr_size, &proof_items, &root, &positions, &leaves);
    let tip_commits = last_header.is_valid(mmr_activated_epoch, chain_root);
    Some(conclude_proof(outcome, tip_commits, last_header.header.number(), &last_header.header.hash))
}

} // verus!
