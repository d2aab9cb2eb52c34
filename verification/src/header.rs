//! Headers, and what a server attaches to them.

use crate::difficulty::{compact_target_difficulty, compact_to_difficulty};
use crate::epoch::EpochNumberWithFraction;
use crate::u256::{lemma_limbs_of_view, limb_of, U256};
use ckb_types::packed;
use ckb_types::prelude::{Builder, Entity, IntoHeaderView};
use vstd::bytes::{
    lemma_auto_spec_u32_to_from_le_bytes, lemma_auto_spec_u64_to_from_le_bytes,
    spec_u32_to_le_bytes, spec_u64_to_le_bytes, u32_to_le_bytes, u64_to_le_bytes,
};
use vstd::prelude::*;

verus! {

/// A hash of 32 bytes.
pub type Byte32 = [u8; 32];

/// Whether two hashes are the same.
pub fn same_hash(a: &Byte32, b: &Byte32) -> (r: bool)
    ensures
        r == (a@ == b@),
{
    let mut i: usize = 0;
    while i < 32
        invariant
            i <= 32,
            forall|j: int| 0 <= j < i ==> a@[j] == b@[j],
        decreases 32 - i,
    {
        if a[i] != b[i] {
            return false;
        }
        i += 1;
    }
    assert(a@ =~= b@);
    true
}

/// What the checks read of a block header.
#[derive(Clone, Copy, Debug, PartialEq, Eq)]
pub struct Header {
    /// The block number.
    pub number: u64,
    /// The epoch, as the 64-bit word that the header holds.
    pub epoch: u64,
    /// The compact target of the block.
    pub compact_target: u32,
    /// The timestamp of the block.
    pub timestamp: u64,
    /// The hash of the header.
    pub hash: Byte32,
    /// The hash of the header of the parent block.
    pub parent_hash: Byte32,
    /// The hash over the uncles and the extension of the block.
    pub extra_hash: Byte32,
}

/// The digest of a range of blocks: a node of the Merkle Mountain Range over
/// all headers. The digest of a whole chain is its chain root.
#[derive(Clone, Copy, Debug, PartialEq, Eq)]
pub struct HeaderDigest {
    pub children_hash: Byte32,
    pub total_difficulty: U256,
    pub start_number: u64,
    pub end_number: u64,
    pub start_epoch: u64,
    pub end_epoch: u64,
    pub start_timestamp: u64,
    pub end_timestamp: u64,
    pub start_compact_target: u32,
    pub end_compact_target: u32,
}

/// A digest as plain values: its hash as a sequence of bytes, its total
/// difficulty as a number.
pub struct DigestView {
    pub children_hash: Seq<u8>,
    pub total_difficulty: nat,
    pub start_number: u64,
    pub end_number: u64,
    pub start_epoch: u64,
    pub end_epoch: u64,
    pub start_timestamp: u64,
    pub end_timestamp: u64,
    pub start_compact_target: u32,
    pub end_compact_target: u32,
}

impl View for HeaderDigest {
    type V = DigestView;

    open spec fn view(&self) -> DigestView {
        DigestView {
            children_hash: self.children_hash@,
            total_difficulty: self.total_difficulty@,
            start_number: self.start_number,
            end_number: self.end_number,
            start_epoch: self.start_epoch,
            end_epoch: self.end_epoch,
            start_timestamp: self.start_timestamp,
            end_timestamp: self.end_timestamp,
            start_compact_target: self.start_compact_target,
            end_compact_target: self.end_compact_target,
        }
    }
}

/// A header with what is needed to check its extra hash.
#[derive(Clone, Debug, PartialEq, Eq)]
pub struct VerifiableHeader {
    pub header: Header,
    pub uncles_hash: Byte32,
    pub extension: Option<Vec<u8>>,
}

/// A header with the chain root that the server attaches to it: the root
/// over all blocks before it.
#[derive(Clone, Debug, PartialEq, Eq)]
pub struct VerifiableHeaderWithChainRoot {
    pub header: VerifiableHeader,
    pub chain_root: HeaderDigest,
}

/// Whether a header commits to a chain root, given by its encoding, as the
/// root over the blocks before it, as `VerifiableHeader::is_valid` of
/// `ckb-types` decides. In short: once the header's epoch lies after
/// `mmr_activated_epoch`, its extension has to begin with the hash of the
/// chain root (for the first block of a chain, the chain root has to be
/// empty); and the extra hash of the header has to be the hash over the
/// uncles hash and the extension.
pub uninterp spec fn chain_root_committed(
    number: u64,
    epoch: u64,
    extra_hash: Seq<u8>,
    uncles_hash: Seq<u8>,
    extension: Option<Seq<u8>>,
    chain_root: Seq<u8>,
    mmr_activated_epoch: u64,
) -> bool;

/// Appends `bytes` to `out`.
fn append_bytes(out: &mut Vec<u8>, bytes: &[u8])
    ensures
        final(out)@ == old(out)@ + bytes@,
{
    let mut i: usize = 0;
    while i < bytes.len()
        invariant
            i <= bytes.len(),
            out@ == old(out)@ + bytes@.subrange(0, i as int),
        decreases bytes.len() - i,
    {
        out.push(bytes[i]);
        assert(out@ =~= old(out)@ + bytes@.subrange(0, i + 1));
        i += 1;
    }
    assert(bytes@.subrange(0, i as int) =~= bytes@);
}

impl DigestView {
    /// The 120 bytes that stand for the digest on the wire: the fields in
    /// their order, each number with its least significant byte first.
    pub open spec fn encoded(self) -> Seq<u8> {
        self.children_hash + spec_u64_to_le_bytes(limb_of(self.total_difficulty, 0))
            + spec_u64_to_le_bytes(limb_of(self.total_difficulty, 1)) + spec_u64_to_le_bytes(
            limb_of(self.total_difficulty, 2),
        ) + spec_u64_to_le_bytes(limb_of(self.total_difficulty, 3)) + spec_u64_to_le_bytes(
            self.start_number,
        ) + spec_u64_to_le_bytes(self.end_number) + spec_u64_to_le_bytes(self.start_epoch)
            + spec_u64_to_le_bytes(self.end_epoch) + spec_u64_to_le_bytes(self.start_timestamp)
            + spec_u64_to_le_bytes(self.end_timestamp) + spec_u32_to_le_bytes(
            self.start_compact_target,
        ) + spec_u32_to_le_bytes(self.end_compact_target)
    }
}

impl HeaderDigest {
    /// The bytes that stand for the digest on the wire.
    pub fn encode(&self) -> (r: Vec<u8>)
        ensures
            r@ == self@.encoded(),
            r@.len() == 120,
    {
        proof {
            lemma_limbs_of_view(self.total_difficulty);
            lemma_auto_spec_u64_to_from_le_bytes();
            lemma_auto_spec_u32_to_from_le_bytes();
        }
        let mut out: Vec<u8> = Vec::new();
        append_bytes(&mut out, self.children_hash.as_slice());
        append_bytes(&mut out, u64_to_le_bytes(self.total_difficulty.limbs[0]).as_slice());
        append_bytes(&mut out, u64_to_le_bytes(self.total_difficulty.limbs[1]).as_slice());
        append_bytes(&mut out, u64_to_le_bytes(self.total_difficulty.limbs[2]).as_slice());
        append_bytes(&mut out, u64_to_le_bytes(self.total_difficulty.limbs[3]).as_slice());
        append_bytes(&mut out, u64_to_le_bytes(self.start_number).as_slice());
        append_bytes(&mut out, u64_to_le_bytes(self.end_number).as_slice());
        append_bytes(&mut out, u64_to_le_bytes(self.start_epoch).as_slice());
        append_bytes(&mut out, u64_to_le_bytes(self.end_epoch).as_slice());
        append_bytes(&mut out, u64_to_le_bytes(self.start_timestamp).as_slice());
        append_bytes(&mut out, u64_to_le_bytes(self.end_timestamp).as_slice());
        append_bytes(&mut out, u32_to_le_bytes(self.start_compact_target).as_slice());
        append_bytes(&mut out, u32_to_le_bytes(self.end_compact_target).as_slice());
        out
    }
}

impl VerifiableHeader {
    /// The extension as a sequence of bytes.
    pub open spec fn spec_extension(self) -> Option<Seq<u8>> {
        match self.extension {
            Some(bytes) => Some(bytes@),
            None => None,
        }
    }

    /// Whether this header commits to `chain_root`. See
    /// [`chain_root_committed`].
    pub open spec fn commits_to(self, chain_root: HeaderDigest, mmr_activated_epoch: u64) -> bool {
        chain_root_committed(
            self.header.number,
            self.header.epoch,
            self.header.extra_hash@,
            self.uncles_hash@,
            self.spec_extension(),
            chain_root@.encoded(),
            mmr_activated_epoch,
        )
    }

    /// Calls `VerifiableHeader::is_valid` of `ckb-types` on a header with the
    /// number, epoch and extra hash of this one, and with the digest that
    /// `chain_root` encodes as the chain root of its parent. Trusted: the
    /// result is a function of the values named in [`chain_root_committed`],
    /// the only ones that the call reads. The call asserts that the epoch
    /// number has 24 bits, and the digest has 120 bytes: `requires` asks for
    /// both.
    #[verifier::external_body]
    fn is_valid_for_root(&self, mmr_activated_epoch: u64, chain_root: &Vec<u8>) -> (r: bool)
        requires
            mmr_activated_epoch < 0x100_0000,
            chain_root@.len() == 120,
        ensures
            r == chain_root_committed(
                self.header.number,
                self.header.epoch,
                self.header.extra_hash@,
                self.uncles_hash@,
                self.spec_extension(),
                chain_root@,
                mmr_activated_epoch,
            ),
    {
        let h = &self.header;
        let raw = packed::RawHeader::new_builder().number(h.number).epoch(h.epoch).extra_hash(&h.extra_hash).build();
        let header = packed::Header::new_builder().raw(raw).build().into_view();
        let extension = self.extension.as_ref().map(|e| packed::Bytes::from(&e[..]));
        let root = packed::HeaderDigest::from_slice(chain_root).unwrap();
        ckb_types::utilities::merkle_mountain_range::VerifiableHeader::new(header, (&self.uncles_hash).into(), extension, root).is_valid(mmr_activated_epoch)
    }

    /// Whether this header commits to `chain_root` as the root over the
    /// blocks before it. See [`chain_root_committed`].
    ///
    /// An epoch number has 24 bits.
    pub fn is_valid(&self, mmr_activated_epoch: u64, chain_root: &HeaderDigest) -> (r: bool)
        requires
            mmr_activated_epoch < 0x100_0000,
        ensures
            r == self.commits_to(*chain_root, mmr_activated_epoch),
    {
        let encoded = chain_root.encode();
        self.is_valid_for_root(mmr_activated_epoch, &encoded)
    }
}

impl Header {
    /// The place of the block in its epoch.
    pub open spec fn spec_epoch(self) -> EpochNumberWithFraction {
        EpochNumberWithFraction::unpacked(self.epoch)
    }

    /// The digest of the single block of this header: a leaf of the Merkle
    /// Mountain Range.
    pub open spec fn spec_digest(self) -> DigestView {
        DigestView {
            children_hash: self.hash@,
            total_difficulty: compact_target_difficulty(self.compact_target),
            start_number: self.number,
            end_number: self.number,
            start_epoch: self.epoch,
            end_epoch: self.epoch,
            start_timestamp: self.timestamp,
            end_timestamp: self.timestamp,
            start_compact_target: self.compact_target,
            end_compact_target: self.compact_target,
        }
    }

    /// The block number.
    pub fn number(&self) -> (r: u64)
        ensures
            r == self.number,
    {
        self.number
    }

    /// The place of the block in its epoch.
    pub fn epoch(&self) -> (r: EpochNumberWithFraction)
        ensures
            r == self.spec_epoch(),
    {
        EpochNumberWithFraction::from_full_value_unchecked(self.epoch)
    }

    /// The compact target of the block.
    pub fn compact_target(&self) -> (r: u32)
        ensures
            r == self.compact_target,
    {
        self.compact_target
    }

    /// The digest of the single block of this header.
    pub fn digest(&self) -> (r: HeaderDigest)
        ensures
            r@ == self.spec_digest(),
    {
        let total_difficulty = compact_to_difficulty(self.compact_target);
        HeaderDigest {
            children_hash: self.hash,
            total_difficulty,
            start_number: self.number,
            end_number: self.number,
            start_epoch: self.epoch,
            end_epoch: self.epoch,
            start_timestamp: self.timestamp,
            end_timestamp: self.timestamp,
            start_compact_target: self.compact_target,
            end_compact_target: self.compact_target,
        }
    }
}

} // verus!
