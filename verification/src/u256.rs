//! Unsigned 256-bit integers, held as four 64-bit limbs.
//!
//! Comparison is done here, limb by limb. The arithmetic is that of
//! `numext-fixed-uint`, the crate behind `ckb_types::U256`, which lays out
//! its limbs in the same way.

use vstd::prelude::*;

verus! {

/// 2^64.
pub open spec fn limb_base() -> nat {
    0x1_0000_0000_0000_0000nat
}

/// The largest 256-bit value, 2^256 - 1.
pub open spec fn max_u256() -> nat {
    0xffff_ffff_ffff_ffff_ffff_ffff_ffff_ffff_ffff_ffff_ffff_ffff_ffff_ffff_ffff_ffffnat
}

/// The number that four limbs stand for, least significant limb first.
pub open spec fn limbs_value(limbs: Seq<u64>) -> nat
    recommends
        limbs.len() == 4,
{
    limbs[0] as nat + limb_base() * (limbs[1] as nat + limb_base() * (limbs[2] as nat
        + limb_base() * (limbs[3] as nat)))
}

/// An unsigned 256-bit integer.
///
/// `limbs[0]` is the least significant limb.
#[derive(Clone, Copy, Debug, PartialEq, Eq)]
pub struct U256 {
    pub limbs: [u64; 4],
}

impl View for U256 {
    type V = nat;

    open spec fn view(&self) -> nat {
        limbs_value(self.limbs@)
    }
}

/// Every `U256` stands for a number below 2^256.
pub proof fn lemma_view_bound(x: U256)
    ensures
        x@ <= max_u256(),
{
}

/// Two values that stand for the same number are equal.
pub proof fn lemma_view_injective(x: U256, y: U256)
    requires
        x@ == y@,
    ensures
        x == y,
{
    assert(x.limbs =~= y.limbs);
}

/// Limb `i` of a number below 2^256: its 64 bits from bit `64 * i` on.
pub open spec fn limb_of(value: nat, i: nat) -> u64
    recommends
        i < 4,
{
    if i == 0 {
        (value % limb_base()) as u64
    } else if i == 1 {
        (value / limb_base() % limb_base()) as u64
    } else if i == 2 {
        (value / limb_base() / limb_base() % limb_base()) as u64
    } else {
        (value / limb_base() / limb_base() / limb_base() % limb_base()) as u64
    }
}

/// The limbs of a 256-bit integer are the limbs of the number that it stands
/// for.
pub proof fn lemma_limbs_of_view(x: U256)
    ensures
        limb_of(x@, 0) == x.limbs[0],
        limb_of(x@, 1) == x.limbs[1],
        limb_of(x@, 2) == x.limbs[2],
        limb_of(x@, 3) == x.limbs[3],
{
    let l1 = x.limbs[1] as nat;
    let l2 = x.limbs[2] as nat;
    let l3 = x.limbs[3] as nat;
    let v1 = x@ / limb_base();
    assert(v1 == l1 + limb_base() * (l2 + limb_base() * l3));
    let v2 = v1 / limb_base();
    assert(v2 == l2 + limb_base() * l3);
    let v3 = v2 / limb_base();
    assert(v3 == l3);
}

impl U256 {
    /// Zero.
    pub fn zero() -> (r: U256)
        ensures
            r@ == 0,
    {
        U256 { limbs: [0, 0, 0, 0] }
    }

    /// The largest value, 2^256 - 1.
    pub fn max_value() -> (r: U256)
        ensures
            r@ == max_u256(),
    {
        U256 {
            limbs: [
                0xffff_ffff_ffff_ffff,
                0xffff_ffff_ffff_ffff,
                0xffff_ffff_ffff_ffff,
                0xffff_ffff_ffff_ffff,
            ],
        }
    }

    /// The value of a `u64`.
    pub fn from_u64(x: u64) -> (r: U256)
        ensures
            r@ == x,
    {
        U256 { limbs: [x, 0, 0, 0] }
    }

    /// Whether `self` is smaller than `other`.
    pub fn lt(&self, other: &U256) -> (r: bool)
        ensures
            r == (self@ < other@),
    {
        if self.limbs[3] != other.limbs[3] {
            self.limbs[3] < other.limbs[3]
        } else if self.limbs[2] != other.limbs[2] {
            self.limbs[2] < other.limbs[2]
        } else if self.limbs[1] != other.limbs[1] {
            self.limbs[1] < other.limbs[1]
        } else {
            self.limbs[0] < other.limbs[0]
        }
    }

    /// Whether `self` is at most `other`.
    pub fn le(&self, other: &U256) -> (r: bool)
        ensures
            r == (self@ <= other@),
    {
        !other.lt(self)
    }

    /// Whether `self` is larger than `other`.
    pub fn gt(&self, other: &U256) -> (r: bool)
        ensures
            r == (self@ > other@),
    {
        other.lt(self)
    }

    /// Whether `self` is at least `other`.
    pub fn ge(&self, other: &U256) -> (r: bool)
        ensures
            r == (self@ >= other@),
    {
        !self.lt(other)
    }

    /// Whether `self` and `other` are the same number.
    pub fn equals(&self, other: &U256) -> (r: bool)
        ensures
            r == (self@ == other@),
            r == (*self == *other),
    {
        proof {
            if self@ == other@ {
                lemma_view_injective(*self, *other);
            }
        }
        self.limbs[0] == other.limbs[0] && self.limbs[1] == other.limbs[1] && self.limbs[2]
            == other.limbs[2] && self.limbs[3] == other.limbs[3]
    }

    /// Calls `U256::saturating_mul` of `numext-fixed-uint` (re-exported by
    /// `ckb-types`). Trusted: the product, or 2^256 - 1 where the product does
    /// not fit in 256 bits.
    #[verifier::external_body]
    pub(crate) fn saturating_mul(&self, rhs: &U256) -> (r: U256)
        ensures
            r@ == if self@ * rhs@ > max_u256() {
                max_u256()
            } else {
                self@ * rhs@
            },
    {
        let product = ckb_types::U256(self.limbs).saturating_mul(&ckb_types::U256(rhs.limbs));
        U256 { limbs: product.0 }
    }

    /// Calls `U256::saturating_add` of `numext-fixed-uint`. Trusted: the sum,
    /// or 2^256 - 1 where the sum does not fit in 256 bits.
    #[verifier::external_body]
    pub(crate) fn saturating_add(&self, rhs: &U256) -> (r: U256)
        ensures
            r@ == if self@ + rhs@ > max_u256() {
                max_u256()
            } else {
                self@ + rhs@
            },
    {
        let sum = ckb_types::U256(self.limbs).saturating_add(&ckb_types::U256(rhs.limbs));
        U256 { limbs: sum.0 }
    }

    /// Calls `U256::checked_add` of `numext-fixed-uint`. Trusted: the sum, or
    /// `None` where the sum does not fit in 256 bits.
    #[verifier::external_body]
    pub(crate) fn checked_add(&self, rhs: &U256) -> (r: Option<U256>)
        ensures
            self@ + rhs@ <= max_u256() ==> r.is_some() && r.unwrap()@ == self@ + rhs@,
            self@ + rhs@ > max_u256() ==> r.is_none(),
    {
        let sum = ckb_types::U256(self.limbs).checked_add(&ckb_types::U256(rhs.limbs));
        sum.map(|v| U256 { limbs: v.0 })
    }

    /// Calls `U256::checked_mul` of `numext-fixed-uint`. Trusted: the product,
    /// or `None` where the product does not fit in 256 bits.
    #[verifier::external_body]
    pub(crate) fn checked_mul(&self, rhs: &U256) -> (r: Option<U256>)
        ensures
            self@ * rhs@ <= max_u256() ==> r.is_some() && r.unwrap()@ == self@ * rhs@,
            self@ * rhs@ > max_u256() ==> r.is_none(),
    {
        let product = ckb_types::U256(self.limbs).checked_mul(&ckb_types::U256(rhs.limbs));
        product.map(|v| U256 { limbs: v.0 })
    }

    /// Calls `U256::checked_sub` of `numext-fixed-uint`. Trusted: the
    /// difference, or `None` where `rhs` is the larger.
    #[verifier::external_body]
    pub(crate) fn checked_sub(&self, rhs: &U256) -> (r: Option<U256>)
        ensures
            self@ >= rhs@ ==> r.is_some() && r.unwrap()@ == self@ - rhs@,
            self@ < rhs@ ==> r.is_none(),
    {
        let difference = ckb_types::U256(self.limbs).checked_sub(&ckb_types::U256(rhs.limbs));
        difference.map(|v| U256 { limbs: v.0 })
    }

    /// Calls the division operator of `numext-fixed-uint`'s `U256` with a
    /// `u64` divisor. Trusted: the quotient, rounded down. The operator
    /// panics on a zero divisor, which `requires` leaves out.
    #[verifier::external_body]
    pub(crate) fn div_u64(&self, rhs: u64) -> (r: U256)
        requires
            rhs != 0,
        ensures
            r@ == self@ / (rhs as nat),
    {
        let quotient = ckb_types::U256(self.limbs) / rhs;
        U256 { limbs: quotient.0 }
    }
}

} // verus!
