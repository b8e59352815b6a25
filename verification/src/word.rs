//! Unsigned 256-bit quantities, held as four 64-bit limbs, least significant
//! first. The arithmetic is done by `alloy_primitives::U256`.

use vstd::prelude::*;
use alloy_primitives::U256;

verus! {

/// The radix of a limb, two to the power 64.
pub open spec fn limb_radix() -> nat {
    0x1_0000_0000_0000_0000
}

/// Two to the power 256: one more than the largest value of a `Word`.
pub open spec fn word_modulus() -> nat {
    limb_radix() * limb_radix() * limb_radix() * limb_radix()
}

/// An unsigned 256-bit integer.
#[derive(Clone, Copy, Debug, PartialEq, Eq)]
pub struct Word {
    pub limbs: [u64; 4],
}

impl View for Word {
    type V = nat;

    /// The number that the limbs spell, least significant limb first.
    open spec fn view(&self) -> nat {
        (self.limbs[0] as nat) + limb_radix() * ((self.limbs[1] as nat) + limb_radix() * ((
        self.limbs[2] as nat) + limb_radix() * (self.limbs[3] as nat)))
    }
}

/// Every `Word` is below two to the power 256.
pub proof fn lemma_word_bound(w: Word)
    ensures
        w@ < word_modulus(),
{
}

/// `alloy_primitives::U256::checked_add`: the sum of the two numbers where it
/// is below two to the power 256, and `None` where it is not.
#[verifier::external_body]
fn u256_checked_add(a: Word, b: Word) -> (r: Option<Word>)
    ensures
        r.is_some() <==> a@ + b@ < word_modulus(),
        r.is_some() ==> r.unwrap()@ == a@ + b@,
{
    match U256::from_limbs(a.limbs).checked_add(U256::from_limbs(b.limbs)) {
        Some(sum) => Some(Word { limbs: sum.into_limbs() }),
        None => None,
    }
}

/// `alloy_primitives::U256::checked_sub`: the difference of the two numbers
/// where the second is not the larger, and `None` where it is.
#[verifier::external_body]
fn u256_checked_sub(a: Word, b: Word) -> (r: Option<Word>)
    ensures
        r.is_some() <==> b@ <= a@,
        r.is_some() ==> r.unwrap()@ == a@ - b@,
{
    match U256::from_limbs(a.limbs).checked_sub(U256::from_limbs(b.limbs)) {
        Some(rest) => Some(Word { limbs: rest.into_limbs() }),
        None => None,
    }
}

/// `alloy_primitives::U256::saturating_add`: the sum of the two numbers, or
/// the largest 256-bit number where the sum is beyond it.
#[verifier::external_body]
fn u256_saturating_add(a: Word, b: Word) -> (r: Word)
    ensures
        a@ + b@ < word_modulus() ==> r@ == a@ + b@,
        a@ + b@ >= word_modulus() ==> r@ == word_modulus() - 1,
{
    Word { limbs: U256::from_limbs(a.limbs).saturating_add(U256::from_limbs(b.limbs)).into_limbs() }
}

impl Word {
    /// The number zero.
    pub fn zero() -> (r: Word)
        ensures
            r@ == 0,
    {
        Word { limbs: [0, 0, 0, 0] }
    }

    /// The 256-bit number equal to `value`.
    pub fn from_u64(value: u64) -> (r: Word)
        ensures
            r@ == value,
    {
        Word { limbs: [value, 0, 0, 0] }
    }

    /// The number as a `u64`, where it is small enough for one.
    pub fn to_u64(&self) -> (r: Option<u64>)
        ensures
            r.is_some() <==> self@ < limb_radix(),
            r.is_some() ==> r.unwrap() == self@,
    {
        if self.limbs[1] == 0 && self.limbs[2] == 0 && self.limbs[3] == 0 {
            Some(self.limbs[0])
        } else {
            None
        }
    }

    /// Whether the number is zero.
    pub fn is_zero(&self) -> (r: bool)
        ensures
            r == (self@ == 0),
    {
        self.limbs[0] == 0 && self.limbs[1] == 0 && self.limbs[2] == 0 && self.limbs[3] == 0
    }

    /// `self + other`, or `None` where the sum does not fit in 256 bits.
    pub fn checked_add(&self, other: &Word) -> (r: Option<Word>)
        ensures
            r.is_some() <==> self@ + other@ < word_modulus(),
            r.is_some() ==> r.unwrap()@ == self@ + other@,
    {
        u256_checked_add(*self, *other)
    }

    /// `self - other`, or `None` where `other` is the larger.
    pub fn checked_sub(&self, other: &Word) -> (r: Option<Word>)
        ensures
            r.is_some() <==> other@ <= self@,
            r.is_some() ==> r.unwrap()@ == self@ - other@,
    {
        u256_checked_sub(*self, *other)
    }

    /// `self + other`, held at the largest 256-bit number where the sum is
    /// beyond it.
    pub fn saturating_add(&self, other: &Word) -> (r: Word)
        ensures
            r@ == if self@ + other@ < word_modulus() {
                self@ + other@
            } else {
                (word_modulus() - 1) as nat
            },
    {
        u256_saturating_add(*self, *other)
    }

    /// Whether `self` is smaller than `other`.
    pub fn less_than(&self, other: &Word) -> (r: bool)
        ensures
            r == (self@ < other@),
    {
        u256_checked_sub(*self, *other).is_none()
    }
}

} // verus!
