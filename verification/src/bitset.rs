//! What the plan nodes rely on of `fixedbitset::FixedBitSet`.
//!
//! Nothing in this file is proved: the contracts restate what the crate's
//! source shows of the three functions that the plan nodes call.

use fixedbitset::FixedBitSet;
use vstd::prelude::*;

verus! {

/// `fixedbitset::FixedBitSet`, a set of bits of fixed length. Its inside is
/// hidden; `bitset_bits` stands for what it holds.
#[verifier::external_type_specification]
#[verifier::external_body]
pub struct ExFixedBitSet(fixedbitset::FixedBitSet);

/// The bits of a set, from bit 0 up to its length: `true` where enabled.
pub uninterp spec fn bitset_bits(set: FixedBitSet) -> Seq<bool>;

/// `FixedBitSet::with_capacity` creates a set with the given number of bits,
/// all of them clear.
pub assume_specification[ FixedBitSet::with_capacity ](bits: usize) -> (set: FixedBitSet)
    ensures
        bitset_bits(set) == Seq::new(bits as nat, |i: int| false),
;

/// `FixedBitSet::len` returns the length of the set in bits, set and unset
/// bits alike.
pub assume_specification[ FixedBitSet::len ](set: &FixedBitSet) -> (len: usize)
    ensures
        len == bitset_bits(*set).len(),
;

/// `FixedBitSet::contains` tells whether a bit is enabled. The claim covers
/// the bits within the length of the set only: for a bit at or past the
/// length the function reads whatever the last block holds there, and
/// nothing is said of its answer.
pub assume_specification[ FixedBitSet::contains ](set: &FixedBitSet, bit: usize) -> (enabled: bool)
    ensures
        bit < bitset_bits(*set).len() ==> enabled == bitset_bits(*set)[bit as int],
;

} // verus!
