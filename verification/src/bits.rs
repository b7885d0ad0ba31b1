//! Trusted interface to `fixedbitset::FixedBitSet`, the packed bit storage
//! that holds the grid's cells. Each function below wraps one call into the
//! outside crate; its contract is stated over `bit_seq`, the sequence of
//! booleans the set holds, and is believed rather than proved.

use vstd::prelude::*;
use fixedbitset::FixedBitSet;

verus! {

#[verifier::external_type_specification]
#[verifier::external_body]
pub struct ExFixedBitSet(FixedBitSet);

/// The bits a `FixedBitSet` holds, one `bool` per bit, indexed from zero.
pub uninterp spec fn bit_seq(b: FixedBitSet) -> Seq<bool>;

/// Relies on `FixedBitSet::with_capacity`: a set with exactly `bits` bits,
/// all initially clear.
#[verifier::external_body]
pub(crate) fn bitset_new(bits: usize) -> (r: FixedBitSet)
    ensures
        bit_seq(r).len() == bits,
        forall|i: int| 0 <= i < bits ==> !bit_seq(r)[i],
{
    FixedBitSet::with_capacity(bits)
}

/// Relies on `FixedBitSet::contains`: in range, it reads the stored bit.
#[verifier::external_body]
pub(crate) fn bitset_get(b: &FixedBitSet, bit: usize) -> (r: bool)
    requires
        bit < bit_seq(*b).len(),
    ensures
        r == bit_seq(*b)[bit as int],
{
    b.contains(bit)
}

/// Relies on `FixedBitSet::set`: it writes `enabled` at `bit` and leaves
/// every other bit as it was. It panics out of range, so range is required.
#[verifier::external_body]
pub(crate) fn bitset_set(b: &mut FixedBitSet, bit: usize, enabled: bool)
    requires
        bit < bit_seq(*old(b)).len(),
    ensures
        bit_seq(*final(b)) == bit_seq(*old(b)).update(bit as int, enabled),
{
    b.set(bit, enabled)
}

/// Relies on `FixedBitSet`'s `Clone` impl: the copy holds the same bits,
/// over the same length, as the original.
#[verifier::external_body]
pub(crate) fn bitset_clone(b: &FixedBitSet) -> (r: FixedBitSet)
    ensures
        bit_seq(r) == bit_seq(*b),
{
    b.clone()
}

} // verus!
