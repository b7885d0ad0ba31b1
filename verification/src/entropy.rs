//! Trusted interface to the host's random number source.

use vstd::prelude::*;

verus! {

/// Relies on `js_sys::Math::random`: a pseudo-random number in `[0, 1)`,
/// approximately uniform over that range, handed back here as its IEEE 754
/// bit pattern. The sample depends on a hidden seed, so all that holds of
/// every outcome is its range: the bit patterns of nonnegative doubles are
/// ordered as their values, so a sample below one has a pattern below that
/// of one. Callers must hold for every such outcome.
#[verifier::external_body]
pub(crate) fn random_sample_bits() -> (r: u64)
    ensures
        r < 0x3FF0_0000_0000_0000,
{
    js_sys::Math::random().to_bits()
}

} // verus!
