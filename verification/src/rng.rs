//! The machine's one source of randomness, behind a single trusted wrapper.

use rand::Rng;
use vstd::prelude::*;

verus! {

/// Relies on rand::Rng::gen_range over the inclusive range `0..=bound`
/// (with rand's thread-local generator): the sampled value lies in that
/// range, which is never empty. Nothing more is assumed of the outcome;
/// two calls on the same bound may differ.
#[verifier::external_body]
pub(crate) fn random_in_range(bound: u8) -> (r: u8)
    ensures
        r <= bound,
{
    rand::thread_rng().gen_range(0..=bound)
}

} // verus!
