//! The library's window onto the game's randomness source. Nothing is
//! assumed about which outcome comes back — only the bounds the
//! generator documents — so every caller is verified for every possible
//! draw.

use vstd::prelude::*;
use rand::Rng;

verus! {

/// Relies on rand's `Rng::gen_range` over an inclusive integer range:
/// it returns a value uniformly sampled from the range, and panics only
/// when the range is empty.
#[verifier::external_body]
pub fn sample_inclusive(lo: u32, hi: u32) -> (r: u32)
    requires
        lo <= hi,
    ensures
        lo <= r <= hi,
{
    rand::thread_rng().gen_range(lo..=hi)
}

/// Relies on rand's `Rng::gen_ratio`: true with probability
/// `numerator / denominator`, always false at ratio zero and always
/// true at ratio one; panics only on a zero denominator or a ratio
/// above one.
#[verifier::external_body]
pub fn chance(numerator: u32, denominator: u32) -> (r: bool)
    requires
        0 < denominator,
        numerator <= denominator,
    ensures
        numerator == 0 ==> !r,
        numerator == denominator ==> r,
{
    rand::thread_rng().gen_ratio(numerator, denominator)
}

} // verus!
