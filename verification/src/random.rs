//! The source of random suffixes.

use rand::Rng;
use vstd::prelude::*;

verus! {

/// Calls `rand::Rng::gen_range` on the generator that `rand::thread_rng`
/// hands out for the current thread.
///
/// Believed, not proved: for `low < high` the call returns a value that is at
/// least `low` and below `high`. Which value it is differs from call to call,
/// and nothing is said of it. For `low >= high` the call panics, so such
/// bounds are not admitted. Where the operating system has no entropy to seed
/// the generator with, `thread_rng` panics whatever the bounds are.
#[verifier::external_body]
fn gen_range(low: i32, high: i32) -> (value: i32)
    requires
        low < high,
    ensures
        low <= value < high,
{
    rand::thread_rng().gen_range(low, high)
}

/// Whether `value` can be the suffix of a temporary file: it is not negative
/// and lies below the largest `i32`.
pub open spec fn is_suffix(value: int) -> bool {
    0 <= value < i32::MAX
}

/// Draws the suffix for a new temporary file.
pub fn random_suffix() -> (suffix: i32)
    ensures
        is_suffix(suffix as int),
{
    gen_range(0, i32::MAX)
}

} // verus!
