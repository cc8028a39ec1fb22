//! The source of chance: the thread-local generator of the `rand` crate.
//!
//! Nothing here is proved. Each item states what the crate's own source and
//! documentation say of the call it stands for.

use rand::Rng;
use rand::ThreadRng;
use vstd::prelude::*;

verus! {

/// `rand::ThreadRng`, the handle to the generator of the current thread.
/// Nothing is known of what it holds.
#[verifier::external_type_specification]
#[verifier::external_body]
pub struct ExThreadRng(ThreadRng);

/// `rand::thread_rng` hands out the generator of the current thread. Nothing
/// is claimed of it. It fails only where the system has no entropy to seed
/// the generator with.
pub assume_specification[ rand::thread_rng ]() -> (rng: ThreadRng);

/// `Rng::gen_range` on `i64`: a value drawn from `low` up to, and not
/// including, `high`. The crate asks for `low < high`; all that is claimed of
/// the value is that it lies in that range.
#[verifier::external_body]
pub(crate) fn draw_in_range(rng: &mut ThreadRng, low: i64, high: i64) -> (value: i64)
    requires
        low < high,
    ensures
        low <= value < high,
{
    rng.gen_range(low, high)
}

/// `Rng::gen` for `bool`: either value may come back, and nothing is claimed
/// of which.
#[verifier::external_body]
pub(crate) fn draw_bool(rng: &mut ThreadRng) -> (value: bool) {
    rng.gen::<bool>()
}

} // verus!
