use rand::Rng;
use vstd::prelude::*;

verus! {

/// Relies on rand::Rng::gen_range on rand::thread_rng: a uniform draw from the
/// half-open range 1..101, which is not empty, so the call does not panic.
#[verifier::external_body]
pub(crate) fn draw_percent() -> (d: i32)
    ensures
        1 <= d <= 100,
{
    rand::thread_rng().gen_range(1..101)
}

} // verus!
