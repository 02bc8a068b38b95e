//! How long a simulated client pauses between two messages.

use vstd::prelude::*;
use rand::Rng;
use crate::load::config::TestStep;

verus! {

#[verifier::external_type_specification]
#[verifier::external_body]
pub struct ExSmallRng(rand::rngs::SmallRng);

/// Calls `Rng::gen_range` on the inclusive range from `low` to `high`,
/// which draws a number at random from that range. Which number it draws is
/// left open; an empty range is not accepted.
#[verifier::external_body]
pub(crate) fn draw(rng: &mut rand::rngs::SmallRng, low: u64, high: u64) -> (drawn: u64)
    requires
        low <= high,
    ensures
        low <= drawn <= high,
{
    rng.gen_range(low..=high)
}

/// Whether the pauses of `step` have a shortest that is no longer than the
/// longest.
pub open spec fn pause_bounds_ordered(step: TestStep) -> bool {
    step.think_time_ms[0] <= step.think_time_ms[1]
}

/// Draws the length of the next pause of a client in `step`, in
/// milliseconds: some time between the shortest and the longest pause of
/// the step, both included.
pub fn think_time(step: &TestStep, rng: &mut rand::rngs::SmallRng) -> (millis: u64)
    requires
        pause_bounds_ordered(*step),
    ensures
        step.think_time_ms[0] <= millis <= step.think_time_ms[1],
{
    draw(rng, step.think_time_ms[0], step.think_time_ms[1])
}

} // verus!
