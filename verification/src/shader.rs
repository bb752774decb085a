//! The integrator's recursion policy.
//!
//! The recursive radiance estimator asks the scene about a ray and then
//! decides: follow a scattered ray one level deeper, give up with zero
//! radiance, or evaluate the sky gradient for a ray that left the scene.
//! The decision — in particular the hard depth cap — lives here; the
//! numeric sampling around it lives with the caller.

use vstd::prelude::*;

verus! {

/// The hard cap on recursive scattering.
pub const MAX_DEPTH: u32 = 50;

/// What the scene says about one ray cast.
#[derive(Debug, Clone, Copy, PartialEq, Eq, Structural)]
pub enum ShadeEvent {
    /// The ray left the scene without hitting anything.
    Miss,
    /// The ray hit a surface and the material absorbed it.
    Absorbed,
    /// The ray hit a surface and the material scattered it onward.
    Scattered,
}

/// What the integrator does next.
#[derive(Debug, Clone, Copy, PartialEq, Eq, Structural)]
pub enum ShadeAction {
    /// Estimate radiance along the scattered ray one level deeper and
    /// weight the result by this bounce's attenuation.
    Recurse,
    /// Contribute zero radiance.
    Zero,
    /// Evaluate the sky gradient for the missed ray.
    Background,
}

/// The integrator's decision for one ray cast at the given depth: a miss
/// shows the background, an absorbed ray contributes nothing, and a
/// scattered ray is followed only while the depth cap is not reached.
pub open spec fn spec_shade_step(depth: u32, event: ShadeEvent) -> ShadeAction {
    match event {
        ShadeEvent::Miss => ShadeAction::Background,
        ShadeEvent::Absorbed => ShadeAction::Zero,
        ShadeEvent::Scattered => if depth < MAX_DEPTH {
            ShadeAction::Recurse
        } else {
            ShadeAction::Zero
        },
    }
}

/// Decide what the integrator does after one ray cast.
pub fn shade_step(depth: u32, event: ShadeEvent) -> (r: ShadeAction)
    ensures
        r == spec_shade_step(depth, event),
{
    match event {
        ShadeEvent::Miss => ShadeAction::Background,
        ShadeEvent::Absorbed => ShadeAction::Zero,
        ShadeEvent::Scattered => if depth < MAX_DEPTH {
            ShadeAction::Recurse
        } else {
            ShadeAction::Zero
        },
    }
}

/// The number of radiance evaluations caused by a trace of scene answers
/// when the integrator enters at `depth`: one for the entering cast, plus
/// the evaluations of the recursion whenever the decision is to follow a
/// scattered ray.
pub open spec fn shade_calls(events: Seq<ShadeEvent>, depth: u32) -> nat
    decreases events.len(),
{
    if events.len() == 0 {
        1
    } else if spec_shade_step(depth, events[0]) == ShadeAction::Recurse {
        1 + shade_calls(events.drop_first(), (depth + 1) as u32)
    } else {
        1
    }
}

/// At or past the depth cap the integrator never recurses.
pub proof fn lemma_no_recursion_at_cap(depth: u32, event: ShadeEvent)
    requires
        depth >= MAX_DEPTH,
    ensures
        spec_shade_step(depth, event) != ShadeAction::Recurse,
{
}

/// Along any finite trace of scene answers — however adversarial, such as
/// a fully reflective enclosure that scatters every cast — an integrator
/// entered at depth `d` evaluates radiance at most `MAX_DEPTH + 1 - d`
/// times.  Entered at depth 0 it therefore evaluates at most
/// `MAX_DEPTH + 1` scattering events and cannot recurse without bound.
pub proof fn lemma_shade_depth_bounded(events: Seq<ShadeEvent>, depth: u32)
    requires
        depth <= MAX_DEPTH,
    ensures
        shade_calls(events, depth) <= MAX_DEPTH + 1 - depth,
    decreases events.len(),
{
    if events.len() == 0 {
    } else if spec_shade_step(depth, events[0]) == ShadeAction::Recurse {
        lemma_shade_depth_bounded(events.drop_first(), (depth + 1) as u32);
    }
}

} // verus!
