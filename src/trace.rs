//! The decisions of a path tracer under a bounce budget. The arithmetic of
//! rays and colors happens elsewhere; these functions say, after each meeting
//! of a ray with the scene, whether the path goes on, ends in the sky, or
//! ends in black.
use vstd::prelude::*;

verus! {

/// What became of a ray that was traced against the scene.
#[derive(Clone, Copy, Debug, PartialEq, Eq, Structural)]
pub enum Outcome {
    /// The ray met no surface.
    Missed,
    /// The ray met a surface whose material absorbed it.
    Absorbed,
    /// The ray met a surface whose material sent out a new, attenuated ray.
    Scattered,
}

/// What a path does next.
#[derive(Clone, Copy, Debug, PartialEq, Eq, Structural)]
pub enum Step {
    /// Trace the current ray against the scene, with this many bounces left,
    /// this one included.
    Trace { remaining_bounces: u32 },
    /// The path ends and contributes no light: the budget is spent, or the
    /// ray was absorbed.
    Black,
    /// The path ends and shows the sky in the current ray's direction.
    Sky,
}

/// The step of a path that has `remaining_bounces` bounces left.
pub open spec fn step_with(remaining_bounces: u32) -> Step {
    if remaining_bounces == 0 {
        Step::Black
    } else {
        Step::Trace { remaining_bounces }
    }
}

/// The step after a ray, traced with `remaining_bounces` left, met the scene
/// with `outcome`.
pub open spec fn step_after(remaining_bounces: u32, outcome: Outcome) -> Step {
    match outcome {
        Outcome::Missed => Step::Sky,
        Outcome::Absorbed => Step::Black,
        Outcome::Scattered => step_with((remaining_bounces - 1) as u32),
    }
}

/// Where a path that is at `step` gets to when the scene answers its traces
/// with `outcomes`, in order, for as long as the path goes on: the step it
/// stops at, and how many rays it traced on the way.
pub open spec fn follow(step: Step, outcomes: Seq<Outcome>) -> (Step, nat)
    decreases outcomes.len(),
{
    match step {
        Step::Trace { remaining_bounces } => {
            if outcomes.len() == 0 {
                (step, 0)
            } else {
                let rest = follow(step_after(remaining_bounces, outcomes[0]), outcomes.drop_first());
                (rest.0, rest.1 + 1)
            }
        },
        _ => (step, 0),
    }
}

/// The first step of a path whose budget is `max_bounces`: a path with no
/// bounces to spend contributes black without looking at the scene.
pub fn first_step(max_bounces: u32) -> (s: Step)
    ensures
        s == step_with(max_bounces),
{
    if max_bounces == 0 {
        Step::Black
    } else {
        Step::Trace { remaining_bounces: max_bounces }
    }
}

/// The step after a ray, traced with `remaining_bounces` left, met the scene
/// with the given outcome: a miss shows the sky, an absorption ends in
/// black, and a scattered ray is followed with one bounce fewer.
pub fn next_step(remaining_bounces: u32, outcome: Outcome) -> (s: Step)
    requires
        remaining_bounces >= 1,
    ensures
        s == step_after(remaining_bounces, outcome),
{
    match outcome {
        Outcome::Missed => Step::Sky,
        Outcome::Absorbed => Step::Black,
        Outcome::Scattered => first_step(remaining_bounces - 1),
    }
}

/// A path traces at most as many rays as it has bounces left, whatever the
/// scene does with them: a budget of `max_bounces` bounds the depth of the
/// recursion.
pub proof fn lemma_traces_within_budget(remaining_bounces: u32, outcomes: Seq<Outcome>)
    ensures
        follow(step_with(remaining_bounces), outcomes).1 <= remaining_bounces,
    decreases outcomes.len(),
{
    if remaining_bounces > 0 && outcomes.len() > 0 {
        let next = step_after(remaining_bounces, outcomes[0]);
        if outcomes[0] == Outcome::Scattered {
            lemma_traces_within_budget((remaining_bounces - 1) as u32, outcomes.drop_first());
        } else {
            assert(follow(next, outcomes.drop_first()).1 == 0);
        }
    }
}

/// In a scene that every ray misses, a path with at least one bounce ends in
/// the sky after exactly one trace, whatever its budget.
pub proof fn lemma_empty_scene_shows_sky(max_bounces: u32, n: nat)
    requires
        max_bounces >= 1,
        n >= 1,
    ensures
        follow(step_with(max_bounces), Seq::new(n, |i: int| Outcome::Missed)) == (Step::Sky, 1nat),
{
    let outcomes = Seq::new(n, |i: int| Outcome::Missed);
    assert(follow(Step::Sky, outcomes.drop_first()) == (Step::Sky, 0nat));
}

} // verus!
