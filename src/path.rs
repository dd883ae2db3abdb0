use vstd::prelude::*;

verus! {

/// Bounce budget of one camera ray.
pub const MAX_REFLECTION_DEPTH: usize = 50;

/// What a scene did with a ray that was traced into it.
#[derive(PartialEq, Eq, Structural, Debug, Clone, Copy)]
pub enum Outcome {
    /// No surface lies along the ray.
    Miss,
    /// A surface was hit and its material absorbed the ray.
    Absorbed,
    /// A surface was hit and its material sent out a new ray, with an attenuation.
    Scattered,
}

/// What the radiance estimator does next with the current ray.
#[derive(PartialEq, Eq, Structural, Debug, Clone, Copy)]
pub enum Step {
    /// Intersect the ray with the scene; the number is the bounce budget left.
    Trace(usize),
    /// The path ends with no light: its contribution is black.
    Black,
    /// The ray escaped: its contribution is the background light along it,
    /// tinted by the attenuations gathered on the way.
    Sky,
}

/// The step that starts the estimate of a ray with `depth` bounces left.
pub open spec fn start_step(depth: nat) -> Step {
    if depth == 0 {
        Step::Black
    } else {
        Step::Trace(depth as usize)
    }
}

/// The step that follows an intersection made with `depth` bounces left.
pub open spec fn next_step(depth: nat, outcome: Outcome) -> Step {
    match outcome {
        Outcome::Miss => Step::Sky,
        Outcome::Absorbed => Step::Black,
        Outcome::Scattered => start_step((depth - 1) as nat),
    }
}

/// Starts the estimate of a ray with `depth` bounces left: a spent budget is
/// black whatever the ray and the scene; otherwise the ray is traced.
pub fn start(depth: usize) -> (r: Step)
    ensures
        r == start_step(depth as nat),
        depth == 0 ==> r == Step::Black,
{
    if depth == 0 {
        Step::Black
    } else {
        Step::Trace(depth)
    }
}

/// Decides what follows an intersection made with `depth` bounces left: a miss
/// takes the background, an absorption ends in black, and a scattered ray is
/// estimated in turn with one bounce less.
pub fn advance(depth: usize, outcome: Outcome) -> (r: Step)
    requires
        depth > 0,
    ensures
        r == next_step(depth as nat, outcome),
        r matches Step::Trace(d) ==> d < depth,
{
    match outcome {
        Outcome::Miss => Step::Sky,
        Outcome::Absorbed => Step::Black,
        Outcome::Scattered => start(depth - 1),
    }
}

/// Bounce budget that a step still holds.
pub open spec fn budget(step: Step) -> nat {
    match step {
        Step::Trace(d) => d as nat,
        _ => 0,
    }
}

/// The outcome of the next intersection, when the successive intersections turn
/// out as `outcomes`; past the end of the sequence rays miss.
pub open spec fn first_outcome(outcomes: Seq<Outcome>) -> Outcome {
    if outcomes.len() > 0 {
        outcomes[0]
    } else {
        Outcome::Miss
    }
}

/// The outcomes of the intersections after the next one.
pub open spec fn later_outcomes(outcomes: Seq<Outcome>) -> Seq<Outcome> {
    if outcomes.len() > 0 {
        outcomes.drop_first()
    } else {
        outcomes
    }
}

/// The step at which the estimate comes to rest when it is at `step` and the
/// successive intersections turn out as `outcomes`, following `start` and
/// `advance`, with the number of intersections made on the way.
pub open spec fn settle(step: Step, outcomes: Seq<Outcome>) -> (Step, nat)
    decreases budget(step),
{
    match step {
        Step::Trace(d) => if d == 0 {
            (Step::Black, 0)
        } else {
            let r = settle(next_step(d as nat, first_outcome(outcomes)), later_outcomes(outcomes));
            (r.0, r.1 + 1)
        },
        _ => (step, 0),
    }
}

/// Whatever the ray and the scene (whatever the outcomes of its intersections),
/// the estimate of a ray with no bounce budget is black without any intersection;
/// with a budget of `depth` it makes at most `depth` intersections and ends in
/// black or in the background light.
pub proof fn lemma_budget_bounds_path(depth: usize, outcomes: Seq<Outcome>)
    ensures
        depth == 0 ==> settle(start_step(depth as nat), outcomes) == (Step::Black, 0nat),
        settle(start_step(depth as nat), outcomes).1 <= depth,
        settle(start_step(depth as nat), outcomes).0 == Step::Black || settle(
            start_step(depth as nat),
            outcomes,
        ).0 == Step::Sky,
{
    lemma_settle_bounded(start_step(depth as nat), outcomes);
}

proof fn lemma_settle_bounded(step: Step, outcomes: Seq<Outcome>)
    ensures
        settle(step, outcomes).1 <= budget(step),
        !(step matches Step::Trace(_)) ==> settle(step, outcomes).0 == step,
        step matches Step::Trace(_) ==> (settle(step, outcomes).0 == Step::Black || settle(
            step,
            outcomes,
        ).0 == Step::Sky),
    decreases budget(step),
{
    if let Step::Trace(d) = step {
        if d > 0 {
            lemma_settle_bounded(
                next_step(d as nat, first_outcome(outcomes)),
                later_outcomes(outcomes),
            );
        }
    }
}

} // verus!
