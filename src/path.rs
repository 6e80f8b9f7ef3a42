use vstd::prelude::*;

verus! {

/// What the scene did with a traced ray.
#[derive(Debug, Clone, Copy, PartialEq, Eq, Structural)]
pub enum Surface {
    /// The ray met no object.
    Missed,
    /// The ray met an object whose material did not scatter it.
    Absorbed,
    /// The ray met an object whose material scattered it into a new ray.
    Scattered,
}

/// What the radiance integrator does next along a path.
#[derive(Debug, Clone, Copy, PartialEq, Eq, Structural)]
pub enum PathStep {
    /// The path ends on the sky colour seen along the last ray.
    Sky,
    /// The path ends with no light.
    Black,
    /// Trace the current ray against the scene, with `remaining` rays left in
    /// the budget counting this one.
    Trace { remaining: u32 },
}

/// First step of a camera ray's path under a budget of `max_depth` rays.
pub open spec fn start_spec(max_depth: nat) -> PathStep {
    if max_depth == 0 {
        PathStep::Black
    } else {
        PathStep::Trace { remaining: max_depth as u32 }
    }
}

/// Step after a ray traced with `remaining` rays in the budget met `surface`:
/// a miss shows the sky, an absorption ends in black, and a scattered ray is
/// traced next while the budget lasts.
pub open spec fn next_spec(remaining: nat, surface: Surface) -> PathStep {
    match surface {
        Surface::Missed => PathStep::Sky,
        Surface::Absorbed => PathStep::Black,
        Surface::Scattered => if remaining <= 1 {
            PathStep::Black
        } else {
            PathStep::Trace { remaining: (remaining - 1) as u32 }
        },
    }
}

/// The step a path reaches from `step` when its traced rays meet `surfaces`
/// in turn, and how many rays it traced on the way.
pub open spec fn run(step: PathStep, surfaces: Seq<Surface>) -> (PathStep, nat)
    decreases surfaces.len(),
{
    match step {
        PathStep::Trace { remaining } => if surfaces.len() == 0 {
            (step, 0)
        } else {
            let rest = run(next_spec(remaining as nat, surfaces[0]), surfaces.drop_first());
            (rest.0, rest.1 + 1)
        },
        _ => (step, 0),
    }
}

/// How a camera ray's path begins under a budget of `max_depth` rays: with no
/// budget it is black at once.
pub fn start(max_depth: u32) -> (r: PathStep)
    ensures
        r == start_spec(max_depth as nat),
{
    if max_depth == 0 {
        PathStep::Black
    } else {
        PathStep::Trace { remaining: max_depth }
    }
}

/// How a path goes on once a ray traced with `remaining` rays in the budget
/// met `surface`.
pub fn next(remaining: u32, surface: Surface) -> (r: PathStep)
    requires
        remaining >= 1,
    ensures
        r == next_spec(remaining as nat, surface),
        r matches PathStep::Trace { remaining: k } ==> 1 <= k < remaining,
{
    match surface {
        Surface::Missed => PathStep::Sky,
        Surface::Absorbed => PathStep::Black,
        Surface::Scattered => if remaining <= 1 {
            PathStep::Black
        } else {
            PathStep::Trace { remaining: remaining - 1 }
        },
    }
}

/// A path traces at most as many rays as its budget, whatever the scene does
/// with them.
pub proof fn lemma_path_bounded(max_depth: u32, surfaces: Seq<Surface>)
    ensures
        run(start_spec(max_depth as nat), surfaces).1 <= max_depth,
{
    if max_depth > 0 {
        lemma_trace_bounded(max_depth, surfaces);
    }
}

proof fn lemma_trace_bounded(remaining: u32, surfaces: Seq<Surface>)
    requires
        remaining >= 1,
    ensures
        run(PathStep::Trace { remaining }, surfaces).1 <= remaining,
    decreases surfaces.len(),
{
    if surfaces.len() > 0 {
        let n = next_spec(remaining as nat, surfaces[0]);
        let rest = run(n, surfaces.drop_first());
        if let PathStep::Trace { remaining: k } = n {
            assert(k == remaining - 1);
            lemma_trace_bounded(k, surfaces.drop_first());
        } else {
            assert(rest.1 == 0);
        }
        assert(run(PathStep::Trace { remaining }, surfaces).1 == rest.1 + 1);
    }
}

} // verus!
