//! The bounded recursion of a light path: a ray with no depth left is black,
//! and every scatter event costs one unit of depth, so no path makes more
//! intersections than the depth it started with.
use vstd::prelude::*;

verus! {

/// What the scene did with a traced ray.
#[derive(Debug, Clone, Copy, PartialEq, Eq, Structural)]
pub enum Bounce {
    /// No surface was hit inside the admissible range of the ray.
    Missed,
    /// A surface was hit and its material absorbed the ray.
    Absorbed,
    /// A surface was hit and its material sent out a new ray.
    Scattered,
}

/// What the color of a traced ray comes to.
#[derive(Debug, Clone, Copy, PartialEq, Eq, Structural)]
pub enum PathStep {
    /// No light.
    Black,
    /// The background gradient in the direction of the ray.
    Sky,
    /// The attenuation of the hit times the color of the scattered ray,
    /// which is traced with `depth` left.
    Continue { depth: i32 },
}

/// Whether a ray with `depth` left meets the scene at all.
pub open spec fn traced(depth: int) -> bool {
    depth > 0
}

/// The step after a ray traced with `depth` left met `bounce`.
pub open spec fn step_after(depth: int, bounce: Bounce) -> PathStep {
    match bounce {
        Bounce::Missed => PathStep::Sky,
        Bounce::Absorbed => PathStep::Black,
        Bounce::Scattered => PathStep::Continue { depth: (depth - 1) as i32 },
    }
}

/// Whether a ray with `depth` left is traced; when not, its color is black.
pub fn is_traced(depth: i32) -> (r: bool)
    ensures
        r == traced(depth as int),
{
    depth > 0
}

/// The step after a ray traced with `depth` left met `bounce`.
pub fn resolve(depth: i32, bounce: Bounce) -> (r: PathStep)
    requires
        traced(depth as int),
    ensures
        r == step_after(depth as int, bounce),
{
    match bounce {
        Bounce::Missed => PathStep::Sky,
        Bounce::Absorbed => PathStep::Black,
        Bounce::Scattered => PathStep::Continue { depth: depth - 1 },
    }
}

/// The number of times a path that starts with `depth` left meets the
/// scene, when the scene answers its rays with `answers` in turn.
pub open spec fn intersections(depth: int, answers: Seq<Bounce>) -> nat
    decreases answers.len(),
{
    if !traced(depth) || answers.len() == 0 {
        0
    } else {
        match step_after(depth, answers[0]) {
            PathStep::Continue { depth: next } => 1 + intersections(
                next as int,
                answers.drop_first(),
            ),
            _ => 1,
        }
    }
}

/// Whatever the scene answers, a path that starts with `depth` left meets it
/// at most `depth` times: the recursion is bounded by the depth.
pub proof fn lemma_path_is_bounded(depth: i32, answers: Seq<Bounce>)
    ensures
        intersections(depth as int, answers) <= if depth > 0 {
            depth as int
        } else {
            0
        },
    decreases answers.len(),
{
    if traced(depth as int) && answers.len() > 0 {
        if answers[0] == Bounce::Scattered {
            lemma_path_is_bounded((depth - 1) as i32, answers.drop_first());
        }
    }
}

} // verus!
