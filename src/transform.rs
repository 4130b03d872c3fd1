//! The model-space transform that every builder accumulates.
//!
//! A transform is kept as the ordered list of the elementary steps applied to a
//! builder. Step `i + 1` acts on the result of step `i`: as a matrix, the
//! accumulated transform is `step_n * ... * step_2 * step_1`, each new step being
//! multiplied on the left of what was there. Steps do not commute, so the order
//! of the calls is part of the transform.
use vstd::prelude::*;

verus! {

/// One elementary model-space transformation, with its parameters.
#[derive(Clone, Copy, Debug, PartialEq)]
pub enum Transform<S> {
    /// A non-uniform scale along the x, y and z axes.
    Scale(S, S, S),
    /// A translation by the given offsets.
    Translate(S, S, S),
    /// A rotation about the x axis, in radians.
    RotateX(S),
    /// A rotation about the y axis, in radians.
    RotateY(S),
    /// A rotation about the z axis, in radians.
    RotateZ(S),
}

/// An accumulated model-space transform: the steps applied so far, first to last.
#[derive(Clone, Debug)]
pub struct ModelTransform<S> {
    steps: Vec<Transform<S>>,
}

impl<S> View for ModelTransform<S> {
    type V = Seq<Transform<S>>;

    closed spec fn view(&self) -> Seq<Transform<S>> {
        self.steps@
    }
}

impl<S> ModelTransform<S> {
    /// The identity transform: no step applied.
    pub fn identity() -> (r: Self)
        ensures
            r@ == Seq::<Transform<S>>::empty(),
    {
        ModelTransform { steps: Vec::new() }
    }

    /// The transform that applies `step` after everything already recorded.
    pub fn with_step(self, step: Transform<S>) -> (r: Self)
        ensures
            r@ == self@.push(step),
    {
        let mut steps = self.steps;
        steps.push(step);
        ModelTransform { steps }
    }

    /// The recorded steps, in the order in which they act on model-space geometry.
    pub fn steps(&self) -> (r: &[Transform<S>])
        ensures
            r@ == self@,
    {
        self.steps.as_slice()
    }
}

/// Transformations do not commute: two different steps recorded in opposite
/// orders give two different transforms.
pub proof fn lemma_step_order_is_kept<S>(t: Seq<Transform<S>>, a: Transform<S>, b: Transform<S>)
    requires
        a != b,
    ensures
        t.push(a).push(b) != t.push(b).push(a),
{
    assert(t.push(a).push(b)[t.len() as int] == a);
    assert(t.push(b).push(a)[t.len() as int] == b);
}

} // verus!
