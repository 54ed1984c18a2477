//! The contract of one stage.

use crate::shape::Shape;
use crate::then::Then;
use vstd::prelude::*;

verus! {

/// One stage of a control loop over a shared model `M`.
///
/// A task value is a description: it holds the parameters of one tick and is
/// thrown away after it. What persists is the state node that `build` creates
/// and that every later `rebuild` updates in place.
///
/// A stage may read a clock or other ambient input, so what a call does is
/// given as a relation between the model and state before and after it rather
/// than as a function of them. Each kind of stage states its own relations;
/// `build` and `rebuild` promise them, and leave the description as it was.
pub trait Task<M>: Sized {
    /// The value a tick hands to the driver or to the next stage.
    type Output;

    /// The state that lives on between ticks.
    type State;

    /// Whether `build` may be called with this model. Unless a stage says
    /// otherwise, it always may.
    open spec fn can_build(self, model: M) -> bool {
        true
    }

    /// Whether `rebuild` may be called with this model and state. Unless a
    /// stage says otherwise, it always may.
    open spec fn can_rebuild(self, model: M, state: Self::State) -> bool {
        true
    }

    /// Whether a first evaluation that finds the model as `before` may leave
    /// it as `after` and return `output` and the fresh `state`. Unless a stage
    /// says otherwise, it promises nothing.
    open spec fn built(self, before: M, after: M, output: Self::Output, state: Self::State) -> bool {
        true
    }

    /// Whether a re-evaluation that finds the model as `before` and the state
    /// node as `prior` may leave them as `after` and `state` and return
    /// `output`. Unless a stage says otherwise, it promises nothing.
    open spec fn rebuilt(
        self,
        before: M,
        prior: Self::State,
        after: M,
        output: Self::Output,
        state: Self::State,
    ) -> bool {
        true
    }

    /// The arrangement of the state nodes in `state`. Unless a stage says
    /// otherwise, it has no sub-stages and its state is one node.
    open spec fn shape(state: Self::State) -> Shape {
        Shape::Leaf
    }

    /// Evaluates the stage for the first time: creates its state and computes
    /// its first output.
    fn build(&mut self, model: &mut M) -> (r: (Self::Output, Self::State))
        requires
            old(self).can_build(*old(model)),
        ensures
            *final(self) == *old(self),
            old(self).built(*old(model), *final(model), r.0, r.1),
    ;

    /// Evaluates the stage again on the state that an earlier evaluation left.
    fn rebuild(&mut self, model: &mut M, state: &mut Self::State) -> (output: Self::Output)
        requires
            old(self).can_rebuild(*old(model), *old(state)),
        ensures
            *final(self) == *old(self),
            old(self).rebuilt(*old(model), *old(state), *final(model), output, *final(state)),
    ;

    /// Sequences this stage with the stage that `f` makes from the model and
    /// this stage's output.
    fn then<F, T>(self, f: F) -> (chain: Then<Self, F, T, M>) where
        F: FnMut(&M, Self::Output) -> T,

        ensures
            chain.first() == self,
            chain.continuation() == f,
    {
        Then::new(self, f)
    }
}

/// The arrangement of the state nodes in a state of `task`. It depends on the
/// kind of stage alone, which `task` serves to name.
pub open spec fn shape_of<M, T: Task<M>>(task: T, state: T::State) -> Shape {
    T::shape(state)
}

/// The stage that does nothing: no output, an empty state, the model untouched.
impl<M> Task<M> for () {
    type Output = ();

    type State = ();

    open spec fn can_build(self, model: M) -> bool {
        true
    }

    open spec fn can_rebuild(self, model: M, state: ()) -> bool {
        true
    }

    open spec fn built(self, before: M, after: M, output: (), state: ()) -> bool {
        after == before
    }

    open spec fn rebuilt(self, before: M, prior: (), after: M, output: (), state: ()) -> bool {
        after == before
    }

    open spec fn shape(state: ()) -> Shape {
        Shape::Leaf
    }

    fn build(&mut self, model: &mut M) -> (r: ((), ())) {
        ((), ())
    }

    fn rebuild(&mut self, model: &mut M, state: &mut ()) -> (output: ()) {
    }
}

} // verus!
