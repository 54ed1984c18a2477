//! A stage without state.

use crate::shape::Shape;
use crate::task::Task;
use std::marker::PhantomData;
use vstd::prelude::*;

verus! {

/// A stage that evaluates a function of the model on every tick and keeps
/// nothing between ticks.
#[verifier::reject_recursive_types(F)]
#[verifier::reject_recursive_types(M)]
#[verifier::reject_recursive_types(O)]
pub struct FromFn<F, M, O> {
    f: F,
    _marker: PhantomData<(M, O)>,
}

impl<F, M, O> FromFn<F, M, O> {
    /// The function that the stage evaluates.
    pub closed spec fn function(self) -> F {
        self.f
    }
}

/// Makes a stage of the function `f`: its output on every tick is what `f`
/// returns for the model, and it has no state.
pub fn from_fn<F, M, O>(f: F) -> (task: FromFn<F, M, O>) where F: FnMut(&M) -> O
    ensures
        task.function() == f,
{
    FromFn { f, _marker: PhantomData }
}

impl<F, M, O> FromFn<F, M, O> where F: FnMut(&M) -> O {
    /// Evaluates the function on the model for the first time.
    pub fn build(&mut self, model: &mut M) -> (r: (O, ()))
        requires
            call_requires(old(self).function(), (&*old(model),)),
        ensures
            *final(self) == *old(self),
            *final(model) == *old(model),
            call_ensures(old(self).function(), (&*old(model),), r.0),
    {
        let output = (self.f)(&*model);
        (output, ())
    }

    /// Evaluates the function on the model again.
    pub fn rebuild(&mut self, model: &mut M, state: &mut ()) -> (output: O)
        requires
            call_requires(old(self).function(), (&*old(model),)),
        ensures
            *final(self) == *old(self),
            *final(model) == *old(model),
            call_ensures(old(self).function(), (&*old(model),), output),
    {
        (self.f)(&*model)
    }
}

impl<F, M, O> Task<M> for FromFn<F, M, O> where F: FnMut(&M) -> O {
    type Output = O;

    type State = ();

    open spec fn can_build(self, model: M) -> bool {
        call_requires(self.function(), (&model,))
    }

    open spec fn can_rebuild(self, model: M, state: ()) -> bool {
        call_requires(self.function(), (&model,))
    }

    open spec fn built(self, before: M, after: M, output: O, state: ()) -> bool {
        &&& after == before
        &&& call_ensures(self.function(), (&before,), output)
    }

    open spec fn rebuilt(self, before: M, prior: (), after: M, output: O, state: ()) -> bool {
        &&& after == before
        &&& call_ensures(self.function(), (&before,), output)
    }

    open spec fn shape(state: ()) -> Shape {
        Shape::Leaf
    }

    fn build(&mut self, model: &mut M) -> (r: (O, ())) {
        FromFn::build(self, model)
    }

    fn rebuild(&mut self, model: &mut M, state: &mut ()) -> (output: O) {
        FromFn::rebuild(self, model, state)
    }
}

/// As a stage, a function can be built and rebuilt exactly where it can be
/// called on the model.
///
/// Verus sees this by itself wherever the kind of the function is a parameter
/// of the caller. A caller that holds a function of one concrete kind, such as
/// a closure written in place, learns it here.
pub proof fn lemma_from_fn_requires<F, M, O>(task: FromFn<F, M, O>, model: M) where
    F: FnMut(&M) -> O,

    ensures
        task.can_build(model) <==> call_requires(task.function(), (&model,)),
        task.can_rebuild(model, ()) <==> call_requires(task.function(), (&model,)),
{
}

/// As a stage, a function is built and rebuilt by a call that leaves the model
/// as it was. For the callers of `lemma_from_fn_requires`.
pub proof fn lemma_from_fn_ensures<F, M, O>(
    task: FromFn<F, M, O>,
    before: M,
    after: M,
    output: O,
) where F: FnMut(&M) -> O
    ensures
        task.built(before, after, output, ()) <==> {
            &&& after == before
            &&& call_ensures(task.function(), (&before,), output)
        },
        task.rebuilt(before, (), after, output, ()) <==> {
            &&& after == before
            &&& call_ensures(task.function(), (&before,), output)
        },
{
}

} // verus!
