//! Two stages in sequence.

use crate::shape::Shape;
use crate::task::Task;
use std::marker::PhantomData;
use vstd::prelude::*;

verus! {

/// A stage followed by the stage that a continuation makes from the model and
/// the first stage's output.
///
/// The continuation runs on every tick, so the second stage's parameters follow
/// the current output of the first. Only the state persists: it is the pair of
/// the two stages' states.
#[verifier::reject_recursive_types(F)]
#[verifier::reject_recursive_types(T2)]
#[verifier::reject_recursive_types(M)]
pub struct Then<T1, F, T2, M> {
    task: T1,
    f: F,
    _marker: PhantomData<(T2, M)>,
}

impl<T1, F, T2, M> Then<T1, F, T2, M> {
    /// The stage that runs first.
    pub closed spec fn first(self) -> T1 {
        self.task
    }

    /// The function that makes the second stage.
    pub closed spec fn continuation(self) -> F {
        self.f
    }

    /// Sequences `task` with the stage that `f` makes.
    pub fn new(task: T1, f: F) -> (chain: Self)
        ensures
            chain.first() == task,
            chain.continuation() == f,
    {
        Then { task, f, _marker: PhantomData }
    }
}

/// Whether `first` followed by what `f` makes can be built: `first` can be
/// built, and whatever it leaves, `f` can be called on it and the stage that
/// `f` makes can be built.
pub open spec fn can_build_in_sequence<M, T1, F, T2>(first: T1, f: F, model: M) -> bool where
    T1: Task<M>,
    F: FnMut(&M, T1::Output) -> T2,
    T2: Task<M>,
 {
    &&& first.can_build(model)
    &&& forall|mid: M, out1: T1::Output, state1: T1::State| #[trigger]
        first.built(model, mid, out1, state1) ==> {
            &&& call_requires(f, (&mid, out1))
            &&& forall|next: T2| #[trigger]
                call_ensures(f, (&mid, out1), next) ==> next.can_build(mid)
        }
}

/// Whether `first` followed by what `f` makes can be rebuilt on `state`:
/// `first` can be rebuilt on the left half, and whatever it leaves, `f` can be
/// called on it and the stage that `f` makes can be rebuilt on the right half.
pub open spec fn can_rebuild_in_sequence<M, T1, F, T2>(
    first: T1,
    f: F,
    model: M,
    state: (T1::State, T2::State),
) -> bool where T1: Task<M>, F: FnMut(&M, T1::Output) -> T2, T2: Task<M> {
    &&& first.can_rebuild(model, state.0)
    &&& forall|mid: M, out1: T1::Output, state1: T1::State| #[trigger]
        first.rebuilt(model, state.0, mid, out1, state1) ==> {
            &&& call_requires(f, (&mid, out1))
            &&& forall|next: T2| #[trigger]
                call_ensures(f, (&mid, out1), next) ==> next.can_rebuild(mid, state.1)
        }
}

/// Building in sequence: `first` is built and takes the model from `before` to
/// some `mid`; `f` makes a stage from `mid` and the output of `first`; that
/// stage is built and takes the model from `mid` to `after`. The output is that
/// of the second stage, the state the pair of both states.
pub open spec fn built_in_sequence<M, T1, F, T2>(
    first: T1,
    f: F,
    before: M,
    after: M,
    output: T2::Output,
    state: (T1::State, T2::State),
) -> bool where T1: Task<M>, F: FnMut(&M, T1::Output) -> T2, T2: Task<M> {
    exists|mid: M, out1: T1::Output, next: T2|
        {
            &&& first.built(before, mid, out1, state.0)
            &&& #[trigger] call_ensures(f, (&mid, out1), next)
            &&& next.built(mid, after, output, state.1)
        }
}

/// Rebuilding in sequence: as building, with each stage rebuilt on its own
/// half of the state.
pub open spec fn rebuilt_in_sequence<M, T1, F, T2>(
    first: T1,
    f: F,
    before: M,
    prior: (T1::State, T2::State),
    after: M,
    output: T2::Output,
    state: (T1::State, T2::State),
) -> bool where T1: Task<M>, F: FnMut(&M, T1::Output) -> T2, T2: Task<M> {
    exists|mid: M, out1: T1::Output, next: T2|
        {
            &&& first.rebuilt(before, prior.0, mid, out1, state.0)
            &&& #[trigger] call_ensures(f, (&mid, out1), next)
            &&& next.rebuilt(mid, prior.1, after, output, state.1)
        }
}

impl<T1, F, T2, M> Then<T1, F, T2, M> where
    T1: Task<M>,
    F: FnMut(&M, T1::Output) -> T2,
    T2: Task<M>,
 {
    /// Builds the first stage, makes the second stage from what the first left
    /// and returned, and builds the second stage.
    pub fn build(&mut self, model: &mut M) -> (r: (T2::Output, (T1::State, T2::State)))
        requires
            can_build_in_sequence(old(self).first(), old(self).continuation(), *old(model)),
        ensures
            *final(self) == *old(self),
            built_in_sequence(
                old(self).first(),
                old(self).continuation(),
                *old(model),
                *final(model),
                r.0,
                r.1,
            ),
    {
        let (out1, state1) = self.task.build(model);
        let mut next = (self.f)(&*model, out1);
        let (out2, state2) = next.build(model);
        (out2, (state1, state2))
    }

    /// Rebuilds the first stage on the left state, makes the second stage anew
    /// from what the first left and returned, and rebuilds it on the right
    /// state.
    pub fn rebuild(&mut self, model: &mut M, state: &mut (T1::State, T2::State)) -> (output:
        T2::Output)
        requires
            can_rebuild_in_sequence(
                old(self).first(),
                old(self).continuation(),
                *old(model),
                *old(state),
            ),
        ensures
            *final(self) == *old(self),
            rebuilt_in_sequence(
                old(self).first(),
                old(self).continuation(),
                *old(model),
                *old(state),
                *final(model),
                output,
                *final(state),
            ),
    {
        let out1 = self.task.rebuild(model, &mut state.0);
        let mut next = (self.f)(&*model, out1);
        next.rebuild(model, &mut state.1)
    }
}

impl<T1, F, T2, M> Task<M> for Then<T1, F, T2, M> where
    T1: Task<M>,
    F: FnMut(&M, T1::Output) -> T2,
    T2: Task<M>,
 {
    type Output = T2::Output;

    type State = (T1::State, T2::State);

    open spec fn can_build(self, model: M) -> bool {
        can_build_in_sequence(self.first(), self.continuation(), model)
    }

    open spec fn can_rebuild(self, model: M, state: (T1::State, T2::State)) -> bool {
        can_rebuild_in_sequence(self.first(), self.continuation(), model, state)
    }

    open spec fn built(
        self,
        before: M,
        after: M,
        output: T2::Output,
        state: (T1::State, T2::State),
    ) -> bool {
        built_in_sequence(self.first(), self.continuation(), before, after, output, state)
    }

    open spec fn rebuilt(
        self,
        before: M,
        prior: (T1::State, T2::State),
        after: M,
        output: T2::Output,
        state: (T1::State, T2::State),
    ) -> bool {
        rebuilt_in_sequence(
            self.first(),
            self.continuation(),
            before,
            prior,
            after,
            output,
            state,
        )
    }

    open spec fn shape(state: (T1::State, T2::State)) -> Shape {
        Shape::Pair(Box::new(T1::shape(state.0)), Box::new(T2::shape(state.1)))
    }

    fn build(&mut self, model: &mut M) -> (r: (T2::Output, (T1::State, T2::State))) {
        Then::build(self, model)
    }

    fn rebuild(&mut self, model: &mut M, state: &mut (T1::State, T2::State)) -> (output:
        T2::Output) {
        Then::rebuild(self, model, state)
    }
}

/// As a stage, a chain can be built and rebuilt exactly where it can be in
/// sequence.
///
/// Verus sees this by itself wherever the kind of the continuation is a
/// parameter of the caller. A caller that holds a continuation of one concrete
/// kind, such as a closure written in place, learns it here.
pub proof fn lemma_then_requires<M, T1, F, T2>(
    chain: Then<T1, F, T2, M>,
    model: M,
    state: (T1::State, T2::State),
) where T1: Task<M>, F: FnMut(&M, T1::Output) -> T2, T2: Task<M>
    ensures
        chain.can_build(model) <==> can_build_in_sequence(
            chain.first(),
            chain.continuation(),
            model,
        ),
        chain.can_rebuild(model, state) <==> can_rebuild_in_sequence(
            chain.first(),
            chain.continuation(),
            model,
            state,
        ),
{
}

/// As a stage, a chain is built and rebuilt exactly as it is in sequence. For
/// the callers of `lemma_then_requires`.
pub proof fn lemma_then_ensures<M, T1, F, T2>(
    chain: Then<T1, F, T2, M>,
    before: M,
    prior: (T1::State, T2::State),
    after: M,
    output: T2::Output,
    state: (T1::State, T2::State),
) where T1: Task<M>, F: FnMut(&M, T1::Output) -> T2, T2: Task<M>
    ensures
        chain.built(before, after, output, state) <==> built_in_sequence(
            chain.first(),
            chain.continuation(),
            before,
            after,
            output,
            state,
        ),
        chain.rebuilt(before, prior, after, output, state) <==> rebuilt_in_sequence(
            chain.first(),
            chain.continuation(),
            before,
            prior,
            after,
            output,
            state,
        ),
{
}

} // verus!
