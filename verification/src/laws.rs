//! What holds of every composition.

use crate::shape::Shape;
use crate::task::{shape_of, Task};
use crate::then::Then;
use vstd::prelude::*;

verus! {

/// A chain of `n` leaves has exactly `n` leaf nodes.
pub proof fn lemma_chain_leaves(n: nat)
    requires
        n >= 1,
    ensures
        Shape::chain(n).leaves() == n,
    decreases n,
{
    reveal_with_fuel(Shape::leaves, 2);
    if n > 1 {
        lemma_chain_leaves((n - 1) as nat);
    }
}

/// The state of two stages in sequence is the pair of their state trees, the
/// first stage's on the left, and has the leaves of both.
pub proof fn lemma_then_shape<M, T1, F, T2>(
    chain: Then<T1, F, T2, M>,
    state: (T1::State, T2::State),
) where T1: Task<M>, F: FnMut(&M, T1::Output) -> T2, T2: Task<M>
    ensures
        shape_of(chain, state) == Shape::Pair(
            Box::new(T1::shape(state.0)),
            Box::new(T2::shape(state.1)),
        ),
        shape_of(chain, state).leaves() == T1::shape(state.0).leaves() + T2::shape(
            state.1,
        ).leaves(),
{
}

/// Sequencing one more leaf after a chain of `n` leaves gives the chain of
/// `n + 1` leaves: the state tree stays nested to the left in the order of
/// composition and gains exactly one leaf node. This holds of every state of
/// the composition, so of the one that `build` returns.
pub proof fn lemma_chain_shape<M, T1, F, T2>(
    chain: Then<T1, F, T2, M>,
    state: (T1::State, T2::State),
    n: nat,
) where T1: Task<M>, F: FnMut(&M, T1::Output) -> T2, T2: Task<M>
    requires
        n >= 1,
        T1::shape(state.0) == Shape::chain(n),
        T2::shape(state.1) == Shape::Leaf,
    ensures
        shape_of(chain, state) == Shape::chain(n + 1),
        shape_of(chain, state).leaves() == n + 1,
{
    lemma_chain_leaves(n + 1);
}

/// Whatever model and upstream output the continuation `f` is called on, the
/// stage it hands back is `leaf`.
pub open spec fn always_returns<M, I, T, F: FnMut(&M, I) -> T>(f: F, leaf: T) -> bool {
    forall|model: M, input: I, next: T| #[trigger]
        call_ensures(f, (&model, input), next) ==> next == leaf
}

/// Where the continuation always hands back the same `leaf`, building the
/// chain builds the first stage and then `leaf` itself on what the first stage
/// left of the model.
pub proof fn lemma_fixed_leaf_built<M, T1, F, T2>(
    chain: Then<T1, F, T2, M>,
    leaf: T2,
    before: M,
    after: M,
    output: T2::Output,
    state: (T1::State, T2::State),
) where T1: Task<M>, F: FnMut(&M, T1::Output) -> T2, T2: Task<M>
    requires
        always_returns(chain.continuation(), leaf),
        chain.built(before, after, output, state),
    ensures
        exists|mid: M, out1: T1::Output|
            {
                &&& #[trigger] chain.first().built(before, mid, out1, state.0)
                &&& leaf.built(mid, after, output, state.1)
            },
{
    let (mid, out1, next) = choose|mid: M, out1: T1::Output, next: T2|
        {
            &&& chain.first().built(before, mid, out1, state.0)
            &&& #[trigger] call_ensures(chain.continuation(), (&mid, out1), next)
            &&& next.built(mid, after, output, state.1)
        };
    assert(next == leaf);
    assert(chain.first().built(before, mid, out1, state.0));
}

/// Where the continuation always hands back the same `leaf`, one tick of the
/// chain is one tick of the first stage on the left state and then one tick of
/// `leaf` itself on the right state: composition does not alter the leaf's own
/// recurrence.
pub proof fn lemma_fixed_leaf_rebuilt<M, T1, F, T2>(
    chain: Then<T1, F, T2, M>,
    leaf: T2,
    before: M,
    prior: (T1::State, T2::State),
    after: M,
    output: T2::Output,
    state: (T1::State, T2::State),
) where T1: Task<M>, F: FnMut(&M, T1::Output) -> T2, T2: Task<M>
    requires
        always_returns(chain.continuation(), leaf),
        chain.rebuilt(before, prior, after, output, state),
    ensures
        exists|mid: M, out1: T1::Output|
            {
                &&& #[trigger] chain.first().rebuilt(before, prior.0, mid, out1, state.0)
                &&& leaf.rebuilt(mid, prior.1, after, output, state.1)
            },
{
    let (mid, out1, next) = choose|mid: M, out1: T1::Output, next: T2|
        {
            &&& chain.first().rebuilt(before, prior.0, mid, out1, state.0)
            &&& #[trigger] call_ensures(chain.continuation(), (&mid, out1), next)
            &&& next.rebuilt(mid, prior.1, after, output, state.1)
        };
    assert(next == leaf);
    assert(chain.first().rebuilt(before, prior.0, mid, out1, state.0));
}

/// A chain that ends in the unit stage does to the model and to the left
/// state what its first stage does, and nothing more: the unit stage is the
/// neutral last element of a composition.
pub proof fn lemma_unit_last<M, T1, F>(
    chain: Then<T1, F, (), M>,
    before: M,
    prior: (T1::State, ()),
    after: M,
    state: (T1::State, ()),
) where T1: Task<M>, F: FnMut(&M, T1::Output) -> ()
    ensures
        chain.built(before, after, (), state) ==> exists|out1: T1::Output| #[trigger]
            chain.first().built(before, after, out1, state.0),
        chain.rebuilt(before, prior, after, (), state) ==> exists|out1: T1::Output| #[trigger]
            chain.first().rebuilt(before, prior.0, after, out1, state.0),
{
    assert(always_returns(chain.continuation(), ()));
    if chain.built(before, after, (), state) {
        lemma_fixed_leaf_built(chain, (), before, after, (), state);
    }
    if chain.rebuilt(before, prior, after, (), state) {
        lemma_fixed_leaf_rebuilt(chain, (), before, prior, after, (), state);
    }
}

/// A run of ticks of one stage. Tick `i` finds the model as `before[i]` and
/// the state as `states[i]`, leaves them as `after[i]` and `states[i + 1]`,
/// and returns `outputs[i]`.
pub open spec fn rebuilt_run<M, T: Task<M>>(
    task: T,
    before: Seq<M>,
    after: Seq<M>,
    states: Seq<T::State>,
    outputs: Seq<T::Output>,
) -> bool {
    &&& before.len() == outputs.len()
    &&& after.len() == outputs.len()
    &&& states.len() == outputs.len() + 1
    &&& forall|i: int|
        0 <= i < outputs.len() ==> task.rebuilt(
            before[i],
            states[i],
            after[i],
            #[trigger] outputs[i],
            states[i + 1],
        )
}

/// The left halves of a run of paired states.
pub open spec fn lefts<A, B>(states: Seq<(A, B)>) -> Seq<A> {
    Seq::new(states.len(), |i: int| states[i].0)
}

/// The right halves of a run of paired states.
pub open spec fn rights<A, B>(states: Seq<(A, B)>) -> Seq<B> {
    Seq::new(states.len(), |i: int| states[i].1)
}

/// Where the continuation always hands back the same `leaf`, a run of ticks of
/// the chain is a run of the first stage on the left states together with a
/// run of `leaf` itself on the right states, with the chain's outputs. Ticked
/// inside the chain, the leaf goes through the states and outputs that it goes
/// through when ticked on its own from the models the first stage left.
pub proof fn lemma_fixed_leaf_run<M, T1, F, T2>(
    chain: Then<T1, F, T2, M>,
    leaf: T2,
    before: Seq<M>,
    after: Seq<M>,
    states: Seq<(T1::State, T2::State)>,
    outputs: Seq<T2::Output>,
) where T1: Task<M>, F: FnMut(&M, T1::Output) -> T2, T2: Task<M>
    requires
        always_returns(chain.continuation(), leaf),
        rebuilt_run(chain, before, after, states, outputs),
    ensures
        exists|mids: Seq<M>, outs1: Seq<T1::Output>|
            {
                &&& #[trigger] rebuilt_run(chain.first(), before, mids, lefts(states), outs1)
                &&& rebuilt_run(leaf, mids, after, rights(states), outputs)
            },
{
    let n = outputs.len();
    let pick = |i: int|
        choose|mid: M, out1: T1::Output|
            {
                &&& #[trigger] chain.first().rebuilt(
                    before[i],
                    states[i].0,
                    mid,
                    out1,
                    states[i + 1].0,
                )
                &&& leaf.rebuilt(mid, states[i].1, after[i], outputs[i], states[i + 1].1)
            };
    let mids = Seq::new(n, |i: int| pick(i).0);
    let outs1 = Seq::new(n, |i: int| pick(i).1);
    assert forall|i: int| 0 <= i < n implies {
        &&& chain.first().rebuilt(
            before[i],
            lefts(states)[i],
            mids[i],
            #[trigger] outs1[i],
            lefts(states)[i + 1],
        )
        &&& leaf.rebuilt(mids[i], rights(states)[i], after[i], outputs[i], rights(states)[i + 1])
    } by {
        assert(chain.rebuilt(before[i], states[i], after[i], outputs[i], states[i + 1]));
        lemma_fixed_leaf_rebuilt(
            chain,
            leaf,
            before[i],
            states[i],
            after[i],
            outputs[i],
            states[i + 1],
        );
    }
    assert forall|i: int| 0 <= i < n implies leaf.rebuilt(
        mids[i],
        rights(states)[i],
        after[i],
        #[trigger] outputs[i],
        rights(states)[i + 1],
    ) by {
        assert(outs1[i] == pick(i).1);
    }
    assert(rebuilt_run(chain.first(), before, mids, lefts(states), outs1));
    assert(rebuilt_run(leaf, mids, after, rights(states), outputs));
}

} // verus!
