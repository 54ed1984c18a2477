//! The shape of a state tree.

use vstd::prelude::*;

verus! {

/// How the state nodes of a composition are arranged. A stage without
/// sub-stages owns one node; two stages in sequence own the pair of their
/// trees, the earlier stage on the left.
pub enum Shape {
    Leaf,
    Pair(Box<Shape>, Box<Shape>),
}

impl Shape {
    /// The number of leaf nodes in the tree.
    pub open spec fn leaves(self) -> nat
        decreases self,
    {
        match self {
            Shape::Leaf => 1,
            Shape::Pair(left, right) => left.leaves() + right.leaves(),
        }
    }

    /// The tree of a chain of `n` leaves composed from left to right: each
    /// further leaf becomes the right child of a new root whose left child is
    /// the chain so far. A chain has at least one leaf, so `chain(0)` is the
    /// single leaf too.
    pub open spec fn chain(n: nat) -> Shape
        decreases n,
    {
        if n <= 1 {
            Shape::Leaf
        } else {
            Shape::Pair(Box::new(Shape::chain((n - 1) as nat)), Box::new(Shape::Leaf))
        }
    }
}

} // verus!
