//! Entity handles.

use vstd::prelude::*;

verus! {

/// An opaque identifier. It carries no data of its own: everything known about an
/// entity lives in the components stored under its index.
#[derive(Clone, Copy, Debug, PartialEq, Eq, Hash, Structural)]
pub struct Entity {
    pub index: usize,
}

impl Entity {
    pub fn new(index: usize) -> (e: Entity)
        ensures
            e.index == index,
    {
        Entity { index }
    }

    /// Position of this entity's components in the store.
    pub fn slot(&self) -> (i: usize)
        ensures
            i == self.index,
    {
        self.index
    }
}

} // verus!
