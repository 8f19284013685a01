//! The datum that the union lock guards: a count of the layers that were
//! added to the union and not removed again.

use vstd::prelude::*;

verus! {

/// How a pipeline changes the number of layers of the union.
#[derive(Clone, Copy, Debug, PartialEq, Eq, Structural)]
pub enum LayerChange {
    Added,
    Removed,
}

/// The union lock's own datum: how many layers were added to the union and
/// not removed again.
#[derive(Debug)]
pub struct UnionCoordinator {
    layers: i32,
}

impl UnionCoordinator {
    /// The number of layers on record.
    pub closed spec fn count(&self) -> int {
        self.layers as int
    }

    /// A coordinator with no layer on record.
    pub fn new() -> (coordinator: UnionCoordinator)
        ensures
            coordinator.count() == 0,
    {
        UnionCoordinator { layers: 0 }
    }

    /// The number of layers on record.
    pub fn layers(&self) -> (layers: i32)
        ensures
            layers == self.count(),
    {
        self.layers
    }

    /// Whether `change` can be recorded without leaving the counter's range.
    pub fn can_record(&self, change: LayerChange) -> (fits: bool)
        ensures
            fits == self.fits(change),
    {
        match change {
            LayerChange::Added => self.layers < i32::MAX,
            LayerChange::Removed => self.layers > i32::MIN,
        }
    }

    /// Whether `change` can be recorded without leaving the counter's range.
    pub open spec fn fits(&self, change: LayerChange) -> bool {
        match change {
            LayerChange::Added => self.count() < i32::MAX,
            LayerChange::Removed => self.count() > i32::MIN,
        }
    }

    /// Records that a layer was added to the union, or removed from it.
    pub fn record(&mut self, change: LayerChange)
        requires
            old(self).fits(change),
        ensures
            final(self).count() == (match change {
                LayerChange::Added => old(self).count() + 1,
                LayerChange::Removed => old(self).count() - 1,
            }),
    {
        match change {
            LayerChange::Added => {
                self.layers = self.layers + 1;
            },
            LayerChange::Removed => {
                self.layers = self.layers - 1;
            },
        }
    }
}

} // verus!
