//! The registry of mount state: which content paths are live layers of the
//! union, and which have a pipeline in flight.

use crate::string_set::{
    is_listing, set_contains, set_contents, set_insert, set_listing, set_new, set_remove,
};
use fnv::FnvHashSet;
use vstd::prelude::*;

verus! {

/// What a registry holds: the content paths that are live layers of the
/// union, and those with a pipeline in flight.
pub struct RegistryView {
    pub mounted: Set<Seq<char>>,
    pub changing: Set<Seq<char>>,
}

impl RegistryView {
    /// No content path is live and in flight at once, and both sets are finite.
    pub open spec fn wf(self) -> bool {
        &&& self.mounted.finite()
        &&& self.changing.finite()
        &&& self.mounted.disjoint(self.changing)
    }

    /// Neither live nor in flight.
    pub open spec fn idle(self, content: Seq<char>) -> bool {
        !self.mounted.contains(content) && !self.changing.contains(content)
    }

    /// The registry with `content` marked as in flight.
    pub open spec fn reserve(self, content: Seq<char>) -> RegistryView {
        RegistryView { mounted: self.mounted, changing: self.changing.insert(content) }
    }

    /// The registry with `content` moved from in flight to live.
    pub open spec fn promote(self, content: Seq<char>) -> RegistryView {
        RegistryView {
            mounted: self.mounted.insert(content),
            changing: self.changing.remove(content),
        }
    }

    /// The registry with `content` moved from live to in flight.
    pub open spec fn demote(self, content: Seq<char>) -> RegistryView {
        RegistryView {
            mounted: self.mounted.remove(content),
            changing: self.changing.insert(content),
        }
    }

    /// The registry with the in-flight mark of `content` taken away.
    pub open spec fn release(self, content: Seq<char>) -> RegistryView {
        RegistryView { mounted: self.mounted, changing: self.changing.remove(content) }
    }
}

/// The registry of mount state, keyed by content path.
#[derive(Debug)]
pub struct MountStatus {
    mounted: FnvHashSet<String>,
    changing: FnvHashSet<String>,
}

impl View for MountStatus {
    type V = RegistryView;

    closed spec fn view(&self) -> RegistryView {
        RegistryView {
            mounted: set_contents(self.mounted),
            changing: set_contents(self.changing),
        }
    }
}

/// What `try_reserve` found.
#[derive(Clone, Copy, Debug, PartialEq, Eq, Structural)]
pub enum Reservation {
    AlreadyMounted,
    InProgress,
    Reserved,
}

/// What `try_demote` found.
#[derive(Clone, Copy, Debug, PartialEq, Eq, Structural)]
pub enum Demotion {
    InProgress,
    NotMounted,
    Demoted,
}

/// What `try_reserve` answers on a registry.
pub open spec fn reservation_of(r: RegistryView, content: Seq<char>) -> Reservation {
    if r.mounted.contains(content) {
        Reservation::AlreadyMounted
    } else if r.changing.contains(content) {
        Reservation::InProgress
    } else {
        Reservation::Reserved
    }
}

/// What `try_demote` answers on a registry.
pub open spec fn demotion_of(r: RegistryView, content: Seq<char>) -> Demotion {
    if r.changing.contains(content) {
        Demotion::InProgress
    } else if !r.mounted.contains(content) {
        Demotion::NotMounted
    } else {
        Demotion::Demoted
    }
}

impl MountStatus {
    /// Holds of every registry: no content path is live and in flight at
    /// once.
    #[verifier::type_invariant]
    pub open spec fn inv(self) -> bool {
        self@.wf()
    }

    /// An empty registry.
    pub fn new() -> (status: Self)
        ensures
            status@.mounted == Set::<Seq<char>>::empty(),
            status@.changing == Set::<Seq<char>>::empty(),
            status@.wf(),
    {
        MountStatus { mounted: set_new(), changing: set_new() }
    }

    /// Whether `content` is a live layer.
    pub fn is_mounted(&self, content: &str) -> (found: bool)
        ensures
            found == self@.mounted.contains(content@),
    {
        set_contains(&self.mounted, content)
    }

    /// Whether `content` has a pipeline in flight.
    pub fn is_changing(&self, content: &str) -> (found: bool)
        ensures
            found == self@.changing.contains(content@),
    {
        set_contains(&self.changing, content)
    }

    /// Marks `content` as in flight if it is neither live nor in flight, and
    /// says which of the three it was.
    pub fn try_reserve(&mut self, content: &str) -> (found: Reservation)
        ensures
            found == reservation_of(old(self)@, content@),
            final(self)@ == (if found == Reservation::Reserved {
                old(self)@.reserve(content@)
            } else {
                old(self)@
            }),
            final(self)@.wf(),
    {
        proof {
            use_type_invariant(&*self);
        }
        if set_contains(&self.mounted, content) {
            return Reservation::AlreadyMounted;
        }
        if set_contains(&self.changing, content) {
            return Reservation::InProgress;
        }
        set_insert(&mut self.changing, content.to_owned());
        Reservation::Reserved
    }

    /// Moves `content` from in flight to live.
    pub fn promote_to_mounted(&mut self, content: &str)
        ensures
            final(self)@ == old(self)@.promote(content@),
            final(self)@.wf(),
    {
        proof {
            use_type_invariant(&*self);
        }
        set_remove(&mut self.changing, content);
        set_insert(&mut self.mounted, content.to_owned());
    }

    /// Moves `content` from live to in flight.
    pub fn demote_from_mounted(&mut self, content: &str)
        ensures
            final(self)@ == old(self)@.demote(content@),
            final(self)@.wf(),
    {
        proof {
            use_type_invariant(&*self);
        }
        set_remove(&mut self.mounted, content);
        set_insert(&mut self.changing, content.to_owned());
    }

    /// Demotes `content` if it is live and not in flight, and says which of
    /// the three cases held.
    pub fn try_demote(&mut self, content: &str) -> (found: Demotion)
        ensures
            found == demotion_of(old(self)@, content@),
            final(self)@ == (if found == Demotion::Demoted {
                old(self)@.demote(content@)
            } else {
                old(self)@
            }),
            final(self)@.wf(),
    {
        proof {
            use_type_invariant(&*self);
        }
        if set_contains(&self.changing, content) {
            return Demotion::InProgress;
        }
        if !set_contains(&self.mounted, content) {
            return Demotion::NotMounted;
        }
        self.demote_from_mounted(content);
        Demotion::Demoted
    }

    /// A copy of the live content paths, each once, in no particular order.
    pub fn snapshot(&self) -> (paths: Vec<String>)
        ensures
            is_listing(paths.deep_view(), self@.mounted),
    {
        set_listing(&self.mounted)
    }
}

/// Takes the in-flight mark of `key` away, whether or not it was set.
pub fn remove_changing(status: &mut MountStatus, key: &str)
    ensures
        final(status)@ == old(status)@.release(key@),
        final(status)@.wf(),
{
    proof {
        use_type_invariant(&*status);
    }
    set_remove(&mut status.changing, key);
}

} // verus!
