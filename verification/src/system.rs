//! Many requests on one registry: that the in-flight mark of a content path
//! never has two owners, and never none.

use crate::mount::{mount_step, MountStage};
use crate::pipeline::{Event, PipelineView};
use crate::registry::RegistryView;
use crate::unmount::{unmount_step, UnmountStage};
use vstd::prelude::*;

verus! {

/// A request on its way.
pub enum Request {
    Mount(PipelineView<MountStage>),
    Unmount(PipelineView<UnmountStage>),
}

impl Request {
    /// The content path that the request is about.
    pub open spec fn content(self) -> Seq<char> {
        match self {
            Request::Mount(p) => p.paths.content,
            Request::Unmount(p) => p.paths.content,
        }
    }

    /// Whether the request owns the in-flight mark of its content path.
    pub open spec fn holds_mark(self) -> bool {
        match self {
            Request::Mount(p) => p.stage.holds_mark(),
            Request::Unmount(p) => p.stage.holds_mark(),
        }
    }

    /// Whether the request has not taken a step yet.
    pub open spec fn fresh(self) -> bool {
        match self {
            Request::Mount(p) => p.stage == MountStage::NotStarted,
            Request::Unmount(p) => p.stage == UnmountStage::NotStarted,
        }
    }

    /// The request and the registry after the request's step on `event`.
    pub open spec fn step(
        self,
        r: RegistryView,
        event: Event,
        listing: Seq<Seq<char>>,
    ) -> (Request, RegistryView) {
        match self {
            Request::Mount(p) => {
                let step = mount_step(p, r, event, listing);
                (Request::Mount(step.pipeline), step.registry)
            },
            Request::Unmount(p) => {
                let step = unmount_step(p, r, event, listing);
                (Request::Unmount(step.pipeline), step.registry)
            },
        }
    }
}

/// The registry together with the requests that work on it.
pub struct System {
    pub registry: RegistryView,
    pub requests: Seq<Request>,
}

impl System {
    /// A system with an empty registry and no request.
    pub open spec fn initial() -> System {
        System {
            registry: RegistryView { mounted: Set::empty(), changing: Set::empty() },
            requests: Seq::empty(),
        }
    }

    /// The system after a request has arrived.
    pub open spec fn with_arrival(self, request: Request) -> System {
        System { registry: self.registry, requests: self.requests.push(request) }
    }

    /// The system after its request number `i` has left.
    pub open spec fn with_departure(self, i: int) -> System {
        System { registry: self.registry, requests: self.requests.remove(i) }
    }

    /// The system after its request number `i` has taken a step on `event`,
    /// with the lock on the registry held throughout the step.
    pub open spec fn after_step(self, i: int, event: Event, listing: Seq<Seq<char>>) -> System {
        let (request, registry) = self.requests[i].step(self.registry, event, listing);
        System { registry, requests: self.requests.update(i, request) }
    }

    /// Whether request number `i` owns the in-flight mark of `content`.
    pub open spec fn owns(self, i: int, content: Seq<char>) -> bool {
        &&& 0 <= i < self.requests.len()
        &&& self.requests[i].holds_mark()
        &&& self.requests[i].content() == content
    }

    /// Every in-flight mark has one owner, and no more: a content path is in
    /// `changing` if and only if a request owns its mark, no two requests own
    /// the mark of one path, and no path is live and in flight at once.
    pub open spec fn exclusive(self) -> bool {
        &&& self.registry.wf()
        &&& forall|i: int, content: Seq<char>| #[trigger]
            self.owns(i, content) ==> self.registry.changing.contains(content)
        &&& forall|content: Seq<char>| #[trigger]
            self.registry.changing.contains(content) ==> exists|i: int| self.owns(i, content)
        &&& forall|i: int, j: int, content: Seq<char>|
            #[trigger] self.owns(i, content) && #[trigger] self.owns(j, content) ==> i == j
    }
}

/// What a step does to the in-flight mark of the request's own content path:
/// the mark is taken only from a path that has none, and it is gone when the
/// request gives it up. A step that neither takes nor gives up the mark
/// leaves the registry as it was, and no step changes the standing of
/// another path.
pub proof fn lemma_step_and_mark(
    request: Request,
    r: RegistryView,
    event: Event,
    listing: Seq<Seq<char>>,
)
    ensures
        ({
            let (next, registry) = request.step(r, event, listing);
            let content = request.content();
            &&& next.content() == content
            &&& r.wf() ==> registry.wf()
            &&& !request.holds_mark() && next.holds_mark() ==> !r.changing.contains(content)
                && registry.changing.contains(content)
            &&& request.holds_mark() && !next.holds_mark() ==> !registry.changing.contains(
                content,
            )
            &&& request.holds_mark() == next.holds_mark() ==> registry == r
            &&& forall|other: Seq<char>|
                other != content ==> (#[trigger] registry.changing.contains(other))
                    == r.changing.contains(other)
            &&& forall|other: Seq<char>|
                other != content ==> (#[trigger] registry.mounted.contains(other))
                    == r.mounted.contains(other)
        }),
{
}

/// The system with no request and an empty registry is exclusive.
pub proof fn lemma_initial_is_exclusive()
    ensures
        System::initial().exclusive(),
{
}

/// The arrival of a request that has not taken a step keeps the system
/// exclusive.
pub proof fn lemma_arrival_keeps_exclusive(system: System, request: Request)
    requires
        system.exclusive(),
        request.fresh(),
    ensures
        system.with_arrival(request).exclusive(),
{
    let after = system.with_arrival(request);
    assert forall|i: int, content: Seq<char>| #[trigger] after.owns(i, content) implies system.owns(
        i,
        content,
    ) by {
        assert(i < system.requests.len());
    }
    assert forall|content: Seq<char>| #[trigger]
        after.registry.changing.contains(content) implies exists|i: int|
        after.owns(i, content) by {
        let i = choose|i: int| system.owns(i, content);
        assert(after.owns(i, content));
    }
}

/// The departure of a request that owns no mark, as every request does that
/// was answered, keeps the system exclusive.
pub proof fn lemma_departure_keeps_exclusive(system: System, i: int)
    requires
        system.exclusive(),
        0 <= i < system.requests.len(),
        !system.requests[i].holds_mark(),
    ensures
        system.with_departure(i).exclusive(),
{
    let after = system.with_departure(i);
    assert forall|j: int, content: Seq<char>| #[trigger] after.owns(j, content) implies system.owns(
        if j < i {
            j
        } else {
            j + 1
        },
        content,
    ) by {}
    assert forall|content: Seq<char>| #[trigger]
        after.registry.changing.contains(content) implies exists|j: int|
        after.owns(j, content) by {
        let j = choose|j: int| system.owns(j, content);
        if j < i {
            assert(after.owns(j, content));
        } else {
            assert(after.owns(j - 1, content));
        }
    }
    assert forall|j: int, k: int, content: Seq<char>| #[trigger]
        after.owns(j, content) && #[trigger] after.owns(k, content) implies j == k by {
        let before_j = if j < i {
            j
        } else {
            j + 1
        };
        let before_k = if k < i {
            k
        } else {
            k + 1
        };
        assert(system.owns(before_j, content) && system.owns(before_k, content));
    }
}

/// Whichever request takes a step, on whatever event, the system stays
/// exclusive: two requests never own the mark of one content path, and no
/// mark is left behind without an owner.
pub proof fn lemma_step_keeps_exclusive(
    system: System,
    i: int,
    event: Event,
    listing: Seq<Seq<char>>,
)
    requires
        system.exclusive(),
        0 <= i < system.requests.len(),
    ensures
        system.after_step(i, event, listing).exclusive(),
{
    let after = system.after_step(i, event, listing);
    let request = system.requests[i];
    let own = request.content();
    lemma_step_and_mark(request, system.registry, event, listing);
    assert forall|j: int, content: Seq<char>| j != i implies after.owns(j, content) == system.owns(
        j,
        content,
    ) by {}
    assert forall|content: Seq<char>| content != own implies !after.owns(i, content)
        && !system.owns(i, content) by {}
    assert(system.owns(i, own) == request.holds_mark());
    assert(after.owns(i, own) == after.requests[i].holds_mark());
    assert forall|j: int, content: Seq<char>| #[trigger]
        after.owns(j, content) implies after.registry.changing.contains(content) by {
        if j != i {
            assert(system.owns(j, content));
            if content == own {
                if system.owns(i, own) {
                    assert(i == j);
                }
                if after.owns(i, own) {
                    assert(!system.registry.changing.contains(own));
                }
            }
        }
    }
    assert forall|content: Seq<char>| #[trigger]
        after.registry.changing.contains(content) implies exists|j: int|
        after.owns(j, content) by {
        if content != own {
            let j = choose|j: int| system.owns(j, content);
            assert(after.owns(j, content));
        } else if after.owns(i, own) {
        } else {
            assert(!system.owns(i, own));
            let j = choose|j: int| system.owns(j, own);
            assert(after.owns(j, own));
        }
    }
    assert forall|j: int, k: int, content: Seq<char>| #[trigger]
        after.owns(j, content) && #[trigger] after.owns(k, content) implies j == k by {
        if j != k {
            if j != i && k != i {
                assert(system.owns(j, content) && system.owns(k, content));
            } else {
                let other = if j == i {
                    k
                } else {
                    j
                };
                assert(system.owns(other, own));
                if system.owns(i, own) {
                    assert(i == other);
                } else {
                    assert(!system.registry.changing.contains(own));
                }
            }
        }
    }
}

/// While a request owns the mark of a content path, no step of another
/// request changes the standing of that path: it stays out of `mounted` and
/// in `changing` until its owner moves it.
pub proof fn lemma_owner_is_undisturbed(
    system: System,
    owner: int,
    content: Seq<char>,
    i: int,
    event: Event,
    listing: Seq<Seq<char>>,
)
    requires
        system.exclusive(),
        system.owns(owner, content),
        0 <= i < system.requests.len(),
        i != owner,
    ensures
        system.after_step(i, event, listing).owns(owner, content),
        system.after_step(i, event, listing).registry.changing.contains(content),
        !system.after_step(i, event, listing).registry.mounted.contains(content),
        !system.registry.mounted.contains(content),
{
    lemma_step_and_mark(system.requests[i], system.registry, event, listing);
    lemma_step_keeps_exclusive(system, i, event, listing);
    let after = system.after_step(i, event, listing);
    assert(after.owns(owner, content));
    if system.requests[i].content() == content {
        if system.owns(i, content) {
            assert(i == owner);
        }
    }
}

} // verus!
