//! The registry behind a lock, for requests that run side by side.

use crate::mount::{mount_device, mount_step, MountPipeline};
use crate::pipeline::{Action, Event};
use crate::registry::{MountStatus, RegistryView};
use crate::string_set::is_listing;
use crate::unmount::{umount_device, unmount_step, UnmountPipeline};
use parking_lot::{Mutex, MutexGuard};
use vstd::prelude::*;

verus! {

/// The raw lock of `parking_lot`, carried opaquely inside its mutex.
#[verifier::external_type_specification]
#[verifier::external_body]
pub struct ExRawMutex(parking_lot::RawMutex);

/// The mutex of `lock_api`, which `parking_lot` builds its own on. What it
/// guards may change whenever the lock is free, so nothing is said of it.
#[verifier::external_type_specification]
#[verifier::external_body]
#[verifier::reject_recursive_types(R)]
#[verifier::reject_recursive_types(T)]
pub struct ExMutex<R, T: ?Sized>(parking_lot::lock_api::Mutex<R, T>);

/// The guard of a held registry lock; the lock is given up when it is
/// dropped.
#[verifier::external_body]
struct StatusGuard<'a> {
    guard: MutexGuard<'a, MountStatus>,
}

/// `Mutex::new`: a free mutex that guards `status`.
#[verifier::external_body]
fn guard_status(status: MountStatus) -> Mutex<MountStatus> {
    Mutex::new(status)
}

/// `Mutex::lock`: waits until the lock is free and takes it. Which registry
/// is found behind it depends on what the other holders left there. The lock
/// is not reentrant; this library takes it for one step at a time and never
/// while it holds it.
#[verifier::external_body]
fn lock<'a>(mutex: &'a Mutex<MountStatus>) -> StatusGuard<'a> {
    StatusGuard { guard: mutex.lock() }
}

/// `MutexGuard::deref_mut`: the registry behind a held lock.
#[verifier::external_body]
fn locked<'a, 'g>(held: &'g mut StatusGuard<'a>) -> &'g mut MountStatus {
    &mut *held.guard
}

/// A registry that many requests share. Each step of a pipeline holds its
/// lock from beginning to end, and no longer: the lock is never held while
/// an action is carried out.
pub struct SharedMountStatus {
    status: Mutex<MountStatus>,
}

impl SharedMountStatus {
    /// Puts `status` behind a lock, to be shared. No contract speaks of what
    /// a shared registry holds: it may change whenever the lock is free.
    pub fn new(status: MountStatus) -> SharedMountStatus {
        SharedMountStatus { status: guard_status(status) }
    }

    /// Takes a mount request one step further, on the registry as it is found
    /// behind the lock.
    pub fn mount_device(&self, pipeline: &mut MountPipeline, event: Event) -> (action: Action)
        ensures
            exists|found: RegistryView, listing: Seq<Seq<char>>|
                {
                    &&& found.wf()
                    &&& #[trigger] is_listing(listing, found.mounted)
                    &&& final(pipeline)@ == mount_step(
                        old(pipeline)@,
                        found,
                        event,
                        listing,
                    ).pipeline
                    &&& action@ == mount_step(old(pipeline)@, found, event, listing).action
                },
    {
        let mut guard = lock(&self.status);
        let status = locked(&mut guard);
        proof {
            use_type_invariant(&*status);
        }
        mount_device(pipeline, status, event)
    }

    /// Takes an unmount request one step further, on the registry as it is
    /// found behind the lock.
    pub fn umount_device(&self, pipeline: &mut UnmountPipeline, event: Event) -> (action: Action)
        ensures
            exists|found: RegistryView, listing: Seq<Seq<char>>|
                {
                    &&& found.wf()
                    &&& #[trigger] is_listing(listing, found.mounted)
                    &&& final(pipeline)@ == unmount_step(
                        old(pipeline)@,
                        found,
                        event,
                        listing,
                    ).pipeline
                    &&& action@ == unmount_step(old(pipeline)@, found, event, listing).action
                },
    {
        let mut guard = lock(&self.status);
        let status = locked(&mut guard);
        proof {
            use_type_invariant(&*status);
        }
        umount_device(pipeline, status, event)
    }
}

} // verus!
