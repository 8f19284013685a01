//! Taking down a device's own two mounts and their mount points: the last
//! part of every unmount, and what a mount falls back to when the content
//! directory is not there.

use crate::config::{Config, ConfigView};
use crate::paths::{DevicePaths, DevicePathsView};
use crate::pipeline::{unexpected_event, Action, ActionView, Event, UNEXPECTED_EVENT};
use crate::process::{failure_response, handle_subprocess, unmount_command, Command, Outcome};
use crate::registry::{remove_changing, MountStatus, RegistryView};
use crate::response::{response, HTTPResponse, ResponseView};
use vstd::prelude::*;

verus! {

/// How far the taking down of a device's own mounts has come.
#[derive(Clone, Copy, Debug, PartialEq, Eq, Structural)]
pub enum CleanupStage {
    /// The transform filesystem is being unmounted.
    UnmountingTransform,
    /// The archive is being unmounted.
    UnmountingArchive,
    /// The two mount points are being removed.
    RemovingDirectories,
}

/// What a step of the cleanup came to.
#[derive(Debug, PartialEq, Eq)]
pub enum CleanupResult {
    /// The cleanup goes on at the stage, with the action.
    Continue(CleanupStage, Action),
    /// The cleanup failed, and the request is answered with this.
    Failed(HTTPResponse),
    /// The mounts are gone and the mount points removed.
    Done,
}

/// The result of a cleanup step, each string by its characters.
pub enum CleanupResultView {
    Continue(CleanupStage, ActionView),
    Failed(ResponseView),
    Done,
}

impl View for CleanupResult {
    type V = CleanupResultView;

    open spec fn view(&self) -> CleanupResultView {
        match self {
            CleanupResult::Continue(stage, action) => CleanupResultView::Continue(*stage, action@),
            CleanupResult::Failed(r) => CleanupResultView::Failed(r@),
            CleanupResult::Done => CleanupResultView::Done,
        }
    }
}

/// The action that a cleanup begins with: unmounting the transform
/// filesystem.
pub open spec fn cleanup_entry(config: ConfigView, paths: DevicePathsView) -> ActionView {
    ActionView::Run(unmount_command(config, paths.transform_mount))
}

/// What a cleanup step does to the registry, and what it comes to. Every
/// step that does not go on takes the in-flight mark of the content path
/// away.
pub open spec fn cleanup_step(
    stage: CleanupStage,
    config: ConfigView,
    paths: DevicePathsView,
    r: RegistryView,
    event: Event,
) -> (RegistryView, CleanupResultView) {
    let released = r.release(paths.content);
    match (stage, event) {
        (CleanupStage::UnmountingTransform, Event::Ran(Outcome::Success)) => (
            r,
            CleanupResultView::Continue(
                CleanupStage::UnmountingArchive,
                ActionView::Run(unmount_command(config, paths.archive_mount)),
            ),
        ),
        (CleanupStage::UnmountingArchive, Event::Ran(Outcome::Success)) => (
            r,
            CleanupResultView::Continue(
                CleanupStage::RemovingDirectories,
                ActionView::RemoveDirs(paths.transform_mount, paths.archive_mount),
            ),
        ),
        (CleanupStage::UnmountingTransform, Event::Ran(outcome)) => (
            released,
            CleanupResultView::Failed(failure_response(outcome)),
        ),
        (CleanupStage::UnmountingArchive, Event::Ran(outcome)) => (
            released,
            CleanupResultView::Failed(failure_response(outcome)),
        ),
        (CleanupStage::RemovingDirectories, Event::DirsRemoved(true)) => (
            released,
            CleanupResultView::Done,
        ),
        (CleanupStage::RemovingDirectories, Event::DirsRemoved(false)) => (
            released,
            CleanupResultView::Failed(response(500, "Could not remove mountpoints."@)),
        ),
        _ => (released, CleanupResultView::Failed(unexpected_event())),
    }
}

/// The action that a cleanup begins with.
pub fn cleanup_start(config: &Config, paths: &DevicePaths) -> (action: Action)
    ensures
        action@ == cleanup_entry(config@, paths@),
{
    Action::Run(Command::unmount(config, &paths.transform_mount))
}

/// One step of taking down a device's own mounts: the transform filesystem,
/// then the archive, then both mount points. However it ends, the in-flight
/// mark of the content path is taken away.
pub fn cleanup_mount(
    stage: CleanupStage,
    config: &Config,
    paths: &DevicePaths,
    status: &mut MountStatus,
    event: Event,
) -> (result: CleanupResult)
    ensures
        (final(status)@, result@) == cleanup_step(stage, config@, paths@, old(status)@, event),
        final(status)@.wf(),
{
    match (stage, event) {
        (CleanupStage::UnmountingTransform, Event::Ran(outcome)) => {
            match handle_subprocess(status, outcome, paths.content.as_str()) {
                Some(failure) => CleanupResult::Failed(failure),
                None => CleanupResult::Continue(
                    CleanupStage::UnmountingArchive,
                    Action::Run(Command::unmount(config, &paths.archive_mount)),
                ),
            }
        },
        (CleanupStage::UnmountingArchive, Event::Ran(outcome)) => {
            match handle_subprocess(status, outcome, paths.content.as_str()) {
                Some(failure) => CleanupResult::Failed(failure),
                None => CleanupResult::Continue(
                    CleanupStage::RemovingDirectories,
                    Action::RemoveDirs(paths.transform_mount.clone(), paths.archive_mount.clone()),
                ),
            }
        },
        (CleanupStage::RemovingDirectories, Event::DirsRemoved(removed)) => {
            remove_changing(status, paths.content.as_str());
            if removed {
                CleanupResult::Done
            } else {
                CleanupResult::Failed(HTTPResponse::new(500, "Could not remove mountpoints."))
            }
        },
        _ => {
            remove_changing(status, paths.content.as_str());
            CleanupResult::Failed(HTTPResponse::new(500, UNEXPECTED_EVENT))
        },
    }
}

} // verus!
