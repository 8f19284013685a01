//! The mount pipeline: from a device file to a live layer of the union.

use crate::cleanup::{
    cleanup_entry, cleanup_mount, cleanup_start, cleanup_step, CleanupResult, CleanupResultView,
    CleanupStage,
};
use crate::config::Config;
use crate::coordinator::LayerChange;
use crate::layers::{build_layer_list, layer_list};
use crate::paths::DevicePaths;
use crate::pipeline::{
    advance, pipeline_at, unexpected_event, Action, ActionView, Event, PathKind, Pipeline,
    PipelineView, Step, UNEXPECTED_EVENT,
};
use crate::process::{
    archive_mount_command, failure_response, handle_subprocess, transform_mount_command,
    union_attach_command, union_detach_command, Command, Outcome,
};
use crate::registry::{remove_changing, reservation_of, MountStatus, RegistryView, Reservation};
use crate::response::{response, HTTPResponse, ResponseView};
use crate::string_set::{is_listing, lemma_listing_exists};
use vstd::prelude::*;

verus! {

/// How far a mount request has come. Each stage but the first and the last
/// waits for the event that reports on the action asked for.
#[derive(Clone, Copy, Debug, PartialEq, Eq, Structural)]
pub enum MountStage {
    /// Nothing was done yet.
    NotStarted,
    /// The device file is being looked at.
    CheckingDevice,
    /// The content path is reserved; the two mount points are being made.
    CreatingDirectories,
    /// The archive adapter is running.
    MountingArchive,
    /// The transform filesystem is being mounted.
    MountingTransform,
    /// The content directory is being looked for.
    CheckingContent,
    /// There was no content directory; the two mounts are being taken down.
    CleaningUp(CleanupStage),
    /// The union lock is being waited for.
    AwaitingUnion,
    /// The union lock is held; the union is being detached.
    DetachingUnion,
    /// The union is being mounted again, with the new layer.
    AttachingUnion,
    /// The content path is live; the union lock is being given up.
    ReleasingUnion,
    /// The request was answered.
    Finished,
}

impl MountStage {
    /// Whether a pipeline at this stage owns the in-flight mark of its
    /// content path.
    pub open spec fn holds_mark(self) -> bool {
        match self {
            MountStage::NotStarted => false,
            MountStage::CheckingDevice => false,
            MountStage::ReleasingUnion => false,
            MountStage::Finished => false,
            _ => true,
        }
    }
}

/// A mount request on its way.
pub type MountPipeline<'a> = Pipeline<'a, MountStage>;

/// The step that answers the request.
pub open spec fn mount_finish(
    p: PipelineView<MountStage>,
    registry: RegistryView,
    answer: ResponseView,
) -> Step<MountStage> {
    Step { pipeline: p.at(MountStage::Finished), registry, action: ActionView::Reply(answer) }
}

/// The step taken on an event that the stage has no use for: the request
/// fails, and the in-flight mark is given up if the pipeline owns it.
pub open spec fn mount_misfit(p: PipelineView<MountStage>, r: RegistryView) -> Step<MountStage> {
    mount_finish(
        p,
        if p.stage.holds_mark() {
            r.release(p.paths.content)
        } else {
            r
        },
        unexpected_event(),
    )
}

/// The step taken when a tool has run: on success `next`, else the failure
/// answer, with the in-flight mark given up.
pub open spec fn mount_after_run(
    p: PipelineView<MountStage>,
    r: RegistryView,
    outcome: Outcome,
    next: Step<MountStage>,
) -> Step<MountStage> {
    if outcome == Outcome::Success {
        next
    } else {
        mount_finish(p, r.release(p.paths.content), failure_response(outcome))
    }
}

/// One step of a mount request: what the pipeline at `p`, with the registry
/// at `r`, does on `event`. `listing` is the order in which the live content
/// paths come out of the registry; only the remount of the union reads it.
pub open spec fn mount_step(
    p: PipelineView<MountStage>,
    r: RegistryView,
    event: Event,
    listing: Seq<Seq<char>>,
) -> Step<MountStage> {
    let content = p.paths.content;
    match (p.stage, event) {
        (MountStage::NotStarted, Event::Requested) => advance(
            p,
            MountStage::CheckingDevice,
            r,
            ActionView::Inspect(p.paths.device),
        ),
        (MountStage::CheckingDevice, Event::Inspected(PathKind::Missing)) => mount_finish(
            p,
            r,
            response(400, "Requested device doesn't exist: "@ + p.name),
        ),
        (MountStage::CheckingDevice, Event::Inspected(PathKind::Directory)) => mount_finish(
            p,
            r,
            response(400, "Requested device is a directory : "@ + p.name),
        ),
        (MountStage::CheckingDevice, Event::Inspected(PathKind::File)) => match reservation_of(
            r,
            content,
        ) {
            Reservation::AlreadyMounted => mount_finish(
                p,
                r,
                response(200, "Device is already mounted."@),
            ),
            Reservation::InProgress => mount_finish(
                p,
                r,
                response(409, "Mount operation already in progress."@),
            ),
            Reservation::Reserved => advance(
                p,
                MountStage::CreatingDirectories,
                r.reserve(content),
                ActionView::CreateDirs(p.paths.archive_mount, p.paths.transform_mount),
            ),
        },
        (MountStage::CreatingDirectories, Event::DirsCreated(true)) => advance(
            p,
            MountStage::MountingArchive,
            r,
            ActionView::Run(archive_mount_command(p.config, p.paths)),
        ),
        (MountStage::CreatingDirectories, Event::DirsCreated(false)) => mount_finish(
            p,
            r.release(content),
            response(500, "Could not create mountpoints."@),
        ),
        (MountStage::MountingArchive, Event::Ran(outcome)) => mount_after_run(
            p,
            r,
            outcome,
            advance(
                p,
                MountStage::MountingTransform,
                r,
                ActionView::Run(transform_mount_command(p.config, p.paths)),
            ),
        ),
        (MountStage::MountingTransform, Event::Ran(outcome)) => mount_after_run(
            p,
            r,
            outcome,
            advance(p, MountStage::CheckingContent, r, ActionView::Inspect(content)),
        ),
        (MountStage::CheckingContent, Event::Inspected(PathKind::Directory)) => advance(
            p,
            MountStage::AwaitingUnion,
            r,
            ActionView::LockUnion,
        ),
        (MountStage::CheckingContent, Event::Inspected(_)) => advance(
            p,
            MountStage::CleaningUp(CleanupStage::UnmountingTransform),
            r,
            cleanup_entry(p.config, p.paths),
        ),
        (MountStage::CleaningUp(stage), _) => {
            let (registry, result) = cleanup_step(stage, p.config, p.paths, r, event);
            match result {
                CleanupResultView::Continue(next, action) => advance(
                    p,
                    MountStage::CleaningUp(next),
                    registry,
                    action,
                ),
                CleanupResultView::Failed(answer) => mount_finish(p, registry, answer),
                CleanupResultView::Done => mount_finish(
                    p,
                    registry,
                    response(500, "No content folder."@),
                ),
            }
        },
        (MountStage::AwaitingUnion, Event::UnionLocked) => advance(
            p,
            MountStage::DetachingUnion,
            r,
            ActionView::Run(union_detach_command(p.config)),
        ),
        (MountStage::DetachingUnion, Event::Ran(outcome)) => mount_after_run(
            p,
            r,
            outcome,
            advance(
                p,
                MountStage::AttachingUnion,
                r,
                ActionView::Run(
                    union_attach_command(
                        p.config,
                        layer_list(p.config.base_dir, Some(content), listing),
                    ),
                ),
            ),
        ),
        (MountStage::AttachingUnion, Event::Ran(outcome)) => mount_after_run(
            p,
            r,
            outcome,
            advance(
                p,
                MountStage::ReleasingUnion,
                r.promote(content),
                ActionView::ReleaseUnion(LayerChange::Added),
            ),
        ),
        (MountStage::ReleasingUnion, Event::UnionReleased) => mount_finish(
            p,
            r,
            response(201, "OK"@),
        ),
        _ => mount_misfit(p, r),
    }
}

impl<'a> Pipeline<'a, MountStage> {
    /// A mount request for the device `name`, not yet started.
    pub fn new(config: &'a Config, name: String) -> (pipeline: Self)
        ensures
            pipeline@ == pipeline_at(config@, name@, MountStage::NotStarted),
    {
        let paths = DevicePaths::derive(config, name.as_str());
        Pipeline { config, name, paths, stage: MountStage::NotStarted }
    }

    fn finish(&mut self, answer: HTTPResponse) -> (action: Action)
        ensures
            final(self)@ == old(self)@.at(MountStage::Finished),
            action@ == ActionView::Reply(answer@),
    {
        self.stage = MountStage::Finished;
        Action::Reply(answer)
    }

    fn go(&mut self, stage: MountStage, next: Action) -> (action: Action)
        ensures
            final(self)@ == old(self)@.at(stage),
            action == next,
    {
        self.stage = stage;
        next
    }

    fn holds_mark(&self) -> (held: bool)
        ensures
            held == self@.stage.holds_mark(),
    {
        match self.stage {
            MountStage::NotStarted => false,
            MountStage::CheckingDevice => false,
            MountStage::ReleasingUnion => false,
            MountStage::Finished => false,
            _ => true,
        }
    }

    fn misfit(&mut self, status: &mut MountStatus) -> (action: Action)
        ensures
            (Step { pipeline: final(self)@, registry: final(status)@, action: action@ })
                == mount_misfit(old(self)@, old(status)@),
            final(status)@.wf(),
    {
        proof {
            use_type_invariant(&*status);
        }
        if self.holds_mark() {
            remove_changing(status, self.paths.content.as_str());
        }
        self.finish(HTTPResponse::new(500, UNEXPECTED_EVENT))
    }
}

/// Takes a mount request one step further: given the event that reports on
/// the action asked for last, it updates the registry, moves the pipeline to
/// its next stage and says what is to be done next. The request is over when
/// the action is a `Reply`.
pub fn mount_device(
    pipeline: &mut MountPipeline,
    status: &mut MountStatus,
    event: Event,
) -> (action: Action)
    ensures
        exists|listing: Seq<Seq<char>>| #[trigger]
            is_listing(listing, old(status)@.mounted) && (Step {
                pipeline: final(pipeline)@,
                registry: final(status)@,
                action: action@,
            }) == mount_step(old(pipeline)@, old(status)@, event, listing),
        final(status)@.wf(),
{
    let ghost mut listing: Seq<Seq<char>>;
    proof {
        use_type_invariant(&*status);
        lemma_listing_exists(status@.mounted);
        listing = choose|listing: Seq<Seq<char>>| is_listing(listing, status@.mounted);
    }
    let stage = pipeline.stage;
    let action = match (stage, event) {
        (MountStage::NotStarted, Event::Requested) => {
            let device = pipeline.paths.device.clone();
            pipeline.go(MountStage::CheckingDevice, Action::Inspect(device))
        },
        (MountStage::CheckingDevice, Event::Inspected(PathKind::Missing)) => {
            let answer = HTTPResponse::with_detail(
                400,
                "Requested device doesn't exist: ",
                pipeline.name.as_str(),
            );
            pipeline.finish(answer)
        },
        (MountStage::CheckingDevice, Event::Inspected(PathKind::Directory)) => {
            let answer = HTTPResponse::with_detail(
                400,
                "Requested device is a directory : ",
                pipeline.name.as_str(),
            );
            pipeline.finish(answer)
        },
        (MountStage::CheckingDevice, Event::Inspected(PathKind::File)) => {
            match status.try_reserve(pipeline.paths.content.as_str()) {
                Reservation::AlreadyMounted => pipeline.finish(
                    HTTPResponse::new(200, "Device is already mounted."),
                ),
                Reservation::InProgress => pipeline.finish(
                    HTTPResponse::new(409, "Mount operation already in progress."),
                ),
                Reservation::Reserved => {
                    let next = Action::CreateDirs(
                        pipeline.paths.archive_mount.clone(),
                        pipeline.paths.transform_mount.clone(),
                    );
                    pipeline.go(MountStage::CreatingDirectories, next)
                },
            }
        },
        (MountStage::CreatingDirectories, Event::DirsCreated(created)) => {
            if created {
                let next = Action::Run(Command::archive_mount(pipeline.config, &pipeline.paths));
                pipeline.go(MountStage::MountingArchive, next)
            } else {
                remove_changing(status, pipeline.paths.content.as_str());
                pipeline.finish(HTTPResponse::new(500, "Could not create mountpoints."))
            }
        },
        (MountStage::MountingArchive, Event::Ran(outcome)) => {
            match handle_subprocess(status, outcome, pipeline.paths.content.as_str()) {
                Some(failure) => pipeline.finish(failure),
                None => {
                    let next = Action::Run(
                        Command::transform_mount(pipeline.config, &pipeline.paths),
                    );
                    pipeline.go(MountStage::MountingTransform, next)
                },
            }
        },
        (MountStage::MountingTransform, Event::Ran(outcome)) => {
            match handle_subprocess(status, outcome, pipeline.paths.content.as_str()) {
                Some(failure) => pipeline.finish(failure),
                None => {
                    let next = Action::Inspect(pipeline.paths.content.clone());
                    pipeline.go(MountStage::CheckingContent, next)
                },
            }
        },
        (MountStage::CheckingContent, Event::Inspected(kind)) => {
            match kind {
                PathKind::Directory => pipeline.go(MountStage::AwaitingUnion, Action::LockUnion),
                _ => {
                    let next = cleanup_start(pipeline.config, &pipeline.paths);
                    pipeline.go(MountStage::CleaningUp(CleanupStage::UnmountingTransform), next)
                },
            }
        },
        (MountStage::CleaningUp(cleanup), _) => {
            match cleanup_mount(cleanup, pipeline.config, &pipeline.paths, status, event) {
                CleanupResult::Continue(next, action) => pipeline.go(
                    MountStage::CleaningUp(next),
                    action,
                ),
                CleanupResult::Failed(failure) => pipeline.finish(failure),
                CleanupResult::Done => pipeline.finish(
                    HTTPResponse::new(500, "No content folder."),
                ),
            }
        },
        (MountStage::AwaitingUnion, Event::UnionLocked) => {
            let next = Action::Run(Command::union_detach(pipeline.config));
            pipeline.go(MountStage::DetachingUnion, next)
        },
        (MountStage::DetachingUnion, Event::Ran(outcome)) => {
            match handle_subprocess(status, outcome, pipeline.paths.content.as_str()) {
                Some(failure) => pipeline.finish(failure),
                None => {
                    let mounted = status.snapshot();
                    proof {
                        listing = mounted.deep_view();
                    }
                    let layers = build_layer_list(
                        pipeline.config.base_dir.as_str(),
                        Some(pipeline.paths.content.as_str()),
                        mounted,
                    );
                    let next = Action::Run(Command::union_attach(pipeline.config, &layers));
                    pipeline.go(MountStage::AttachingUnion, next)
                },
            }
        },
        (MountStage::AttachingUnion, Event::Ran(outcome)) => {
            match handle_subprocess(status, outcome, pipeline.paths.content.as_str()) {
                Some(failure) => pipeline.finish(failure),
                None => {
                    status.promote_to_mounted(pipeline.paths.content.as_str());
                    pipeline.go(
                        MountStage::ReleasingUnion,
                        Action::ReleaseUnion(LayerChange::Added),
                    )
                },
            }
        },
        (MountStage::ReleasingUnion, Event::UnionReleased) => pipeline.finish(
            HTTPResponse::new(201, "OK"),
        ),
        _ => pipeline.misfit(status),
    };
    assert(is_listing(listing, old(status)@.mounted) && (Step {
        pipeline: pipeline@,
        registry: status@,
        action: action@,
    }) == mount_step(old(pipeline)@, old(status)@, event, listing));
    action
}

} // verus!
