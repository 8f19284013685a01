//! The unmount pipeline: from a live layer of the union back to nothing.

use crate::cleanup::{
    cleanup_entry, cleanup_mount, cleanup_start, cleanup_step, CleanupResult, CleanupResultView,
    CleanupStage,
};
use crate::config::Config;
use crate::coordinator::LayerChange;
use crate::layers::{build_layer_list, layer_list};
use crate::paths::DevicePaths;
use crate::pipeline::{
    advance, pipeline_at, unexpected_event, Action, ActionView, Event, Pipeline, PipelineView,
    Step, UNEXPECTED_EVENT,
};
use crate::process::{
    failure_response, handle_subprocess, union_attach_command, union_detach_command, Command,
    Outcome,
};
use crate::registry::{demotion_of, remove_changing, Demotion, MountStatus, RegistryView};
use crate::response::{response, HTTPResponse, ResponseView};
use crate::string_set::{is_listing, lemma_listing_exists};
use vstd::prelude::*;

verus! {

/// How far an unmount request has come. Each stage but the first and the last
/// waits for the event that reports on the action asked for.
#[derive(Clone, Copy, Debug, PartialEq, Eq, Structural)]
pub enum UnmountStage {
    /// Nothing was done yet.
    NotStarted,
    /// The content path is no longer live; the union lock is being waited
    /// for.
    AwaitingUnion,
    /// The union lock is held; the union is being detached.
    DetachingUnion,
    /// The union is being mounted again, without the layer.
    AttachingUnion,
    /// The union lock is being given up.
    ReleasingUnion,
    /// The device's own two mounts are being taken down.
    CleaningUp(CleanupStage),
    /// The request was answered.
    Finished,
}

impl UnmountStage {
    /// Whether a pipeline at this stage owns the in-flight mark of its
    /// content path.
    pub open spec fn holds_mark(self) -> bool {
        match self {
            UnmountStage::NotStarted => false,
            UnmountStage::Finished => false,
            _ => true,
        }
    }
}

/// An unmount request on its way.
pub type UnmountPipeline<'a> = Pipeline<'a, UnmountStage>;

/// The step that answers the request.
pub open spec fn unmount_finish(
    p: PipelineView<UnmountStage>,
    registry: RegistryView,
    answer: ResponseView,
) -> Step<UnmountStage> {
    Step { pipeline: p.at(UnmountStage::Finished), registry, action: ActionView::Reply(answer) }
}

/// The step taken on an event that the stage has no use for: the request
/// fails, and the in-flight mark is given up if the pipeline owns it.
pub open spec fn unmount_misfit(
    p: PipelineView<UnmountStage>,
    r: RegistryView,
) -> Step<UnmountStage> {
    unmount_finish(
        p,
        if p.stage.holds_mark() {
            r.release(p.paths.content)
        } else {
            r
        },
        unexpected_event(),
    )
}

/// The step taken when a tool has run: on success `next`, else the failure
/// answer, with the in-flight mark given up.
pub open spec fn unmount_after_run(
    p: PipelineView<UnmountStage>,
    r: RegistryView,
    outcome: Outcome,
    next: Step<UnmountStage>,
) -> Step<UnmountStage> {
    if outcome == Outcome::Success {
        next
    } else {
        unmount_finish(p, r.release(p.paths.content), failure_response(outcome))
    }
}

/// One step of an unmount request: what the pipeline at `p`, with the
/// registry at `r`, does on `event`. `listing` is the order in which the live
/// content paths come out of the registry; only the remount of the union
/// reads it.
pub open spec fn unmount_step(
    p: PipelineView<UnmountStage>,
    r: RegistryView,
    event: Event,
    listing: Seq<Seq<char>>,
) -> Step<UnmountStage> {
    let content = p.paths.content;
    match (p.stage, event) {
        (UnmountStage::NotStarted, Event::Requested) => match demotion_of(r, content) {
            Demotion::InProgress => unmount_finish(
                p,
                r,
                response(409, "Mount operation already in progress."@),
            ),
            Demotion::NotMounted => unmount_finish(
                p,
                r,
                response(200, "Device is not mounted."@),
            ),
            Demotion::Demoted => advance(
                p,
                UnmountStage::AwaitingUnion,
                r.demote(content),
                ActionView::LockUnion,
            ),
        },
        (UnmountStage::AwaitingUnion, Event::UnionLocked) => advance(
            p,
            UnmountStage::DetachingUnion,
            r,
            ActionView::Run(union_detach_command(p.config)),
        ),
        (UnmountStage::DetachingUnion, Event::Ran(outcome)) => unmount_after_run(
            p,
            r,
            outcome,
            advance(
                p,
                UnmountStage::AttachingUnion,
                r,
                ActionView::Run(
                    union_attach_command(p.config, layer_list(p.config.base_dir, None, listing)),
                ),
            ),
        ),
        (UnmountStage::AttachingUnion, Event::Ran(outcome)) => unmount_after_run(
            p,
            r,
            outcome,
            advance(
                p,
                UnmountStage::ReleasingUnion,
                r,
                ActionView::ReleaseUnion(LayerChange::Removed),
            ),
        ),
        (UnmountStage::ReleasingUnion, Event::UnionReleased) => advance(
            p,
            UnmountStage::CleaningUp(CleanupStage::UnmountingTransform),
            r,
            cleanup_entry(p.config, p.paths),
        ),
        (UnmountStage::CleaningUp(stage), _) => {
            let (registry, result) = cleanup_step(stage, p.config, p.paths, r, event);
            match result {
                CleanupResultView::Continue(next, action) => advance(
                    p,
                    UnmountStage::CleaningUp(next),
                    registry,
                    action,
                ),
                CleanupResultView::Failed(answer) => unmount_finish(p, registry, answer),
                CleanupResultView::Done => unmount_finish(p, registry, response(201, "OK"@)),
            }
        },
        _ => unmount_misfit(p, r),
    }
}

impl<'a> Pipeline<'a, UnmountStage> {
    /// An unmount request for the device `name`, not yet started.
    pub fn new(config: &'a Config, name: String) -> (pipeline: Self)
        ensures
            pipeline@ == pipeline_at(config@, name@, UnmountStage::NotStarted),
    {
        let paths = DevicePaths::derive(config, name.as_str());
        Pipeline { config, name, paths, stage: UnmountStage::NotStarted }
    }

    fn finish(&mut self, answer: HTTPResponse) -> (action: Action)
        ensures
            final(self)@ == old(self)@.at(UnmountStage::Finished),
            action@ == ActionView::Reply(answer@),
    {
        self.stage = UnmountStage::Finished;
        Action::Reply(answer)
    }

    fn go(&mut self, stage: UnmountStage, next: Action) -> (action: Action)
        ensures
            final(self)@ == old(self)@.at(stage),
            action == next,
    {
        self.stage = stage;
        next
    }

    fn holds_mark(&self) -> (held: bool)
        ensures
            held == self@.stage.holds_mark(),
    {
        match self.stage {
            UnmountStage::NotStarted => false,
            UnmountStage::Finished => false,
            _ => true,
        }
    }

    fn misfit(&mut self, status: &mut MountStatus) -> (action: Action)
        ensures
            (Step { pipeline: final(self)@, registry: final(status)@, action: action@ })
                == unmount_misfit(old(self)@, old(status)@),
            final(status)@.wf(),
    {
        proof {
            use_type_invariant(&*status);
        }
        if self.holds_mark() {
            remove_changing(status, self.paths.content.as_str());
        }
        self.finish(HTTPResponse::new(500, UNEXPECTED_EVENT))
    }
}

/// Takes an unmount request one step further: given the event that reports on
/// the action asked for last, it updates the registry, moves the pipeline to
/// its next stage and says what is to be done next. The request is over when
/// the action is a `Reply`.
pub fn umount_device(
    pipeline: &mut UnmountPipeline,
    status: &mut MountStatus,
    event: Event,
) -> (action: Action)
    ensures
        exists|listing: Seq<Seq<char>>| #[trigger]
            is_listing(listing, old(status)@.mounted) && (Step {
                pipeline: final(pipeline)@,
                registry: final(status)@,
                action: action@,
            }) == unmount_step(old(pipeline)@, old(status)@, event, listing),
        final(status)@.wf(),
{
    let ghost mut listing: Seq<Seq<char>>;
    proof {
        use_type_invariant(&*status);
        lemma_listing_exists(status@.mounted);
        listing = choose|listing: Seq<Seq<char>>| is_listing(listing, status@.mounted);
    }
    let stage = pipeline.stage;
    let action = match (stage, event) {
        (UnmountStage::NotStarted, Event::Requested) => {
            match status.try_demote(pipeline.paths.content.as_str()) {
                Demotion::InProgress => pipeline.finish(
                    HTTPResponse::new(409, "Mount operation already in progress."),
                ),
                Demotion::NotMounted => pipeline.finish(
                    HTTPResponse::new(200, "Device is not mounted."),
                ),
                Demotion::Demoted => pipeline.go(UnmountStage::AwaitingUnion, Action::LockUnion),
            }
        },
        (UnmountStage::AwaitingUnion, Event::UnionLocked) => {
            let next = Action::Run(Command::union_detach(pipeline.config));
            pipeline.go(UnmountStage::DetachingUnion, next)
        },
        (UnmountStage::DetachingUnion, Event::Ran(outcome)) => {
            match handle_subprocess(status, outcome, pipeline.paths.content.as_str()) {
                Some(failure) => pipeline.finish(failure),
                None => {
                    let mounted = status.snapshot();
                    proof {
                        listing = mounted.deep_view();
                    }
                    let layers = build_layer_list(
                        pipeline.config.base_dir.as_str(),
                        None,
                        mounted,
                    );
                    let next = Action::Run(Command::union_attach(pipeline.config, &layers));
                    pipeline.go(UnmountStage::AttachingUnion, next)
                },
            }
        },
        (UnmountStage::AttachingUnion, Event::Ran(outcome)) => {
            match handle_subprocess(status, outcome, pipeline.paths.content.as_str()) {
                Some(failure) => pipeline.finish(failure),
                None => pipeline.go(
                    UnmountStage::ReleasingUnion,
                    Action::ReleaseUnion(LayerChange::Removed),
                ),
            }
        },
        (UnmountStage::ReleasingUnion, Event::UnionReleased) => {
            let next = cleanup_start(pipeline.config, &pipeline.paths);
            pipeline.go(UnmountStage::CleaningUp(CleanupStage::UnmountingTransform), next)
        },
        (UnmountStage::CleaningUp(cleanup), _) => {
            match cleanup_mount(cleanup, pipeline.config, &pipeline.paths, status, event) {
                CleanupResult::Continue(next, action) => pipeline.go(
                    UnmountStage::CleaningUp(next),
                    action,
                ),
                CleanupResult::Failed(failure) => pipeline.finish(failure),
                CleanupResult::Done => pipeline.finish(HTTPResponse::new(201, "OK")),
            }
        },
        _ => pipeline.misfit(status),
    };
    assert(is_listing(listing, old(status)@.mounted) && (Step {
        pipeline: pipeline@,
        registry: status@,
        action: action@,
    }) == unmount_step(old(pipeline)@, old(status)@, event, listing));
    action
}

} // verus!
