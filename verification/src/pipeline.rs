//! What the two pipelines have in common: the events that they are fed, the
//! actions that they ask for, and the shape of a step.

use crate::config::{Config, ConfigView};
use crate::coordinator::LayerChange;
use crate::paths::{device_paths, DevicePaths, DevicePathsView};
use crate::process::{Command, CommandView, Outcome};
use crate::registry::RegistryView;
use crate::response::{response, HTTPResponse, ResponseView};
use vstd::prelude::*;

verus! {

/// What was found at a path.
#[derive(Clone, Copy, Debug, PartialEq, Eq, Structural)]
pub enum PathKind {
    /// Nothing, or nothing that could be read.
    Missing,
    /// A directory.
    Directory,
    /// Anything else.
    File,
}

/// What the outside world reports back to a pipeline.
#[derive(Clone, Copy, Debug, PartialEq, Eq, Structural)]
pub enum Event {
    /// The request has arrived.
    Requested,
    /// A path was looked at.
    Inspected(PathKind),
    /// Both mount points were created, or not both.
    DirsCreated(bool),
    /// A tool was run.
    Ran(Outcome),
    /// The union lock is now held.
    UnionLocked,
    /// The layer count was adjusted and the union lock given up.
    UnionReleased,
    /// Both mount points were removed, or not both.
    DirsRemoved(bool),
}

/// What a pipeline asks the outside world to do next.
#[derive(Debug, PartialEq, Eq)]
pub enum Action {
    /// Look at what is at the path.
    Inspect(String),
    /// Make sure that both directories exist.
    CreateDirs(String, String),
    /// Run the tool and wait for it to exit.
    Run(Command),
    /// Take the union lock, waiting for it if need be.
    LockUnion,
    /// Adjust the layer count, then give up the union lock.
    ReleaseUnion(LayerChange),
    /// Remove both directories.
    RemoveDirs(String, String),
    /// Answer the request, giving up the union lock if it is held.
    Reply(HTTPResponse),
}

/// An action, each string by its characters.
pub enum ActionView {
    Inspect(Seq<char>),
    CreateDirs(Seq<char>, Seq<char>),
    Run(CommandView),
    LockUnion,
    ReleaseUnion(LayerChange),
    RemoveDirs(Seq<char>, Seq<char>),
    Reply(ResponseView),
}

impl View for Action {
    type V = ActionView;

    open spec fn view(&self) -> ActionView {
        match self {
            Action::Inspect(path) => ActionView::Inspect(path@),
            Action::CreateDirs(first, second) => ActionView::CreateDirs(first@, second@),
            Action::Run(command) => ActionView::Run(command@),
            Action::LockUnion => ActionView::LockUnion,
            Action::ReleaseUnion(change) => ActionView::ReleaseUnion(*change),
            Action::RemoveDirs(first, second) => ActionView::RemoveDirs(first@, second@),
            Action::Reply(r) => ActionView::Reply(r@),
        }
    }
}

/// The text of the answer to an event that the pipeline's stage has no use
/// for.
pub const UNEXPECTED_EVENT: &'static str = "Unexpected event for this stage of the pipeline.";

/// The answer to an event that the pipeline's stage has no use for.
pub open spec fn unexpected_event() -> ResponseView {
    response(500, UNEXPECTED_EVENT@)
}

/// One request's way through its steps: the device it is about, and how far
/// it has come.
#[derive(Debug, PartialEq, Eq)]
pub struct Pipeline<'a, S> {
    pub config: &'a Config,
    pub name: String,
    pub paths: DevicePaths,
    pub stage: S,
}

/// A pipeline, each string by its characters.
pub struct PipelineView<S> {
    pub config: ConfigView,
    pub name: Seq<char>,
    pub paths: DevicePathsView,
    pub stage: S,
}

impl<S> PipelineView<S> {
    /// The same pipeline at another stage.
    pub open spec fn at(self, stage: S) -> PipelineView<S> {
        PipelineView { stage, ..self }
    }
}

/// The pipeline for the device `name` at the given stage.
pub open spec fn pipeline_at<S>(config: ConfigView, name: Seq<char>, stage: S) -> PipelineView<S> {
    PipelineView { config, name, paths: device_paths(config, name), stage }
}

impl<'a, S> View for Pipeline<'a, S> {
    type V = PipelineView<S>;

    open spec fn view(&self) -> PipelineView<S> {
        PipelineView {
            config: self.config@,
            name: self.name@,
            paths: self.paths@,
            stage: self.stage,
        }
    }
}

/// What one step of a pipeline leaves behind: the pipeline and the registry
/// after it, and the action it asks for.
pub struct Step<S> {
    pub pipeline: PipelineView<S>,
    pub registry: RegistryView,
    pub action: ActionView,
}

/// The step that moves the pipeline on to `stage`.
pub open spec fn advance<S>(
    p: PipelineView<S>,
    stage: S,
    registry: RegistryView,
    action: ActionView,
) -> Step<S> {
    Step { pipeline: p.at(stage), registry, action }
}

} // verus!
