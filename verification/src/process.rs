//! The external tools: how each is called, how a run can end, and what
//! becomes of a request when one fails.

use crate::config::{Config, ConfigView};
use crate::layers::{join, join_layers};
use crate::paths::{DevicePaths, DevicePathsView};
use crate::registry::{remove_changing, MountStatus};
use crate::response::{response, HTTPResponse, ResponseView};
use vstd::prelude::*;

verus! {

/// How the run of an external tool ended.
#[derive(Clone, Copy, Debug, PartialEq, Eq, Structural)]
pub enum Outcome {
    /// It ran and exited with success.
    Success,
    /// It could not be started.
    SpawnFailed,
    /// It started, but its exit could not be read.
    WaitFailed,
    /// It ran and exited with failure.
    NonZeroExit,
}

/// An external tool and the arguments to run it with.
#[derive(Debug, PartialEq, Eq)]
pub struct Command {
    pub program: String,
    pub args: Vec<String>,
}

/// A command, each string by its characters.
pub struct CommandView {
    pub program: Seq<char>,
    pub args: Seq<Seq<char>>,
}

impl View for Command {
    type V = CommandView;

    open spec fn view(&self) -> CommandView {
        CommandView { program: self.program@, args: self.args.deep_view() }
    }
}

/// Mounts the device's archive at its archive mount point.
pub open spec fn archive_mount_command(config: ConfigView, paths: DevicePathsView) -> CommandView {
    CommandView {
        program: config.archive_tool,
        args: seq![paths.device, paths.archive_mount, "-o"@, "allow_other"@],
    }
}

/// Mounts the transform filesystem over the archive mount.
pub open spec fn transform_mount_command(
    config: ConfigView,
    paths: DevicePathsView,
) -> CommandView {
    CommandView {
        program: config.transform_tool,
        args: seq![paths.archive_mount, paths.transform_mount, "-o"@, "allow_other"@],
    }
}

/// Unmounts what is mounted at `target`.
pub open spec fn unmount_command(config: ConfigView, target: Seq<char>) -> CommandView {
    CommandView { program: config.unmount_tool, args: seq![target] }
}

/// Detaches the union filesystem lazily.
pub open spec fn union_detach_command(config: ConfigView) -> CommandView {
    CommandView { program: config.unmount_tool, args: seq!["-l"@, config.union_mountpoint] }
}

/// Mounts the union filesystem over `layers`, in that order.
pub open spec fn union_attach_command(config: ConfigView, layers: Seq<Seq<char>>) -> CommandView {
    CommandView {
        program: config.union_tool,
        args: seq![join_layers(layers), config.union_mountpoint, "-o"@, "allow_other"@],
    }
}

/// The answer to a request whose tool run ended in `outcome`, which is not
/// `Success`.
pub open spec fn failure_response(outcome: Outcome) -> ResponseView {
    match outcome {
        Outcome::SpawnFailed => response(500, "Could not spawn subprocess."@),
        Outcome::WaitFailed => response(500, "Could not read subprocess status."@),
        _ => response(500, "Subprocess exited with an unsuccessful status."@),
    }
}

impl Command {
    fn with_mount_options(program: &String, from: &String, to: &String) -> (cmd: Command)
        ensures
            cmd@ == (CommandView {
                program: program@,
                args: seq![from@, to@, "-o"@, "allow_other"@],
            }),
    {
        let mut args: Vec<String> = Vec::new();
        args.push(from.clone());
        args.push(to.clone());
        args.push("-o".to_owned());
        args.push("allow_other".to_owned());
        assert(args.deep_view() =~= seq![from@, to@, "-o"@, "allow_other"@]);
        Command { program: program.clone(), args }
    }

    /// The command that mounts the device's archive.
    pub fn archive_mount(config: &Config, paths: &DevicePaths) -> (cmd: Command)
        ensures
            cmd@ == archive_mount_command(config@, paths@),
    {
        Command::with_mount_options(&config.archive_tool, &paths.device, &paths.archive_mount)
    }

    /// The command that mounts the transform filesystem.
    pub fn transform_mount(config: &Config, paths: &DevicePaths) -> (cmd: Command)
        ensures
            cmd@ == transform_mount_command(config@, paths@),
    {
        Command::with_mount_options(
            &config.transform_tool,
            &paths.archive_mount,
            &paths.transform_mount,
        )
    }

    /// The command that unmounts `target`.
    pub fn unmount(config: &Config, target: &String) -> (cmd: Command)
        ensures
            cmd@ == unmount_command(config@, target@),
    {
        let mut args: Vec<String> = Vec::new();
        args.push(target.clone());
        assert(args.deep_view() =~= seq![target@]);
        Command { program: config.unmount_tool.clone(), args }
    }

    /// The command that detaches the union filesystem lazily.
    pub fn union_detach(config: &Config) -> (cmd: Command)
        ensures
            cmd@ == union_detach_command(config@),
    {
        let mut args: Vec<String> = Vec::new();
        args.push("-l".to_owned());
        args.push(config.union_mountpoint.clone());
        assert(args.deep_view() =~= seq!["-l"@, config.union_mountpoint@]);
        Command { program: config.unmount_tool.clone(), args }
    }

    /// The command that mounts the union filesystem over `layers`.
    pub fn union_attach(config: &Config, layers: &Vec<String>) -> (cmd: Command)
        ensures
            cmd@ == union_attach_command(config@, layers.deep_view()),
    {
        let mut args: Vec<String> = Vec::new();
        args.push(join(layers));
        args.push(config.union_mountpoint.clone());
        args.push("-o".to_owned());
        args.push("allow_other".to_owned());
        assert(args.deep_view() =~= seq![
            join_layers(layers.deep_view()),
            config.union_mountpoint@,
            "-o"@,
            "allow_other"@,
        ]);
        Command { program: config.union_tool.clone(), args }
    }
}

/// Settles the run of a tool: on any outcome but `Success` the in-flight mark
/// of `failure_key` is taken away and the failure answer is returned.
pub fn handle_subprocess(
    status: &mut MountStatus,
    outcome: Outcome,
    failure_key: &str,
) -> (failure: Option<HTTPResponse>)
    ensures
        match failure {
            None => outcome == Outcome::Success && final(status)@ == old(status)@,
            Some(r) => {
                &&& outcome != Outcome::Success
                &&& r@ == failure_response(outcome)
                &&& final(status)@ == old(status)@.release(failure_key@)
            },
        },
        final(status)@.wf(),
{
    proof {
        use_type_invariant(&*status);
    }
    match outcome {
        Outcome::Success => None,
        Outcome::SpawnFailed => {
            remove_changing(status, failure_key);
            Some(HTTPResponse::new(500, "Could not spawn subprocess."))
        },
        Outcome::WaitFailed => {
            remove_changing(status, failure_key);
            Some(HTTPResponse::new(500, "Could not read subprocess status."))
        },
        Outcome::NonZeroExit => {
            remove_changing(status, failure_key);
            Some(HTTPResponse::new(500, "Subprocess exited with an unsuccessful status."))
        },
    }
}

} // verus!
