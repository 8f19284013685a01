//! The engine of a small daemon that mounts archive files found on device
//! paths and composes them, over a fixed base directory, into one union
//! filesystem.
//!
//! A request to mount or unmount a device is a pipeline: a state machine that
//! is fed one event at a time and answers each with the action to carry out
//! next. The program around the library carries the actions out (it looks at
//! paths, runs the external tools, waits for the union lock) and reports
//! back; the library keeps the registry of mount state, decides on every
//! step, and undoes what a failed request had done so far.
//!
//! `mount` and `unmount` hold the two state machines, each beside the
//! function that says what a step does; `laws` and `system` hold what is
//! proved of them.

pub mod cleanup;
pub mod config;
pub mod coordinator;
pub mod devname;
pub mod laws;
pub mod layers;
pub mod mount;
pub mod paths;
pub mod pipeline;
pub mod process;
pub mod registry;
pub mod response;
pub mod shared;
pub mod string_set;
pub mod system;
pub mod unmount;

pub use cleanup::cleanup_mount;
pub use config::Config;
pub use coordinator::UnionCoordinator;
pub use devname::handle_devname;
pub use mount::{mount_device, MountPipeline};
pub use pipeline::{Action, Event};
pub use process::handle_subprocess;
pub use registry::{remove_changing, MountStatus};
pub use response::HTTPResponse;
pub use shared::SharedMountStatus;
pub use unmount::{umount_device, UnmountPipeline};
