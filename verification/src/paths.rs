//! The paths that belong to a device, derived from its name.

use crate::config::{Config, ConfigView};
use vstd::prelude::*;

verus! {

/// The paths that belong to one device.
#[derive(Debug, PartialEq, Eq)]
pub struct DevicePaths {
    /// The raw device file.
    pub device: String,
    /// Where the archive adapter shows the archive's files.
    pub archive_mount: String,
    /// Where the transform filesystem shows the archive mount again.
    pub transform_mount: String,
    /// The directory that becomes a layer of the union; the registry knows a
    /// mount by this path.
    pub content: String,
}

/// The paths of a device, each by its characters.
pub struct DevicePathsView {
    pub device: Seq<char>,
    pub archive_mount: Seq<char>,
    pub transform_mount: Seq<char>,
    pub content: Seq<char>,
}

impl View for DevicePaths {
    type V = DevicePathsView;

    open spec fn view(&self) -> DevicePathsView {
        DevicePathsView {
            device: self.device@,
            archive_mount: self.archive_mount@,
            transform_mount: self.transform_mount@,
            content: self.content@,
        }
    }
}

/// The device file of `name`.
pub open spec fn device_path(config: ConfigView, name: Seq<char>) -> Seq<char> {
    config.device_root + name
}

/// The mount point of the archive adapter for `name`.
pub open spec fn archive_mount_point(config: ConfigView, name: Seq<char>) -> Seq<char> {
    config.scratch_root + name
}

/// The mount point of the transform filesystem for `name`.
pub open spec fn transform_mount_point(config: ConfigView, name: Seq<char>) -> Seq<char> {
    archive_mount_point(config, name) + ".fuzzy"@
}

/// The content directory of `name`.
pub open spec fn content_path(config: ConfigView, name: Seq<char>) -> Seq<char> {
    transform_mount_point(config, name) + "/content"@
}

/// All four paths of `name`.
pub open spec fn device_paths(config: ConfigView, name: Seq<char>) -> DevicePathsView {
    DevicePathsView {
        device: device_path(config, name),
        archive_mount: archive_mount_point(config, name),
        transform_mount: transform_mount_point(config, name),
        content: content_path(config, name),
    }
}

impl DevicePaths {
    /// Derives the paths of the device `name` from the configured roots.
    pub fn derive(config: &Config, name: &str) -> (paths: DevicePaths)
        ensures
            paths@ == device_paths(config@, name@),
    {
        let device = config.device_root.clone().concat(name);
        let archive_mount = config.scratch_root.clone().concat(name);
        let transform_mount = archive_mount.clone().concat(".fuzzy");
        let content = transform_mount.clone().concat("/content");
        DevicePaths { device, archive_mount, transform_mount, content }
    }
}

} // verus!
