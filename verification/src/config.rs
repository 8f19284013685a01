//! The directories and tools that the pipelines work with.

use vstd::prelude::*;

verus! {

/// Where devices are looked up by default.
pub const DEV_LOCATION: &'static str = "/dev/";

/// Where devices are looked up inside a container.
pub const DOCKER_DEV_LOCATION: &'static str = "/mnt/docker/";

/// Under which directory the per-device mount points are made.
pub const SCRATCH_ROOT: &'static str = "/tmp/";

/// Where the union filesystem is mounted.
pub const UNIONFS_MOUNTPT: &'static str = "/var/www/localhost/htdocs";

/// The directory that is always the first layer of the union.
pub const BASE_DIR: &'static str = "/root/base";

/// The archive adapter.
pub const FUSE_ARCHIVE: &'static str = "/usr/local/bin/fuse-archive";

/// The transform filesystem.
pub const FUZZYFS: &'static str = "/usr/local/bin/fuzzyfs";

/// The unmount utility.
pub const UMOUNT: &'static str = "/bin/umount";

/// The union filesystem.
pub const UNIONFS: &'static str = "/usr/bin/unionfs";

/// The directories and tools that the pipelines work with.
#[derive(Debug, PartialEq, Eq)]
pub struct Config {
    pub device_root: String,
    pub scratch_root: String,
    pub base_dir: String,
    pub union_mountpoint: String,
    pub archive_tool: String,
    pub transform_tool: String,
    pub union_tool: String,
    pub unmount_tool: String,
}

/// A configuration, each path by its characters.
pub struct ConfigView {
    pub device_root: Seq<char>,
    pub scratch_root: Seq<char>,
    pub base_dir: Seq<char>,
    pub union_mountpoint: Seq<char>,
    pub archive_tool: Seq<char>,
    pub transform_tool: Seq<char>,
    pub union_tool: Seq<char>,
    pub unmount_tool: Seq<char>,
}

impl View for Config {
    type V = ConfigView;

    open spec fn view(&self) -> ConfigView {
        ConfigView {
            device_root: self.device_root@,
            scratch_root: self.scratch_root@,
            base_dir: self.base_dir@,
            union_mountpoint: self.union_mountpoint@,
            archive_tool: self.archive_tool@,
            transform_tool: self.transform_tool@,
            union_tool: self.union_tool@,
            unmount_tool: self.unmount_tool@,
        }
    }
}

/// The configuration of a plain host, with devices under `device_root`.
pub open spec fn host_config(device_root: Seq<char>) -> ConfigView {
    ConfigView {
        device_root,
        scratch_root: SCRATCH_ROOT@,
        base_dir: BASE_DIR@,
        union_mountpoint: UNIONFS_MOUNTPT@,
        archive_tool: FUSE_ARCHIVE@,
        transform_tool: FUZZYFS@,
        union_tool: UNIONFS@,
        unmount_tool: UMOUNT@,
    }
}

impl Config {
    /// The stock paths, with devices looked up under `device_root`.
    pub fn with_device_root(device_root: &str) -> (config: Config)
        ensures
            config@ == host_config(device_root@),
    {
        Config {
            device_root: device_root.to_owned(),
            scratch_root: SCRATCH_ROOT.to_owned(),
            base_dir: BASE_DIR.to_owned(),
            union_mountpoint: UNIONFS_MOUNTPT.to_owned(),
            archive_tool: FUSE_ARCHIVE.to_owned(),
            transform_tool: FUZZYFS.to_owned(),
            union_tool: UNIONFS.to_owned(),
            unmount_tool: UMOUNT.to_owned(),
        }
    }

    /// The stock paths of a plain host: devices under `/dev/`.
    pub fn standard() -> (config: Config)
        ensures
            config@ == host_config(DEV_LOCATION@),
    {
        Config::with_device_root(DEV_LOCATION)
    }

    /// The stock paths inside a container: devices under `/mnt/docker/`.
    pub fn docker() -> (config: Config)
        ensures
            config@ == host_config(DOCKER_DEV_LOCATION@),
    {
        Config::with_device_root(DOCKER_DEV_LOCATION)
    }
}

} // verus!
