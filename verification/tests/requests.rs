use mountd::config::Config;
use mountd::coordinator::UnionCoordinator;
use mountd::devname::{handle_devname, DevnameRequest};
use mountd::mount::{mount_device, MountPipeline};
use mountd::pipeline::{Action, Event, PathKind};
use mountd::process::Outcome;
use mountd::registry::MountStatus;
use mountd::response::HTTPResponse;
use mountd::unmount::{umount_device, UnmountPipeline};

/// A stand-in for the machine: which devices exist, and what was done.
struct Machine {
    devices: Vec<String>,
    directories: Vec<String>,
    runs: usize,
    union_held: bool,
    coordinator: UnionCoordinator,
}

impl Machine {
    fn with_devices(devices: &[&str]) -> Machine {
        Machine {
            devices: devices.iter().map(|d| d.to_string()).collect(),
            directories: Vec::new(),
            runs: 0,
            union_held: false,
            coordinator: UnionCoordinator::new(),
        }
    }

    /// Does what the action asks for and reports back; `Err` carries the
    /// answer that ends the request.
    fn perform(&mut self, action: Action) -> Result<Event, HTTPResponse> {
        match action {
            Action::Inspect(path) => {
                if path.ends_with("/content") {
                    Ok(Event::Inspected(PathKind::Directory))
                } else if self.devices.contains(&path) {
                    Ok(Event::Inspected(PathKind::File))
                } else {
                    Ok(Event::Inspected(PathKind::Missing))
                }
            }
            Action::CreateDirs(first, second) => {
                for dir in [first, second] {
                    if !self.directories.contains(&dir) {
                        self.directories.push(dir);
                    }
                }
                Ok(Event::DirsCreated(true))
            }
            Action::Run(_) => {
                self.runs += 1;
                Ok(Event::Ran(Outcome::Success))
            }
            Action::LockUnion => {
                assert!(!self.union_held);
                self.union_held = true;
                Ok(Event::UnionLocked)
            }
            Action::ReleaseUnion(change) => {
                assert!(self.union_held);
                assert!(self.coordinator.can_record(change));
                self.coordinator.record(change);
                self.union_held = false;
                Ok(Event::UnionReleased)
            }
            Action::RemoveDirs(first, second) => {
                let both = self.directories.contains(&first) && self.directories.contains(&second);
                self.directories.retain(|dir| *dir != first && *dir != second);
                Ok(Event::DirsRemoved(both))
            }
            Action::Reply(answer) => {
                self.union_held = false;
                Err(answer)
            }
        }
    }

    fn mount(&mut self, status: &mut MountStatus, config: &Config, name: &str) -> HTTPResponse {
        let mut pipeline = MountPipeline::new(config, name.to_string());
        let mut event = Event::Requested;
        loop {
            match self.perform(mount_device(&mut pipeline, status, event)) {
                Ok(next) => event = next,
                Err(answer) => return answer,
            }
        }
    }

    fn unmount(&mut self, status: &mut MountStatus, config: &Config, name: &str) -> HTTPResponse {
        let mut pipeline = UnmountPipeline::new(config, name.to_string());
        let mut event = Event::Requested;
        loop {
            match self.perform(umount_device(&mut pipeline, status, event)) {
                Ok(next) => event = next,
                Err(answer) => return answer,
            }
        }
    }
}

#[test]
fn mount_remount_and_unmount_of_sdb() {
    let config = Config::standard();
    let mut status = MountStatus::new();
    let mut machine = Machine::with_devices(&["/dev/sdb"]);

    let first = machine.mount(&mut status, &config, "sdb");
    assert_eq!(first, HTTPResponse { status: 201, body: "OK".to_string() });
    assert!(status.is_mounted("/tmp/sdb.fuzzy/content"));
    assert_eq!(status.snapshot(), vec!["/tmp/sdb.fuzzy/content".to_string()]);
    assert_eq!(machine.coordinator.layers(), 1);

    let runs = machine.runs;
    let second = machine.mount(&mut status, &config, "sdb");
    assert_eq!(second.status, 200);
    assert_eq!(second.body, "Device is already mounted.");
    assert_eq!(machine.runs, runs);

    let third = machine.unmount(&mut status, &config, "sdb");
    assert_eq!(third, HTTPResponse { status: 201, body: "OK".to_string() });
    assert!(!status.is_mounted("/tmp/sdb.fuzzy/content"));
    assert!(!status.is_changing("/tmp/sdb.fuzzy/content"));
    assert_eq!(machine.coordinator.layers(), 0);
}

#[test]
fn mount_of_a_missing_device() {
    let config = Config::standard();
    let mut status = MountStatus::new();
    status.try_reserve("/tmp/sda.fuzzy/content");
    status.promote_to_mounted("/tmp/sda.fuzzy/content");
    status.try_reserve("/tmp/sdc.fuzzy/content");
    let mut machine = Machine::with_devices(&["/dev/sdb"]);

    let answer = machine.mount(&mut status, &config, "missing");
    assert_eq!(answer.status, 400);
    assert!(answer.body.contains("missing"));
    assert_eq!(answer.body, "Requested device doesn't exist: missing");
    assert_eq!(machine.runs, 0);
    assert!(machine.directories.is_empty());
    assert!(!status.is_mounted("/tmp/missing.fuzzy/content"));
    assert!(!status.is_changing("/tmp/missing.fuzzy/content"));
    assert_eq!(status.snapshot(), vec!["/tmp/sda.fuzzy/content".to_string()]);
    assert!(status.is_changing("/tmp/sdc.fuzzy/content"));
}

#[test]
fn second_mount_of_sdc_while_the_first_is_in_flight() {
    let config = Config::standard();
    let mut status = MountStatus::new();
    let mut machine = Machine::with_devices(&["/dev/sdc"]);

    let mut first = MountPipeline::new(&config, "sdc".to_string());
    let mut event = Event::Requested;
    for _ in 0..3 {
        event = machine.perform(mount_device(&mut first, &mut status, event)).unwrap();
    }
    assert!(status.is_changing("/tmp/sdc.fuzzy/content"));

    let second = machine.mount(&mut status, &config, "sdc");
    assert_eq!(second.status, 409);
    assert!(status.is_changing("/tmp/sdc.fuzzy/content"));

    let answer = loop {
        match machine.perform(mount_device(&mut first, &mut status, event)) {
            Ok(next) => event = next,
            Err(answer) => break answer,
        }
    };
    assert_eq!(answer.status, 201);
    assert!(status.is_mounted("/tmp/sdc.fuzzy/content"));
    assert_eq!(machine.coordinator.layers(), 1);
}

#[test]
fn second_mount_of_sdc_after_the_first_was_promoted() {
    let config = Config::standard();
    let mut status = MountStatus::new();
    let mut machine = Machine::with_devices(&["/dev/sdc"]);

    let mut first = MountPipeline::new(&config, "sdc".to_string());
    let mut event = Event::Requested;
    for _ in 0..9 {
        event = machine.perform(mount_device(&mut first, &mut status, event)).unwrap();
    }
    assert_eq!(event, Event::UnionReleased);
    assert!(status.is_mounted("/tmp/sdc.fuzzy/content"));

    let second = machine.mount(&mut status, &config, "sdc");
    assert_eq!(second.status, 200);

    let answer = machine.perform(mount_device(&mut first, &mut status, event)).unwrap_err();
    assert_eq!(answer.status, 201);
    assert_eq!(machine.coordinator.layers(), 1);
}

#[test]
fn round_trip_leaves_no_directory_behind() {
    let config = Config::standard();
    let mut status = MountStatus::new();
    status.try_reserve("/tmp/sda.fuzzy/content");
    status.promote_to_mounted("/tmp/sda.fuzzy/content");
    let mut machine = Machine::with_devices(&["/dev/sdb"]);

    assert_eq!(machine.mount(&mut status, &config, "sdb").status, 201);
    assert_eq!(machine.directories, vec!["/tmp/sdb".to_string(), "/tmp/sdb.fuzzy".to_string()]);
    assert_eq!(machine.unmount(&mut status, &config, "sdb").status, 201);
    assert!(machine.directories.is_empty());
    assert!(!status.is_mounted("/tmp/sdb.fuzzy/content"));
    assert!(!status.is_changing("/tmp/sdb.fuzzy/content"));
    assert_eq!(status.snapshot(), vec!["/tmp/sda.fuzzy/content".to_string()]);
}

#[test]
fn request_with_an_encoded_name_reaches_the_right_device() {
    let config = Config::standard();
    let mut status = MountStatus::new();
    let mut machine = Machine::with_devices(&["/dev/my disk"]);
    let name = match handle_devname(Some("my%20disk")) {
        DevnameRequest::Device(name) => name,
        DevnameRequest::Rejected(answer) => panic!("rejected: {}", answer.body),
    };
    assert_eq!(machine.mount(&mut status, &config, &name).status, 201);
    assert!(status.is_mounted("/tmp/my disk.fuzzy/content"));
}

fn answer_of(action: Action) -> HTTPResponse {
    match action {
        Action::Reply(answer) => answer,
        other => panic!("no answer but {:?}", other),
    }
}

#[test]
fn shared_registry_serves_interleaved_requests() {
    let config = Config::standard();
    let shared = mountd::shared::SharedMountStatus::new(MountStatus::new());
    let mut machine = Machine::with_devices(&["/dev/sdb", "/dev/sdc"]);

    let mut first = MountPipeline::new(&config, "sdb".to_string());
    let mut second = MountPipeline::new(&config, "sdb".to_string());
    let mut other = MountPipeline::new(&config, "sdc".to_string());
    let mut first_event = Event::Requested;
    let mut second_event = Event::Requested;
    let mut other_event = Event::Requested;
    for _ in 0..2 {
        first_event = machine.perform(shared.mount_device(&mut first, first_event)).unwrap();
    }
    second_event = machine.perform(shared.mount_device(&mut second, second_event)).unwrap();
    let refused = answer_of(shared.mount_device(&mut second, second_event));
    assert_eq!(refused.status, 409);
    for _ in 0..5 {
        other_event = machine.perform(shared.mount_device(&mut other, other_event)).unwrap();
    }
    let granted = loop {
        match machine.perform(shared.mount_device(&mut first, first_event)) {
            Ok(next) => first_event = next,
            Err(answer) => break answer,
        }
    };
    assert_eq!(granted.status, 201);
    let also_granted = loop {
        match machine.perform(shared.mount_device(&mut other, other_event)) {
            Ok(next) => other_event = next,
            Err(answer) => break answer,
        }
    };
    assert_eq!(also_granted.status, 201);

    let mut removal = UnmountPipeline::new(&config, "sdb".to_string());
    let mut removal_event = Event::Requested;
    let removed = loop {
        match machine.perform(shared.umount_device(&mut removal, removal_event)) {
            Ok(next) => removal_event = next,
            Err(answer) => break answer,
        }
    };
    assert_eq!(removed.status, 201);

    let mut again = UnmountPipeline::new(&config, "sdb".to_string());
    let absent = answer_of(shared.umount_device(&mut again, Event::Requested));
    assert_eq!(absent, HTTPResponse { status: 200, body: "Device is not mounted.".to_string() });
    let mut other_again = MountPipeline::new(&config, "sdc".to_string());
    shared.mount_device(&mut other_again, Event::Requested);
    let live = answer_of(shared.mount_device(&mut other_again, Event::Inspected(PathKind::File)));
    assert_eq!(live.status, 200);
    assert_eq!(machine.coordinator.layers(), 1);
}

#[test]
fn shared_registry_keeps_what_it_was_given() {
    let mut status = MountStatus::new();
    status.try_reserve("/tmp/sda.fuzzy/content");
    status.promote_to_mounted("/tmp/sda.fuzzy/content");
    let config = Config::standard();
    let shared = mountd::shared::SharedMountStatus::new(status);
    let mut pipeline = MountPipeline::new(&config, "sda".to_string());
    shared.mount_device(&mut pipeline, Event::Requested);
    let answer = answer_of(shared.mount_device(&mut pipeline, Event::Inspected(PathKind::File)));
    assert_eq!(answer, HTTPResponse { status: 200, body: "Device is already mounted.".to_string() });
    let mut removal = UnmountPipeline::new(&config, "sda".to_string());
    assert_eq!(shared.umount_device(&mut removal, Event::Requested), Action::LockUnion);
}
