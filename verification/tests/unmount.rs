use mountd::cleanup::{cleanup_mount, cleanup_start, CleanupResult, CleanupStage};
use mountd::config::Config;
use mountd::coordinator::{LayerChange, UnionCoordinator};
use mountd::paths::DevicePaths;
use mountd::pipeline::{Action, Event, UNEXPECTED_EVENT};
use mountd::process::{handle_subprocess, Command, Outcome};
use mountd::registry::MountStatus;
use mountd::response::HTTPResponse;
use mountd::unmount::{umount_device, UnmountPipeline, UnmountStage};

const SDB: &str = "/tmp/sdb.fuzzy/content";
const SDA: &str = "/tmp/sda.fuzzy/content";

fn texts(items: &[&str]) -> Vec<String> {
    items.iter().map(|s| s.to_string()).collect()
}

fn answer(status: u16, body: &str) -> Action {
    Action::Reply(HTTPResponse { status, body: body.to_string() })
}

fn tool(program: &str, args: &[&str]) -> Action {
    Action::Run(Command { program: program.to_string(), args: texts(args) })
}

fn live(paths: &[&str]) -> MountStatus {
    let mut status = MountStatus::new();
    for path in paths {
        status.try_reserve(path);
        status.promote_to_mounted(path);
    }
    status
}

fn unmount_with(status: &mut MountStatus, name: &str, events: &[Event]) -> Vec<Action> {
    let config = Config::standard();
    let mut pipeline = UnmountPipeline::new(&config, name.to_string());
    events.iter().map(|event| umount_device(&mut pipeline, status, *event)).collect()
}

fn unmount_all_well() -> Vec<Event> {
    vec![
        Event::Requested,
        Event::UnionLocked,
        Event::Ran(Outcome::Success),
        Event::Ran(Outcome::Success),
        Event::UnionReleased,
        Event::Ran(Outcome::Success),
        Event::Ran(Outcome::Success),
        Event::DirsRemoved(true),
    ]
}

#[test]
fn successful_unmount_asks_for_each_step_in_order() {
    let mut status = live(&[SDB]);
    let actions = unmount_with(&mut status, "sdb", &unmount_all_well());
    assert_eq!(
        actions,
        vec![
            Action::LockUnion,
            tool("/bin/umount", &["-l", "/var/www/localhost/htdocs"]),
            tool(
                "/usr/bin/unionfs",
                &["/root/base", "/var/www/localhost/htdocs", "-o", "allow_other"],
            ),
            Action::ReleaseUnion(LayerChange::Removed),
            tool("/bin/umount", &["/tmp/sdb.fuzzy"]),
            tool("/bin/umount", &["/tmp/sdb"]),
            Action::RemoveDirs("/tmp/sdb.fuzzy".to_string(), "/tmp/sdb".to_string()),
            answer(201, "OK"),
        ]
    );
    assert!(!status.is_mounted(SDB));
    assert!(!status.is_changing(SDB));
}

#[test]
fn unmount_demotes_before_anything_is_asked_for() {
    let config = Config::standard();
    let mut status = live(&[SDB]);
    let mut pipeline = UnmountPipeline::new(&config, "sdb".to_string());
    assert_eq!(pipeline.stage, UnmountStage::NotStarted);
    let first = umount_device(&mut pipeline, &mut status, Event::Requested);
    assert_eq!(first, Action::LockUnion);
    assert_eq!(pipeline.stage, UnmountStage::AwaitingUnion);
    assert!(!status.is_mounted(SDB));
    assert!(status.is_changing(SDB));
    let events = unmount_all_well();
    for (event, stage) in events[1..7].iter().zip([
        UnmountStage::DetachingUnion,
        UnmountStage::AttachingUnion,
        UnmountStage::ReleasingUnion,
        UnmountStage::CleaningUp(CleanupStage::UnmountingTransform),
        UnmountStage::CleaningUp(CleanupStage::UnmountingArchive),
        UnmountStage::CleaningUp(CleanupStage::RemovingDirectories),
    ]) {
        umount_device(&mut pipeline, &mut status, *event);
        assert_eq!(pipeline.stage, stage);
        assert!(status.is_changing(SDB));
        assert!(!status.is_mounted(SDB));
    }
    umount_device(&mut pipeline, &mut status, events[7]);
    assert_eq!(pipeline.stage, UnmountStage::Finished);
    assert!(!status.is_changing(SDB));
}

#[test]
fn unmount_remounts_the_union_without_the_device() {
    let mut status = live(&[SDA, SDB, "/tmp/sdc.fuzzy/content"]);
    let actions = unmount_with(&mut status, "sdb", &unmount_all_well()[..3]);
    let layers: Vec<String> = match &actions[2] {
        Action::Run(command) => command.args[0].split(':').map(|s| s.to_string()).collect(),
        other => panic!("no remount but {:?}", other),
    };
    assert_eq!(layers.len(), 3);
    assert_eq!(layers[0], "/root/base");
    let mut rest = layers[1..].to_vec();
    rest.sort();
    assert_eq!(rest, texts(&[SDA, "/tmp/sdc.fuzzy/content"]));
}

#[test]
fn unmount_of_an_absent_device_does_nothing() {
    let mut status = live(&[SDA]);
    let actions = unmount_with(&mut status, "sdb", &[Event::Requested]);
    assert_eq!(actions, vec![answer(200, "Device is not mounted.")]);
    assert!(!status.is_mounted(SDB));
    assert!(!status.is_changing(SDB));
    assert!(status.is_mounted(SDA));
}

#[test]
fn unmount_of_a_device_in_flight_is_a_conflict() {
    let mut status = MountStatus::new();
    status.try_reserve(SDB);
    let actions = unmount_with(&mut status, "sdb", &[Event::Requested]);
    assert_eq!(actions, vec![answer(409, "Mount operation already in progress.")]);
    assert!(status.is_changing(SDB));
    assert!(!status.is_mounted(SDB));
}

#[test]
fn second_unmount_during_the_first_is_a_conflict() {
    let mut status = live(&[SDB]);
    unmount_with(&mut status, "sdb", &unmount_all_well()[..2]);
    let actions = unmount_with(&mut status, "sdb", &[Event::Requested]);
    assert_eq!(actions, vec![answer(409, "Mount operation already in progress.")]);
    assert!(status.is_changing(SDB));
}

#[test]
fn each_failing_tool_run_ends_the_unmount_with_its_own_answer() {
    let bodies = [
        (Outcome::SpawnFailed, "Could not spawn subprocess."),
        (Outcome::WaitFailed, "Could not read subprocess status."),
        (Outcome::NonZeroExit, "Subprocess exited with an unsuccessful status."),
    ];
    for at in [2, 3, 5, 6] {
        for (outcome, body) in bodies {
            let mut events = unmount_all_well()[..at].to_vec();
            events.push(Event::Ran(outcome));
            let mut status = live(&[SDB]);
            let actions = unmount_with(&mut status, "sdb", &events);
            assert_eq!(actions[at], answer(500, body));
            assert!(!status.is_changing(SDB));
            assert!(!status.is_mounted(SDB));
        }
    }
}

#[test]
fn failing_to_remove_the_mount_points_fails_the_unmount() {
    let mut events = unmount_all_well()[..7].to_vec();
    events.push(Event::DirsRemoved(false));
    let mut status = live(&[SDB]);
    let actions = unmount_with(&mut status, "sdb", &events);
    assert_eq!(actions[7], answer(500, "Could not remove mountpoints."));
    assert!(!status.is_changing(SDB));
    assert!(!status.is_mounted(SDB));
}

#[test]
fn unexpected_event_fails_the_unmount_and_releases_the_mark() {
    let mut status = live(&[SDB]);
    let actions = unmount_with(&mut status, "sdb", &[Event::Requested, Event::DirsRemoved(true)]);
    assert_eq!(actions[1], answer(500, UNEXPECTED_EVENT));
    assert!(!status.is_changing(SDB));

    let mut status = live(&[SDB]);
    let actions = unmount_with(&mut status, "sdb", &[Event::UnionLocked]);
    assert_eq!(actions[0], answer(500, UNEXPECTED_EVENT));
    assert!(status.is_mounted(SDB));

    let mut status = live(&[SDB]);
    let mut events = unmount_all_well()[..5].to_vec();
    events.push(Event::UnionReleased);
    let actions = unmount_with(&mut status, "sdb", &events);
    assert_eq!(actions[5], answer(500, UNEXPECTED_EVENT));
    assert!(!status.is_changing(SDB));
}

#[test]
fn finished_unmount_takes_no_further_event() {
    let mut status = live(&[SDB]);
    let mut events = unmount_all_well();
    events.push(Event::Requested);
    let actions = unmount_with(&mut status, "sdb", &events);
    assert_eq!(actions[8], answer(500, UNEXPECTED_EVENT));
    assert!(!status.is_changing(SDB));
    assert!(!status.is_mounted(SDB));
}

#[test]
fn handle_subprocess_passes_success_through() {
    let mut status = MountStatus::new();
    status.try_reserve(SDB);
    assert_eq!(handle_subprocess(&mut status, Outcome::Success, SDB), None);
    assert!(status.is_changing(SDB));
}

#[test]
fn handle_subprocess_releases_on_failure() {
    let cases = [
        (Outcome::SpawnFailed, "Could not spawn subprocess."),
        (Outcome::WaitFailed, "Could not read subprocess status."),
        (Outcome::NonZeroExit, "Subprocess exited with an unsuccessful status."),
    ];
    for (outcome, body) in cases {
        let mut status = MountStatus::new();
        status.try_reserve(SDB);
        status.try_reserve(SDA);
        assert_eq!(
            handle_subprocess(&mut status, outcome, SDB),
            Some(HTTPResponse { status: 500, body: body.to_string() })
        );
        assert!(!status.is_changing(SDB));
        assert!(status.is_changing(SDA));
    }
}

#[test]
fn cleanup_starts_with_the_transform_mount() {
    let config = Config::standard();
    let paths = DevicePaths::derive(&config, "sdb");
    assert_eq!(cleanup_start(&config, &paths), tool("/bin/umount", &["/tmp/sdb.fuzzy"]));
}

#[test]
fn cleanup_goes_through_its_three_stages() {
    let config = Config::standard();
    let paths = DevicePaths::derive(&config, "sdb");
    let mut status = MountStatus::new();
    status.try_reserve(SDB);
    assert_eq!(
        cleanup_mount(
            CleanupStage::UnmountingTransform,
            &config,
            &paths,
            &mut status,
            Event::Ran(Outcome::Success)
        ),
        CleanupResult::Continue(CleanupStage::UnmountingArchive, tool("/bin/umount", &["/tmp/sdb"]))
    );
    assert!(status.is_changing(SDB));
    assert_eq!(
        cleanup_mount(
            CleanupStage::UnmountingArchive,
            &config,
            &paths,
            &mut status,
            Event::Ran(Outcome::Success)
        ),
        CleanupResult::Continue(
            CleanupStage::RemovingDirectories,
            Action::RemoveDirs("/tmp/sdb.fuzzy".to_string(), "/tmp/sdb".to_string())
        )
    );
    assert!(status.is_changing(SDB));
    assert_eq!(
        cleanup_mount(
            CleanupStage::RemovingDirectories,
            &config,
            &paths,
            &mut status,
            Event::DirsRemoved(true)
        ),
        CleanupResult::Done
    );
    assert!(!status.is_changing(SDB));
}

#[test]
fn cleanup_failures_release_the_mark() {
    let config = Config::standard();
    let paths = DevicePaths::derive(&config, "sdb");
    let cases = [
        (
            CleanupStage::UnmountingTransform,
            Event::Ran(Outcome::NonZeroExit),
            "Subprocess exited with an unsuccessful status.",
        ),
        (CleanupStage::UnmountingArchive, Event::Ran(Outcome::WaitFailed), "Could not read subprocess status."),
        (CleanupStage::RemovingDirectories, Event::DirsRemoved(false), "Could not remove mountpoints."),
        (CleanupStage::RemovingDirectories, Event::Ran(Outcome::Success), UNEXPECTED_EVENT),
        (CleanupStage::UnmountingTransform, Event::DirsRemoved(true), UNEXPECTED_EVENT),
    ];
    for (stage, event, body) in cases {
        let mut status = MountStatus::new();
        status.try_reserve(SDB);
        assert_eq!(
            cleanup_mount(stage, &config, &paths, &mut status, event),
            CleanupResult::Failed(HTTPResponse { status: 500, body: body.to_string() })
        );
        assert!(!status.is_changing(SDB));
    }
}

#[test]
fn coordinator_counts_layers() {
    let mut coordinator = UnionCoordinator::new();
    assert_eq!(coordinator.layers(), 0);
    assert!(coordinator.can_record(LayerChange::Added));
    coordinator.record(LayerChange::Added);
    coordinator.record(LayerChange::Added);
    assert_eq!(coordinator.layers(), 2);
    assert!(coordinator.can_record(LayerChange::Removed));
    coordinator.record(LayerChange::Removed);
    assert_eq!(coordinator.layers(), 1);
    coordinator.record(LayerChange::Removed);
    coordinator.record(LayerChange::Removed);
    assert_eq!(coordinator.layers(), -1);
}
