//! What holds of whole requests: of a mount or an unmount that is followed
//! from its first step on.

use crate::cleanup::CleanupStage;
use crate::config::ConfigView;
use crate::layers::layer_list;
use crate::mount::{mount_step, MountStage};
use crate::paths::device_paths;
use crate::pipeline::{pipeline_at, ActionView, Event, PathKind, PipelineView, Step};
use crate::process::{union_attach_command, unmount_command, Outcome};
use crate::registry::RegistryView;
use crate::response::response;
use crate::string_set::is_listing;
use crate::unmount::{unmount_step, UnmountStage};
use vstd::prelude::*;

verus! {

/// The step that a mount request takes on `events[k]`, after its steps on
/// the events before it, when nothing else touches the registry meanwhile.
pub open spec fn mount_run(
    p: PipelineView<MountStage>,
    r: RegistryView,
    events: Seq<Event>,
    listing: Seq<Seq<char>>,
    k: int,
) -> Step<MountStage>
    decreases k,
{
    if k <= 0 {
        mount_step(p, r, events[0], listing)
    } else {
        let before = mount_run(p, r, events, listing, k - 1);
        mount_step(before.pipeline, before.registry, events[k], listing)
    }
}

/// The step that an unmount request takes on `events[k]`, after its steps on
/// the events before it, when nothing else touches the registry meanwhile.
pub open spec fn unmount_run(
    p: PipelineView<UnmountStage>,
    r: RegistryView,
    events: Seq<Event>,
    listing: Seq<Seq<char>>,
    k: int,
) -> Step<UnmountStage>
    decreases k,
{
    if k <= 0 {
        unmount_step(p, r, events[0], listing)
    } else {
        let before = unmount_run(p, r, events, listing, k - 1);
        unmount_step(before.pipeline, before.registry, events[k], listing)
    }
}

/// What a mount request hears when the device is a file and everything that
/// it asks for succeeds.
pub open spec fn mount_success() -> Seq<Event> {
    seq![
        Event::Requested,
        Event::Inspected(PathKind::File),
        Event::DirsCreated(true),
        Event::Ran(Outcome::Success),
        Event::Ran(Outcome::Success),
        Event::Inspected(PathKind::Directory),
        Event::UnionLocked,
        Event::Ran(Outcome::Success),
        Event::Ran(Outcome::Success),
        Event::UnionReleased,
    ]
}

/// What an unmount request hears when everything that it asks for succeeds.
pub open spec fn unmount_success() -> Seq<Event> {
    seq![
        Event::Requested,
        Event::UnionLocked,
        Event::Ran(Outcome::Success),
        Event::Ran(Outcome::Success),
        Event::UnionReleased,
        Event::Ran(Outcome::Success),
        Event::Ran(Outcome::Success),
        Event::DirsRemoved(true),
    ]
}

/// A mount request for a device that is neither live nor in flight, all of
/// whose actions succeed, makes the content path live: it is answered with
/// 201, the content path is then in `mounted` and not in `changing`, and the
/// union was mounted over the base directory first, the content path second,
/// and after them the paths that were live before.
pub proof fn lemma_mount_makes_live(
    config: ConfigView,
    name: Seq<char>,
    r: RegistryView,
    listing: Seq<Seq<char>>,
)
    requires
        r.idle(device_paths(config, name).content),
    ensures
        ({
            let content = device_paths(config, name).content;
            let p = pipeline_at(config, name, MountStage::NotStarted);
            let remount = mount_run(p, r, mount_success(), listing, 7);
            let end = mount_run(p, r, mount_success(), listing, 9);
            let layers = layer_list(config.base_dir, Some(content), listing);
            &&& remount.action == ActionView::Run(union_attach_command(config, layers))
            &&& layers[0] == config.base_dir
            &&& layers[1] == content
            &&& layers.skip(2) == listing
            &&& end.action == ActionView::Reply(response(201, "OK"@))
            &&& end.pipeline.stage == MountStage::Finished
            &&& end.registry.mounted == r.mounted.insert(content)
            &&& end.registry.changing == r.changing
            &&& end.registry.mounted.contains(content)
            &&& !end.registry.changing.contains(content)
        }),
{
    let content = device_paths(config, name).content;
    let p = pipeline_at(config, name, MountStage::NotStarted);
    let events = mount_success();
    let s0 = mount_run(p, r, events, listing, 0);
    assert(s0.pipeline.stage == MountStage::CheckingDevice);
    let s1 = mount_run(p, r, events, listing, 1);
    assert(s1.pipeline.stage == MountStage::CreatingDirectories);
    let s2 = mount_run(p, r, events, listing, 2);
    assert(s2.pipeline.stage == MountStage::MountingArchive);
    let s3 = mount_run(p, r, events, listing, 3);
    assert(s3.pipeline.stage == MountStage::MountingTransform);
    let s4 = mount_run(p, r, events, listing, 4);
    assert(s4.pipeline.stage == MountStage::CheckingContent);
    let s5 = mount_run(p, r, events, listing, 5);
    assert(s5.pipeline.stage == MountStage::AwaitingUnion);
    let s6 = mount_run(p, r, events, listing, 6);
    assert(s6.pipeline.stage == MountStage::DetachingUnion);
    let s7 = mount_run(p, r, events, listing, 7);
    assert(s7.pipeline.stage == MountStage::AttachingUnion);
    let s8 = mount_run(p, r, events, listing, 8);
    assert(s8.pipeline.stage == MountStage::ReleasingUnion);
    let s9 = mount_run(p, r, events, listing, 9);
    assert(s9.pipeline.stage == MountStage::Finished);
    assert(s9.registry == r.reserve(content).promote(content));
    assert(s9.registry.changing =~= r.changing);
    let layers = layer_list(config.base_dir, Some(content), listing);
    assert(layers.skip(2) =~= listing);
}

/// A mount request for a device that is already live, and whose device
/// file is there, is answered with 200. It asks for a look at the device file
/// and for nothing else, so no tool is run, and the registry stays as it was.
pub proof fn lemma_mount_of_live_device_is_no_op(
    config: ConfigView,
    name: Seq<char>,
    r: RegistryView,
    listing: Seq<Seq<char>>,
)
    requires
        r.mounted.contains(device_paths(config, name).content),
    ensures
        ({
            let p = pipeline_at(config, name, MountStage::NotStarted);
            let events = seq![Event::Requested, Event::Inspected(PathKind::File)];
            let first = mount_run(p, r, events, listing, 0);
            let second = mount_run(p, r, events, listing, 1);
            &&& first.action == ActionView::Inspect(device_paths(config, name).device)
            &&& first.registry == r
            &&& second.action == ActionView::Reply(response(200, "Device is already mounted."@))
            &&& second.registry == r
            &&& second.pipeline.stage == MountStage::Finished
        }),
{
    let p = pipeline_at(config, name, MountStage::NotStarted);
    let events = seq![Event::Requested, Event::Inspected(PathKind::File)];
    let first = mount_run(p, r, events, listing, 0);
    assert(first.pipeline.stage == MountStage::CheckingDevice);
}

/// A mount request for a device that has a pipeline in flight, and whose
/// device file is there, is answered with 409, and the registry stays as it
/// was.
pub proof fn lemma_mount_in_flight_is_refused(
    config: ConfigView,
    name: Seq<char>,
    r: RegistryView,
    listing: Seq<Seq<char>>,
)
    requires
        r.wf(),
        r.changing.contains(device_paths(config, name).content),
    ensures
        ({
            let p = pipeline_at(config, name, MountStage::NotStarted);
            let events = seq![Event::Requested, Event::Inspected(PathKind::File)];
            let first = mount_run(p, r, events, listing, 0);
            let second = mount_run(p, r, events, listing, 1);
            &&& first.action == ActionView::Inspect(device_paths(config, name).device)
            &&& first.registry == r
            &&& second.action == ActionView::Reply(
                response(409, "Mount operation already in progress."@),
            )
            &&& second.registry == r
            &&& second.pipeline.stage == MountStage::Finished
        }),
{
    let p = pipeline_at(config, name, MountStage::NotStarted);
    let events = seq![Event::Requested, Event::Inspected(PathKind::File)];
    let first = mount_run(p, r, events, listing, 0);
    assert(first.pipeline.stage == MountStage::CheckingDevice);
}

/// An unmount request for a device that has a pipeline in flight is answered
/// with 409 at once, and the registry stays as it was.
pub proof fn lemma_unmount_in_flight_is_refused(
    config: ConfigView,
    name: Seq<char>,
    r: RegistryView,
    listing: Seq<Seq<char>>,
)
    requires
        r.changing.contains(device_paths(config, name).content),
    ensures
        ({
            let p = pipeline_at(config, name, UnmountStage::NotStarted);
            let only = unmount_step(p, r, Event::Requested, listing);
            &&& only.action == ActionView::Reply(
                response(409, "Mount operation already in progress."@),
            )
            &&& only.registry == r
            &&& only.pipeline.stage == UnmountStage::Finished
        }),
{
}

/// An unmount request for a device that is neither live nor in flight is
/// answered with 200 at once, and the registry stays as it was.
pub proof fn lemma_unmount_of_absent_device_is_no_op(
    config: ConfigView,
    name: Seq<char>,
    r: RegistryView,
    listing: Seq<Seq<char>>,
)
    requires
        r.idle(device_paths(config, name).content),
    ensures
        ({
            let p = pipeline_at(config, name, UnmountStage::NotStarted);
            let only = unmount_step(p, r, Event::Requested, listing);
            &&& only.action == ActionView::Reply(response(200, "Device is not mounted."@))
            &&& only.registry == r
            &&& only.pipeline.stage == UnmountStage::Finished
        }),
{
}

/// Mounting a device that is neither live nor in flight and then unmounting
/// it, with every action succeeding, leaves the registry as it was before:
/// the content path is in neither set. Both requests are answered with 201,
/// and the unmount removes the two directories that the mount created.
pub proof fn lemma_mount_then_unmount_restores(
    config: ConfigView,
    name: Seq<char>,
    r: RegistryView,
    mount_listing: Seq<Seq<char>>,
    unmount_listing: Seq<Seq<char>>,
)
    requires
        r.idle(device_paths(config, name).content),
    ensures
        ({
            let paths = device_paths(config, name);
            let mount = pipeline_at(config, name, MountStage::NotStarted);
            let unmount = pipeline_at(config, name, UnmountStage::NotStarted);
            let created = mount_run(mount, r, mount_success(), mount_listing, 1);
            let mounted = mount_run(mount, r, mount_success(), mount_listing, 9);
            let removed = unmount_run(
                unmount,
                mounted.registry,
                unmount_success(),
                unmount_listing,
                6,
            );
            let end = unmount_run(
                unmount,
                mounted.registry,
                unmount_success(),
                unmount_listing,
                7,
            );
            &&& created.action == ActionView::CreateDirs(
                paths.archive_mount,
                paths.transform_mount,
            )
            &&& mounted.action == ActionView::Reply(response(201, "OK"@))
            &&& removed.action == ActionView::RemoveDirs(
                paths.transform_mount,
                paths.archive_mount,
            )
            &&& end.action == ActionView::Reply(response(201, "OK"@))
            &&& end.pipeline.stage == UnmountStage::Finished
            &&& end.registry == r
            &&& end.registry.idle(paths.content)
        }),
{
    let content = device_paths(config, name).content;
    lemma_mount_makes_live(config, name, r, mount_listing);
    let mount = pipeline_at(config, name, MountStage::NotStarted);
    let created = mount_run(mount, r, mount_success(), mount_listing, 1);
    assert(mount_run(mount, r, mount_success(), mount_listing, 0).pipeline.stage
        == MountStage::CheckingDevice);
    let live = mount_run(mount, r, mount_success(), mount_listing, 9).registry;
    let p = pipeline_at(config, name, UnmountStage::NotStarted);
    let events = unmount_success();
    let u0 = unmount_run(p, live, events, unmount_listing, 0);
    assert(u0.pipeline.stage == UnmountStage::AwaitingUnion);
    let u1 = unmount_run(p, live, events, unmount_listing, 1);
    assert(u1.pipeline.stage == UnmountStage::DetachingUnion);
    let u2 = unmount_run(p, live, events, unmount_listing, 2);
    assert(u2.pipeline.stage == UnmountStage::AttachingUnion);
    let u3 = unmount_run(p, live, events, unmount_listing, 3);
    assert(u3.pipeline.stage == UnmountStage::ReleasingUnion);
    let u4 = unmount_run(p, live, events, unmount_listing, 4);
    assert(u4.pipeline.stage == UnmountStage::CleaningUp(CleanupStage::UnmountingTransform));
    let u5 = unmount_run(p, live, events, unmount_listing, 5);
    assert(u5.pipeline.stage == UnmountStage::CleaningUp(CleanupStage::UnmountingArchive));
    let u6 = unmount_run(p, live, events, unmount_listing, 6);
    assert(u6.pipeline.stage == UnmountStage::CleaningUp(CleanupStage::RemovingDirectories));
    let u7 = unmount_run(p, live, events, unmount_listing, 7);
    assert(u7.registry == live.demote(content).release(content));
    assert(u7.registry.mounted =~= r.mounted);
    assert(u7.registry.changing =~= r.changing);
}

/// When the content directory is not found after both mounts, the mount
/// request takes both down again: it asks for the transform filesystem to be
/// unmounted, then the archive, then for both mount points to be removed, and
/// is answered with 500. Whatever is reported back at each of these steps,
/// the request is over after them and the content path is neither live nor
/// in flight.
pub proof fn lemma_missing_content_is_rolled_back(
    p: PipelineView<MountStage>,
    r: RegistryView,
    found: PathKind,
    first: Event,
    second: Event,
    third: Event,
    listing: Seq<Seq<char>>,
)
    requires
        p.stage == MountStage::CheckingContent,
        found != PathKind::Directory,
        r.wf(),
        r.changing.contains(p.paths.content),
    ensures
        ({
            let events = seq![Event::Inspected(found), first, second, third];
            let s0 = mount_run(p, r, events, listing, 0);
            let s1 = mount_run(p, r, events, listing, 1);
            let s2 = mount_run(p, r, events, listing, 2);
            let s3 = mount_run(p, r, events, listing, 3);
            let all_well = first == Event::Ran(Outcome::Success) && second == Event::Ran(
                Outcome::Success,
            ) && third == Event::DirsRemoved(true);
            &&& s0.action == ActionView::Run(unmount_command(p.config, p.paths.transform_mount))
            &&& first == Event::Ran(Outcome::Success) ==> s1.action == ActionView::Run(
                unmount_command(p.config, p.paths.archive_mount),
            )
            &&& first == Event::Ran(Outcome::Success) && second == Event::Ran(Outcome::Success)
                ==> s2.action == ActionView::RemoveDirs(
                p.paths.transform_mount,
                p.paths.archive_mount,
            )
            &&& all_well ==> s3.action == ActionView::Reply(
                response(500, "No content folder."@),
            )
            &&& s3.action is Reply && s3.action->Reply_0.status == 500
            &&& s3.pipeline.stage == MountStage::Finished
            &&& s3.registry == r.release(p.paths.content)
            &&& s3.registry.idle(p.paths.content)
        }),
{
    let events = seq![Event::Inspected(found), first, second, third];
    let s0 = mount_run(p, r, events, listing, 0);
    assert(s0.pipeline.stage == MountStage::CleaningUp(CleanupStage::UnmountingTransform));
    assert(s0.registry == r);
    let s1 = mount_run(p, r, events, listing, 1);
    let s2 = mount_run(p, r, events, listing, 2);
    let s3 = mount_run(p, r, events, listing, 3);
    let gone = r.release(p.paths.content);
    assert(gone.release(p.paths.content).changing =~= gone.changing);
    if first == Event::Ran(Outcome::Success) {
        assert(s1.pipeline.stage == MountStage::CleaningUp(CleanupStage::UnmountingArchive));
        assert(s1.registry == r);
        if second == Event::Ran(Outcome::Success) {
            assert(s2.pipeline.stage == MountStage::CleaningUp(
                CleanupStage::RemovingDirectories,
            ));
            assert(s2.registry == r);
            assert(s3.pipeline.stage == MountStage::Finished);
            assert(s3.registry == gone);
        } else {
            assert(s2.pipeline.stage == MountStage::Finished);
            assert(s2.registry == gone);
            assert(s3.registry == gone);
        }
    } else {
        assert(s1.pipeline.stage == MountStage::Finished);
        assert(s1.registry == gone);
        assert(s2.pipeline.stage == MountStage::Finished);
        assert(s2.registry == gone);
        assert(s3.registry == gone);
    }
}

/// A mount request is over exactly when it asks for the answer to be sent:
/// a step ends at the last stage if and only if its action is a `Reply`.
pub proof fn lemma_reply_ends_mount(
    p: PipelineView<MountStage>,
    r: RegistryView,
    event: Event,
    listing: Seq<Seq<char>>,
)
    ensures
        mount_step(p, r, event, listing).action is Reply <==> mount_step(
            p,
            r,
            event,
            listing,
        ).pipeline.stage == MountStage::Finished,
{
}

/// An unmount request is over exactly when it asks for the answer to be
/// sent: a step ends at the last stage if and only if its action is a
/// `Reply`.
pub proof fn lemma_reply_ends_unmount(
    p: PipelineView<UnmountStage>,
    r: RegistryView,
    event: Event,
    listing: Seq<Seq<char>>,
)
    ensures
        unmount_step(p, r, event, listing).action is Reply <==> unmount_step(
            p,
            r,
            event,
            listing,
        ).pipeline.stage == UnmountStage::Finished,
{
}

/// Every answer to a mount request carries one of the status codes 200,
/// 201, 400, 409 and 500.
pub proof fn lemma_mount_answer_status(
    p: PipelineView<MountStage>,
    r: RegistryView,
    event: Event,
    listing: Seq<Seq<char>>,
)
    ensures
        match mount_step(p, r, event, listing).action {
            ActionView::Reply(answer) => answer.status == 200 || answer.status == 201
                || answer.status == 400 || answer.status == 409 || answer.status == 500,
            _ => true,
        },
{
}

/// Every answer to an unmount request carries one of the status codes 200,
/// 201, 409 and 500.
pub proof fn lemma_unmount_answer_status(
    p: PipelineView<UnmountStage>,
    r: RegistryView,
    event: Event,
    listing: Seq<Seq<char>>,
)
    ensures
        match unmount_step(p, r, event, listing).action {
            ActionView::Reply(answer) => answer.status == 200 || answer.status == 201
                || answer.status == 409 || answer.status == 500,
            _ => true,
        },
{
}

/// The union is remounted for a mount over the base directory, then the new
/// content path, then every path that is live, each once; the new path is
/// not among the live ones, so it is named once too.
pub proof fn lemma_mount_remounts_over_all_layers(
    p: PipelineView<MountStage>,
    r: RegistryView,
    listing: Seq<Seq<char>>,
)
    requires
        p.stage == MountStage::DetachingUnion,
        r.wf(),
        r.changing.contains(p.paths.content),
        is_listing(listing, r.mounted),
    ensures
        ({
            let step = mount_step(p, r, Event::Ran(Outcome::Success), listing);
            let layers = seq![p.config.base_dir, p.paths.content] + listing;
            &&& step.action == ActionView::Run(union_attach_command(p.config, layers))
            &&& !listing.contains(p.paths.content)
            &&& forall|live: Seq<char>| r.mounted.contains(live) <==> listing.contains(live)
        }),
{
    assert forall|live: Seq<char>| r.mounted.contains(live) <==> listing.contains(live) by {
        assert(listing.to_set().contains(live) <==> listing.contains(live));
    }
}

/// The union is remounted for an unmount over the base directory and every
/// path that is still live, each once; the path that is being removed is not
/// among them.
pub proof fn lemma_unmount_remounts_over_remaining_layers(
    p: PipelineView<UnmountStage>,
    r: RegistryView,
    listing: Seq<Seq<char>>,
)
    requires
        p.stage == UnmountStage::DetachingUnion,
        r.wf(),
        r.changing.contains(p.paths.content),
        is_listing(listing, r.mounted),
    ensures
        ({
            let step = unmount_step(p, r, Event::Ran(Outcome::Success), listing);
            let layers = seq![p.config.base_dir] + listing;
            &&& step.action == ActionView::Run(union_attach_command(p.config, layers))
            &&& !listing.contains(p.paths.content)
            &&& forall|live: Seq<char>| r.mounted.contains(live) <==> listing.contains(live)
        }),
{
    assert forall|live: Seq<char>| r.mounted.contains(live) <==> listing.contains(live) by {
        assert(listing.to_set().contains(live) <==> listing.contains(live));
    }
}

/// A mount request makes its content path live at one step only: when the
/// remount of the union has succeeded. No step of it takes a path out of
/// `mounted`.
pub proof fn lemma_mount_promotes_after_remount_only(
    p: PipelineView<MountStage>,
    r: RegistryView,
    event: Event,
    listing: Seq<Seq<char>>,
)
    ensures
        ({
            let step = mount_step(p, r, event, listing);
            &&& step.registry.mounted != r.mounted ==> p.stage == MountStage::AttachingUnion
                && event == Event::Ran(Outcome::Success) && step.registry == r.promote(
                p.paths.content,
            )
            &&& r.mounted.subset_of(step.registry.mounted)
        }),
{
}

/// An unmount request takes its content path out of `mounted` at its first
/// step only, before anything is asked for. No step of it puts a path into
/// `mounted`.
pub proof fn lemma_unmount_demotes_at_start_only(
    p: PipelineView<UnmountStage>,
    r: RegistryView,
    event: Event,
    listing: Seq<Seq<char>>,
)
    ensures
        ({
            let step = unmount_step(p, r, event, listing);
            &&& step.registry.mounted != r.mounted ==> p.stage == UnmountStage::NotStarted
                && event == Event::Requested && step.registry == r.demote(p.paths.content)
            &&& step.registry.mounted.subset_of(r.mounted)
        }),
{
}

} // verus!
