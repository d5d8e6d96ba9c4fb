//! What holds of every launch, whatever the system answers: the order of
//! the launcher's actions, the teardown that no failure can skip, and the
//! exit code with which the launch ends.

use crate::cgroups::CGROUP_PATH;
use crate::child::{child_plan_of, ChildActionModel, ChildEventModel, ChildModel, ChildPhase};
use crate::container::{
    child_namespaces, exit_status, id_maps_plan, ActionModel, Event, LaunchConfigModel,
    LaunchModel, Phase, WaitOutcome,
};
use crate::fs::{
    filesystem_plan, mount_dir, overlay_dirs_plan, upper_dir, work_dir, DirEntryModel, MS_PRIVATE,
    MS_REC,
};
use crate::init::{Init, InitActionModel, InitEvent, InitPhase};
use crate::plan::{required, OpModel, StepModel};
use crate::text::path_join;
use vstd::prelude::*;

verus! {

/// The actions that a launch in state `s` asks for, one after the other,
/// when `events` answer them in turn.
pub open spec fn actions(s: LaunchModel, events: Seq<Event>) -> Seq<ActionModel>
    decreases events.len(),
{
    if events.len() == 0 {
        Seq::empty()
    } else {
        seq![s.step(events[0]).1] + actions(s.step(events[0]).0, events.drop_first())
    }
}

/// The state of a launch that started in state `s` after `events`.
pub open spec fn state_after(s: LaunchModel, events: Seq<Event>) -> LaunchModel
    decreases events.len(),
{
    if events.len() == 0 {
        s
    } else {
        state_after(s.step(events[0]).0, events.drop_first())
    }
}

/// The actions that perform the steps of `plan`, in order.
pub open spec fn performing(plan: Seq<StepModel>) -> Seq<ActionModel> {
    plan.map_values(|step: StepModel| ActionModel::Perform(step))
}

/// Whether every event of `events` reports success.
pub open spec fn all_done(events: Seq<Event>) -> bool {
    forall|i: int| 0 <= i < events.len() ==> events[i] is Done
}

/// A launch that is answered first by `first` and then by `rest` asks for
/// what it asks when answered by `first`, and then for what the state
/// reached asks when answered by `rest`.
pub proof fn lemma_actions_split(s: LaunchModel, first: Seq<Event>, rest: Seq<Event>)
    ensures
        actions(s, first + rest) == actions(s, first) + actions(state_after(s, first), rest),
        state_after(s, first + rest) == state_after(state_after(s, first), rest),
    decreases first.len(),
{
    if first.len() > 0 {
        let all = first + rest;
        assert(all.drop_first() =~= first.drop_first() + rest);
        lemma_actions_split(s.step(first[0]).0, first.drop_first(), rest);
    }
}

/// While a plan is walked, each answer brings the next step of the plan:
/// in the preparation as long as the answers report success, in the
/// teardown whatever they report.
proof fn lemma_walk(s: LaunchModel, events: Seq<Event>)
    requires
        s.phase == Phase::Configuring || s.phase == Phase::TearingDown,
        events.len() == s.pending.len(),
        s.phase == Phase::Configuring ==> all_done(events),
    ensures
        actions(s, events) == performing(s.pending),
        state_after(s, events).phase == s.phase,
        state_after(s, events).pending == Seq::<StepModel>::empty(),
        state_after(s, events).failed == s.failed,
        state_after(s, events).exit == s.exit,
        state_after(s, events).uid == s.uid,
        state_after(s, events).cgroup == s.cgroup,
    decreases events.len(),
{
    if events.len() > 0 {
        let next = s.step(events[0]).0;
        assert forall|i: int| 0 <= i < events.drop_first().len() implies events.drop_first()[i]
            is Done || next.phase == Phase::TearingDown by {
        }
        lemma_walk(next, events.drop_first());
    }
}

/// The opening of every launch: the pipe is made, the caller's ids are
/// read, the child is cloned into its five namespaces, and the
/// launcher's copy of the pipe's read end is closed, in this order.
pub proof fn lemma_opening(s: LaunchModel, first: Event, uid: u32, gid: u32, pid: i32)
    requires
        s.phase == Phase::Start,
    ensures
        actions(s, seq![first, Event::Done, Event::Ids { uid, gid }, Event::Cloned { pid }])
            == seq![
            ActionModel::CreatePipe,
            ActionModel::QueryIds,
            ActionModel::CloneChild { namespaces: child_namespaces() },
            ActionModel::CloseReadEnd,
        ],
        state_after(s, seq![first, Event::Done, Event::Ids { uid, gid }, Event::Cloned { pid }])
            == (LaunchModel { phase: Phase::ClosingReadEnd, uid, gid, child: pid, ..s }),
{
    let events = seq![first, Event::Done, Event::Ids { uid, gid }, Event::Cloned { pid }];
    let s1 = s.step(events[0]).0;
    let s2 = s1.step(events[1]).0;
    let s3 = s2.step(events[2]).0;
    let s4 = s3.step(events[3]).0;
    let e1 = events.drop_first();
    let e2 = e1.drop_first();
    let e3 = e2.drop_first();
    let e4 = e3.drop_first();
    assert(actions(s4, e4) =~= Seq::<ActionModel>::empty());
    assert(actions(s3, e3) =~= seq![ActionModel::CloseReadEnd]);
    assert(actions(s2, e2) =~= seq![
        ActionModel::CloneChild { namespaces: child_namespaces() },
        ActionModel::CloseReadEnd,
    ]);
    assert(actions(s1, e1) =~= seq![
        ActionModel::QueryIds,
        ActionModel::CloneChild { namespaces: child_namespaces() },
        ActionModel::CloseReadEnd,
    ]);
    assert(state_after(s4, e4) == s4);
    assert(state_after(s3, e3) == s4);
    assert(state_after(s2, e2) == s4);
    assert(state_after(s1, e1) == s4);
}

/// Before there is a child, the first failure ends the launch at once,
/// with exit code 1 and with nothing to remove: a launch that cannot make
/// its pipe, read the caller's ids or clone the child asks for nothing
/// more.
pub proof fn lemma_failure_before_clone(s: LaunchModel, event: Event)
    requires
        s.phase == Phase::CreatingPipe && !(event is Done) || s.phase == Phase::QueryingIds && !(event
            is Ids) || s.phase == Phase::Cloning && !(event is Cloned),
    ensures
        s.step(event).1 == (ActionModel::Finish { code: 1 }),
        s.step(event).0.phase == Phase::Finished,
{
}

/// The preparation of the container when nothing fails: once the read
/// end is closed, the launcher performs its plan step by step, first the
/// three writes that map the ids, and releases the child only after the
/// last step.
pub proof fn lemma_preparation(s: LaunchModel, events: Seq<Event>)
    requires
        s.phase == Phase::ClosingReadEnd,
        events.len() == s.configure_plan().len() + 1,
        all_done(events),
    ensures
        actions(s, events) == performing(s.configure_plan()) + seq![ActionModel::Release],
        state_after(s, events).phase == Phase::Releasing,
        state_after(s, events).failed == s.failed,
        state_after(s, events).uid == s.uid,
        state_after(s, events).cgroup == s.cgroup,
        s.configure_plan().take(3) == id_maps_plan(s.child, s.uid, s.gid),
{
    reveal_with_fuel(actions, 3);
    reveal_with_fuel(state_after, 3);
    let walked = events.subrange(1, events.len() - 1);
    let last = events.subrange(events.len() - 1, events.len() as int);
    let head = events.take(1);
    assert(events =~= head + (walked + last));
    let s1 = s.step(events[0]).0;
    lemma_actions_split(s, head, walked + last);
    lemma_actions_split(s1, walked, last);
    assert(all_done(walked)) by {
        assert forall|i: int| 0 <= i < walked.len() implies walked[i] is Done by {
        }
    }
    lemma_walk(s1, walked);
}

/// Whether a step writes to a file below `/proc/`.
pub open spec fn writes_proc(step: StepModel) -> bool {
    step.op matches OpModel::WriteFile { path, .. } && path.len() >= 6 && path.take(6)
        == "/proc/"@
}

/// The id maps are written once: in the plan of the launcher of a
/// container with the cgroup `toy_container`, the first three steps write
/// the user map, the refusal of `setgroups` and the group map of the
/// child, in this order, and no later step writes below `/proc/` again.
pub proof fn lemma_id_maps_once(s: LaunchModel)
    requires
        s.cgroup.path == path_join(CGROUP_PATH@, "toy_container"@),
        s.cgroup.cgroup == "leaf"@,
    ensures
        s.configure_plan().take(3) == id_maps_plan(s.child, s.uid, s.gid),
        forall|i: int|
            0 <= i < s.configure_plan().len() ==> (writes_proc(#[trigger] s.configure_plan()[i])
                <==> i < 3),
{
    reveal_strlit("/proc/");
    reveal_strlit("/sys/fs/cgroup/");
    reveal_strlit("toy_container");
    reveal_strlit("leaf");
    reveal_strlit("cgroup.subtree_control");
    reveal_strlit("memory.max");
    reveal_strlit("cpu.max");
    reveal_strlit("cgroup.procs");
    let plan = s.configure_plan();
    assert forall|i: int| 0 <= i < plan.len() implies (writes_proc(#[trigger] plan[i]) <==> i
        < 3) by {
        if i < 3 {
            let path = plan[i].op->WriteFile_path;
            assert(path.take(6) =~= "/proc/"@);
        } else {
            lemma_host_plan_writes(s, i - 3);
        }
    }
}

/// Every file that the launcher writes for the host lies below `/sys`.
proof fn lemma_host_plan_writes(s: LaunchModel, i: int)
    requires
        s.cgroup.path == path_join(CGROUP_PATH@, "toy_container"@),
        s.cgroup.cgroup == "leaf"@,
        0 <= i < s.host_plan().len(),
    ensures
        !writes_proc(s.host_plan()[i]),
{
    reveal_strlit("/proc/");
    reveal_strlit("/sys/fs/cgroup/");
    reveal_strlit("toy_container");
    reveal_strlit("leaf");
    reveal_strlit("cgroup.subtree_control");
    reveal_strlit("memory.max");
    reveal_strlit("cpu.max");
    reveal_strlit("cgroup.procs");
    let step = s.host_plan()[i];
    if i >= 13 && step.op is WriteFile {
        let path = step.op->WriteFile_path;
        assert(path.take(6)[1] == path[1]);
    }
}

/// A failure while the container is prepared ends the preparation: the
/// launcher closes the pipe without the byte, so that the child gives up.
/// This holds where the read end cannot be closed and where a required
/// step fails; the failure is remembered.
pub proof fn lemma_failed_preparation(s: LaunchModel, event: Event)
    requires
        s.phase == Phase::ClosingReadEnd || (s.phase == Phase::Configuring
            && s.in_flight_required),
        !(event is Done),
    ensures
        s.step(event).1 == ActionModel::Abort,
        s.step(event).0.phase == Phase::Aborting,
        s.step(event).0.failed,
        s.step(event).0.uid == s.uid,
        s.step(event).0.cgroup == s.cgroup,
{
}

/// The code with which a launch ends that has waited for its child: 1
/// where the launch itself failed or the wait did, else the code that
/// stands for the child's end.
pub open spec fn code_after(failed: bool, waited: Event) -> i32 {
    match waited {
        Event::Waited(outcome) => if failed {
            1
        } else {
            exit_status(outcome) as i32
        },
        _ => 1,
    }
}

/// One answer brings one action.
proof fn lemma_single(s: LaunchModel, events: Seq<Event>)
    requires
        events.len() == 1,
    ensures
        actions(s, events) == seq![s.step(events[0]).1],
        state_after(s, events) == s.step(events[0]).0,
{
    reveal_with_fuel(actions, 2);
    reveal_with_fuel(state_after, 2);
}

/// From the wait on: a launcher that runs as root walks the teardown,
/// whatever it is told, and then ends.
proof fn lemma_after_wait(s: LaunchModel, events: Seq<Event>)
    requires
        s.phase == Phase::Waiting,
        events.len() == 1 + (if s.uid == 0 {
            s.teardown_plan().len()
        } else {
            0
        }),
    ensures
        actions(s, events) == (if s.uid == 0 {
            performing(s.teardown_plan())
        } else {
            Seq::empty()
        }) + seq![ActionModel::Finish { code: code_after(s.failed, events[0]) }],
        state_after(s, events).phase == Phase::Finished,
{
    let head = events.take(1);
    let rest = events.skip(1);
    lemma_single(s, head);
    lemma_actions_split(s, head, rest);
    let s1 = s.step(events[0]).0;
    if s.uid == 0 {
        let walked = rest.take(2);
        let last = rest.skip(2);
        assert(rest =~= walked + last);
        lemma_actions_split(s1, walked, last);
        lemma_walk(s1, walked);
        let s2 = state_after(s1, walked);
        lemma_single(s2, last);
    }
}

/// The ending of every launch that has a child. Whether the child was
/// released or told to give up, the launcher waits for it; a launcher
/// that runs as root then deletes the bridge and removes the cgroup,
/// the leaf before the group, whatever the wait and each removal
/// reported; only then the launch ends, with the child's own exit code,
/// with 128 plus the number of the signal that killed the child, or with
/// 1 where the launch itself failed.
pub proof fn lemma_ending(s: LaunchModel, events: Seq<Event>)
    requires
        s.phase == Phase::Releasing || s.phase == Phase::Aborting,
        events.len() == 2 + (if s.uid == 0 {
            s.teardown_plan().len()
        } else {
            0
        }),
    ensures
        actions(s, events) == seq![ActionModel::Wait] + (if s.uid == 0 {
            performing(s.teardown_plan())
        } else {
            Seq::empty()
        }) + seq![
            ActionModel::Finish {
                code: code_after(
                    s.failed || (s.phase == Phase::Releasing && !(events[0] is Done)),
                    events[1],
                ),
            },
        ],
        state_after(s, events).phase == Phase::Finished,
{
    let head = events.take(1);
    let rest = events.skip(1);
    lemma_single(s, head);
    lemma_actions_split(s, head, rest);
    let s1 = s.step(events[0]).0;
    lemma_after_wait(s1, rest);
}

/// A whole launch in which nothing fails, from its first move to its
/// last. The launcher makes the pipe, reads the caller's ids, clones the
/// child and closes its copy of the read end; it performs its plan,
/// first the id maps and, as root, what the host needs; it releases the
/// child and waits for it; as root, it removes the bridge and the cgroup;
/// and it ends with the code that stands for the child's end.
pub proof fn lemma_whole_launch(
    s: LaunchModel,
    uid: u32,
    gid: u32,
    pid: i32,
    outcome: WaitOutcome,
    opening: Seq<Event>,
    preparing: Seq<Event>,
    ending: Seq<Event>,
)
    requires
        s.phase == Phase::Start,
        !s.failed,
        opening == seq![Event::Done, Event::Done, Event::Ids { uid, gid }, Event::Cloned { pid }],
        preparing.len() == (LaunchModel { uid, gid, child: pid, ..s }).configure_plan().len() + 1,
        all_done(preparing),
        ending.len() == 2 + (if uid == 0 {
            s.teardown_plan().len()
        } else {
            0
        }),
        ending[0] == Event::Done,
        ending[1] == Event::Waited(outcome),
    ensures
        actions(s, opening + preparing + ending) == seq![
            ActionModel::CreatePipe,
            ActionModel::QueryIds,
            ActionModel::CloneChild { namespaces: child_namespaces() },
            ActionModel::CloseReadEnd,
        ] + performing((LaunchModel { uid, gid, child: pid, ..s }).configure_plan()) + seq![
            ActionModel::Release,
            ActionModel::Wait,
        ] + (if uid == 0 {
            performing(s.teardown_plan())
        } else {
            Seq::empty()
        }) + seq![ActionModel::Finish { code: exit_status(outcome) as i32 }],
{
    lemma_opening(s, Event::Done, uid, gid, pid);
    let s1 = state_after(s, opening);
    lemma_preparation(s1, preparing);
    let s2 = state_after(s1, preparing);
    lemma_ending(s2, ending);
    lemma_actions_split(s, opening, preparing + ending);
    lemma_actions_split(s1, preparing, ending);
    assert(opening + preparing + ending =~= opening + (preparing + ending));
}

/// The exit code of the command reaches the caller of the launcher
/// unchanged. When the command ends, the supervisor inside the container
/// leaves with the code that stands for the command's end: the command's
/// own exit code, or 128 plus the number of the signal that killed it.
/// The launcher, which waits for the supervisor, ends with that same
/// code, after its teardown, unless the launch itself has failed.
pub proof fn lemma_exit_code(
    init: Init,
    outcome: WaitOutcome,
    s: LaunchModel,
    events: Seq<Event>,
)
    requires
        init.phase == InitPhase::Reaping,
        outcome is Exited || outcome is Signaled,
        s.phase == Phase::Waiting,
        !s.failed,
        events.len() == 1 + (if s.uid == 0 {
            s.teardown_plan().len()
        } else {
            0
        }),
        events[0] == Event::Waited(
            WaitOutcome::Exited(
                init.next(InitEvent::Reaped { pid: init.workload, outcome }).0.code,
            ),
        ),
    ensures
        init.next(InitEvent::Reaped { pid: init.workload, outcome }).1 == (InitActionModel::Exit {
            code: exit_status(outcome) as i32,
        }),
        actions(s, events).last() == (ActionModel::Finish { code: exit_status(outcome) as i32 }),
        outcome matches WaitOutcome::Exited(code) ==> exit_status(outcome) == code,
        outcome matches WaitOutcome::Signaled(signal) ==> exit_status(outcome) == 128 + signal,
{
    lemma_after_wait(s, events);
}

/// Whether an operation changes what is mounted where.
pub open spec fn touches_mounts(op: OpModel) -> bool {
    op is Mount || op is PivotRoot || op is Unmount
}

/// Whether no step of `plan` changes what is mounted where.
pub open spec fn mounts_nothing(plan: Seq<StepModel>) -> bool {
    forall|i: int| 0 <= i < plan.len() ==> !touches_mounts(#[trigger] plan[i].op)
}

/// Two plans that mount nothing make one that mounts nothing.
proof fn lemma_mounts_nothing_joined(a: Seq<StepModel>, b: Seq<StepModel>)
    requires
        mounts_nothing(a),
        mounts_nothing(b),
    ensures
        mounts_nothing(a + b),
{
    assert forall|i: int| 0 <= i < (a + b).len() implies !touches_mounts(
        #[trigger] (a + b)[i].op,
    ) by {
    }
}

/// The launcher itself never mounts or unmounts anything, neither while
/// it prepares the container nor while it tears down: the mounts of the
/// host are not its business. Every mount of a launch belongs to the
/// child, inside the child's own mount namespace.
pub proof fn lemma_launcher_mounts_nothing(s: LaunchModel)
    ensures
        mounts_nothing(s.configure_plan()),
        mounts_nothing(s.teardown_plan()),
{
    let ids = id_maps_plan(s.child, s.uid, s.gid);
    let scratch = overlay_dirs_plan(s.config.fs_root);
    let bridge = crate::net::bridge_plan(s.host_ip);
    let veth = crate::net::veth_pair_plan();
    let moving = crate::net::move_plan(s.child);
    let base = s.cgroup.base_plan(s.cgroup.memory is Some, s.cgroup.cpu_max is Some);
    let limits = s.cgroup.limits_plan();
    let attach = seq![
        crate::cgroups::write(
            s.cgroup.leaf_file("cgroup.procs"@),
            crate::text::signed_decimal(s.child as int),
        ),
    ];
    lemma_mounts_nothing_joined(scratch, bridge);
    lemma_mounts_nothing_joined(scratch + bridge, veth);
    lemma_mounts_nothing_joined(scratch + bridge + veth, moving);
    lemma_mounts_nothing_joined(base, limits);
    lemma_mounts_nothing_joined(scratch + bridge + veth + moving, base + limits);
    lemma_mounts_nothing_joined(scratch + bridge + veth + moving + (base + limits), attach);
    lemma_mounts_nothing_joined(ids, s.host_plan());
    lemma_mounts_nothing_joined(crate::net::cleanup_plan(), s.cgroup.cleanup_plan());
}

/// The step that stops mounts from spreading between the child's mount
/// tree and the host's.
pub open spec fn private_root() -> StepModel {
    required(
        OpModel::Mount {
            source: None,
            target: "/"@,
            fstype: None,
            flags: MS_REC | MS_PRIVATE,
            data: None,
        },
    )
}

/// In the child, nothing is mounted before the whole mount tree has been
/// made private: the step that does so stands in the child's plan before
/// every other step that changes what is mounted where. What the child
/// mounts afterwards stays inside its own mount namespace.
pub proof fn lemma_private_before_mounts(
    config: LaunchConfigModel,
    parent_is_root: bool,
    entries: Seq<DirEntryModel>,
)
    ensures
        ({
            let plan = child_plan_of(config, parent_is_root, entries);
            let first: int = if parent_is_root {
                0
            } else {
                6
            };
            &&& first < plan.len()
            &&& plan[first] == private_root()
            &&& mounts_nothing(plan.take(first))
        }),
{
}

/// Every launch starts from empty scratch directories. The upper
/// directory, the work directory and the mount point of the overlay are
/// each removed with all they hold and then created anew, whatever an
/// earlier launch has left in them: by the launcher where it runs as
/// root, right after the id maps, and else by the child, as the first
/// thing it does once released. In both cases this is done before the
/// overlay is mounted.
pub proof fn lemma_scratch_reset(
    s: LaunchModel,
    config: LaunchConfigModel,
    entries: Seq<DirEntryModel>,
)
    ensures
        overlay_dirs_plan(config.fs_root) == seq![
            required(OpModel::RemoveTree { path: upper_dir(config.fs_root) }),
            required(OpModel::CreateDirAll { path: upper_dir(config.fs_root) }),
            required(OpModel::RemoveTree { path: work_dir(config.fs_root) }),
            required(OpModel::CreateDirAll { path: work_dir(config.fs_root) }),
            required(OpModel::RemoveTree { path: mount_dir(config.fs_root) }),
            required(OpModel::CreateDirAll { path: mount_dir(config.fs_root) }),
        ],
        s.uid == 0 ==> s.configure_plan().subrange(3, 9) == overlay_dirs_plan(s.config.fs_root),
        child_plan_of(config, false, entries).take(6) == overlay_dirs_plan(config.fs_root),
        child_plan_of(config, false, entries)[6] == private_root(),
        child_plan_of(config, true, entries)[0] == private_root(),
{
    lemma_private_before_mounts(config, false, entries);
    lemma_private_before_mounts(config, true, entries);
}

/// The actions that a child in state `s` asks for, one after the other,
/// when `events` answer them in turn.
pub open spec fn child_actions(s: ChildModel, events: Seq<ChildEventModel>) -> Seq<
    ChildActionModel,
>
    decreases events.len(),
{
    if events.len() == 0 {
        Seq::empty()
    } else {
        seq![s.step(events[0]).1] + child_actions(s.step(events[0]).0, events.drop_first())
    }
}

/// Whether an action leaves the system as it is: the child only closes
/// its write end, waits at the pipe, or leaves.
pub open spec fn harmless(action: ChildActionModel) -> bool {
    action is CloseWriteEnd || action is ReadRelease || action is Exit
}

/// Whether the child has not been released: it stands before the wait at
/// the pipe or in it, or it has left.
pub open spec fn unreleased(s: ChildModel) -> bool {
    s.phase == ChildPhase::Start || s.phase == ChildPhase::ClosingWriteEnd || s.phase
        == ChildPhase::AwaitingRelease || s.phase == ChildPhase::Finished
}

/// The barrier between launcher and child. Until the byte of the
/// launcher has come out of the pipe, the child touches nothing: however
/// its questions are answered, as long as no answer reports that one byte
/// was read, the child asks only to close its write end, to read from
/// the pipe, and to leave.
pub proof fn lemma_release_barrier(s: ChildModel, events: Seq<ChildEventModel>)
    requires
        unreleased(s),
        forall|i: int| 0 <= i < events.len() ==> events[i] != (ChildEventModel::Read { bytes: 1 }),
    ensures
        forall|i: int|
            0 <= i < child_actions(s, events).len() ==> harmless(
                #[trigger] child_actions(s, events)[i],
            ),
    decreases events.len(),
{
    if events.len() > 0 {
        let next = s.step(events[0]).0;
        let rest = events.drop_first();
        assert forall|i: int| 0 <= i < rest.len() implies rest[i] != (ChildEventModel::Read {
            bytes: 1,
        }) by {
        }
        lemma_release_barrier(next, rest);
        let all = child_actions(s, events);
        assert forall|i: int| 0 <= i < all.len() implies harmless(#[trigger] all[i]) by {
            if i > 0 {
                assert(all[i] == child_actions(next, rest)[i - 1]);
            }
        }
    }
}

/// The way of a released child when nothing fails: with the listing of
/// the layers in hand, the child performs its plan step by step and forks
/// only after the last step.
pub proof fn lemma_child_preparation(
    s: ChildModel,
    entries: Seq<DirEntryModel>,
    events: Seq<ChildEventModel>,
)
    requires
        s.phase == ChildPhase::Listing,
        crate::net::network_size(s.config.network_prefix_len) >= 4,
        events.len() == child_plan_of(s.config, s.parent_is_root, entries).len() + 1,
        events[0] == (ChildEventModel::Listed { entries }),
        forall|i: int| 1 <= i < events.len() ==> events[i] is Done,
    ensures
        child_actions(s, events) == child_plan_of(
            s.config,
            s.parent_is_root,
            entries,
        ).map_values(|step: StepModel| ChildActionModel::Perform(step)) + seq![
            ChildActionModel::Fork,
        ],
{
    lemma_private_before_mounts(s.config, s.parent_is_root, entries);
    let s1 = s.step(events[0]).0;
    let rest = events.drop_first();
    assert forall|i: int| 0 <= i < rest.len() implies rest[i] is Done by {
    }
    lemma_child_walk(s1, rest);
}

/// While the child walks its plan and every step succeeds, each answer
/// brings the next step, and the last one the fork.
proof fn lemma_child_walk(s: ChildModel, events: Seq<ChildEventModel>)
    requires
        s.phase == ChildPhase::Preparing,
        events.len() == s.pending.len() + 1,
        forall|i: int| 0 <= i < events.len() ==> events[i] is Done,
    ensures
        child_actions(s, events) == s.pending.map_values(
            |step: StepModel| ChildActionModel::Perform(step),
        ) + seq![ChildActionModel::Fork],
    decreases events.len(),
{
    let next = s.step(events[0]).0;
    let rest = events.drop_first();
    if s.pending.len() == 0 {
        assert(child_actions(next, rest) =~= Seq::<ChildActionModel>::empty());
    } else {
        assert forall|i: int| 0 <= i < rest.len() implies rest[i] is Done by {
        }
        lemma_child_walk(next, rest);
    }
}

} // verus!
