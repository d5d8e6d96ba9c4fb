//! The launch itself: what a launch is given, how the outcome of a child
//! becomes an exit code, how a finished command is judged, and the
//! launcher's course from the first pipe to the last removed directory.

use crate::cgroups::{container_cgroup, limits_fault, Cgroup, CgroupError, CgroupModel};
use crate::fs::{create_overlay_dirs, overlay_dirs_plan};
use crate::net::{
    bridge_plan, cleanup_network, cleanup_plan, ips_from_cidr, move_into_container, move_plan,
    network_size, veth_pair_plan, Ipv4Network, NetError,
};
use crate::plan::{required, Op, OpModel, Step, StepModel};
use crate::text::{
    decimal, followed_by, join_strings, joined, push_decimal, signed_decimal,
    signed_decimal_string,
};
use vstd::prelude::*;
use vstd::string::*;

verus! {

/// How a child process ended, as far as the launcher tells outcomes apart.
#[derive(Clone, Copy, Debug, PartialEq, Eq, Structural)]
pub enum WaitOutcome {
    /// The child exited on its own, with this code.
    Exited(i32),
    /// The child was killed by the signal with this number.
    Signaled(u8),
    /// Any other change of state.
    Other,
}

/// The exit code that stands for an outcome: the child's own code where
/// it exited, 128 plus the signal's number where a signal killed it, and
/// 1 for anything else.
pub open spec fn exit_status(outcome: WaitOutcome) -> int {
    match outcome {
        WaitOutcome::Exited(code) => code as int,
        WaitOutcome::Signaled(signal) => 128 + signal,
        WaitOutcome::Other => 1,
    }
}

/// The exit code that stands for `outcome`.
pub fn exit_code(outcome: WaitOutcome) -> (code: i32)
    ensures
        code == exit_status(outcome),
{
    match outcome {
        WaitOutcome::Exited(code) => code,
        WaitOutcome::Signaled(signal) => 128 + signal as i32,
        WaitOutcome::Other => 1,
    }
}

/// How a command that was run to its end turned out.
#[derive(Clone, Copy, Debug, PartialEq, Eq, Structural)]
pub enum CommandStatus {
    /// The command could not be started.
    NotStarted,
    /// The command ran and exited with this code.
    Exited(i32),
    /// The command ran and was ended by a signal.
    Signaled,
}

/// Why a command counts as failed.
#[derive(Clone, Debug, PartialEq, Eq)]
pub enum CommandError {
    /// The command could not be started.
    Spawn { cmd: String, args: Vec<String> },
    /// The command exited with a code other than zero.
    NonZeroExit { cmd: String, args: Vec<String>, code: i32 },
    /// The command was ended by a signal.
    Signal { cmd: String, args: Vec<String> },
}

/// What a `CommandError` says, as mathematical values.
pub enum CommandErrorModel {
    Spawn { cmd: Seq<char>, args: Seq<Seq<char>> },
    NonZeroExit { cmd: Seq<char>, args: Seq<Seq<char>>, code: i32 },
    Signal { cmd: Seq<char>, args: Seq<Seq<char>> },
}

impl DeepView for CommandError {
    type V = CommandErrorModel;

    open spec fn deep_view(&self) -> CommandErrorModel {
        match self {
            CommandError::Spawn { cmd, args } => CommandErrorModel::Spawn {
                cmd: cmd@,
                args: args.deep_view(),
            },
            CommandError::NonZeroExit { cmd, args, code } => CommandErrorModel::NonZeroExit {
                cmd: cmd@,
                args: args.deep_view(),
                code: *code,
            },
            CommandError::Signal { cmd, args } => CommandErrorModel::Signal {
                cmd: cmd@,
                args: args.deep_view(),
            },
        }
    }
}

/// The command line `cmd args...` as it is shown in messages: the command
/// in single quotes, then the arguments in square brackets, each in double
/// quotes, with `, ` between them.
pub open spec fn shown_command(cmd: Seq<char>, args: Seq<Seq<char>>) -> Seq<char> {
    "command '"@ + cmd + "' ["@ + joined(args.map_values(|a: Seq<char>| "\""@ + a + "\""@), ", "@)
        + "]"@
}

impl CommandErrorModel {
    /// The message of the error.
    pub open spec fn message(self) -> Seq<char> {
        match self {
            CommandErrorModel::Spawn { cmd, args } => "failed to spawn "@ + shown_command(
                cmd,
                args,
            ),
            CommandErrorModel::NonZeroExit { cmd, args, code } => shown_command(cmd, args)
                + " exited with non-zero status: "@ + signed_decimal(code as int),
            CommandErrorModel::Signal { cmd, args } => shown_command(cmd, args)
                + " terminated by signal"@,
        }
    }
}

/// What the run of `cmd` with `args` amounts to, given how it turned out:
/// success where it exited with code zero, else the error that says what
/// happened.
pub open spec fn command_result(
    cmd: Seq<char>,
    args: Seq<Seq<char>>,
    status: CommandStatus,
) -> Result<(), CommandErrorModel> {
    match status {
        CommandStatus::NotStarted => Err(CommandErrorModel::Spawn { cmd, args }),
        CommandStatus::Exited(code) => if code == 0 {
            Ok(())
        } else {
            Err(CommandErrorModel::NonZeroExit { cmd, args, code })
        },
        CommandStatus::Signaled => Err(CommandErrorModel::Signal { cmd, args }),
    }
}

/// The view of a result whose error has a model.
pub open spec fn result_view(r: Result<(), CommandError>) -> Result<(), CommandErrorModel> {
    match r {
        Ok(()) => Ok(()),
        Err(e) => Err(e.deep_view()),
    }
}

/// Judges the run of the command `cmd` with arguments `args` that ended
/// with `status`.
pub fn execute_command(cmd: &str, args: &[&str], status: CommandStatus) -> (r: Result<
    (),
    CommandError,
>)
    ensures
        result_view(r) == command_result(cmd@, args.deep_view(), status),
{
    match status {
        CommandStatus::NotStarted => Err(
            CommandError::Spawn { cmd: cmd.to_owned(), args: crate::plan::owned_list(args) },
        ),
        CommandStatus::Exited(code) => {
            if code == 0 {
                Ok(())
            } else {
                Err(
                    CommandError::NonZeroExit {
                        cmd: cmd.to_owned(),
                        args: crate::plan::owned_list(args),
                        code,
                    },
                )
            }
        },
        CommandStatus::Signaled => Err(
            CommandError::Signal { cmd: cmd.to_owned(), args: crate::plan::owned_list(args) },
        ),
    }
}

/// `cmd` with `args` as it is shown in messages.
fn show_command(cmd: &str, args: &Vec<String>) -> (s: String)
    ensures
        s@ == shown_command(cmd@, args.deep_view()),
{
    let mut quoted: Vec<String> = Vec::new();
    let mut i: usize = 0;
    let ghost quote = |a: Seq<char>| "\""@ + a + "\""@;
    while i < args.len()
        invariant
            i <= args.len(),
            quote == |a: Seq<char>| "\""@ + a + "\""@,
            quoted.deep_view() == args.deep_view().take(i as int).map_values(quote),
        decreases args.len() - i,
    {
        let mut item = followed_by("\"", args[i].as_str());
        item.append("\"");
        let ghost before = quoted.deep_view();
        quoted.push(item);
        assert(quoted.deep_view() =~= before.push(item@));
        i += 1;
    }
    assert(args.deep_view().take(i as int) =~= args.deep_view());
    let mut s = followed_by("command '", cmd);
    s.append("' [");
    s.append(join_strings(&quoted, ", ").as_str());
    s.append("]");
    s
}

impl CommandError {
    /// The message of the error, for people to read.
    pub fn message(&self) -> (m: String)
        ensures
            m@ == self.deep_view().message(),
    {
        match self {
            CommandError::Spawn { cmd, args } => {
                let mut m = "failed to spawn ".to_owned();
                m.append(show_command(cmd.as_str(), args).as_str());
                m
            },
            CommandError::NonZeroExit { cmd, args, code } => {
                let mut m = show_command(cmd.as_str(), args);
                m.append(" exited with non-zero status: ");
                m.append(signed_decimal_string(*code as i64).as_str());
                m
            },
            CommandError::Signal { cmd, args } => {
                let mut m = show_command(cmd.as_str(), args);
                m.append(" terminated by signal");
                m
            },
        }
    }
}

/// What a launch is given.
#[derive(Clone, Debug, PartialEq, Eq)]
pub struct LaunchConfig {
    /// The program to run in the container.
    pub command: String,
    /// The arguments of the program.
    pub args: Vec<String>,
    /// CPU quota as a decimal fraction of one core, such as `0.5`.
    pub cpu_quota: Option<String>,
    /// Memory limit, such as `max`, `1048576` or `64M`.
    pub memory_limit: Option<String>,
    /// Host name inside the container.
    pub hostname: Option<String>,
    /// Whether the container gives up its capabilities.
    pub drop_caps: bool,
    /// The directory that holds `rootfs` and the layers.
    pub fs_root: String,
    /// The network from which host and container take their addresses.
    pub container_cidr: Ipv4Network,
}

/// What a `LaunchConfig` says, as mathematical values.
pub struct LaunchConfigModel {
    pub command: Seq<char>,
    pub args: Seq<Seq<char>>,
    pub cpu_quota: Option<Seq<char>>,
    pub memory_limit: Option<Seq<char>>,
    pub hostname: Option<Seq<char>>,
    pub drop_caps: bool,
    pub fs_root: Seq<char>,
    pub network_base: u32,
    pub network_prefix_len: u8,
}

impl DeepView for LaunchConfig {
    type V = LaunchConfigModel;

    open spec fn deep_view(&self) -> LaunchConfigModel {
        LaunchConfigModel {
            command: self.command@,
            args: self.args.deep_view(),
            cpu_quota: self.cpu_quota.deep_view(),
            memory_limit: self.memory_limit.deep_view(),
            hostname: self.hostname.deep_view(),
            drop_caps: self.drop_caps,
            fs_root: self.fs_root@,
            network_base: self.container_cidr.base(),
            network_prefix_len: self.container_cidr.prefix_len(),
        }
    }
}

/// Why a launch was refused before anything was done.
#[derive(Clone, Copy, Debug, PartialEq, Eq, Structural)]
pub enum LaunchError {
    /// A resource limit is not well formed.
    Limit(CgroupError),
    /// The container network is too small.
    Network(NetError),
}

/// A kind of namespace that the container gets for itself.
#[derive(Clone, Copy, Debug, PartialEq, Eq, Structural)]
pub enum Namespace {
    Pid,
    User,
    Mount,
    Network,
    Uts,
}

/// The namespaces that the child is born into.
pub open spec fn child_namespaces() -> Seq<Namespace> {
    seq![Namespace::Pid, Namespace::User, Namespace::Mount, Namespace::Network, Namespace::Uts]
}

/// Where the launcher stands. Each phase but the first and the last names
/// the action whose outcome the launcher is waiting for.
#[derive(Clone, Copy, Debug, PartialEq, Eq, Structural)]
pub enum Phase {
    /// Nothing has been asked for yet.
    Start,
    /// The pipe between launcher and child is being made.
    CreatingPipe,
    /// The caller's effective user and group are being read.
    QueryingIds,
    /// The child is being cloned into its namespaces.
    Cloning,
    /// The launcher's copy of the pipe's read end is being closed.
    ClosingReadEnd,
    /// A step that prepares the container from outside is being performed.
    Configuring,
    /// The byte that lets the child go on is being written.
    Releasing,
    /// The pipe is being closed without the byte, after a failure.
    Aborting,
    /// The launcher is waiting for the child to end.
    Waiting,
    /// A step that removes what the launcher made on the host is being performed.
    TearingDown,
    /// The launch is over.
    Finished,
}

/// What the caller reports back after an action.
#[derive(Clone, Copy, Debug, PartialEq, Eq, Structural)]
pub enum Event {
    /// The action was carried out.
    Done,
    /// The action failed.
    Failed,
    /// The caller's effective user and group.
    Ids { uid: u32, gid: u32 },
    /// The child was cloned and has this process id.
    Cloned { pid: i32 },
    /// The child ended in this way.
    Waited(WaitOutcome),
}

/// What the launcher asks its caller to do next.
#[derive(Clone, Debug, PartialEq, Eq)]
pub enum Action {
    /// Make the pipe through which the child is released.
    CreatePipe,
    /// Read the effective user and group of the caller; answer with `Event::Ids`.
    QueryIds,
    /// Clone the child into new namespaces of these kinds, with `SIGCHLD`
    /// as its end signal; answer with `Event::Cloned`.
    CloneChild { namespaces: Vec<Namespace> },
    /// Close the read end of the pipe in the launcher.
    CloseReadEnd,
    /// Perform this step.
    Perform(Step),
    /// Write one byte to the pipe and close it: the child may go on.
    Release,
    /// Close the pipe without writing: the child must give up.
    Abort,
    /// Wait for the child to end; answer with `Event::Waited`.
    Wait,
    /// End the launch with this exit code.
    Finish { code: i32 },
}

/// What an `Action` says, as mathematical values.
pub enum ActionModel {
    CreatePipe,
    QueryIds,
    CloneChild { namespaces: Seq<Namespace> },
    CloseReadEnd,
    Perform(StepModel),
    Release,
    Abort,
    Wait,
    Finish { code: i32 },
}

impl DeepView for Action {
    type V = ActionModel;

    open spec fn deep_view(&self) -> ActionModel {
        match self {
            Action::CreatePipe => ActionModel::CreatePipe,
            Action::QueryIds => ActionModel::QueryIds,
            Action::CloneChild { namespaces } => ActionModel::CloneChild {
                namespaces: namespaces@,
            },
            Action::CloseReadEnd => ActionModel::CloseReadEnd,
            Action::Perform(step) => ActionModel::Perform(step.deep_view()),
            Action::Release => ActionModel::Release,
            Action::Abort => ActionModel::Abort,
            Action::Wait => ActionModel::Wait,
            Action::Finish { code } => ActionModel::Finish { code: *code },
        }
    }
}

/// The line that maps the id 0 inside the container to `id` outside.
pub open spec fn id_map_line(id: u32) -> Seq<char> {
    "0 "@ + decimal(id as nat) + " 1\n"@
}

/// The path of the file `name` of the process `pid` under `/proc`.
pub open spec fn proc_file(pid: i32, name: Seq<char>) -> Seq<char> {
    "/proc/"@ + signed_decimal(pid as int) + "/"@ + name
}

/// The step that writes `data` to the file `name` of the process `pid`.
pub open spec fn proc_write(pid: i32, name: Seq<char>, data: Seq<char>) -> StepModel {
    required(OpModel::WriteFile { path: proc_file(pid, name), contents: data })
}

/// The writes that map the container's root to the caller: the user map,
/// then the refusal of `setgroups`, then the group map.
pub open spec fn id_maps_plan(pid: i32, uid: u32, gid: u32) -> Seq<StepModel> {
    seq![
        proc_write(pid, "uid_map"@, id_map_line(uid)),
        proc_write(pid, "setgroups"@, "deny\n"@),
        proc_write(pid, "gid_map"@, id_map_line(gid)),
    ]
}

/// The step that writes `data` to the file `file_name` of the process
/// `child_pid` under `/proc`.
pub fn write_proc_file(child_pid: i32, file_name: &str, data: &str) -> (step: Step)
    ensures
        step.deep_view() == proc_write(child_pid, file_name@, data@),
{
    let mut path = followed_by("/proc/", signed_decimal_string(child_pid as i64).as_str());
    path.append("/");
    path.append(file_name);
    Step::required(Op::WriteFile { path, contents: data.to_owned() })
}

/// The writes that map the container's root to user `uid` and group `gid`.
pub fn map_ids(child_pid: i32, uid: u32, gid: u32) -> (plan: Vec<Step>)
    ensures
        plan.deep_view() == id_maps_plan(child_pid, uid, gid),
{
    let mut uid_line = "0 ".to_owned();
    push_decimal(&mut uid_line, uid as u64);
    uid_line.append(" 1\n");
    let mut gid_line = "0 ".to_owned();
    push_decimal(&mut gid_line, gid as u64);
    gid_line.append(" 1\n");
    let mut plan: Vec<Step> = Vec::new();
    plan.push(write_proc_file(child_pid, "uid_map", uid_line.as_str()));
    plan.push(write_proc_file(child_pid, "setgroups", "deny\n"));
    plan.push(write_proc_file(child_pid, "gid_map", gid_line.as_str()));
    plan
}

/// A launch under way: what it was given, where it stands, and what it
/// has learned so far.
#[derive(Clone, Debug, PartialEq, Eq)]
pub struct Launch {
    config: LaunchConfig,
    cgroup: Cgroup,
    host_ip: u32,
    phase: Phase,
    uid: u32,
    gid: u32,
    child: i32,
    pending: Vec<Step>,
    in_flight_required: bool,
    failed: bool,
    exit: i32,
}

/// What a `Launch` says, as mathematical values.
pub struct LaunchModel {
    /// What the launch was given.
    pub config: LaunchConfigModel,
    /// The cgroup of the container.
    pub cgroup: CgroupModel,
    /// The address of the bridge on the host.
    pub host_ip: u32,
    /// Where the launch stands.
    pub phase: Phase,
    /// Effective user of the caller; meaningful once it was read.
    pub uid: u32,
    /// Effective group of the caller; meaningful once it was read.
    pub gid: u32,
    /// Process id of the child; meaningful once it was cloned.
    pub child: i32,
    /// The steps of the current phase that are still to be performed.
    pub pending: Seq<StepModel>,
    /// Whether the step that is being performed must succeed.
    pub in_flight_required: bool,
    /// Whether something failed that the launch could not pass over.
    pub failed: bool,
    /// The exit code that the child's end stands for; 0 until then.
    pub exit: i32,
}

impl DeepView for Launch {
    type V = LaunchModel;

    closed spec fn deep_view(&self) -> LaunchModel {
        LaunchModel {
            config: self.config.deep_view(),
            cgroup: self.cgroup.deep_view(),
            host_ip: self.host_ip,
            phase: self.phase,
            uid: self.uid,
            gid: self.gid,
            child: self.child,
            pending: self.pending.deep_view(),
            in_flight_required: self.in_flight_required,
            failed: self.failed,
            exit: self.exit,
        }
    }
}

impl LaunchModel {
    /// What a launcher that runs as root prepares on the host: the scratch
    /// directories of the overlay; the bridge and the veth pair, whose
    /// container side moves into the child's network namespace; the
    /// cgroup with its limits, which the child then joins.
    pub open spec fn host_plan(self) -> Seq<StepModel> {
        overlay_dirs_plan(self.config.fs_root) + bridge_plan(self.host_ip) + veth_pair_plan()
            + move_plan(self.child) + self.cgroup.setup_plan() + seq![
            crate::cgroups::write(
                self.cgroup.leaf_file("cgroup.procs"@),
                signed_decimal(self.child as int),
            ),
        ]
    }

    /// Everything that the launcher does for the child between closing
    /// its read end of the pipe and releasing the child: the id maps in
    /// every case, the preparation of the host where the caller is root.
    pub open spec fn configure_plan(self) -> Seq<StepModel> {
        if self.uid == 0 {
            id_maps_plan(self.child, self.uid, self.gid) + self.host_plan()
        } else {
            id_maps_plan(self.child, self.uid, self.gid)
        }
    }

    /// What a launcher that runs as root removes from the host after the
    /// child has ended: the bridge, then the cgroup.
    pub open spec fn teardown_plan(self) -> Seq<StepModel> {
        cleanup_plan() + self.cgroup.cleanup_plan()
    }

    /// The exit code of the launch: 1 where the launch itself failed,
    /// else the code that the child's end stands for.
    pub open spec fn final_code(self) -> i32 {
        if self.failed {
            1
        } else {
            self.exit
        }
    }

    /// The launch ends: nothing is left to do but to leave with the exit code.
    pub open spec fn finish(self) -> (LaunchModel, ActionModel) {
        (
            LaunchModel { phase: Phase::Finished, pending: Seq::empty(), ..self },
            ActionModel::Finish { code: self.final_code() },
        )
    }

    /// The launch has failed before there was a child: it ends at once.
    pub open spec fn give_up(self) -> (LaunchModel, ActionModel) {
        LaunchModel { failed: true, ..self }.finish()
    }

    /// The launch has failed while it prepared the container: the child
    /// is told to give up, and is then waited for like any other.
    pub open spec fn abort(self) -> (LaunchModel, ActionModel) {
        (
            LaunchModel { phase: Phase::Aborting, pending: Seq::empty(), failed: true, ..self },
            ActionModel::Abort,
        )
    }

    /// The next step of the plan in `phase` is taken up, or, where none
    /// is left, what follows the plan: the release of the child after the
    /// preparation, the end of the launch after the teardown.
    pub open spec fn advance(self, phase: Phase) -> (LaunchModel, ActionModel) {
        if self.pending.len() > 0 {
            (
                LaunchModel {
                    phase,
                    pending: self.pending.drop_first(),
                    in_flight_required: self.pending[0].required,
                    ..self
                },
                ActionModel::Perform(self.pending[0]),
            )
        } else if phase == Phase::Configuring {
            (LaunchModel { phase: Phase::Releasing, ..self }, ActionModel::Release)
        } else {
            self.finish()
        }
    }

    /// The whole course of a launch, one move at a time: the state after
    /// `event` has answered the action that was asked for last, and the
    /// action that is asked for next.
    ///
    /// Before there is a child, any failure ends the launch at once. Once
    /// there is a child, a failure ends the preparation, but the child is
    /// still waited for, and a launcher that runs as root still removes
    /// what it may have made on the host. A step that is not required is
    /// passed over when it fails, and so is every step of the teardown.
    pub open spec fn step(self, event: Event) -> (LaunchModel, ActionModel) {
        match self.phase {
            Phase::Start => (
                LaunchModel { phase: Phase::CreatingPipe, ..self },
                ActionModel::CreatePipe,
            ),
            Phase::CreatingPipe => if event is Done {
                (LaunchModel { phase: Phase::QueryingIds, ..self }, ActionModel::QueryIds)
            } else {
                self.give_up()
            },
            Phase::QueryingIds => match event {
                Event::Ids { uid, gid } => (
                    LaunchModel { phase: Phase::Cloning, uid, gid, ..self },
                    ActionModel::CloneChild { namespaces: child_namespaces() },
                ),
                _ => self.give_up(),
            },
            Phase::Cloning => match event {
                Event::Cloned { pid } => (
                    LaunchModel { phase: Phase::ClosingReadEnd, child: pid, ..self },
                    ActionModel::CloseReadEnd,
                ),
                _ => self.give_up(),
            },
            Phase::ClosingReadEnd => if event is Done {
                LaunchModel { pending: self.configure_plan(), ..self }.advance(Phase::Configuring)
            } else {
                self.abort()
            },
            Phase::Configuring => if event is Done || !self.in_flight_required {
                self.advance(Phase::Configuring)
            } else {
                self.abort()
            },
            Phase::Releasing => (
                LaunchModel {
                    phase: Phase::Waiting,
                    failed: self.failed || !(event is Done),
                    ..self
                },
                ActionModel::Wait,
            ),
            Phase::Aborting => (LaunchModel { phase: Phase::Waiting, ..self }, ActionModel::Wait),
            Phase::Waiting => {
                let waited = match event {
                    Event::Waited(outcome) => LaunchModel {
                        exit: exit_status(outcome) as i32,
                        ..self
                    },
                    _ => LaunchModel { failed: true, ..self },
                };
                if self.uid == 0 {
                    LaunchModel { pending: self.teardown_plan(), ..waited }.advance(
                        Phase::TearingDown,
                    )
                } else {
                    waited.finish()
                }
            },
            Phase::TearingDown => self.advance(Phase::TearingDown),
            Phase::Finished => self.finish(),
        }
    }
}

/// The launch that `run_in_container` begins for a configuration.
pub open spec fn first_state(
    config: LaunchConfigModel,
    cgroup: CgroupModel,
) -> LaunchModel {
    LaunchModel {
        config,
        cgroup,
        host_ip: (config.network_base + 2) as u32,
        phase: Phase::Start,
        uid: 0,
        gid: 0,
        child: 0,
        pending: Seq::empty(),
        in_flight_required: false,
        failed: false,
        exit: 0,
    }
}

/// The first fault of a configuration, if it has one. The memory limit
/// is looked at first, then the CPU quota, then the network, which must
/// hold a second and a third host address, that is four addresses or
/// more.
pub open spec fn config_fault(config: LaunchConfigModel) -> Option<LaunchError> {
    if let Some(e) = limits_fault(config.cpu_quota, config.memory_limit) {
        Some(LaunchError::Limit(e))
    } else if network_size(config.network_prefix_len) < 4 {
        Some(LaunchError::Network(NetError::NoHostAddress))
    } else {
        None
    }
}

/// Begins the launch of a command in a container. The limits and the
/// network are looked at before anything is done: a launch that is
/// refused here has touched nothing. The caller then drives the launch
/// with `Launch::step`, performing each action it is asked for.
pub fn run_in_container(config: LaunchConfig) -> (r: Result<Launch, LaunchError>)
    ensures
        match r {
            Ok(launch) => {
                &&& config_fault(config.deep_view()) is None
                &&& launch.deep_view() == first_state(
                    config.deep_view(),
                    container_cgroup(
                        config.deep_view().cpu_quota,
                        config.deep_view().memory_limit,
                    ),
                )
            },
            Err(e) => config_fault(config.deep_view()) == Some(e),
        },
{
    let cgroup = match Cgroup::new(&config.cpu_quota, &config.memory_limit) {
        Ok(cgroup) => cgroup,
        Err(e) => {
            return Err(LaunchError::Limit(e));
        },
    };
    let (host_ip, _) = match ips_from_cidr(&config.container_cidr) {
        Ok(ips) => ips,
        Err(e) => {
            return Err(LaunchError::Network(e));
        },
    };
    let pending: Vec<Step> = Vec::new();
    assert(pending.deep_view() =~= Seq::<StepModel>::empty());
    Ok(
        Launch {
            config,
            cgroup,
            host_ip,
            phase: Phase::Start,
            uid: 0,
            gid: 0,
            child: 0,
            pending,
            in_flight_required: false,
            failed: false,
            exit: 0,
        },
    )
}

impl Launch {
    /// Where the launch stands.
    pub fn phase(&self) -> (phase: Phase)
        ensures
            phase == self.deep_view().phase,
    {
        self.phase
    }

    /// What the launch was given.
    pub fn config(&self) -> (config: &LaunchConfig)
        ensures
            config.deep_view() == self.deep_view().config,
    {
        &self.config
    }

    /// Ends the launch.
    fn finish(&mut self) -> (action: Action)
        ensures
            (final(self).deep_view(), action.deep_view()) == old(self).deep_view().finish(),
    {
        let code = if self.failed {
            1
        } else {
            self.exit
        };
        self.phase = Phase::Finished;
        self.pending = Vec::new();
        assert(self.pending.deep_view() =~= Seq::<StepModel>::empty());
        Action::Finish { code }
    }

    /// Ends the launch as failed.
    fn give_up(&mut self) -> (action: Action)
        ensures
            (final(self).deep_view(), action.deep_view()) == old(self).deep_view().give_up(),
    {
        self.failed = true;
        self.finish()
    }

    /// Ends the preparation and tells the child to give up.
    fn abort(&mut self) -> (action: Action)
        ensures
            (final(self).deep_view(), action.deep_view()) == old(self).deep_view().abort(),
    {
        self.phase = Phase::Aborting;
        self.pending = Vec::new();
        self.failed = true;
        assert(self.pending.deep_view() =~= Seq::<StepModel>::empty());
        Action::Abort
    }

    /// Takes up the next step of the plan in `phase`, or what follows the plan.
    fn advance(&mut self, phase: Phase) -> (action: Action)
        ensures
            (final(self).deep_view(), action.deep_view()) == old(self).deep_view().advance(phase),
    {
        if self.pending.len() > 0 {
            let ghost before = self.pending.deep_view();
            let step = self.pending.remove(0);
            assert(self.pending.deep_view() =~= before.drop_first());
            self.phase = phase;
            self.in_flight_required = step.required;
            Action::Perform(step)
        } else if phase == Phase::Configuring {
            self.phase = Phase::Releasing;
            Action::Release
        } else {
            self.finish()
        }
    }

    /// What a launcher that runs as root prepares on the host.
    fn host_steps(&self) -> (plan: Vec<Step>)
        ensures
            plan.deep_view() == self.deep_view().host_plan(),
    {
        let mut plan = create_overlay_dirs(self.config.fs_root.as_str());
        let mut bridge = crate::net::create_bridge(self.host_ip);
        let mut veth = crate::net::create_veth_pair();
        let mut moving = move_into_container(self.child);
        let mut limits = self.cgroup.setup();
        let attach = self.cgroup.add_process(self.child);
        plan.append(&mut bridge);
        plan.append(&mut veth);
        plan.append(&mut moving);
        plan.append(&mut limits);
        plan.push(attach);
        plan
    }

    /// Everything that the launcher does for the child before it releases it.
    fn configure_steps(&self) -> (plan: Vec<Step>)
        ensures
            plan.deep_view() == self.deep_view().configure_plan(),
    {
        let mut plan = map_ids(self.child, self.uid, self.gid);
        if self.uid == 0 {
            let mut host = self.host_steps();
            plan.append(&mut host);
        }
        plan
    }

    /// What a launcher that runs as root removes from the host.
    fn teardown_steps(&self) -> (plan: Vec<Step>)
        ensures
            plan.deep_view() == self.deep_view().teardown_plan(),
    {
        let mut plan = cleanup_network();
        let mut group = self.cgroup.cleanup();
        plan.append(&mut group);
        plan
    }

    /// Takes the outcome of the action that was asked for last, and says
    /// what to do next. The first call, which answers no action, may pass
    /// any event.
    pub fn step(&mut self, event: Event) -> (action: Action)
        ensures
            (final(self).deep_view(), action.deep_view()) == old(self).deep_view().step(event),
    {
        match self.phase {
            Phase::Start => {
                self.phase = Phase::CreatingPipe;
                Action::CreatePipe
            },
            Phase::CreatingPipe => {
                match event {
                    Event::Done => {
                        self.phase = Phase::QueryingIds;
                        Action::QueryIds
                    },
                    _ => self.give_up(),
                }
            },
            Phase::QueryingIds => {
                match event {
                    Event::Ids { uid, gid } => {
                        self.phase = Phase::Cloning;
                        self.uid = uid;
                        self.gid = gid;
                        let mut namespaces: Vec<Namespace> = Vec::new();
                        namespaces.push(Namespace::Pid);
                        namespaces.push(Namespace::User);
                        namespaces.push(Namespace::Mount);
                        namespaces.push(Namespace::Network);
                        namespaces.push(Namespace::Uts);
                        assert(namespaces@ =~= child_namespaces());
                        Action::CloneChild { namespaces }
                    },
                    _ => self.give_up(),
                }
            },
            Phase::Cloning => {
                match event {
                    Event::Cloned { pid } => {
                        self.phase = Phase::ClosingReadEnd;
                        self.child = pid;
                        Action::CloseReadEnd
                    },
                    _ => self.give_up(),
                }
            },
            Phase::ClosingReadEnd => {
                match event {
                    Event::Done => {
                        self.pending = self.configure_steps();
                        self.advance(Phase::Configuring)
                    },
                    _ => self.abort(),
                }
            },
            Phase::Configuring => {
                let done = match event {
                    Event::Done => true,
                    _ => false,
                };
                if done || !self.in_flight_required {
                    self.advance(Phase::Configuring)
                } else {
                    self.abort()
                }
            },
            Phase::Releasing => {
                match event {
                    Event::Done => {},
                    _ => {
                        self.failed = true;
                    },
                }
                self.phase = Phase::Waiting;
                Action::Wait
            },
            Phase::Aborting => {
                self.phase = Phase::Waiting;
                Action::Wait
            },
            Phase::Waiting => {
                match event {
                    Event::Waited(outcome) => {
                        self.exit = exit_code(outcome);
                    },
                    _ => {
                        self.failed = true;
                    },
                }
                if self.uid == 0 {
                    self.pending = self.teardown_steps();
                    self.advance(Phase::TearingDown)
                } else {
                    self.finish()
                }
            },
            Phase::TearingDown => self.advance(Phase::TearingDown),
            Phase::Finished => self.finish(),
        }
    }
}

} // verus!
