//! The child's side of a launch: from the wait at the pipe, through the
//! making of the container's root and network, to the start of the
//! command and the hand-over to the supervisor.

use crate::caps::{drop_capabilities, drop_plan, CAP_LAST_CAP};
use crate::container::{LaunchConfig, LaunchConfigModel};
use crate::fs::{
    create_container_filesystem, create_overlay_dirs, filesystem_plan, overlay_dirs_plan,
    DirEntry, DirEntryModel,
};
use crate::net::{bring_up_container_net, container_net_plan, network_size, NetError};
use crate::plan::{required, Op, OpModel, Step, StepModel};
use crate::text::same_text;
use vstd::prelude::*;

verus! {

/// The search path of the command inside the container.
pub const CONTAINER_PATH: &'static str = "/bin:/sbin:/usr/bin:/usr/sbin";

/// What the child does once it has been released, up to the start of the
/// command: where the launcher could not, it resets the scratch
/// directories itself; then it builds its root filesystem, brings up its
/// side of the network, takes its host name and gives up its privileges,
/// the last two only where the configuration asks for them.
pub open spec fn child_plan_of(
    config: LaunchConfigModel,
    parent_is_root: bool,
    entries: Seq<DirEntryModel>,
) -> Seq<StepModel> {
    let scratch = if parent_is_root {
        Seq::empty()
    } else {
        overlay_dirs_plan(config.fs_root)
    };
    let hostname = match config.hostname {
        Some(name) => seq![required(OpModel::SetHostname { name })],
        None => Seq::empty(),
    };
    let privileges = if config.drop_caps {
        drop_plan(CAP_LAST_CAP)
    } else {
        Seq::empty()
    };
    scratch + filesystem_plan(config.fs_root, entries) + container_net_plan(
        (config.network_base + 2) as u32,
        (config.network_base + 3) as u32,
        parent_is_root,
    ) + hostname + privileges
}

/// The steps of the child between its release and the start of the
/// command. `parent_is_root` says whether the launcher runs as root,
/// `entries` is the listing of the directory `fs_root`. Every step but the
/// last of the filesystem's must succeed.
pub fn child_plan(config: &LaunchConfig, parent_is_root: bool, entries: &Vec<DirEntry>) -> (r:
    Result<Vec<Step>, NetError>)
    ensures
        match r {
            Ok(plan) => {
                &&& network_size(config.container_cidr.prefix_len()) >= 4
                &&& plan.deep_view() == child_plan_of(
                    config.deep_view(),
                    parent_is_root,
                    entries.deep_view(),
                )
            },
            Err(NetError::NoHostAddress) => network_size(config.container_cidr.prefix_len()) < 4,
            Err(NetError::NoContainerAddress) => false,
        },
{
    let mut net = match bring_up_container_net(&config.container_cidr, parent_is_root) {
        Ok(net) => net,
        Err(e) => {
            return Err(e);
        },
    };
    let mut plan: Vec<Step> = Vec::new();
    if !parent_is_root {
        plan = create_overlay_dirs(config.fs_root.as_str());
    }
    let mut filesystem = create_container_filesystem(config.fs_root.as_str(), entries);
    plan.append(&mut filesystem);
    plan.append(&mut net);
    match &config.hostname {
        Some(name) => {
            plan.push(Step::required(Op::SetHostname { name: name.clone() }));
        },
        None => {},
    }
    if config.drop_caps {
        let mut privileges = drop_capabilities(CAP_LAST_CAP);
        plan.append(&mut privileges);
    }
    Ok(plan)
}

/// The argument list with which the command is started: its own name
/// first, then its arguments.
pub fn exec_arguments(command: &str, args: &Vec<String>) -> (argv: Vec<String>)
    ensures
        argv.deep_view() == seq![command@] + args.deep_view(),
{
    let mut argv: Vec<String> = Vec::new();
    argv.push(command.to_owned());
    let mut i: usize = 0;
    while i < args.len()
        invariant
            i <= args.len(),
            argv.deep_view() == seq![command@] + args.deep_view().take(i as int),
        decreases args.len() - i,
    {
        let ghost before = argv.deep_view();
        argv.push(args[i].clone());
        assert(argv.deep_view() =~= before.push(args[i as int]@));
        i += 1;
    }
    argv
}

/// The variables of `env` that are not named `PATH`, in their order.
pub open spec fn without_path(env: Seq<(Seq<char>, Seq<char>)>) -> Seq<(Seq<char>, Seq<char>)>
    decreases env.len(),
{
    if env.len() == 0 {
        Seq::empty()
    } else if env.last().0 == "PATH"@ {
        without_path(env.drop_last())
    } else {
        without_path(env.drop_last()).push(env.last())
    }
}

/// The environment of the command: that of the launcher, with `PATH` set
/// to the search path of the container.
pub open spec fn environment_of(env: Seq<(Seq<char>, Seq<char>)>) -> Seq<(Seq<char>, Seq<char>)> {
    without_path(env).push(("PATH"@, CONTAINER_PATH@))
}

/// The environment with which the command is started, given that of the
/// launcher as pairs of name and value.
pub fn child_environment(env: &Vec<(String, String)>) -> (out: Vec<(String, String)>)
    ensures
        out.deep_view() == environment_of(env.deep_view()),
{
    let mut out: Vec<(String, String)> = Vec::new();
    let mut i: usize = 0;
    while i < env.len()
        invariant
            i <= env.len(),
            out.deep_view() == without_path(env.deep_view().take(i as int)),
        decreases env.len() - i,
    {
        proof {
            assert(env.deep_view().take(i + 1).drop_last() =~= env.deep_view().take(i as int));
        }
        if !same_text(env[i].0.as_str(), "PATH") {
            let pair = (env[i].0.clone(), env[i].1.clone());
            out.push(pair);
        }
        i += 1;
    }
    assert(env.deep_view().take(i as int) =~= env.deep_view());
    out.push(("PATH".to_owned(), CONTAINER_PATH.to_owned()));
    out
}

/// Where the child stands. Each phase but the first and the last names
/// the action whose outcome the child is waiting for.
#[derive(Clone, Copy, Debug, PartialEq, Eq, Structural)]
pub enum ChildPhase {
    /// Nothing has been asked for yet.
    Start,
    /// The child's copy of the pipe's write end is being closed.
    ClosingWriteEnd,
    /// The child is blocked at the pipe until the launcher lets it go on.
    AwaitingRelease,
    /// The directory that holds the layers is being listed.
    Listing,
    /// A step that makes the container is being performed.
    Preparing,
    /// The process is being forked into command and supervisor.
    Forking,
    /// The command is being started in place of this process.
    Starting,
    /// The supervisor is at work.
    Supervising,
    /// The child has decided to leave.
    Finished,
}

/// What the caller reports back after an action.
#[derive(Clone, Debug, PartialEq, Eq)]
pub enum ChildEvent {
    /// The action was carried out.
    Done,
    /// The action failed.
    Failed,
    /// So many bytes came out of the pipe before it ended.
    Read { bytes: usize },
    /// The entries of the listed directory.
    Listed { entries: Vec<DirEntry> },
    /// The fork has succeeded, and this process is the parent of `pid`.
    Forked { pid: i32 },
    /// The fork has succeeded, and this process is the new one.
    InWorkload,
    /// The supervisor has decided to leave with this code.
    Supervised { code: i32 },
}

/// What a `ChildEvent` says, as mathematical values.
pub enum ChildEventModel {
    Done,
    Failed,
    Read { bytes: usize },
    Listed { entries: Seq<DirEntryModel> },
    Forked { pid: i32 },
    InWorkload,
    Supervised { code: i32 },
}

impl DeepView for ChildEvent {
    type V = ChildEventModel;

    open spec fn deep_view(&self) -> ChildEventModel {
        match self {
            ChildEvent::Done => ChildEventModel::Done,
            ChildEvent::Failed => ChildEventModel::Failed,
            ChildEvent::Read { bytes } => ChildEventModel::Read { bytes: *bytes },
            ChildEvent::Listed { entries } => ChildEventModel::Listed {
                entries: entries.deep_view(),
            },
            ChildEvent::Forked { pid } => ChildEventModel::Forked { pid: *pid },
            ChildEvent::InWorkload => ChildEventModel::InWorkload,
            ChildEvent::Supervised { code } => ChildEventModel::Supervised { code: *code },
        }
    }
}

/// What the child asks its caller to do next.
#[derive(Clone, Debug, PartialEq, Eq)]
pub enum ChildAction {
    /// Close the write end of the pipe in the child.
    CloseWriteEnd,
    /// Read one byte from the pipe, then close the pipe; answer with
    /// `ChildEvent::Read`.
    ReadRelease,
    /// List the directory `path`; answer with `ChildEvent::Listed`.
    ListRoot { path: String },
    /// Perform this step.
    Perform(Step),
    /// Fork; answer with `ChildEvent::Forked` in the process that called,
    /// with `ChildEvent::InWorkload` in the new one.
    Fork,
    /// Replace this process by the command: `argv` with the command's own
    /// name first, looked up along `search_path`, which is also the `PATH`
    /// of the command's environment. Any answer means that the command
    /// could not be started.
    Exec { argv: Vec<String>, search_path: String },
    /// Supervise the command `workload` to its end; answer with
    /// `ChildEvent::Supervised`.
    Supervise { workload: i32 },
    /// Leave with this exit code.
    Exit { code: i32 },
}

/// What a `ChildAction` says, as mathematical values.
pub enum ChildActionModel {
    CloseWriteEnd,
    ReadRelease,
    ListRoot { path: Seq<char> },
    Perform(StepModel),
    Fork,
    Exec { argv: Seq<Seq<char>>, search_path: Seq<char> },
    Supervise { workload: i32 },
    Exit { code: i32 },
}

impl DeepView for ChildAction {
    type V = ChildActionModel;

    open spec fn deep_view(&self) -> ChildActionModel {
        match self {
            ChildAction::CloseWriteEnd => ChildActionModel::CloseWriteEnd,
            ChildAction::ReadRelease => ChildActionModel::ReadRelease,
            ChildAction::ListRoot { path } => ChildActionModel::ListRoot { path: path@ },
            ChildAction::Perform(step) => ChildActionModel::Perform(step.deep_view()),
            ChildAction::Fork => ChildActionModel::Fork,
            ChildAction::Exec { argv, search_path } => ChildActionModel::Exec {
                argv: argv.deep_view(),
                search_path: search_path@,
            },
            ChildAction::Supervise { workload } => ChildActionModel::Supervise {
                workload: *workload,
            },
            ChildAction::Exit { code } => ChildActionModel::Exit { code: *code },
        }
    }
}

/// The child of a launch on its way.
#[derive(Clone, Debug, PartialEq, Eq)]
pub struct Child {
    config: LaunchConfig,
    parent_is_root: bool,
    phase: ChildPhase,
    pending: Vec<Step>,
    in_flight_required: bool,
    code: i32,
}

/// What a `Child` says, as mathematical values.
pub struct ChildModel {
    /// What the launch was given.
    pub config: LaunchConfigModel,
    /// Whether the launcher runs as root.
    pub parent_is_root: bool,
    /// Where the child stands.
    pub phase: ChildPhase,
    /// The steps that are still to be performed.
    pub pending: Seq<StepModel>,
    /// Whether the step that is being performed must succeed.
    pub in_flight_required: bool,
    /// The exit code, once the child has decided to leave.
    pub code: i32,
}

impl DeepView for Child {
    type V = ChildModel;

    closed spec fn deep_view(&self) -> ChildModel {
        ChildModel {
            config: self.config.deep_view(),
            parent_is_root: self.parent_is_root,
            phase: self.phase,
            pending: self.pending.deep_view(),
            in_flight_required: self.in_flight_required,
            code: self.code,
        }
    }
}

impl ChildModel {
    /// The child leaves with `code`.
    pub open spec fn leave(self, code: i32) -> (ChildModel, ChildActionModel) {
        (
            ChildModel { phase: ChildPhase::Finished, pending: Seq::empty(), code, ..self },
            ChildActionModel::Exit { code },
        )
    }

    /// The next step of the plan is taken up, or, where none is left, the
    /// process is forked.
    pub open spec fn advance(self) -> (ChildModel, ChildActionModel) {
        if self.pending.len() > 0 {
            (
                ChildModel {
                    phase: ChildPhase::Preparing,
                    pending: self.pending.drop_first(),
                    in_flight_required: self.pending[0].required,
                    ..self
                },
                ChildActionModel::Perform(self.pending[0]),
            )
        } else {
            (ChildModel { phase: ChildPhase::Forking, ..self }, ChildActionModel::Fork)
        }
    }

    /// The whole course of the child, one move at a time: the state after
    /// `event` has answered the action that was asked for last, and the
    /// action that is asked for next.
    ///
    /// The child closes its copy of the write end and waits at the pipe.
    /// Only one byte from the launcher lets it go on; a pipe that ends
    /// without the byte, like every failure later on, makes the child
    /// leave with code 1. Once released, the child lists the directory
    /// of the layers, performs the steps that make the container, and
    /// forks: the new process becomes the command, the old one
    /// supervises it and leaves with the code the supervisor hands back.
    pub open spec fn step(self, event: ChildEventModel) -> (ChildModel, ChildActionModel) {
        match self.phase {
            ChildPhase::Start => (
                ChildModel { phase: ChildPhase::ClosingWriteEnd, ..self },
                ChildActionModel::CloseWriteEnd,
            ),
            ChildPhase::ClosingWriteEnd => if event is Done {
                (
                    ChildModel { phase: ChildPhase::AwaitingRelease, ..self },
                    ChildActionModel::ReadRelease,
                )
            } else {
                self.leave(1)
            },
            ChildPhase::AwaitingRelease => match event {
                ChildEventModel::Read { bytes } => if bytes == 1 {
                    (
                        ChildModel { phase: ChildPhase::Listing, ..self },
                        ChildActionModel::ListRoot { path: self.config.fs_root },
                    )
                } else {
                    self.leave(1)
                },
                _ => self.leave(1),
            },
            ChildPhase::Listing => match event {
                ChildEventModel::Listed { entries } => if network_size(
                    self.config.network_prefix_len,
                ) >= 4 {
                    ChildModel {
                        pending: child_plan_of(self.config, self.parent_is_root, entries),
                        ..self
                    }.advance()
                } else {
                    self.leave(1)
                },
                _ => self.leave(1),
            },
            ChildPhase::Preparing => if event is Done || !self.in_flight_required {
                self.advance()
            } else {
                self.leave(1)
            },
            ChildPhase::Forking => match event {
                ChildEventModel::Forked { pid } => (
                    ChildModel { phase: ChildPhase::Supervising, ..self },
                    ChildActionModel::Supervise { workload: pid },
                ),
                ChildEventModel::InWorkload => (
                    ChildModel { phase: ChildPhase::Starting, ..self },
                    ChildActionModel::Exec {
                        argv: seq![self.config.command] + self.config.args,
                        search_path: CONTAINER_PATH@,
                    },
                ),
                _ => self.leave(1),
            },
            ChildPhase::Starting => self.leave(1),
            ChildPhase::Supervising => match event {
                ChildEventModel::Supervised { code } => self.leave(code),
                _ => self.leave(1),
            },
            ChildPhase::Finished => (self, ChildActionModel::Exit { code: self.code }),
        }
    }
}

impl Child {
    /// The child of a launch with `config`, before its first move;
    /// `parent_is_root` says whether the launcher runs as root.
    pub fn new(config: LaunchConfig, parent_is_root: bool) -> (child: Child)
        ensures
            child.deep_view() == (ChildModel {
                config: config.deep_view(),
                parent_is_root,
                phase: ChildPhase::Start,
                pending: Seq::empty(),
                in_flight_required: false,
                code: 0,
            }),
    {
        let pending: Vec<Step> = Vec::new();
        assert(pending.deep_view() =~= Seq::<StepModel>::empty());
        Child {
            config,
            parent_is_root,
            phase: ChildPhase::Start,
            pending,
            in_flight_required: false,
            code: 0,
        }
    }

    /// Where the child stands.
    pub fn phase(&self) -> (phase: ChildPhase)
        ensures
            phase == self.deep_view().phase,
    {
        self.phase
    }

    /// Leaves with `code`.
    fn leave(&mut self, code: i32) -> (action: ChildAction)
        ensures
            (final(self).deep_view(), action.deep_view()) == old(self).deep_view().leave(code),
    {
        self.phase = ChildPhase::Finished;
        self.pending = Vec::new();
        self.code = code;
        assert(self.pending.deep_view() =~= Seq::<StepModel>::empty());
        ChildAction::Exit { code }
    }

    /// Takes up the next step of the plan, or forks where none is left.
    fn advance(&mut self) -> (action: ChildAction)
        ensures
            (final(self).deep_view(), action.deep_view()) == old(self).deep_view().advance(),
    {
        if self.pending.len() > 0 {
            let ghost before = self.pending.deep_view();
            let step = self.pending.remove(0);
            assert(self.pending.deep_view() =~= before.drop_first());
            self.phase = ChildPhase::Preparing;
            self.in_flight_required = step.required;
            ChildAction::Perform(step)
        } else {
            self.phase = ChildPhase::Forking;
            ChildAction::Fork
        }
    }

    /// Takes the outcome of the action that was asked for last, and says
    /// what to do next. The first call, which answers no action, may pass
    /// any event.
    pub fn step(&mut self, event: ChildEvent) -> (action: ChildAction)
        ensures
            (final(self).deep_view(), action.deep_view()) == old(self).deep_view().step(
                event.deep_view(),
            ),
    {
        match self.phase {
            ChildPhase::Start => {
                self.phase = ChildPhase::ClosingWriteEnd;
                ChildAction::CloseWriteEnd
            },
            ChildPhase::ClosingWriteEnd => {
                match event {
                    ChildEvent::Done => {
                        self.phase = ChildPhase::AwaitingRelease;
                        ChildAction::ReadRelease
                    },
                    _ => self.leave(1),
                }
            },
            ChildPhase::AwaitingRelease => {
                match event {
                    ChildEvent::Read { bytes } => {
                        if bytes == 1 {
                            self.phase = ChildPhase::Listing;
                            ChildAction::ListRoot { path: self.config.fs_root.clone() }
                        } else {
                            self.leave(1)
                        }
                    },
                    _ => self.leave(1),
                }
            },
            ChildPhase::Listing => {
                match event {
                    ChildEvent::Listed { entries } => {
                        match child_plan(&self.config, self.parent_is_root, &entries) {
                            Ok(plan) => {
                                self.pending = plan;
                                self.advance()
                            },
                            Err(_) => self.leave(1),
                        }
                    },
                    _ => self.leave(1),
                }
            },
            ChildPhase::Preparing => {
                let done = match event {
                    ChildEvent::Done => true,
                    _ => false,
                };
                if done || !self.in_flight_required {
                    self.advance()
                } else {
                    self.leave(1)
                }
            },
            ChildPhase::Forking => {
                match event {
                    ChildEvent::Forked { pid } => {
                        self.phase = ChildPhase::Supervising;
                        ChildAction::Supervise { workload: pid }
                    },
                    ChildEvent::InWorkload => {
                        self.phase = ChildPhase::Starting;
                        ChildAction::Exec {
                            argv: exec_arguments(self.config.command.as_str(), &self.config.args),
                            search_path: CONTAINER_PATH.to_owned(),
                        }
                    },
                    _ => self.leave(1),
                }
            },
            ChildPhase::Starting => self.leave(1),
            ChildPhase::Supervising => {
                match event {
                    ChildEvent::Supervised { code } => self.leave(code),
                    _ => self.leave(1),
                }
            },
            ChildPhase::Finished => ChildAction::Exit { code: self.code },
        }
    }
}

} // verus!
