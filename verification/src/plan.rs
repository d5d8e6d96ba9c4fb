//! The vocabulary in which the library states what has to be done: one
//! `Op` per system-level operation, and `Step`s that say whether a failed
//! operation ends the plan.

use vstd::prelude::*;

verus! {

/// One operation on the system, with every argument it needs.
#[derive(Clone, Debug, PartialEq, Eq)]
pub enum Op {
    /// Create the directory and its missing parents; an existing
    /// directory is left as it is.
    CreateDirAll { path: String },
    /// Remove the directory with all it holds; a missing directory is no
    /// failure.
    RemoveTree { path: String },
    /// Remove the empty directory.
    RemoveDir { path: String },
    /// Write `contents` to the file at `path`.
    WriteFile { path: String, contents: String },
    /// Run the `ip` tool with these arguments.
    Ip { args: Vec<String> },
    /// Mount `source` on `target` as a file system of type `fstype`, with
    /// the mount flags `flags` and the options `data`. `None` leaves the
    /// argument out.
    Mount {
        source: Option<String>,
        target: String,
        fstype: Option<String>,
        flags: u64,
        data: Option<String>,
    },
    /// Make `new_root` the root of the mount tree and move the old root
    /// to `put_old`.
    PivotRoot { new_root: String, put_old: String },
    /// Change the working directory.
    ChangeDir { path: String },
    /// Unmount what is mounted on `mount_point`; with `detach`, lazily.
    Unmount { mount_point: String, detach: bool },
    /// Set the host name.
    SetHostname { name: String },
    /// Drop the capability with number `cap` from the bounding set; a
    /// capability that the kernel does not know is no failure.
    DropBoundingCap { cap: u8 },
    /// Set the no-new-privileges bit.
    SetNoNewPrivs,
}

/// What an `Op` says, as mathematical values.
pub enum OpModel {
    CreateDirAll { path: Seq<char> },
    RemoveTree { path: Seq<char> },
    RemoveDir { path: Seq<char> },
    WriteFile { path: Seq<char>, contents: Seq<char> },
    Ip { args: Seq<Seq<char>> },
    Mount {
        source: Option<Seq<char>>,
        target: Seq<char>,
        fstype: Option<Seq<char>>,
        flags: u64,
        data: Option<Seq<char>>,
    },
    PivotRoot { new_root: Seq<char>, put_old: Seq<char> },
    ChangeDir { path: Seq<char> },
    Unmount { mount_point: Seq<char>, detach: bool },
    SetHostname { name: Seq<char> },
    DropBoundingCap { cap: u8 },
    SetNoNewPrivs,
}

impl DeepView for Op {
    type V = OpModel;

    open spec fn deep_view(&self) -> OpModel {
        match self {
            Op::CreateDirAll { path } => OpModel::CreateDirAll { path: path@ },
            Op::RemoveTree { path } => OpModel::RemoveTree { path: path@ },
            Op::RemoveDir { path } => OpModel::RemoveDir { path: path@ },
            Op::WriteFile { path, contents } => OpModel::WriteFile {
                path: path@,
                contents: contents@,
            },
            Op::Ip { args } => OpModel::Ip { args: args.deep_view() },
            Op::Mount { source, target, fstype, flags, data } => OpModel::Mount {
                source: source.deep_view(),
                target: target@,
                fstype: fstype.deep_view(),
                flags: *flags,
                data: data.deep_view(),
            },
            Op::PivotRoot { new_root, put_old } => OpModel::PivotRoot {
                new_root: new_root@,
                put_old: put_old@,
            },
            Op::ChangeDir { path } => OpModel::ChangeDir { path: path@ },
            Op::Unmount { mount_point, detach } => OpModel::Unmount {
                mount_point: mount_point@,
                detach: *detach,
            },
            Op::SetHostname { name } => OpModel::SetHostname { name: name@ },
            Op::DropBoundingCap { cap } => OpModel::DropBoundingCap { cap: *cap },
            Op::SetNoNewPrivs => OpModel::SetNoNewPrivs,
        }
    }
}

/// An operation together with what its failure means.
#[derive(Clone, Debug, PartialEq, Eq)]
pub struct Step {
    /// The operation to perform.
    pub op: Op,
    /// Whether a failure of the operation ends the plan it stands in.
    pub required: bool,
}

/// What a `Step` says, as mathematical values.
pub struct StepModel {
    pub op: OpModel,
    pub required: bool,
}

impl DeepView for Step {
    type V = StepModel;

    open spec fn deep_view(&self) -> StepModel {
        StepModel { op: self.op.deep_view(), required: self.required }
    }
}

/// The step that performs `op` and ends its plan where `op` fails.
pub open spec fn required(op: OpModel) -> StepModel {
    StepModel { op, required: true }
}

/// The step that performs `op` and goes on whatever comes of it.
pub open spec fn best_effort(op: OpModel) -> StepModel {
    StepModel { op, required: false }
}

impl Step {
    /// A step whose failure ends the plan.
    pub fn required(op: Op) -> (s: Step)
        ensures
            s.deep_view() == required(op.deep_view()),
    {
        Step { op, required: true }
    }

    /// A step whose failure is passed over.
    pub fn best_effort(op: Op) -> (s: Step)
        ensures
            s.deep_view() == best_effort(op.deep_view()),
    {
        Step { op, required: false }
    }
}

/// Owned copies of `parts`, in order.
pub fn owned_list(parts: &[&str]) -> (list: Vec<String>)
    ensures
        list.deep_view() == parts.deep_view(),
{
    let mut list: Vec<String> = Vec::new();
    let mut i: usize = 0;
    while i < parts.len()
        invariant
            i <= parts.len(),
            list.deep_view() == parts.deep_view().take(i as int),
        decreases parts.len() - i,
    {
        let ghost before = list.deep_view();
        let part = parts[i].to_owned();
        list.push(part);
        assert(list.deep_view() =~= before.push(part.deep_view()));
        i += 1;
    }
    list
}

/// The step that runs `ip` with `args` and must succeed.
pub fn ip_step(args: &[&str]) -> (s: Step)
    ensures
        s.deep_view() == required(OpModel::Ip { args: args.deep_view() }),
{
    Step::required(Op::Ip { args: owned_list(args) })
}

} // verus!
