//! The first process of the container: it hands signals on to the
//! command, reaps whatever ends inside the container, and leaves with the
//! command's own fate once the command has ended.

use crate::container::{exit_code, exit_status, WaitOutcome};
use vstd::prelude::*;

verus! {

/// A signal, as far as the supervisor tells signals apart.
#[derive(Clone, Copy, Debug, PartialEq, Eq, Structural)]
pub enum Signal {
    /// A child process has changed its state.
    Child,
    /// Request to end.
    Terminate,
    /// Interrupt from the keyboard.
    Interrupt,
    /// Quit from the keyboard.
    Quit,
    /// Any other signal, by its number.
    Other(i32),
}

/// The signals that the supervisor takes over: it blocks them and reads
/// them one at a time.
pub open spec fn supervised_signals() -> Seq<Signal> {
    seq![Signal::Terminate, Signal::Interrupt, Signal::Quit, Signal::Child]
}

/// Where the supervisor stands. Each phase but the first and the last
/// names the action whose outcome the supervisor is waiting for.
#[derive(Clone, Copy, Debug, PartialEq, Eq, Structural)]
pub enum InitPhase {
    /// Nothing has been asked for yet.
    Start,
    /// The supervisor is asking to inherit orphaned descendants.
    BecomingSubreaper,
    /// The supervised signals are being blocked.
    BlockingSignals,
    /// The descriptor from which signals are read is being opened.
    OpeningSignalFd,
    /// The supervisor is blocked until a signal arrives.
    AwaitingSignal,
    /// The supervisor is looking, without blocking, for a child that has ended.
    Reaping,
    /// A signal is being handed on to the command.
    Forwarding,
    /// The supervisor has decided to leave.
    Exited,
}

/// What the caller reports back after an action.
#[derive(Clone, Copy, Debug, PartialEq, Eq, Structural)]
pub enum InitEvent {
    /// The action was carried out.
    Done,
    /// The action failed.
    Failed,
    /// This signal was read.
    Signal(Signal),
    /// The child `pid` has changed its state in this way.
    Reaped { pid: i32, outcome: WaitOutcome },
    /// There are children, but none has changed its state.
    NoneReady,
    /// There are no children.
    NoChildren,
}

/// What the supervisor asks its caller to do next.
#[derive(Clone, Debug, PartialEq, Eq)]
pub enum InitAction {
    /// Ask to inherit orphaned descendants.
    BecomeSubreaper,
    /// Block these signals on the current thread.
    BlockSignals { signals: Vec<Signal> },
    /// Open a descriptor that yields the blocked signals.
    OpenSignalFd,
    /// Read one signal; answer with `InitEvent::Signal`.
    ReadSignal,
    /// Look for any child that has ended, without blocking; answer with
    /// `InitEvent::Reaped`, `InitEvent::NoneReady` or `InitEvent::NoChildren`.
    Reap,
    /// Send `signal` to the process `pid`.
    Forward { pid: i32, signal: Signal },
    /// Leave with this exit code.
    Exit { code: i32 },
}

/// What an `InitAction` says, as mathematical values.
pub enum InitActionModel {
    BecomeSubreaper,
    BlockSignals { signals: Seq<Signal> },
    OpenSignalFd,
    ReadSignal,
    Reap,
    Forward { pid: i32, signal: Signal },
    Exit { code: i32 },
}

impl DeepView for InitAction {
    type V = InitActionModel;

    open spec fn deep_view(&self) -> InitActionModel {
        match self {
            InitAction::BecomeSubreaper => InitActionModel::BecomeSubreaper,
            InitAction::BlockSignals { signals } => InitActionModel::BlockSignals {
                signals: signals@,
            },
            InitAction::OpenSignalFd => InitActionModel::OpenSignalFd,
            InitAction::ReadSignal => InitActionModel::ReadSignal,
            InitAction::Reap => InitActionModel::Reap,
            InitAction::Forward { pid, signal } => InitActionModel::Forward {
                pid: *pid,
                signal: *signal,
            },
            InitAction::Exit { code } => InitActionModel::Exit { code: *code },
        }
    }
}

/// The supervisor of the command with process id `workload`.
#[derive(Clone, Copy, Debug, PartialEq, Eq, Structural)]
pub struct Init {
    /// The process id of the command.
    pub workload: i32,
    /// Where the supervisor stands.
    pub phase: InitPhase,
    /// The exit code, once the supervisor has decided to leave.
    pub code: i32,
}

impl Init {
    /// The supervisor leaves with `code`.
    pub open spec fn leave(self, code: i32) -> (Init, InitActionModel) {
        (Init { phase: InitPhase::Exited, code, ..self }, InitActionModel::Exit { code })
    }

    /// The supervisor goes back to reading signals.
    pub open spec fn listen(self) -> (Init, InitActionModel) {
        (Init { phase: InitPhase::AwaitingSignal, ..self }, InitActionModel::ReadSignal)
    }

    /// The whole life of the supervisor, one move at a time: the state
    /// after `event` has answered the action that was asked for last, and
    /// the action that is asked for next.
    ///
    /// Becoming a subreaper may fail; blocking the signals, opening the
    /// descriptor and reading from it may not: the supervisor then
    /// leaves with code 1. When a child has changed its state, the
    /// supervisor reaps until nothing is left to reap; if the command
    /// itself is among the reaped, the supervisor leaves with the code
    /// that stands for the command's end. Any other signal goes on to the
    /// command, whether or not it can be delivered.
    pub open spec fn next(self, event: InitEvent) -> (Init, InitActionModel) {
        match self.phase {
            InitPhase::Start => (
                Init { phase: InitPhase::BecomingSubreaper, ..self },
                InitActionModel::BecomeSubreaper,
            ),
            InitPhase::BecomingSubreaper => (
                Init { phase: InitPhase::BlockingSignals, ..self },
                InitActionModel::BlockSignals { signals: supervised_signals() },
            ),
            InitPhase::BlockingSignals => if event is Done {
                (Init { phase: InitPhase::OpeningSignalFd, ..self }, InitActionModel::OpenSignalFd)
            } else {
                self.leave(1)
            },
            InitPhase::OpeningSignalFd => if event is Done {
                self.listen()
            } else {
                self.leave(1)
            },
            InitPhase::AwaitingSignal => match event {
                InitEvent::Signal(Signal::Child) => (
                    Init { phase: InitPhase::Reaping, ..self },
                    InitActionModel::Reap,
                ),
                InitEvent::Signal(signal) => (
                    Init { phase: InitPhase::Forwarding, ..self },
                    InitActionModel::Forward { pid: self.workload, signal },
                ),
                _ => self.leave(1),
            },
            InitPhase::Reaping => match event {
                InitEvent::Reaped { pid, outcome } => if pid == self.workload {
                    self.leave(exit_status(outcome) as i32)
                } else {
                    (self, InitActionModel::Reap)
                },
                InitEvent::NoneReady => self.listen(),
                InitEvent::NoChildren => self.listen(),
                _ => self.leave(1),
            },
            InitPhase::Forwarding => self.listen(),
            InitPhase::Exited => (self, InitActionModel::Exit { code: self.code }),
        }
    }

    /// The supervisor of the command `workload`, before its first move.
    pub fn new(workload: i32) -> (init: Init)
        ensures
            init == (Init { workload, phase: InitPhase::Start, code: 0 }),
    {
        Init { workload, phase: InitPhase::Start, code: 0 }
    }

    /// Leaves with `code`.
    fn exit_with(&mut self, code: i32) -> (action: InitAction)
        ensures
            (*final(self), action.deep_view()) == old(self).leave(code),
    {
        self.phase = InitPhase::Exited;
        self.code = code;
        InitAction::Exit { code }
    }

    /// Goes back to reading signals.
    fn read_on(&mut self) -> (action: InitAction)
        ensures
            (*final(self), action.deep_view()) == old(self).listen(),
    {
        self.phase = InitPhase::AwaitingSignal;
        InitAction::ReadSignal
    }

    /// Takes the outcome of the action that was asked for last, and says
    /// what to do next. The first call, which answers no action, may pass
    /// any event.
    pub fn step(&mut self, event: InitEvent) -> (action: InitAction)
        ensures
            (*final(self), action.deep_view()) == old(self).next(event),
    {
        match self.phase {
            InitPhase::Start => {
                self.phase = InitPhase::BecomingSubreaper;
                InitAction::BecomeSubreaper
            },
            InitPhase::BecomingSubreaper => {
                self.phase = InitPhase::BlockingSignals;
                let mut signals: Vec<Signal> = Vec::new();
                signals.push(Signal::Terminate);
                signals.push(Signal::Interrupt);
                signals.push(Signal::Quit);
                signals.push(Signal::Child);
                assert(signals@ =~= supervised_signals());
                InitAction::BlockSignals { signals }
            },
            InitPhase::BlockingSignals => {
                match event {
                    InitEvent::Done => {
                        self.phase = InitPhase::OpeningSignalFd;
                        InitAction::OpenSignalFd
                    },
                    _ => self.exit_with(1),
                }
            },
            InitPhase::OpeningSignalFd => {
                match event {
                    InitEvent::Done => self.read_on(),
                    _ => self.exit_with(1),
                }
            },
            InitPhase::AwaitingSignal => {
                match event {
                    InitEvent::Signal(Signal::Child) => {
                        self.phase = InitPhase::Reaping;
                        InitAction::Reap
                    },
                    InitEvent::Signal(signal) => {
                        self.phase = InitPhase::Forwarding;
                        InitAction::Forward { pid: self.workload, signal }
                    },
                    _ => self.exit_with(1),
                }
            },
            InitPhase::Reaping => {
                match event {
                    InitEvent::Reaped { pid, outcome } => {
                        if pid == self.workload {
                            self.exit_with(exit_code(outcome))
                        } else {
                            InitAction::Reap
                        }
                    },
                    InitEvent::NoneReady => self.read_on(),
                    InitEvent::NoChildren => self.read_on(),
                    _ => self.exit_with(1),
                }
            },
            InitPhase::Forwarding => self.read_on(),
            InitPhase::Exited => InitAction::Exit { code: self.code },
        }
    }
}

} // verus!
