use toy_container::container::WaitOutcome;
use toy_container::init::{Init, InitAction, InitEvent, InitPhase, Signal};

fn listening(workload: i32) -> Init {
    let mut init = Init::new(workload);
    assert_eq!(init.step(InitEvent::Done), InitAction::BecomeSubreaper);
    assert_eq!(
        init.step(InitEvent::Failed),
        InitAction::BlockSignals {
            signals: vec![Signal::Terminate, Signal::Interrupt, Signal::Quit, Signal::Child],
        }
    );
    assert_eq!(init.step(InitEvent::Done), InitAction::OpenSignalFd);
    assert_eq!(init.step(InitEvent::Done), InitAction::ReadSignal);
    assert_eq!(init.phase, InitPhase::AwaitingSignal);
    init
}

#[test]
fn a_new_supervisor_has_done_nothing() {
    assert_eq!(Init::new(7), Init { workload: 7, phase: InitPhase::Start, code: 0 });
}

#[test]
fn setup_goes_on_without_the_subreaper_but_not_without_signals() {
    listening(7);
    let mut init = Init::new(7);
    init.step(InitEvent::Done);
    init.step(InitEvent::Done);
    assert_eq!(init.step(InitEvent::Failed), InitAction::Exit { code: 1 });
    assert_eq!(init.phase, InitPhase::Exited);
    let mut init = Init::new(7);
    init.step(InitEvent::Done);
    init.step(InitEvent::Done);
    init.step(InitEvent::Done);
    assert_eq!(init.step(InitEvent::Failed), InitAction::Exit { code: 1 });
}

#[test]
fn signals_go_on_to_the_command() {
    let mut init = listening(7);
    for signal in [Signal::Terminate, Signal::Interrupt, Signal::Quit, Signal::Other(10)] {
        assert_eq!(
            init.step(InitEvent::Signal(signal)),
            InitAction::Forward { pid: 7, signal }
        );
        assert_eq!(init.phase, InitPhase::Forwarding);
        assert_eq!(init.step(InitEvent::Failed), InitAction::ReadSignal);
    }
}

#[test]
fn the_command_s_end_is_the_supervisor_s() {
    let mut init = listening(7);
    assert_eq!(init.step(InitEvent::Signal(Signal::Child)), InitAction::Reap);
    assert_eq!(
        init.step(InitEvent::Reaped { pid: 7, outcome: WaitOutcome::Exited(42) }),
        InitAction::Exit { code: 42 }
    );
    assert_eq!(init, Init { workload: 7, phase: InitPhase::Exited, code: 42 });
    assert_eq!(init.step(InitEvent::Done), InitAction::Exit { code: 42 });

    let mut init = listening(7);
    init.step(InitEvent::Signal(Signal::Child));
    assert_eq!(
        init.step(InitEvent::Reaped { pid: 7, outcome: WaitOutcome::Signaled(11) }),
        InitAction::Exit { code: 139 }
    );
}

#[test]
fn other_children_are_reaped_on_the_way() {
    let mut init = listening(7);
    assert_eq!(init.step(InitEvent::Signal(Signal::Child)), InitAction::Reap);
    assert_eq!(
        init.step(InitEvent::Reaped { pid: 8, outcome: WaitOutcome::Exited(1) }),
        InitAction::Reap
    );
    assert_eq!(
        init.step(InitEvent::Reaped { pid: 9, outcome: WaitOutcome::Signaled(9) }),
        InitAction::Reap
    );
    assert_eq!(init.step(InitEvent::NoneReady), InitAction::ReadSignal);
    assert_eq!(init.step(InitEvent::Signal(Signal::Child)), InitAction::Reap);
    assert_eq!(init.step(InitEvent::NoChildren), InitAction::ReadSignal);
    assert_eq!(init.step(InitEvent::Signal(Signal::Child)), InitAction::Reap);
    assert_eq!(
        init.step(InitEvent::Reaped { pid: 7, outcome: WaitOutcome::Exited(0) }),
        InitAction::Exit { code: 0 }
    );
}

#[test]
fn what_cannot_be_mended_ends_with_one() {
    let mut init = listening(7);
    assert_eq!(init.step(InitEvent::Failed), InitAction::Exit { code: 1 });
    let mut init = listening(7);
    init.step(InitEvent::Signal(Signal::Child));
    assert_eq!(init.step(InitEvent::Failed), InitAction::Exit { code: 1 });
}
