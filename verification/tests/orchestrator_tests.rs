use sidecar_supervisor::orchestrator::{
    Action, AllocError, Event, Mode, Orchestrator, Phase, ReadinessEvent, DEFAULT_PROBE_ATTEMPTS,
    DEV_PORT,
};

#[test]
fn dev_mode_fixed_port_no_launch_then_ready() {
    let mut o: Orchestrator<u32> = Orchestrator::new(Mode::Dev);
    assert_eq!(o.current_port(), None);

    let a = o.step(Event::StartRequested);
    assert_eq!(
        a,
        Action::StartProbe {
            port: DEV_PORT,
            max_attempts: DEFAULT_PROBE_ATTEMPTS,
        }
    );
    // The fixed dev port is visible at once; no process was launched.
    assert_eq!(o.current_port(), Some(9876));
    assert_eq!(o.state.child, None);

    let a = o.step(Event::ProbeSucceeded);
    assert_eq!(a, Action::EmitReady(ReadinessEvent { port: 9876 }));
    assert_eq!(o.phase, Phase::Ready);
}

#[test]
fn production_success_then_shutdown_kills_the_process() {
    let mut o: Orchestrator<u32> = Orchestrator::new(Mode::Prod);

    let a = o.step(Event::StartRequested);
    assert_eq!(a, Action::AllocatePort);
    assert_eq!(o.current_port(), None);

    let a = o.step(Event::PortAllocated { port: 38100 });
    assert_eq!(a, Action::LaunchSidecar { port: 38100 });
    // The port is not published until the launch has succeeded.
    assert_eq!(o.current_port(), None);

    let a = o.step(Event::LaunchSucceeded { child: 42 });
    assert_eq!(
        a,
        Action::StartDrainAndProbe {
            port: 38100,
            max_attempts: DEFAULT_PROBE_ATTEMPTS,
        }
    );
    assert_eq!(o.current_port(), Some(38100));

    // Readiness is observed only after the port query already answers it.
    let a = o.step(Event::ProbeSucceeded);
    match a {
        Action::EmitReady(e) => {
            assert_eq!(e.port, 38100);
            assert_eq!(o.current_port(), Some(e.port));
        }
        other => panic!("expected EmitReady, got {:?}", other),
    }

    let a = o.step(Event::ShutdownRequested);
    assert_eq!(a, Action::KillChild { child: 42 });
    assert_eq!(o.phase, Phase::Stopped);

    // A second shutdown finds nothing to kill.
    let a = o.step(Event::ShutdownRequested);
    assert_eq!(a, Action::Nothing);
}

#[test]
fn production_launch_failure_halts_silently() {
    let mut o: Orchestrator<u32> = Orchestrator::new(Mode::Prod);
    let _ = o.step(Event::StartRequested);
    let _ = o.step(Event::PortAllocated { port: 40001 });

    let a = o.step(Event::LaunchFailed);
    assert_eq!(a, Action::Nothing);
    assert_eq!(o.phase, Phase::Stopped);
    // No readiness was emitted and the port stays unassigned.
    assert!(!o.ready_emitted);
    assert_eq!(o.current_port(), None);

    // Host shutdown still completes with nothing to kill.
    let a = o.step(Event::ShutdownRequested);
    assert_eq!(a, Action::Nothing);
}

#[test]
fn production_allocation_failure_halts_silently() {
    let mut o: Orchestrator<u32> = Orchestrator::new(Mode::Prod);
    let _ = o.step(Event::StartRequested);

    let a = o.step(Event::AllocationFailed {
        error: AllocError::BindError,
    });
    assert_eq!(a, Action::Nothing);
    assert_eq!(o.phase, Phase::Stopped);
    assert_eq!(o.current_port(), None);
    assert!(!o.ready_emitted);
}

#[test]
fn production_probe_failure_keeps_the_handle_for_shutdown() {
    let mut o: Orchestrator<u32> = Orchestrator::new(Mode::Prod);
    let _ = o.step(Event::StartRequested);
    let _ = o.step(Event::PortAllocated { port: 40002 });
    let _ = o.step(Event::LaunchSucceeded { child: 7 });

    let a = o.step(Event::ProbeTimedOut);
    assert_eq!(a, Action::Nothing);
    assert_eq!(o.phase, Phase::ProbeFailed);
    // No readiness, but the broken process is still owned...
    assert!(!o.ready_emitted);
    assert_eq!(o.state.child, Some(7));
    // ...and is still killed on shutdown.
    let a = o.step(Event::ShutdownRequested);
    assert_eq!(a, Action::KillChild { child: 7 });
    assert_eq!(o.state.child, None);
}

#[test]
fn dev_mode_probe_failure_is_not_fatal() {
    let mut o: Orchestrator<u32> = Orchestrator::new(Mode::Dev);
    let _ = o.step(Event::StartRequested);

    let a = o.step(Event::ProbeTimedOut);
    assert_eq!(a, Action::Nothing);
    assert_eq!(o.phase, Phase::ProbeFailed);
    // The fixed port stays queryable for consumers that retry on their own.
    assert_eq!(o.current_port(), Some(DEV_PORT));

    let a = o.step(Event::ShutdownRequested);
    assert_eq!(a, Action::Nothing);
}
