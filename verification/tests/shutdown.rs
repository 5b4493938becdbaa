use roura_desktop::registry::Registry;
use roura_desktop::shutdown::{Action, Coordinator, Event, Phase, Signal, EXIT_TIMEOUT_SECS};
use roura_desktop::supervisor::{backend_status, start_backend, stop_backend, StartPlan};
use roura_desktop::error::SupervisorError;
use roura_desktop::locator::Probe;
use roura_desktop::prober::Reply;
use roura_desktop::status::BackendStatus;

#[test]
fn exit_timeout_is_five_seconds() {
    assert_eq!(EXIT_TIMEOUT_SECS, 5);
}

#[test]
fn graceful_shutdown_that_exits() {
    let mut c = Coordinator::new(true);
    assert_eq!(c.phase(), Phase::Running);
    assert_eq!(c.next_action(), Action::Send(Signal::Terminate));
    c.observe(Event::SignalSent);
    assert_eq!(c.phase(), Phase::Signaled);
    assert_eq!(c.next_action(), Action::AwaitExit { timeout_secs: 5 });
    c.observe(Event::ExitObserved);
    assert_eq!(c.phase(), Phase::Exited);
    assert_eq!(c.next_action(), Action::Report { exited: true });
}

#[test]
fn host_without_terminate_request_kills() {
    let c = Coordinator::new(false);
    assert_eq!(c.next_action(), Action::Send(Signal::Kill));
}

#[test]
fn timeout_is_reported_without_a_second_signal() {
    let mut c = Coordinator::new(true);
    c.observe(Event::SignalSent);
    c.observe(Event::DeadlineElapsed);
    assert_eq!(c.phase(), Phase::TimedOut);
    assert_eq!(c.next_action(), Action::Report { exited: false });
    c.observe(Event::SignalSent);
    c.observe(Event::ExitObserved);
    c.observe(Event::DeadlineElapsed);
    assert_eq!(c.phase(), Phase::TimedOut);
    assert_eq!(c.next_action(), Action::Report { exited: false });
}

#[test]
fn events_out_of_turn_change_nothing() {
    let mut c = Coordinator::new(true);
    c.observe(Event::ExitObserved);
    assert_eq!(c.phase(), Phase::Running);
    c.observe(Event::DeadlineElapsed);
    assert_eq!(c.phase(), Phase::Running);
    c.observe(Event::SignalSent);
    c.observe(Event::SignalSent);
    assert_eq!(c.phase(), Phase::Signaled);
    c.observe(Event::ExitObserved);
    c.observe(Event::DeadlineElapsed);
    assert_eq!(c.phase(), Phase::Exited);
}

#[test]
fn start_backend_plans_port_and_first_probe() {
    let mut registry: Registry<u8> = Registry::new();
    assert_eq!(
        start_backend(&mut registry, None),
        Ok(StartPlan { port: 8765, probe: Probe::Candidate { index: 0 } })
    );
    assert_eq!(start_backend(&mut registry, Some(1)), Err(SupervisorError::AlreadyRunning));
    registry.abandon_start();
    assert_eq!(
        start_backend(&mut registry, Some(4000)),
        Ok(StartPlan { port: 4000, probe: Probe::Candidate { index: 0 } })
    );
}

#[test]
fn stop_backend_hands_over_process_and_coordinator() {
    let mut registry: Registry<&'static str> = Registry::new();
    start_backend(&mut registry, Some(9000)).unwrap();
    registry.register("child", 321).unwrap();
    let shutdown = stop_backend(&mut registry, true).unwrap();
    assert_eq!(shutdown.process.handle, "child");
    assert_eq!(shutdown.process.pid, 321);
    assert_eq!(shutdown.process.port, 9000);
    assert_eq!(shutdown.coordinator.phase(), Phase::Running);
    assert_eq!(shutdown.coordinator.next_action(), Action::Send(Signal::Terminate));
    assert!(stop_backend(&mut registry, true).is_none());
    assert_eq!(backend_status(&registry, None), BackendStatus::stopped());
}

#[test]
fn stop_backend_on_host_without_terminate_request() {
    let mut registry: Registry<u8> = Registry::new();
    start_backend(&mut registry, None).unwrap();
    registry.register(0, 1).unwrap();
    let shutdown = stop_backend(&mut registry, false).unwrap();
    assert_eq!(shutdown.coordinator.next_action(), Action::Send(Signal::Kill));
}

#[test]
fn backend_status_with_probe_replies() {
    let mut registry: Registry<u8> = Registry::new();
    start_backend(&mut registry, None).unwrap();
    registry.register(0, 99).unwrap();
    let good = Reply::Answered { status: 200, body: br#"{"version":"3.1"}"#.to_vec() };
    assert_eq!(
        backend_status(&registry, Some(&good)),
        BackendStatus {
            running: true,
            port: Some(8765),
            version: Some("3.1".to_string()),
            pid: Some(99)
        }
    );
    let down = Reply::Unreachable { cause: "connection refused".to_string() };
    assert_eq!(
        backend_status(&registry, Some(&down)),
        BackendStatus { running: true, port: Some(8765), version: None, pid: Some(99) }
    );
    let bad = Reply::Answered { status: 200, body: b"<html>".to_vec() };
    assert_eq!(
        backend_status(&registry, Some(&bad)),
        BackendStatus { running: true, port: Some(8765), version: None, pid: Some(99) }
    );
    assert_eq!(
        backend_status(&registry, None),
        BackendStatus { running: true, port: Some(8765), version: None, pid: Some(99) }
    );
    registry.stop();
    assert_eq!(backend_status(&registry, Some(&good)), BackendStatus::stopped());
}
