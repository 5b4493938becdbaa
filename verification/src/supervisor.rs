//! The three requests that callers make of the supervisor, each as the
//! step it takes on the registry.

use vstd::prelude::*;
use crate::error::SupervisorError;
use crate::locator::Probe;
use crate::prober::{probed_version, version_of, Reply};
use crate::registry::{
    after_begin_start, after_stop, effective_port, is_report_of, reports_running, Registry,
    SlotView, Supervised,
};
use crate::shutdown::{Coordinator, Phase};
use crate::status::BackendStatus;

verus! {

/// What a granted start is to do: launch the service on `port`, with the
/// interpreter that the search beginning at `probe` finds.
#[derive(Debug, Clone, Copy, PartialEq, Eq)]
pub struct StartPlan {
    pub port: u16,
    pub probe: Probe,
}

/// A process taken out of the registry, with the coordinator of its
/// shutdown.
#[derive(Debug)]
pub struct Shutdown<H> {
    pub process: Supervised<H>,
    pub coordinator: Coordinator,
}

/// The version to report when the probe was or was not made.
pub open spec fn version_reported(reply: Option<Reply>) -> Option<Seq<char>> {
    match reply {
        Some(answer) => probed_version(answer),
        None => None,
    }
}

/// Begins a start. The request is granted if and only if the slot is empty;
/// it then holds the slot, and the plan names the port (the default where
/// none was requested) and the first interpreter to probe. Otherwise the
/// slot is left as it was and nothing may be launched.
pub fn start_backend<H>(registry: &mut Registry<H>, port: Option<u16>) -> (r: Result<
    StartPlan,
    SupervisorError,
>)
    ensures
        final(registry)@ == after_begin_start(old(registry)@, port),
        final(registry).spec_handle() == old(registry).spec_handle(),
        old(registry)@ is Empty ==> r == Ok::<StartPlan, SupervisorError>(
            StartPlan { port: effective_port(port), probe: Probe::Candidate { index: 0 } },
        ),
        !(old(registry)@ is Empty) ==> r == Err::<StartPlan, SupervisorError>(
            SupervisorError::AlreadyRunning,
        ),
{
    match registry.begin_start(port) {
        Ok(port) => Ok(StartPlan { port, probe: Probe::first() }),
        Err(error) => Err(error),
    }
}

/// Begins a stop. A registered process is taken out of the slot and handed
/// over with a coordinator that has not signalled yet; the slot is empty from
/// then on, whatever comes of the shutdown. With nothing registered the
/// request has succeeded already and the slot is left as it was.
pub fn stop_backend<H>(registry: &mut Registry<H>, graceful: bool) -> (r: Option<Shutdown<H>>)
    ensures
        final(registry)@ == after_stop(old(registry)@),
        final(registry).spec_handle().is_none(),
        match old(registry)@ {
            SlotView::Registered { pid, port } => {
                &&& r is Some
                &&& r->0.process.pid == pid
                &&& r->0.process.port == port
                &&& Some(r->0.process.handle) == old(registry).spec_handle()
                &&& r->0.coordinator.spec_phase() == Phase::Running
                &&& r->0.coordinator.spec_graceful() == graceful
            },
            _ => r is None,
        },
{
    match registry.stop() {
        Some(process) => Some(Shutdown { process, coordinator: Coordinator::new(graceful) }),
        None => None,
    }
}

/// Answers a status query. `reply` is what came of the version probe, none
/// where no probe was made. Whether the backend runs is read off the slot
/// alone; the reply only decides the version, and a probe that failed in any
/// way leaves the version out and nothing else.
pub fn backend_status<H>(registry: &Registry<H>, reply: Option<&Reply>) -> (s: BackendStatus)
    ensures
        is_report_of(
            s,
            registry@,
            version_reported(
                match reply {
                    Some(answer) => Some(*answer),
                    None => None,
                },
            ),
        ),
        s.running == reports_running(registry@),
{
    let version = match reply {
        Some(answer) => version_of(answer),
        None => None,
    };
    registry.status(version)
}

} // verus!
