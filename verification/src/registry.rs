//! The registry: one slot that holds at most one supervised process.
//!
//! Every request is a short step on the slot, taken while the caller holds
//! the lock around the registry. The work between the steps (finding the
//! interpreter, launching the child, sleeping, probing) is the caller's; each
//! step says what the slot becomes and what the caller is to do next.

use vstd::prelude::*;
use crate::error::SupervisorError;
use crate::status::BackendStatus;
use crate::text::optional_text;

verus! {

/// The port that the service listens on when the caller names none.
pub const DEFAULT_PORT: u16 = 8765;

/// What the slot holds, without the handle.
pub enum SlotView {
    /// Nothing is registered and no start is under way.
    Empty,
    /// A start has claimed the slot and is launching its child.
    Starting { port: u16 },
    /// A process is registered.
    Registered { pid: u32, port: u16 },
}

/// A registered process: its handle, its identifier and the port it serves.
#[derive(Debug)]
pub struct Supervised<H> {
    pub handle: H,
    pub pid: u32,
    pub port: u16,
}

#[derive(Debug)]
enum Slot<H> {
    Empty,
    Starting { port: u16 },
    Registered { process: Supervised<H> },
}

/// The single slot. It owns the handle of the registered process and gives
/// it away only when the process is taken out for shutdown.
#[derive(Debug)]
pub struct Registry<H> {
    slot: Slot<H>,
}

/// The port that a start request means.
pub open spec fn effective_port(requested: Option<u16>) -> u16 {
    match requested {
        Some(p) => p,
        None => DEFAULT_PORT,
    }
}

/// The slot after a start request.
pub open spec fn after_begin_start(s: SlotView, requested: Option<u16>) -> SlotView {
    match s {
        SlotView::Empty => SlotView::Starting { port: effective_port(requested) },
        _ => s,
    }
}

/// The slot after a start gave up before a child was registered.
pub open spec fn after_abandon_start(s: SlotView) -> SlotView {
    match s {
        SlotView::Starting { .. } => SlotView::Empty,
        _ => s,
    }
}

/// The slot after a launched child was handed in.
pub open spec fn after_register(s: SlotView, pid: u32) -> SlotView {
    match s {
        SlotView::Starting { port } => SlotView::Registered { pid, port },
        _ => s,
    }
}

/// Whether the slot holds the process `pid`.
pub open spec fn holds_process(s: SlotView, pid: u32) -> bool {
    s matches SlotView::Registered { pid: p, .. } && p == pid
}

/// The slot after the liveness check that follows the warm-up interval.
pub open spec fn after_confirm_start(s: SlotView, pid: u32, exited: bool) -> SlotView {
    if holds_process(s, pid) && exited {
        SlotView::Empty
    } else {
        s
    }
}

/// The slot after a stop request.
pub open spec fn after_stop(s: SlotView) -> SlotView {
    match s {
        SlotView::Registered { .. } => SlotView::Empty,
        _ => s,
    }
}

/// Whether a status query reports the backend as running.
pub open spec fn reports_running(s: SlotView) -> bool {
    s is Registered
}

/// The port that a status query reports.
pub open spec fn reported_port(s: SlotView) -> Option<u16> {
    match s {
        SlotView::Registered { port, .. } => Some(port),
        _ => None,
    }
}

/// The process identifier that a status query reports.
pub open spec fn reported_pid(s: SlotView) -> Option<u32> {
    match s {
        SlotView::Registered { pid, .. } => Some(pid),
        _ => None,
    }
}

/// Whether `status` is the report owed for the slot `s` when the version
/// probe came back with `version`.
pub open spec fn is_report_of(
    status: BackendStatus,
    s: SlotView,
    version: Option<Seq<char>>,
) -> bool {
    &&& status.running == reports_running(s)
    &&& status.port == reported_port(s)
    &&& status.pid == reported_pid(s)
    &&& status.spec_version() == if reports_running(s) {
        version
    } else {
        None
    }
}

impl<H> Registry<H> {
    /// What the slot holds, without the handle.
    pub closed spec fn view(&self) -> SlotView {
        match self.slot {
            Slot::Empty => SlotView::Empty,
            Slot::Starting { port } => SlotView::Starting { port },
            Slot::Registered { process } => SlotView::Registered {
                pid: process.pid,
                port: process.port,
            },
        }
    }

    /// The handle of the registered process, if there is one.
    pub closed spec fn spec_handle(&self) -> Option<H> {
        match self.slot {
            Slot::Registered { process } => Some(process.handle),
            _ => None,
        }
    }

    /// A registry with an empty slot.
    pub fn new() -> (r: Registry<H>)
        ensures
            r@ is Empty,
            r.spec_handle().is_none(),
    {
        Registry { slot: Slot::Empty }
    }

    /// Claims the slot for a start. Succeeds with the port to launch on if
    /// and only if the slot is empty; otherwise the slot is left as it was
    /// and the caller must not launch anything.
    pub fn begin_start(&mut self, requested: Option<u16>) -> (r: Result<u16, SupervisorError>)
        ensures
            final(self)@ == after_begin_start(old(self)@, requested),
            final(self).spec_handle() == old(self).spec_handle(),
            old(self)@ is Empty ==> r == Ok::<u16, SupervisorError>(effective_port(requested)),
            !(old(self)@ is Empty) ==> r == Err::<u16, SupervisorError>(
                SupervisorError::AlreadyRunning,
            ),
    {
        match &self.slot {
            Slot::Empty => {
                let port = match requested {
                    Some(p) => p,
                    None => DEFAULT_PORT,
                };
                self.slot = Slot::Starting { port };
                Ok(port)
            },
            _ => Err(SupervisorError::AlreadyRunning),
        }
    }

    /// Gives the claim back after the interpreter was not found or the
    /// launch failed. Returns whether there was a claim to give back.
    pub fn abandon_start(&mut self) -> (released: bool)
        ensures
            final(self)@ == after_abandon_start(old(self)@),
            final(self).spec_handle() == old(self).spec_handle(),
            released == (old(self)@ is Starting),
    {
        match &self.slot {
            Slot::Starting { .. } => {
                self.slot = Slot::Empty;
                true
            },
            _ => false,
        }
    }

    /// Hands in the launched child. The registry takes the handle if and only
    /// if a start holds the claim; otherwise the handle comes back untouched.
    pub fn register(&mut self, handle: H, pid: u32) -> (r: Result<u16, H>)
        ensures
            final(self)@ == after_register(old(self)@, pid),
            match old(self)@ {
                SlotView::Starting { port } => {
                    &&& r == Ok::<u16, H>(port)
                    &&& final(self).spec_handle() == Some(handle)
                },
                _ => {
                    &&& r == Err::<u16, H>(handle)
                    &&& final(self).spec_handle() == old(self).spec_handle()
                },
            },
    {
        match &self.slot {
            Slot::Starting { port } => {
                let port = *port;
                self.slot = Slot::Registered { process: Supervised { handle, pid, port } };
                Ok(port)
            },
            _ => Err(handle),
        }
    }

    /// Closes a start after the warm-up interval. `exited` says whether the
    /// child `pid` was found dead. The start succeeds if and only if the slot
    /// still holds `pid` and the child is alive; a dead child is taken out of
    /// the slot, and in every other case the slot is left as it was.
    pub fn confirm_start(&mut self, pid: u32, exited: bool) -> (r: Result<
        BackendStatus,
        SupervisorError,
    >)
        ensures
            final(self)@ == after_confirm_start(old(self)@, pid, exited),
            final(self)@ is Registered ==> final(self).spec_handle() == old(self).spec_handle(),
            !(final(self)@ is Registered) ==> final(self).spec_handle().is_none(),
            holds_process(old(self)@, pid) && !exited ==> r is Ok && is_report_of(
                r->Ok_0,
                old(self)@,
                None,
            ),
            !(holds_process(old(self)@, pid) && !exited) ==> r == Err::<
                BackendStatus,
                SupervisorError,
            >(SupervisorError::UnexpectedExit),
    {
        let held = match &self.slot {
            Slot::Registered { process } => if process.pid == pid {
                Some(process.port)
            } else {
                None
            },
            _ => None,
        };
        match held {
            Some(port) => {
                if exited {
                    self.slot = Slot::Empty;
                    Err(SupervisorError::UnexpectedExit)
                } else {
                    Ok(BackendStatus { running: true, port: Some(port), version: None, pid: Some(pid) })
                }
            },
            None => Err(SupervisorError::UnexpectedExit),
        }
    }

    /// Takes the registered process out of the slot for shutdown. When
    /// nothing is registered the slot is left as it was and nothing is handed
    /// out; either way the request has succeeded.
    pub fn stop(&mut self) -> (taken: Option<Supervised<H>>)
        ensures
            final(self)@ == after_stop(old(self)@),
            final(self).spec_handle().is_none(),
            match old(self)@ {
                SlotView::Registered { pid, port } => {
                    &&& taken is Some
                    &&& taken->0.pid == pid
                    &&& taken->0.port == port
                    &&& Some(taken->0.handle) == old(self).spec_handle()
                },
                _ => taken is None,
            },
    {
        match &self.slot {
            Slot::Registered { .. } => {
                let mut slot = Slot::Empty;
                core::mem::swap(&mut self.slot, &mut slot);
                match slot {
                    Slot::Registered { process } => Some(process),
                    _ => None,
                }
            },
            _ => None,
        }
    }

    /// The port to probe for the version: the registered port while a
    /// process is registered, none otherwise.
    pub fn probe_port(&self) -> (p: Option<u16>)
        ensures
            p == reported_port(self@),
    {
        match &self.slot {
            Slot::Registered { process } => Some(process.port),
            _ => None,
        }
    }

    /// The status report. `version` is what the version probe gave, `None`
    /// when it failed or was not made. Running is decided by the slot alone;
    /// a version is reported only for a running backend.
    pub fn status(&self, version: Option<String>) -> (s: BackendStatus)
        ensures
            is_report_of(s, self@, optional_text(version)),
    {
        match &self.slot {
            Slot::Registered { process } => BackendStatus {
                running: true,
                port: Some(process.port),
                version,
                pid: Some(process.pid),
            },
            _ => BackendStatus::stopped(),
        }
    }

    /// The handle of the registered process, for the caller to poll.
    pub fn handle(&self) -> (h: Option<&H>)
        ensures
            match h {
                Some(handle) => self.spec_handle() == Some(*handle),
                None => self.spec_handle().is_none(),
            },
            h is Some <==> self@ is Registered,
    {
        match &self.slot {
            Slot::Registered { process } => Some(&process.handle),
            _ => None,
        }
    }
}

} // verus!
