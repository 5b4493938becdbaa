//! What holds of the registry over whole sequences of requests.
//!
//! A history is a sequence of steps, each taken under the registry's lock, in
//! the order in which the lock was granted. Requests of several callers may
//! interleave freely; the statements below hold of every interleaving.

use vstd::prelude::*;
use crate::prober::Reply;
use crate::registry::{
    after_abandon_start, after_begin_start, after_confirm_start, after_register, after_stop,
    effective_port, holds_process, is_report_of, reported_pid, reported_port, reports_running,
    SlotView,
};
use crate::status::BackendStatus;
use crate::supervisor::version_reported;

verus! {

/// One step on the registry.
pub enum Step {
    /// A start request claims the slot.
    BeginStart { requested: Option<u16> },
    /// A start gives its claim back.
    AbandonStart,
    /// A start hands in its launched child.
    Register { pid: u32 },
    /// A start checks its child after the warm-up interval.
    ConfirmStart { pid: u32, exited: bool },
    /// A stop request.
    Stop,
    /// A status query.
    Status,
}

/// The slot after one step.
pub open spec fn step(s: SlotView, c: Step) -> SlotView {
    match c {
        Step::BeginStart { requested } => after_begin_start(s, requested),
        Step::AbandonStart => after_abandon_start(s),
        Step::Register { pid } => after_register(s, pid),
        Step::ConfirmStart { pid, exited } => after_confirm_start(s, pid, exited),
        Step::Stop => after_stop(s),
        Step::Status => s,
    }
}

/// The slot after the first `n` steps of `history`, begun at `s`.
pub open spec fn slot_after(s: SlotView, history: Seq<Step>, n: nat) -> SlotView
    decreases n,
{
    if n == 0 || n > history.len() {
        s
    } else {
        step(slot_after(s, history, (n - 1) as nat), history[n - 1])
    }
}

/// Whether the step `c`, taken at slot `s`, is a start request that is
/// granted the slot.
pub open spec fn claims(s: SlotView, c: Step) -> bool {
    c is BeginStart && s is Empty
}

/// Whether the step `c`, taken at slot `s`, puts a process into the slot.
pub open spec fn registers(s: SlotView, c: Step) -> bool {
    c is Register && s is Starting
}

/// Whether the step `c`, taken at slot `s`, takes the registered process
/// out of the slot: a stop, or the discovery that the child has died.
pub open spec fn unregisters(s: SlotView, c: Step) -> bool {
    s is Registered && !(step(s, c) is Registered)
}

/// Whether the step `c`, taken at slot `s`, leaves the slot empty where it
/// was not before.
pub open spec fn frees(s: SlotView, c: Step) -> bool {
    !(s is Empty) && step(s, c) is Empty
}

/// A process leaves the slot only by a stop or by being found dead.
pub proof fn lemma_unregisters_by_stop_or_exit(s: SlotView, c: Step)
    requires
        unregisters(s, c),
    ensures
        c is Stop || (c matches Step::ConfirmStart { pid, exited } && exited && holds_process(
            s,
            pid,
        )),
        step(s, c) is Empty,
{
}

/// Between a history point where a process is registered and a later point
/// where none is, some step took the process out.
pub proof fn lemma_registered_until_unregistered(
    s: SlotView,
    history: Seq<Step>,
    from: nat,
    to: nat,
)
    requires
        from <= to <= history.len(),
        slot_after(s, history, from) is Registered,
        !(slot_after(s, history, to) is Registered),
    ensures
        exists|k: int|
            from <= k < to && #[trigger] unregisters(
                slot_after(s, history, k as nat),
                history[k],
            ),
    decreases to - from,
{
    if from == to {
    } else {
        let before = slot_after(s, history, (to - 1) as nat);
        if before is Registered {
            assert(unregisters(slot_after(s, history, (to - 1) as nat), history[to - 1]));
        } else {
            lemma_registered_until_unregistered(s, history, from, (to - 1) as nat);
        }
    }
}

/// Between a history point where the slot is taken and a later point where
/// it is empty, some step freed it.
pub proof fn lemma_taken_until_freed(s: SlotView, history: Seq<Step>, from: nat, to: nat)
    requires
        from <= to <= history.len(),
        !(slot_after(s, history, from) is Empty),
        slot_after(s, history, to) is Empty,
    ensures
        exists|k: int|
            from <= k < to && #[trigger] frees(slot_after(s, history, k as nat), history[k]),
    decreases to - from,
{
    if from == to {
    } else {
        let before = slot_after(s, history, (to - 1) as nat);
        if before is Empty {
            lemma_taken_until_freed(s, history, from, (to - 1) as nat);
        } else {
            assert(frees(slot_after(s, history, (to - 1) as nat), history[to - 1]));
        }
    }
}

/// At most one process is ever registered: whatever the history, two steps
/// that each put a process into the slot are parted by a step that took the
/// earlier process out.
pub proof fn lemma_registrations_never_overlap(
    s: SlotView,
    history: Seq<Step>,
    first: nat,
    second: nat,
)
    requires
        first < second < history.len(),
        registers(slot_after(s, history, first), history[first as int]),
        registers(slot_after(s, history, second), history[second as int]),
    ensures
        exists|k: int|
            first < k < second && #[trigger] unregisters(
                slot_after(s, history, k as nat),
                history[k],
            ),
{
    assert(slot_after(s, history, first + 1) is Registered);
    lemma_registered_until_unregistered(s, history, first + 1, second);
}

/// Of two start requests, whatever the history between them, the later is
/// granted the slot only after a step freed it: the earlier start gave up,
/// its child was found dead, or its process was stopped. Where no such step
/// lies between them, the later request is refused and launches nothing.
pub proof fn lemma_claims_never_overlap(
    s: SlotView,
    history: Seq<Step>,
    first: nat,
    second: nat,
)
    requires
        first < second < history.len(),
        claims(slot_after(s, history, first), history[first as int]),
        claims(slot_after(s, history, second), history[second as int]),
    ensures
        exists|k: int|
            first < k < second && #[trigger] frees(slot_after(s, history, k as nat), history[k]),
{
    assert(slot_after(s, history, first + 1) is Starting);
    lemma_taken_until_freed(s, history, first + 1, second);
}

/// Two start requests that reach an empty slot one after the other: the
/// first is granted the slot, the second finds it taken, and the second
/// leaves the slot exactly as the first made it.
pub proof fn lemma_concurrent_starts(a: Option<u16>, b: Option<u16>)
    ensures
        ({
            let after_first = after_begin_start(SlotView::Empty, a);
            let after_second = after_begin_start(after_first, b);
            &&& after_first == SlotView::Starting { port: effective_port(a) }
            &&& !(after_first is Empty)
            &&& after_second == after_first
        }),
{
}

/// A start that runs to its end on an empty slot, followed by a status
/// query: the backend is reported running, on the requested port (the default
/// where none was requested), with the child's process identifier.
pub proof fn lemma_start_then_status(requested: Option<u16>, pid: u32)
    ensures
        ({
            let claimed = after_begin_start(SlotView::Empty, requested);
            let registered = after_register(claimed, pid);
            let confirmed = after_confirm_start(registered, pid, false);
            &&& holds_process(registered, pid)
            &&& reports_running(confirmed)
            &&& reported_port(confirmed) == Some(effective_port(requested))
            &&& reported_pid(confirmed) == Some(pid)
        }),
{
}

/// A stop followed by a status query: whatever the slot held, the backend is
/// reported not running, with no port and no process identifier.
pub proof fn lemma_stop_then_status(s: SlotView)
    ensures
        !reports_running(after_stop(s)),
        reported_port(after_stop(s)).is_none(),
        reported_pid(after_stop(s)).is_none(),
{
}

/// A stop when nothing is registered leaves the slot as it was, and a second
/// stop never changes what the first left.
pub proof fn lemma_stop_idempotent(s: SlotView)
    ensures
        !(s is Registered) ==> after_stop(s) == s,
        after_stop(after_stop(s)) == after_stop(s),
{
}

/// The port is reported exactly when a process is registered, and so is the
/// process identifier.
pub proof fn lemma_port_iff_registered(s: SlotView)
    ensures
        reported_port(s) is Some <==> reports_running(s),
        reported_pid(s) is Some <==> reports_running(s),
{
}

/// A version probe that finds the endpoint unreachable takes nothing from
/// the report but the version: the backend is still reported running.
pub proof fn lemma_unreachable_probe_keeps_running(
    status: BackendStatus,
    s: SlotView,
    cause: String,
)
    requires
        reports_running(s),
        is_report_of(status, s, version_reported(Some(Reply::Unreachable { cause }))),
    ensures
        status.running,
        status.version is None,
        status.port == reported_port(s),
        status.pid == reported_pid(s),
{
}

/// Whatever the version probe gave, the report says the same of running,
/// port and process identifier.
pub proof fn lemma_probe_decides_version_only(
    with: BackendStatus,
    without: BackendStatus,
    s: SlotView,
    reply: Option<Reply>,
)
    requires
        is_report_of(with, s, version_reported(reply)),
        is_report_of(without, s, None),
    ensures
        with.running == without.running,
        with.port == without.port,
        with.pid == without.pid,
{
}

/// A start whose child is found dead after the warm-up interval leaves the
/// slot empty.
pub proof fn lemma_dead_child_clears_slot(requested: Option<u16>, pid: u32)
    ensures
        after_confirm_start(
            after_register(after_begin_start(SlotView::Empty, requested), pid),
            pid,
            true,
        ) is Empty,
{
}

} // verus!
