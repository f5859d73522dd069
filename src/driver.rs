//! The driver loop's decisions: session status, turn statistics, the
//! at-most-once automation latch and the cancellation listener.
//!
//! The loop itself (waiting for events, submitting operations) runs outside
//! the library: it hands each event's kind to [`Driver::on_event`] and each
//! cancellation signal to [`Driver::on_cancel`], then performs the returned
//! [`DriverAction`].
use vstd::prelude::*;

verus! {

/// Post-completion automation mode.
#[derive(Debug, Clone, Copy, PartialEq, Eq, Structural)]
pub enum AutoSummary {
    Rich,
    Brief,
}

/// Session status, owned by the driver alone.
#[derive(Debug, Clone, Copy, PartialEq, Eq, Structural)]
pub enum CodexStatus {
    Running,
    InitiateShutdown,
    Shutdown,
}

/// The variant of an engine event, which is all the driver decides on.
#[derive(Debug, Clone, Copy, PartialEq, Eq, Structural)]
pub enum EventKind {
    TaskComplete,
    ExecCommandBegin,
    McpToolCallBegin,
    PatchApplyBegin,
    Error,
    StreamError,
    ShutdownComplete,
    Other,
}

/// Counts gathered from the events that pass through the driver.
#[derive(Debug, Clone, Copy, PartialEq, Eq, Structural)]
pub struct ExecStats {
    pub exec_calls: usize,
    pub mcp_calls: usize,
    pub patches_applied: usize,
    pub errors: usize,
}

/// What the loop must do after a decision.
#[derive(Debug, Clone, Copy, PartialEq, Eq, Structural)]
pub enum DriverAction {
    /// Keep waiting for the next event.
    Continue,
    /// Submit an `Interrupt` operation without waiting for an answer.
    SubmitInterrupt,
    /// Submit the automation turn as an ordinary user input.
    SubmitSummary(AutoSummary),
    /// Submit the one `Shutdown` operation of the session.
    SubmitShutdown,
    /// The session is over: leave the loop.
    Exit,
}

/// State of the driver loop.
#[derive(Debug, Clone, Copy, PartialEq, Eq, Structural)]
pub struct Driver {
    pub status: CodexStatus,
    pub stats: ExecStats,
    pub auto_summary: Option<AutoSummary>,
    pub ran_auto_summary: bool,
    pub listening_for_cancel: bool,
}

/// A counter step that stays at the largest value instead of wrapping.
pub open spec fn bump(n: usize) -> usize {
    if n < usize::MAX {
        (n + 1) as usize
    } else {
        n
    }
}

/// The statistics after observing one event.
pub open spec fn count_event(s: ExecStats, k: EventKind) -> ExecStats {
    match k {
        EventKind::ExecCommandBegin => ExecStats { exec_calls: bump(s.exec_calls), ..s },
        EventKind::McpToolCallBegin => ExecStats { mcp_calls: bump(s.mcp_calls), ..s },
        EventKind::PatchApplyBegin => ExecStats { patches_applied: bump(s.patches_applied), ..s },
        EventKind::Error | EventKind::StreamError => ExecStats { errors: bump(s.errors), ..s },
        _ => s,
    }
}

/// The status an event asks for: a completed task is the session-terminal
/// condition, `ShutdownComplete` ends the session.
pub open spec fn status_request(k: EventKind) -> CodexStatus {
    match k {
        EventKind::TaskComplete => CodexStatus::InitiateShutdown,
        EventKind::ShutdownComplete => CodexStatus::Shutdown,
        _ => CodexStatus::Running,
    }
}

pub open spec fn initial_driver(auto_summary: Option<AutoSummary>) -> Driver {
    Driver {
        status: CodexStatus::Running,
        stats: ExecStats { exec_calls: 0, mcp_calls: 0, patches_applied: 0, errors: 0 },
        auto_summary,
        ran_auto_summary: false,
        listening_for_cancel: true,
    }
}

/// One decision of the loop on an event: the next state and the action.
pub open spec fn step(d: Driver, k: EventKind) -> (Driver, DriverAction) {
    let d1 = Driver { stats: count_event(d.stats, k), ..d };
    if k == EventKind::TaskComplete && d.auto_summary is Some && !d.ran_auto_summary {
        (Driver { ran_auto_summary: true, ..d1 }, DriverAction::SubmitSummary(d.auto_summary->Some_0))
    } else {
        match status_request(k) {
            CodexStatus::Running => (d1, DriverAction::Continue),
            CodexStatus::InitiateShutdown => if d.status == CodexStatus::Running {
                (Driver { status: CodexStatus::InitiateShutdown, ..d1 }, DriverAction::SubmitShutdown)
            } else {
                (d1, DriverAction::Continue)
            },
            CodexStatus::Shutdown => (
                Driver { status: CodexStatus::Shutdown, ..d1 },
                DriverAction::Exit,
            ),
        }
    }
}

/// The decision on an external cancellation signal: the first one submits
/// an interrupt and stops the listener; the status is left alone, so the
/// queued events are still drained.
pub open spec fn cancel(d: Driver) -> (Driver, DriverAction) {
    if d.listening_for_cancel {
        (Driver { listening_for_cancel: false, ..d }, DriverAction::SubmitInterrupt)
    } else {
        (d, DriverAction::Continue)
    }
}

/// How many events of `ev` the loop takes from its queue before it exits.
pub open spec fn consumed(d: Driver, ev: Seq<EventKind>) -> nat
    decreases ev.len(),
{
    if ev.len() == 0 || d.status == CodexStatus::Shutdown {
        0
    } else {
        1 + consumed(step(d, ev[0]).0, ev.drop_first())
    }
}

/// No event before position `i` is a `ShutdownComplete`.
pub open spec fn no_shutdown_before(ev: Seq<EventKind>, i: int) -> bool {
    forall|j: int| 0 <= j < i ==> ev[j] != EventKind::ShutdownComplete
}

/// How many automation turns the loop submits while consuming `ev`.
pub open spec fn summaries_submitted(d: Driver, ev: Seq<EventKind>) -> nat
    decreases ev.len(),
{
    if ev.len() == 0 || d.status == CodexStatus::Shutdown {
        0
    } else {
        let (d2, a) = step(d, ev[0]);
        (if a is SubmitSummary { 1nat } else { 0nat }) + summaries_submitted(d2, ev.drop_first())
    }
}

/// How many `Shutdown` operations the loop submits while consuming `ev`.
pub open spec fn shutdowns_submitted(d: Driver, ev: Seq<EventKind>) -> nat
    decreases ev.len(),
{
    if ev.len() == 0 || d.status == CodexStatus::Shutdown {
        0
    } else {
        let (d2, a) = step(d, ev[0]);
        (if a is SubmitShutdown { 1nat } else { 0nat }) + shutdowns_submitted(d2, ev.drop_first())
    }
}

/// Only `ShutdownComplete` moves a live session to `Shutdown`, and the status
/// never returns to `Running` once it has left it.
proof fn lemma_step_status(d: Driver, k: EventKind)
    requires
        d.status != CodexStatus::Shutdown,
    ensures
        (step(d, k).0.status == CodexStatus::Shutdown) == (k == EventKind::ShutdownComplete),
        d.status != CodexStatus::Running ==> step(d, k).0.status != CodexStatus::Running,
        step(d, k).0.ran_auto_summary || !d.ran_auto_summary,
{
}

/// The loop observes at most one `ShutdownComplete`, and it is the last event
/// it observes: every event before it is of another kind. When the queue
/// holds a `ShutdownComplete` at all, the loop observes exactly one, last.
pub proof fn lemma_shutdown_complete_is_last(d: Driver, ev: Seq<EventKind>)
    requires
        d.status != CodexStatus::Shutdown,
    ensures
        consumed(d, ev) <= ev.len(),
        forall|i: int| 0 <= i < consumed(d, ev) - 1 ==> ev[i] != EventKind::ShutdownComplete,
        ev.contains(EventKind::ShutdownComplete) ==> {
            &&& consumed(d, ev) >= 1
            &&& ev[consumed(d, ev) - 1] == EventKind::ShutdownComplete
        },
    decreases ev.len(),
{
    if ev.len() > 0 {
        let d2 = step(d, ev[0]).0;
        let rest = ev.drop_first();
        lemma_step_status(d, ev[0]);
        if ev[0] != EventKind::ShutdownComplete {
            lemma_shutdown_complete_is_last(d2, rest);
            assert forall|i: int| 0 <= i < consumed(d, ev) - 1 implies ev[i]
                != EventKind::ShutdownComplete by {
                if i > 0 {
                    assert(ev[i] == rest[i - 1]);
                }
            }
            if ev.contains(EventKind::ShutdownComplete) {
                let j = choose|j: int| 0 <= j < ev.len() && ev[j] == EventKind::ShutdownComplete;
                assert(rest[j - 1] == EventKind::ShutdownComplete);
                assert(rest.contains(EventKind::ShutdownComplete));
                assert(ev[consumed(d, ev) - 1] == rest[consumed(d2, rest) - 1]);
            }
        } else {
            assert(consumed(d2, rest) == 0);
        }
    }
}

/// Every queued event that precedes the first `ShutdownComplete` is taken
/// from the queue and handed on.
pub proof fn lemma_events_before_shutdown_consumed(d: Driver, ev: Seq<EventKind>)
    requires
        d.status != CodexStatus::Shutdown,
    ensures
        forall|i: int|
            0 <= i < ev.len() && #[trigger] no_shutdown_before(ev, i) ==> i < consumed(d, ev),
    decreases ev.len(),
{
    if ev.len() > 0 {
        let d2 = step(d, ev[0]).0;
        let rest = ev.drop_first();
        lemma_step_status(d, ev[0]);
        if ev[0] != EventKind::ShutdownComplete {
            lemma_events_before_shutdown_consumed(d2, rest);
            assert forall|i: int|
                0 <= i < ev.len() && #[trigger] no_shutdown_before(ev, i) implies i < consumed(
                d,
                ev,
            ) by {
                if i > 0 {
                    assert(no_shutdown_before(rest, i - 1)) by {
                    assert forall|j: int| 0 <= j < i - 1 implies rest[j]
                        != EventKind::ShutdownComplete by {
                        assert(rest[j] == ev[j + 1]);
                    }
                    }
                }
            }
        }
    }
}

/// Whether the cancellation listener still runs has no bearing on how many
/// events the loop consumes.
proof fn lemma_consumed_ignores_listener(d: Driver, b: bool, ev: Seq<EventKind>)
    ensures
        consumed(Driver { listening_for_cancel: b, ..d }, ev) == consumed(d, ev),
    decreases ev.len(),
{
    if ev.len() > 0 {
        let d2 = step(d, ev[0]).0;
        assert(step(Driver { listening_for_cancel: b, ..d }, ev[0]).0 == Driver {
            listening_for_cancel: b,
            ..d2
        });
        lemma_consumed_ignores_listener(d2, b, ev.drop_first());
    }
}

/// A cancellation leaves the session live and drops no queued event: after
/// it the loop consumes exactly the events it would have consumed without
/// it, which include every event before the first `ShutdownComplete`.
pub proof fn lemma_interrupt_drains_queue(d: Driver, ev: Seq<EventKind>)
    requires
        d.status != CodexStatus::Shutdown,
    ensures
        cancel(d).0.status == d.status,
        consumed(cancel(d).0, ev) == consumed(d, ev),
        forall|i: int|
            0 <= i < ev.len() && #[trigger] no_shutdown_before(ev, i) ==> i < consumed(cancel(d).0, ev),
{
    lemma_consumed_ignores_listener(d, false, ev);
    lemma_events_before_shutdown_consumed(d, ev);
}

/// A cancellation loses no queued event: when the queue holds no
/// `ShutdownComplete` but possibly as its last event (the forwarder stops
/// after that one), the loop consumes every queued event, in order, after
/// the interrupt exactly as it would have without it.
pub proof fn lemma_interrupt_delivers_all_queued(d: Driver, ev: Seq<EventKind>)
    requires
        d.status != CodexStatus::Shutdown,
        forall|i: int| 0 <= i < ev.len() - 1 ==> ev[i] != EventKind::ShutdownComplete,
    ensures
        cancel(d).0.status == d.status,
        consumed(cancel(d).0, ev) == ev.len(),
        consumed(cancel(d).0, ev) == consumed(d, ev),
{
    lemma_interrupt_drains_queue(d, ev);
    lemma_shutdown_complete_is_last(cancel(d).0, ev);
    if ev.len() > 0 {
        let k = ev.len() - 1;
        assert(no_shutdown_before(ev, k));
        assert(k < consumed(cancel(d).0, ev));
    }
}

/// The `Shutdown` operation is submitted at most once per session, and not
/// at all once shutdown has been initiated: a second trigger is a no-op.
pub proof fn lemma_shutdown_submitted_at_most_once(d: Driver, ev: Seq<EventKind>)
    ensures
        shutdowns_submitted(d, ev) <= (if d.status == CodexStatus::Running { 1nat } else { 0nat }),
    decreases ev.len(),
{
    if ev.len() > 0 && d.status != CodexStatus::Shutdown {
        lemma_step_status(d, ev[0]);
        lemma_shutdown_submitted_at_most_once(step(d, ev[0]).0, ev.drop_first());
    }
}

/// The automation turn is submitted at most once per session, however many
/// tasks complete, and never after the latch is set.
pub proof fn lemma_summary_at_most_once(d: Driver, ev: Seq<EventKind>)
    ensures
        summaries_submitted(d, ev) <= (if d.ran_auto_summary { 0nat } else { 1nat }),
    decreases ev.len(),
{
    if ev.len() > 0 && d.status != CodexStatus::Shutdown {
        lemma_step_status(d, ev[0]);
        lemma_summary_at_most_once(step(d, ev[0]).0, ev.drop_first());
    }
}

fn bump_exec(n: usize) -> (r: usize)
    ensures
        r == bump(n),
{
    if n < usize::MAX {
        n + 1
    } else {
        n
    }
}

/// The status that an event asks for.
pub fn status_for_event(k: EventKind) -> (r: CodexStatus)
    ensures
        r == status_request(k),
{
    match k {
        EventKind::TaskComplete => CodexStatus::InitiateShutdown,
        EventKind::ShutdownComplete => CodexStatus::Shutdown,
        _ => CodexStatus::Running,
    }
}

/// Whether an event ends the wait for the attachment turn: it must be the
/// `TaskComplete` of the operation with identifier `awaited`.
pub fn attachments_done(event_id: &String, k: EventKind, awaited: &String) -> (r: bool)
    ensures
        r == (event_id@ == awaited@ && k == EventKind::TaskComplete),
{
    *event_id == *awaited && k == EventKind::TaskComplete
}

impl ExecStats {
    /// All counters at zero.
    pub fn new() -> (r: ExecStats)
        ensures
            r == initial_driver(None).stats,
    {
        ExecStats { exec_calls: 0, mcp_calls: 0, patches_applied: 0, errors: 0 }
    }

    /// Counts one observed event.
    pub fn observe(&mut self, k: EventKind)
        ensures
            *final(self) == count_event(*old(self), k),
    {
        match k {
            EventKind::ExecCommandBegin => self.exec_calls = bump_exec(self.exec_calls),
            EventKind::McpToolCallBegin => self.mcp_calls = bump_exec(self.mcp_calls),
            EventKind::PatchApplyBegin => self.patches_applied = bump_exec(self.patches_applied),
            EventKind::Error | EventKind::StreamError => self.errors = bump_exec(self.errors),
            _ => {},
        }
    }
}

impl Driver {
    /// A driver for a fresh session, with the given automation mode.
    pub fn new(auto_summary: Option<AutoSummary>) -> (r: Driver)
        ensures
            r == initial_driver(auto_summary),
    {
        Driver {
            status: CodexStatus::Running,
            stats: ExecStats::new(),
            auto_summary,
            ran_auto_summary: false,
            listening_for_cancel: true,
        }
    }

    /// Whether the session has reached its terminal status.
    pub fn is_done(&self) -> (r: bool)
        ensures
            r == (self.status == CodexStatus::Shutdown),
    {
        self.status == CodexStatus::Shutdown
    }

    /// Decides on one event taken from the queue.
    pub fn on_event(&mut self, k: EventKind) -> (a: DriverAction)
        ensures
            (*final(self), a) == step(*old(self), k),
    {
        self.stats.observe(k);
        if k == EventKind::TaskComplete && !self.ran_auto_summary {
            if let Some(mode) = self.auto_summary {
                self.ran_auto_summary = true;
                return DriverAction::SubmitSummary(mode);
            }
        }
        match status_for_event(k) {
            CodexStatus::Running => DriverAction::Continue,
            CodexStatus::InitiateShutdown => {
                if self.status == CodexStatus::Running {
                    self.status = CodexStatus::InitiateShutdown;
                    DriverAction::SubmitShutdown
                } else {
                    DriverAction::Continue
                }
            },
            CodexStatus::Shutdown => {
                self.status = CodexStatus::Shutdown;
                DriverAction::Exit
            },
        }
    }

    /// Decides on an external cancellation signal.
    pub fn on_cancel(&mut self) -> (a: DriverAction)
        ensures
            (*final(self), a) == cancel(*old(self)),
    {
        if self.listening_for_cancel {
            self.listening_for_cancel = false;
            DriverAction::SubmitInterrupt
        } else {
            DriverAction::Continue
        }
    }
}

} // verus!
