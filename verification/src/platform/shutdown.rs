//! What is left to do when a port is closed.
use vstd::prelude::*;

use crate::platform::windows::overlapped::{Cleanup, Transfer, TransferPhase};
use crate::types::ClearBuffer;

verus! {

/// The thread that the receive pump runs in.
#[derive(Debug, Clone, Copy, PartialEq, Eq, Structural)]
pub enum PumpThread {
    NotStarted,
    Running,
    Finished,
}

impl PumpThread {
    /// What is known of a thread that may have been started.
    pub fn of(started: bool, finished: bool) -> (r: PumpThread)
        ensures
            r == (if !started {
                PumpThread::NotStarted
            } else if finished {
                PumpThread::Finished
            } else {
                PumpThread::Running
            }),
    {
        if !started {
            PumpThread::NotStarted
        } else if finished {
            PumpThread::Finished
        } else {
            PumpThread::Running
        }
    }

    /// Tells whether the thread has to be signalled to stop, and waited for.
    pub fn must_be_stopped(&self) -> (r: bool)
        ensures
            r <==> *self == PumpThread::Running,
    {
        match self {
            PumpThread::Running => true,
            _ => false,
        }
    }
}

/// One step on the way to a closed port.
#[derive(Debug, Clone, Copy, PartialEq, Eq, Structural)]
pub enum CloseStep {
    /// Signal the thread of the receive pump to stop.
    SignalStop,
    /// Wait until the thread of the receive pump has ended.
    JoinPump,
    /// Discard what is in driver buffers.
    Discard(ClearBuffer),
    /// Clean up after the read that is under way, or would be.
    CleanUpReads(Cleanup),
    /// Clean up after the write that is under way, or would be.
    CleanUpWrites(Cleanup),
}

/// The steps that end the receive pump: one that runs is signalled and waited for.
pub open spec fn pump_steps(thread: PumpThread) -> Seq<CloseStep> {
    if thread == PumpThread::Running {
        seq![CloseStep::SignalStop, CloseStep::JoinPump]
    } else {
        Seq::empty()
    }
}

/// The steps that close a terminal device: the pump is ended, then output that was not transmitted
/// is discarded.
pub open spec fn spec_unix_close_steps(thread: PumpThread) -> Seq<CloseStep> {
    pump_steps(thread).push(CloseStep::Discard(ClearBuffer::Output))
}

/// The steps that close a communications device: the pump is ended, then transfers are cleaned up
/// after. A port whose reads come from the pump has no transfer for them.
pub open spec fn spec_windows_close_steps(
    thread: PumpThread,
    reads: Option<Transfer>,
    writes: Transfer,
) -> Seq<CloseStep> {
    let read_steps = match reads {
        Some(transfer) => seq![CloseStep::CleanUpReads(transfer.cleanup_on_close())],
        None => Seq::empty(),
    };
    (pump_steps(thread) + read_steps).push(CloseStep::CleanUpWrites(writes.cleanup_on_close()))
}

/// Closing goes on although this step failed, and the failure is ignored.
pub open spec fn ignores_failure(step: CloseStep) -> bool {
    match step {
        CloseStep::SignalStop => false,
        CloseStep::JoinPump => false,
        CloseStep::Discard(_) => true,
        CloseStep::CleanUpReads(_) => true,
        CloseStep::CleanUpWrites(_) => true,
    }
}

impl CloseStep {
    /// Tells whether a failure of this step is ignored.
    pub fn may_fail(&self) -> (r: bool)
        ensures
            r == ignores_failure(*self),
    {
        match self {
            CloseStep::SignalStop => false,
            CloseStep::JoinPump => false,
            CloseStep::Discard(_) => true,
            CloseStep::CleanUpReads(_) => true,
            CloseStep::CleanUpWrites(_) => true,
        }
    }
}

/// The steps that close a terminal device.
pub fn unix_close_steps(thread: PumpThread) -> (r: Vec<CloseStep>)
    ensures
        r@ == spec_unix_close_steps(thread),
{
    let mut steps: Vec<CloseStep> = Vec::new();
    if thread.must_be_stopped() {
        steps.push(CloseStep::SignalStop);
        steps.push(CloseStep::JoinPump);
    }
    steps.push(CloseStep::Discard(ClearBuffer::Output));
    assert(steps@ =~= spec_unix_close_steps(thread));
    steps
}

/// The steps that close a communications device with these transfers.
pub fn windows_close_steps(thread: PumpThread, reads: Option<Transfer>, writes: Transfer) -> (r: Vec<
    CloseStep,
>)
    ensures
        r@ == spec_windows_close_steps(thread, reads, writes),
{
    let mut steps: Vec<CloseStep> = Vec::new();
    if thread.must_be_stopped() {
        steps.push(CloseStep::SignalStop);
        steps.push(CloseStep::JoinPump);
    }
    if let Some(transfer) = reads {
        steps.push(CloseStep::CleanUpReads(transfer.drop_cleanup()));
    }
    steps.push(CloseStep::CleanUpWrites(writes.drop_cleanup()));
    assert(steps@ =~= spec_windows_close_steps(thread, reads, writes));
    steps
}

/// A pump that runs, and no other, is signalled and then waited for, before anything else; a
/// terminal device always discards untransmitted output at the end; on a communications device a
/// transfer is cancelled exactly if it is in flight. Only ending the pump is a step whose failure
/// is not ignored.
pub proof fn law_closing_ends_pump_and_transfers(
    thread: PumpThread,
    reads: Option<Transfer>,
    writes: Transfer,
)
    ensures
        ({
            let unix = spec_unix_close_steps(thread);
            let windows = spec_windows_close_steps(thread, reads, writes);
            let cancel = Cleanup::ClearWaitAndCancel;
            &&& thread == PumpThread::Running ==> {
                &&& unix[0] == CloseStep::SignalStop && unix[1] == CloseStep::JoinPump
                &&& windows[0] == CloseStep::SignalStop && windows[1] == CloseStep::JoinPump
            }
            &&& thread != PumpThread::Running ==> {
                &&& !unix.contains(CloseStep::SignalStop) && !unix.contains(CloseStep::JoinPump)
                &&& !windows.contains(CloseStep::SignalStop)
                &&& !windows.contains(CloseStep::JoinPump)
            }
            &&& unix.last() == CloseStep::Discard(ClearBuffer::Output)
            &&& windows.contains(CloseStep::CleanUpReads(cancel)) <==> (reads matches Some(transfer)
                && transfer.phase == TransferPhase::InFlight)
            &&& windows.contains(CloseStep::CleanUpWrites(cancel)) <==> writes.phase
                == TransferPhase::InFlight
            &&& forall|i: int|
                0 <= i < unix.len() ==> #[trigger] ignores_failure(unix[i]) == !(unix[i] is SignalStop
                    || unix[i] is JoinPump)
            &&& forall|i: int|
                0 <= i < windows.len() ==> #[trigger] ignores_failure(windows[i]) == !(
                windows[i] is SignalStop || windows[i] is JoinPump)
        }),
{
    let windows = spec_windows_close_steps(thread, reads, writes);
    let n = windows.len();
    assert(windows[n - 1] == CloseStep::CleanUpWrites(writes.cleanup_on_close()));
    if let Some(transfer) = reads {
        assert(windows[n - 2] == CloseStep::CleanUpReads(transfer.cleanup_on_close()));
    }
}

/// Closing takes no other steps: two for a pump that runs, one for the output of a terminal device,
/// one for each direction in which a communications device has transfers.
pub proof fn law_closing_does_nothing_else(
    thread: PumpThread,
    reads: Option<Transfer>,
    writes: Transfer,
)
    ensures
        ({
            let pump: nat = if thread is Running { 2 } else { 0 };
            let read: nat = if reads is Some { 1 } else { 0 };
            let windows = spec_windows_close_steps(thread, reads, writes);
            &&& spec_unix_close_steps(thread).len() == pump + 1
            &&& windows.len() == pump + read + 1
            &&& windows.last() is CleanUpWrites
            &&& reads is Some ==> windows[pump as int] is CleanUpReads
        }),
{
}

/// A thread has to be stopped exactly if it was started and has not finished.
pub proof fn law_running_threads_are_stopped(
    started: bool,
    finished: bool,
    thread: PumpThread,
    r: bool,
)
    requires
        call_ensures(PumpThread::of, (started, finished), thread),
        call_ensures(PumpThread::must_be_stopped, (&thread,), r),
    ensures
        r <==> started && !finished,
{
}

} // verus!
