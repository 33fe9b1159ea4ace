//! Ports behind a POSIX terminal device: transfers, output flushes and the receive pump.
use vstd::prelude::*;

use crate::error::PortError;
use crate::types::ClearBuffer;

pub mod host;
pub mod pump;
pub mod serial;

verus! {

/// The queue selectors of `tcflush`.
#[derive(Debug, Clone, Copy, PartialEq, Eq, Structural)]
pub struct QueueSelectors {
    pub input: i32,
    pub output: i32,
    pub both: i32,
}

/// The error codes that a transfer does not fail on.
#[derive(Debug, Clone, Copy, PartialEq, Eq, Structural)]
pub struct ErrnoCodes {
    /// The transfer would have to wait.
    pub again: i32,
    /// A signal interrupted the call.
    pub interrupted: i32,
}

impl QueueSelectors {
    /// Different queues have different selectors.
    pub open spec fn wf(self) -> bool {
        self.input != self.output && self.input != self.both && self.output != self.both
    }
}

impl ErrnoCodes {
    /// The codes can be told apart.
    pub open spec fn wf(self) -> bool {
        self.again != self.interrupted
    }
}

/// What becomes of one `read` or `write` call on the port.
#[derive(Debug, PartialEq, Eq)]
pub enum TransferOutcome {
    /// This many bytes went over.
    Done(usize),
    /// The port is not ready.
    WouldBlock,
    /// A signal came in between; the call is made again.
    Retry,
    /// The call failed for good.
    Failed(PortError),
}

/// What a transfer that ended with this result comes to.
pub open spec fn outcome_of(result: Result<usize, i32>, errnos: ErrnoCodes) -> TransferOutcome {
    match result {
        Ok(n) => TransferOutcome::Done(n),
        Err(code) => if code == errnos.again {
            TransferOutcome::WouldBlock
        } else if code == errnos.interrupted {
            TransferOutcome::Retry
        } else {
            TransferOutcome::Failed(PortError::Os(code))
        },
    }
}

/// Decides what a `read` or `write` call on the port comes to.
pub fn transfer_outcome(result: Result<usize, i32>, errnos: &ErrnoCodes) -> (r: TransferOutcome)
    ensures
        r == outcome_of(result, *errnos),
{
    match result {
        Ok(n) => TransferOutcome::Done(n),
        Err(code) => if code == errnos.again {
            TransferOutcome::WouldBlock
        } else if code == errnos.interrupted {
            TransferOutcome::Retry
        } else {
            TransferOutcome::Failed(PortError::Os(code))
        },
    }
}

/// What a transfer comes to that is made until it is not interrupted, and whose calls end with
/// these results; nothing if all of them are interrupted.
pub open spec fn transferred(results: Seq<Result<usize, i32>>, errnos: ErrnoCodes) -> Option<
    TransferOutcome,
>
    decreases results.len(),
{
    if results.len() == 0 {
        None
    } else {
        let outcome = outcome_of(results[0], errnos);
        if outcome == TransferOutcome::Retry {
            transferred(results.drop_first(), errnos)
        } else {
            Some(outcome)
        }
    }
}

/// Interruptions do not show: a transfer comes to the result of its first call that is not
/// interrupted.
pub proof fn law_interrupted_transfers_are_retried(
    results: Seq<Result<usize, i32>>,
    first: int,
    errnos: ErrnoCodes,
)
    requires
        errnos.wf(),
        0 <= first < results.len(),
        forall|i: int|
            0 <= i < first ==> #[trigger] results[i] == Err::<usize, i32>(errnos.interrupted),
        results[first] != Err::<usize, i32>(errnos.interrupted),
    ensures
        transferred(results, errnos) == Some(
            match results[first] {
                Ok(n) => TransferOutcome::Done(n),
                Err(code) => if code == errnos.again {
                    TransferOutcome::WouldBlock
                } else {
                    TransferOutcome::Failed(PortError::Os(code))
                },
            },
        ),
    decreases first,
{
    if first > 0 {
        let rest = results.drop_first();
        assert(results[0] == Err::<usize, i32>(errnos.interrupted));
        assert forall|i: int| 0 <= i < first - 1 implies #[trigger] rest[i] == Err::<usize, i32>(
            errnos.interrupted,
        ) by {
            assert(rest[i] == results[i + 1]);
        }
        assert(rest[first - 1] == results[first]);
        law_interrupted_transfers_are_retried(rest, first - 1, errnos);
    }
}

/// The `tcflush` selector of the buffers to clear.
pub fn clear(buffer: ClearBuffer, queues: &QueueSelectors) -> (r: i32)
    ensures
        r == (match buffer {
            ClearBuffer::Input => queues.input,
            ClearBuffer::Output => queues.output,
            ClearBuffer::All => queues.both,
        }),
{
    match buffer {
        ClearBuffer::Input => queues.input,
        ClearBuffer::Output => queues.output,
        ClearBuffer::All => queues.both,
    }
}

/// How often a drain is tried before an interruption counts as a failure.
pub const MAX_ATTEMPTS: u32 = 3;

/// What follows one attempt to drain the output.
#[derive(Debug, PartialEq, Eq)]
pub enum DrainStep {
    /// All written output has been transmitted.
    Done,
    /// Drain again.
    Again,
    /// Draining failed.
    Failed(PortError),
}

/// A flush under way: written output is waited for until all of it has been transmitted.
#[derive(Debug, PartialEq, Eq, Clone, Copy, Structural)]
pub struct OutputFlush {
    /// The number of the attempt that is being made, from one on.
    pub attempt: u32,
}

/// What follows attempt number `attempt` when it ends with `result`.
pub open spec fn drain_step(
    attempt: u32,
    result: Result<(), i32>,
    errnos: ErrnoCodes,
) -> DrainStep {
    match result {
        Ok(()) => DrainStep::Done,
        Err(code) => if code == errnos.interrupted && attempt < MAX_ATTEMPTS {
            DrainStep::Again
        } else {
            DrainStep::Failed(PortError::Os(code))
        },
    }
}

impl OutputFlush {
    /// An attempt is being made, and it is not one too many.
    pub open spec fn wf(self) -> bool {
        1 <= self.attempt <= MAX_ATTEMPTS
    }

    /// The first attempt.
    pub fn new() -> (r: Self)
        ensures
            r.attempt == 1,
            r.wf(),
    {
        OutputFlush { attempt: 1 }
    }

    /// Decides what follows the attempt that just ended.
    pub fn flush_output(&mut self, result: Result<(), i32>, errnos: &ErrnoCodes) -> (r: DrainStep)
        requires
            old(self).wf(),
        ensures
            r == drain_step(old(self).attempt, result, *errnos),
            final(self).wf(),
            final(self).attempt == (if r == DrainStep::Again {
                old(self).attempt + 1
            } else {
                old(self).attempt as int
            }),
    {
        match result {
            Ok(()) => DrainStep::Done,
            Err(code) => if code == errnos.interrupted && self.attempt < MAX_ATTEMPTS {
                self.attempt = self.attempt + 1;
                DrainStep::Again
            } else {
                DrainStep::Failed(PortError::Os(code))
            },
        }
    }
}

/// How a flush ends that gets these results, one per attempt, from attempt number `attempt` on.
pub open spec fn drained(
    attempt: u32,
    results: spec_fn(u32) -> Result<(), i32>,
    errnos: ErrnoCodes,
) -> DrainStep
    decreases MAX_ATTEMPTS - attempt,
{
    let step = drain_step(attempt, results(attempt), errnos);
    if step == DrainStep::Again {
        drained((attempt + 1) as u32, results, errnos)
    } else {
        step
    }
}

/// A flush ends, and never with "again": with the first result that is not an interruption, or,
/// if three attempts are interrupted, with the interruption of the third.
pub proof fn law_flush_ends(results: spec_fn(u32) -> Result<(), i32>, errnos: ErrnoCodes)
    ensures
        ({
            let interrupted = |n: u32| results(n) == Err::<(), i32>(errnos.interrupted);
            let last: u32 = if !interrupted(1) {
                1
            } else if !interrupted(2) {
                2
            } else {
                3
            };
            drained(1, results, errnos) == match results(last) {
                Ok(()) => DrainStep::Done,
                Err(code) => DrainStep::Failed(PortError::Os(code)),
            }
        }),
{
    reveal_with_fuel(drained, 4);
}

/// The number of bytes that the port has ready, from what its query returned.
///
/// `ret` is -1 for a query that failed with the code `errno`.
pub fn bytes_to_read(ret: i32, count: i32, errno: i32) -> (r: Result<u32, i32>)
    ensures
        ret == -1 ==> r == Err::<u32, i32>(errno),
        ret != -1 ==> r == Ok::<u32, i32>(if count > 0 {
            count as u32
        } else {
            0
        }),
{
    if ret == -1 {
        Err(errno)
    } else if count > 0 {
        Ok(count as u32)
    } else {
        Ok(0)
    }
}

/// One call comes to what its result says: any number of bytes as they are, a wait or another try
/// for the two codes that are no failures, and for any other code a failure with that code.
pub proof fn law_outcome_says_result(result: Result<usize, i32>, errnos: ErrnoCodes)
    requires
        errnos.wf(),
    ensures
        result matches Ok(n) ==> outcome_of(result, errnos) == TransferOutcome::Done(n),
        result matches Err(code) ==> {
            &&& outcome_of(result, errnos) is WouldBlock <==> code == errnos.again
            &&& outcome_of(result, errnos) is Retry <==> code == errnos.interrupted
            &&& code != errnos.again && code != errnos.interrupted ==> outcome_of(result, errnos)
                == TransferOutcome::Failed(PortError::Os(code))
        },
{
}

/// One attempt to drain comes to what its result says: success ends the flush whichever attempt it
/// is, an interruption is tried again as long as fewer than three attempts were made, and any
/// other code ends the flush at once, with that code.
pub proof fn law_drain_says_result(attempt: u32, result: Result<(), i32>, errnos: ErrnoCodes)
    ensures
        result is Ok ==> drain_step(attempt, result, errnos) is Done,
        result matches Err(code) ==> {
            &&& drain_step(attempt, result, errnos) is Again <==> code == errnos.interrupted
                && attempt < 3
            &&& code != errnos.interrupted || attempt >= 3 ==> drain_step(attempt, result, errnos)
                == DrainStep::Failed(PortError::Os(code))
        },
{
}

/// The selector that [`clear`] gives is that of the buffers that were asked for.
pub proof fn law_clear_selects_what_was_asked(buffer: ClearBuffer, queues: QueueSelectors, r: i32)
    requires
        queues.wf(),
        call_ensures(clear, (buffer, &queues), r),
    ensures
        r == queues.input <==> buffer is Input,
        r == queues.output <==> buffer is Output,
        r == queues.both <==> buffer is All,
{
}

/// What [`bytes_to_read`] gives is the count, if it is one, and the code exactly if the query
/// failed.
pub proof fn law_count_is_what_was_reported(
    ret: i32,
    count: i32,
    errno: i32,
    r: Result<u32, i32>,
)
    requires
        call_ensures(bytes_to_read, (ret, count, errno), r),
    ensures
        r is Err <==> ret == -1,
        r matches Err(code) ==> code == errno,
        r matches Ok(n) ==> n == count || (n == 0 && count < 0),
{
}

} // verus!
