//! Overlapped reads and writes: one transfer at a time, started and finished by polls.
use vstd::prelude::*;

use super::codes::{wait_codes, win32_wait_codes, WaitCodes};
use crate::error::PortError;
use crate::fifo::copy_prefix;
use crate::stream::Polled;

verus! {

/// Where a transfer is. Between polls it is idle or in flight; during a poll it waits for the
/// answer to the last call.
#[derive(Debug, Clone, Copy, PartialEq, Eq, Structural)]
pub enum TransferPhase {
    /// No transfer.
    Idle,
    /// The completion event is being created.
    Creating,
    /// The transfer is being started.
    Starting,
    /// A transfer that ended at once is being asked for its size.
    Collecting,
    /// A transfer that did not end at once is being asked why.
    Diagnosing,
    /// A wake-up on completion is being registered.
    Registering,
    /// The system is busy with the transfer.
    InFlight,
    /// The completion event is being looked at.
    Waiting,
    /// A transfer that has completed is being asked for its size.
    Finishing,
}

/// What the outside reports.
#[derive(Debug, PartialEq, Eq)]
pub enum TransferEvent {
    /// The transfer is polled.
    Poll,
    /// The completion event exists, or could not be created.
    Created(Result<(), i32>),
    /// Whether the transfer ended at once.
    Started(bool),
    /// The number of bytes that went over, or the code of a failure.
    Collected(Result<u32, i32>),
    /// The last error code.
    LastError(u32),
    /// The wake-up is registered, or could not be.
    Registered(Result<(), i32>),
    /// What waiting on the completion event returned, and the last error code after it.
    Waited { result: u32, last_error: i32 },
}

/// What is to be done about a transfer that has ended.
#[derive(Debug, Clone, Copy, PartialEq, Eq, Structural)]
pub enum Cleanup {
    /// Nothing.
    Nothing,
    /// Take the wake-up back.
    ClearWait,
    /// Take the wake-up back, then cancel the transfer and wait until the system has let go of it.
    ClearWaitAndCancel,
}

/// What the transfer asks the outside for.
#[derive(Debug, PartialEq, Eq)]
pub enum TransferAction {
    /// Create the completion event.
    Create,
    /// Start the transfer.
    Start,
    /// Ask for the size of the transfer.
    Collect,
    /// Ask for the last error code.
    GetLastError,
    /// Register a wake-up on completion.
    Register,
    /// Look at the completion event, without waiting.
    Wait,
    /// Clean up and answer the poll.
    Answer { cleanup: Cleanup, poll: Polled<Result<u32, PortError>> },
}

/// The event is the one that the phase waits for.
pub open spec fn awaits(phase: TransferPhase, event: TransferEvent) -> bool {
    match phase {
        TransferPhase::Idle => event is Poll,
        TransferPhase::Creating => event is Created,
        TransferPhase::Starting => event is Started,
        TransferPhase::Collecting => event is Collected,
        TransferPhase::Diagnosing => event is LastError,
        TransferPhase::Registering => event is Registered,
        TransferPhase::InFlight => event is Poll,
        TransferPhase::Waiting => event is Waited,
        TransferPhase::Finishing => event is Collected,
    }
}

/// The answer to a poll of a transfer that has ended or could not be made.
pub open spec fn answer(cleanup: Cleanup, result: Result<u32, PortError>) -> TransferAction {
    TransferAction::Answer { cleanup, poll: Polled::Ready(result) }
}

/// The answer to a poll of a transfer that is in flight.
pub open spec fn pending() -> TransferAction {
    TransferAction::Answer { cleanup: Cleanup::Nothing, poll: Polled::Pending }
}

/// The phase and the action that follow an event that the phase waits for.
pub open spec fn transfer_next(phase: TransferPhase, event: TransferEvent) -> (
    TransferPhase,
    TransferAction,
) {
    let codes = win32_wait_codes();
    let idle = TransferPhase::Idle;
    match event {
        TransferEvent::Poll => if phase == TransferPhase::InFlight {
            (TransferPhase::Waiting, TransferAction::Wait)
        } else {
            (TransferPhase::Creating, TransferAction::Create)
        },
        TransferEvent::Created(Ok(())) => (TransferPhase::Starting, TransferAction::Start),
        TransferEvent::Created(Err(code)) => (
            idle,
            answer(Cleanup::Nothing, Err(PortError::Os(code))),
        ),
        TransferEvent::Started(true) => (TransferPhase::Collecting, TransferAction::Collect),
        TransferEvent::Started(false) => (TransferPhase::Diagnosing, TransferAction::GetLastError),
        TransferEvent::LastError(code) => if code == codes.io_pending {
            (TransferPhase::Registering, TransferAction::Register)
        } else {
            (idle, answer(Cleanup::Nothing, Err(PortError::Os(code as i32))))
        },
        TransferEvent::Registered(Ok(())) => (TransferPhase::InFlight, pending()),
        TransferEvent::Registered(Err(code)) => (
            idle,
            answer(Cleanup::Nothing, Err(PortError::Os(code))),
        ),
        TransferEvent::Waited { result, last_error } => if result == codes.object_0 {
            (TransferPhase::Finishing, TransferAction::Collect)
        } else if result == codes.timeout {
            (TransferPhase::InFlight, pending())
        } else if result == codes.failed {
            (idle, answer(Cleanup::ClearWaitAndCancel, Err(PortError::Os(last_error))))
        } else {
            (idle, answer(Cleanup::ClearWaitAndCancel, Err(PortError::UnexpectedWaitResult)))
        },
        TransferEvent::Collected(result) => {
            let flown = phase == TransferPhase::Finishing;
            match result {
                Ok(bytes) => (
                    idle,
                    answer(
                        if flown {
                            Cleanup::ClearWait
                        } else {
                            Cleanup::Nothing
                        },
                        Ok(bytes),
                    ),
                ),
                Err(code) => (
                    idle,
                    answer(
                        if flown {
                            Cleanup::ClearWaitAndCancel
                        } else {
                            Cleanup::Nothing
                        },
                        Err(PortError::Os(code)),
                    ),
                ),
            }
        },
    }
}

/// A transfer in one direction of one port.
#[derive(Debug, Clone, Copy, PartialEq, Eq, Structural)]
pub struct Transfer {
    pub phase: TransferPhase,
}

impl Transfer {
    /// What is to be done about the transfer when its port is closed: one that is in flight is
    /// cancelled.
    pub open spec fn cleanup_on_close(self) -> Cleanup {
        if self.phase == TransferPhase::InFlight {
            Cleanup::ClearWaitAndCancel
        } else {
            Cleanup::ClearWait
        }
    }

    /// No transfer yet.
    pub fn new() -> (r: Self)
        ensures
            r.phase == TransferPhase::Idle,
    {
        Transfer { phase: TransferPhase::Idle }
    }

    /// Tells whether this kind of event is waited for.
    pub fn awaits(&self, event: &TransferEvent) -> (r: bool)
        ensures
            r == awaits(self.phase, *event),
    {
        match (self.phase, event) {
            (TransferPhase::Idle, TransferEvent::Poll) => true,
            (TransferPhase::Creating, TransferEvent::Created(_)) => true,
            (TransferPhase::Starting, TransferEvent::Started(_)) => true,
            (TransferPhase::Collecting, TransferEvent::Collected(_)) => true,
            (TransferPhase::Diagnosing, TransferEvent::LastError(_)) => true,
            (TransferPhase::Registering, TransferEvent::Registered(_)) => true,
            (TransferPhase::InFlight, TransferEvent::Poll) => true,
            (TransferPhase::Waiting, TransferEvent::Waited { .. }) => true,
            (TransferPhase::Finishing, TransferEvent::Collected(_)) => true,
            _ => false,
        }
    }

    /// Takes an event in and says what to do next.
    pub fn step(&mut self, event: TransferEvent) -> (action: TransferAction)
        requires
            awaits(old(self).phase, event),
        ensures
            (final(self).phase, action) == transfer_next(old(self).phase, event),
    {
        let codes: WaitCodes = wait_codes();
        match event {
            TransferEvent::Poll => if self.phase == TransferPhase::InFlight {
                self.phase = TransferPhase::Waiting;
                TransferAction::Wait
            } else {
                self.phase = TransferPhase::Creating;
                TransferAction::Create
            },
            TransferEvent::Created(Ok(())) => {
                self.phase = TransferPhase::Starting;
                TransferAction::Start
            },
            TransferEvent::Created(Err(code)) => self.end(
                Cleanup::Nothing,
                Err(PortError::Os(code)),
            ),
            TransferEvent::Started(ended) => if ended {
                self.phase = TransferPhase::Collecting;
                TransferAction::Collect
            } else {
                self.phase = TransferPhase::Diagnosing;
                TransferAction::GetLastError
            },
            TransferEvent::LastError(code) => if code == codes.io_pending {
                self.phase = TransferPhase::Registering;
                TransferAction::Register
            } else {
                self.end(Cleanup::Nothing, Err(PortError::Os(code as i32)))
            },
            TransferEvent::Registered(Ok(())) => self.fly(),
            TransferEvent::Registered(Err(code)) => self.end(
                Cleanup::Nothing,
                Err(PortError::Os(code)),
            ),
            TransferEvent::Waited { result, last_error } => self.poll_in_flight(
                result,
                last_error,
                &codes,
            ),
            TransferEvent::Collected(result) => self.finish_overlapped(result),
        }
    }

    /// The completion event was looked at.
    fn poll_in_flight(&mut self, result: u32, last_error: i32, codes: &WaitCodes) -> (action:
        TransferAction)
        requires
            *codes == win32_wait_codes(),
        ensures
            (final(self).phase, action) == transfer_next(
                old(self).phase,
                (TransferEvent::Waited { result, last_error }),
            ),
    {
        if result == codes.object_0 {
            self.phase = TransferPhase::Finishing;
            TransferAction::Collect
        } else if result == codes.timeout {
            self.fly()
        } else if result == codes.failed {
            self.end(Cleanup::ClearWaitAndCancel, Err(PortError::Os(last_error)))
        } else {
            self.end(Cleanup::ClearWaitAndCancel, Err(PortError::UnexpectedWaitResult))
        }
    }

    /// The transfer was asked for its size.
    fn finish_overlapped(&mut self, result: Result<u32, i32>) -> (action: TransferAction)
        ensures
            (final(self).phase, action) == transfer_next(
                old(self).phase,
                TransferEvent::Collected(result),
            ),
    {
        let flown: bool = self.phase == TransferPhase::Finishing;
        match result {
            Ok(bytes) => self.end(
                if flown {
                    Cleanup::ClearWait
                } else {
                    Cleanup::Nothing
                },
                Ok(bytes),
            ),
            Err(code) => self.end(
                if flown {
                    Cleanup::ClearWaitAndCancel
                } else {
                    Cleanup::Nothing
                },
                Err(PortError::Os(code)),
            ),
        }
    }

    /// The transfer is over.
    fn end(&mut self, cleanup: Cleanup, result: Result<u32, PortError>) -> (action: TransferAction)
        ensures
            final(self).phase == TransferPhase::Idle,
            action == answer(cleanup, result),
    {
        self.phase = TransferPhase::Idle;
        TransferAction::Answer { cleanup, poll: Polled::Ready(result) }
    }

    /// The transfer stays with the system.
    fn fly(&mut self) -> (action: TransferAction)
        ensures
            final(self).phase == TransferPhase::InFlight,
            action == pending(),
    {
        self.phase = TransferPhase::InFlight;
        TransferAction::Answer { cleanup: Cleanup::Nothing, poll: Polled::Pending }
    }

    /// What is to be done about the transfer when its port is closed.
    pub fn drop_cleanup(&self) -> (r: Cleanup)
        ensures
            r == self.cleanup_on_close(),
    {
        if self.phase == TransferPhase::InFlight {
            Cleanup::ClearWaitAndCancel
        } else {
            Cleanup::ClearWait
        }
    }
}

/// What a read hands to its caller, from what the transfer into `read_buf` came to: the bytes that
/// went over are at the front of `buf`, and nothing else in it has changed.
pub fn read_answer(
    poll: Polled<Result<u32, PortError>>,
    read_buf: &Vec<u8>,
    buf: &mut [u8],
) -> (r: Polled<Result<usize, PortError>>)
    requires
        poll matches Polled::Ready(Ok(bytes)) ==> bytes <= read_buf@.len() && bytes <= old(buf)@.len(),
    ensures
        match poll {
            Polled::Ready(Ok(bytes)) => {
                &&& r == Polled::Ready(Ok::<usize, PortError>(bytes as usize))
                &&& final(buf)@ == read_buf@.take(bytes as int) + old(buf)@.skip(bytes as int)
            },
            Polled::Ready(Err(e)) => {
                &&& r == Polled::Ready(Err::<usize, PortError>(e))
                &&& final(buf)@ == old(buf)@
            },
            Polled::Pending => r is Pending && final(buf)@ == old(buf)@,
        },
{
    match poll {
        Polled::Ready(Ok(bytes)) => {
            let n: usize = bytes as usize;
            copy_prefix(buf, read_buf, n);
            Polled::Ready(Ok(n))
        },
        Polled::Ready(Err(e)) => Polled::Ready(Err(e)),
        Polled::Pending => Polled::Pending,
    }
}

/// What the system would answer to each call in the course of one poll.
pub struct Replies {
    pub created: Result<(), i32>,
    pub started: bool,
    pub collected: Result<u32, i32>,
    pub last_error: u32,
    pub registered: Result<(), i32>,
    pub wait_result: u32,
    pub wait_error: i32,
}

impl Replies {
    /// The event that the system's answer to an action is.
    pub open spec fn to(self, action: TransferAction) -> TransferEvent {
        match action {
            TransferAction::Create => TransferEvent::Created(self.created),
            TransferAction::Start => TransferEvent::Started(self.started),
            TransferAction::Collect => TransferEvent::Collected(self.collected),
            TransferAction::GetLastError => TransferEvent::LastError(self.last_error),
            TransferAction::Register => TransferEvent::Registered(self.registered),
            TransferAction::Wait => TransferEvent::Waited {
                result: self.wait_result,
                last_error: self.wait_error,
            },
            TransferAction::Answer { .. } => TransferEvent::Poll,
        }
    }
}

/// What a poll comes to if the system answers like this: whether the transfer is in flight
/// afterwards, what is cleaned up, and the answer.
pub open spec fn poll_result(in_flight: bool, replies: Replies) -> (
    bool,
    Cleanup,
    Polled<Result<u32, PortError>>,
) {
    let codes = win32_wait_codes();
    if in_flight {
        if replies.wait_result == codes.timeout {
            (true, Cleanup::Nothing, Polled::Pending)
        } else {
            let result = if replies.wait_result == codes.object_0 {
                match replies.collected {
                    Ok(bytes) => Ok(bytes),
                    Err(code) => Err(PortError::Os(code)),
                }
            } else if replies.wait_result == codes.failed {
                Err(PortError::Os(replies.wait_error))
            } else {
                Err(PortError::UnexpectedWaitResult)
            };
            (
                false,
                if result is Ok {
                    Cleanup::ClearWait
                } else {
                    Cleanup::ClearWaitAndCancel
                },
                Polled::Ready(result),
            )
        }
    } else {
        let nothing = Cleanup::Nothing;
        match replies.created {
            Err(code) => (false, nothing, Polled::Ready(Err(PortError::Os(code)))),
            Ok(()) => if replies.started {
                match replies.collected {
                    Ok(bytes) => (false, nothing, Polled::Ready(Ok(bytes))),
                    Err(code) => (false, nothing, Polled::Ready(Err(PortError::Os(code)))),
                }
            } else if replies.last_error != codes.io_pending {
                (
                    false,
                    nothing,
                    Polled::Ready(Err(PortError::Os(replies.last_error as i32))),
                )
            } else {
                match replies.registered {
                    Err(code) => (false, nothing, Polled::Ready(Err(PortError::Os(code)))),
                    Ok(()) => (true, nothing, Polled::Pending),
                }
            },
        }
    }
}

/// The phase and the last action after at most `steps` further events that answer the actions.
pub open spec fn driven(
    phase: TransferPhase,
    action: TransferAction,
    replies: Replies,
    steps: nat,
) -> (TransferPhase, TransferAction)
    decreases steps,
{
    if action is Answer || steps == 0 {
        (phase, action)
    } else {
        let (next, then) = transfer_next(phase, replies.to(action));
        driven(next, then, replies, (steps - 1) as nat)
    }
}

/// A poll always ends, after five events at most, and comes to what [`poll_result`] says.
pub proof fn law_poll_comes_to_its_result(in_flight: bool, replies: Replies)
    ensures
        ({
            let phase = if in_flight {
                TransferPhase::InFlight
            } else {
                TransferPhase::Idle
            };
            let (first, action) = transfer_next(phase, TransferEvent::Poll);
            let (last, answer) = driven(first, action, replies, 4);
            let (flying, cleanup, poll) = poll_result(in_flight, replies);
            &&& answer == TransferAction::Answer { cleanup, poll }
            &&& last == if flying {
                TransferPhase::InFlight
            } else {
                TransferPhase::Idle
            }
        }),
{
    reveal_with_fuel(driven, 6);
}

/// To this machine there is one transfer at a time: one is started only from the idle phase, and is
/// in flight after a poll exactly if the poll has to wait. Only a transfer that was in flight is
/// cancelled, and it is whenever it ends without having completed.
///
/// This is about the phase, not about the system. If the wake-up of a transfer that the system
/// calls pending cannot be registered, the poll fails and the machine is idle again with nothing
/// cleaned up; the system may then still be busy with that transfer when the next one is started.
pub proof fn law_one_transfer_at_a_time(phase: TransferPhase, event: TransferEvent)
    requires
        awaits(phase, event),
    ensures
        ({
            let (next, action) = transfer_next(phase, event);
            &&& awaits(phase, TransferEvent::Poll) <==> phase is Idle || phase is InFlight
            &&& action is Create <==> phase is Idle
            &&& action is Start ==> phase is Creating
            &&& action matches TransferAction::Answer { cleanup, poll } ==> {
                &&& next is InFlight <==> poll is Pending
                &&& next is Idle <==> poll is Ready
                &&& cleanup is ClearWaitAndCancel ==> phase is Waiting || phase is Finishing
                &&& phase is Waiting && next is Idle ==> cleanup is ClearWaitAndCancel
                &&& phase is Registering ==> cleanup is Nothing
            }
            &&& !(action is Answer) ==> !(next is Idle) && !(next is InFlight)
        }),
{
}

/// What the answers of the system mean to a poll. An idle transfer is created and started; one in
/// flight is only looked at. A transfer that ended, at once or later, is answered with the number
/// of bytes that went over, whatever it is; one that is pending is waited for.
pub proof fn law_completed_transfer_is_answered(bytes: u32, last_error: i32)
    ensures
        ({
            let completed = TransferEvent::Waited { result: 0, last_error };
            let not_yet = TransferEvent::Waited { result: 258, last_error };
            let ready = Polled::Ready(Ok::<u32, PortError>(bytes));
            &&& transfer_next(TransferPhase::Idle, TransferEvent::Poll) == (
                TransferPhase::Creating,
                TransferAction::Create,
            )
            &&& transfer_next(TransferPhase::InFlight, TransferEvent::Poll) == (
                TransferPhase::Waiting,
                TransferAction::Wait,
            )
            &&& transfer_next(TransferPhase::Creating, TransferEvent::Created(Ok(()))) == (
                TransferPhase::Starting,
                TransferAction::Start,
            )
            &&& transfer_next(TransferPhase::Starting, TransferEvent::Started(true)) == (
                TransferPhase::Collecting,
                TransferAction::Collect,
            )
            &&& transfer_next(TransferPhase::Starting, TransferEvent::Started(false)) == (
                TransferPhase::Diagnosing,
                TransferAction::GetLastError,
            )
            &&& transfer_next(TransferPhase::Diagnosing, TransferEvent::LastError(997)) == (
                TransferPhase::Registering,
                TransferAction::Register,
            )
            &&& transfer_next(TransferPhase::Registering, TransferEvent::Registered(Ok(()))) == (
                TransferPhase::InFlight,
                TransferAction::Answer { cleanup: Cleanup::Nothing, poll: Polled::Pending },
            )
            &&& transfer_next(TransferPhase::Waiting, not_yet) == (
                TransferPhase::InFlight,
                TransferAction::Answer { cleanup: Cleanup::Nothing, poll: Polled::Pending },
            )
            &&& transfer_next(TransferPhase::Waiting, completed) == (
                TransferPhase::Finishing,
                TransferAction::Collect,
            )
            &&& transfer_next(TransferPhase::Collecting, TransferEvent::Collected(Ok(bytes))) == (
                TransferPhase::Idle,
                TransferAction::Answer { cleanup: Cleanup::Nothing, poll: ready },
            )
            &&& transfer_next(TransferPhase::Finishing, TransferEvent::Collected(Ok(bytes))) == (
                TransferPhase::Idle,
                TransferAction::Answer { cleanup: Cleanup::ClearWait, poll: ready },
            )
        }),
{
}

/// A failure is answered with its code, whatever the code, and leaves the transfer idle; one that
/// was in flight is cancelled. A wait that ended in a way without a meaning is a failure of its
/// own.
pub proof fn law_failed_transfer_is_answered(code: i32, last: u32, result: u32)
    ensures
        ({
            let idle = TransferPhase::Idle;
            let failed = |cleanup: Cleanup, e: PortError|
                (
                    idle,
                    TransferAction::Answer { cleanup, poll: Polled::Ready(Err::<u32, PortError>(e)) },
                );
            let nothing = Cleanup::Nothing;
            let cancel = Cleanup::ClearWaitAndCancel;
            let os = PortError::Os(code);
            &&& transfer_next(TransferPhase::Creating, TransferEvent::Created(Err(code))) == failed(
                nothing,
                os,
            )
            &&& transfer_next(TransferPhase::Collecting, TransferEvent::Collected(Err(code)))
                == failed(nothing, os)
            &&& last != 997 ==> transfer_next(
                TransferPhase::Diagnosing,
                TransferEvent::LastError(last),
            ) == failed(nothing, PortError::Os(last as i32))
            &&& transfer_next(TransferPhase::Registering, TransferEvent::Registered(Err(code)))
                == failed(nothing, os)
            &&& transfer_next(TransferPhase::Finishing, TransferEvent::Collected(Err(code)))
                == failed(cancel, os)
            &&& result != 0 && result != 258 ==> transfer_next(
                TransferPhase::Waiting,
                (TransferEvent::Waited { result, last_error: code }),
            ) == failed(
                cancel,
                if result == 0xffff_ffff {
                    os
                } else {
                    PortError::UnexpectedWaitResult
                },
            )
        }),
{
}

/// Each phase takes one kind of event only.
pub proof fn law_events_in_turn(phase: TransferPhase, event: TransferEvent)
    ensures
        awaits(phase, event) <==> {
            ||| (phase is Idle || phase is InFlight) && event is Poll
            ||| phase is Creating && event is Created
            ||| phase is Starting && event is Started
            ||| (phase is Collecting || phase is Finishing) && event is Collected
            ||| phase is Diagnosing && event is LastError
            ||| phase is Registering && event is Registered
            ||| phase is Waiting && event is Waited
        },
{
}

/// A port that is closed cancels a transfer exactly if it is in flight, and takes the wake-up back
/// in any case.
pub proof fn law_closing_cancels_what_is_in_flight(transfer: Transfer)
    ensures
        transfer.cleanup_on_close() is ClearWaitAndCancel <==> transfer.phase is InFlight,
        !(transfer.cleanup_on_close() is Nothing),
{
}

} // verus!
