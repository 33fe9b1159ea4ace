//! Wake-ups on completion events, and what a poll of such an event comes to.
use vstd::prelude::*;

use super::codes::{wait_codes, win32_wait_codes, WaitCodes};
use crate::error::PortError;
use crate::stream::Polled;

verus! {

/// The wake-up on the completion event of one transfer.
#[derive(Debug, Clone, Copy, PartialEq, Eq, Structural)]
pub struct OverlappedWait {
    /// The system will wake the task when the event is signalled.
    pub registered: bool,
}

impl OverlappedWait {
    /// No wake-up yet.
    pub fn new() -> (r: Self)
        ensures
            !r.registered,
    {
        OverlappedWait { registered: false }
    }

    /// Tells whether a wake-up has to be registered; there is one at a time.
    pub fn ensure_registered(&self) -> (r: bool)
        ensures
            r == !self.registered,
    {
        !self.registered
    }

    /// Takes note of what a registration came to.
    pub fn register_overlapped_wait(&mut self, result: Result<(), i32>) -> (r: Result<
        (),
        PortError,
    >)
        ensures
            r == (match result {
                Ok(()) => Ok::<(), PortError>(()),
                Err(code) => Err(PortError::Os(code)),
            }),
            final(self).registered == (old(self).registered || result is Ok),
    {
        match result {
            Ok(()) => {
                self.registered = true;
                Ok(())
            },
            Err(code) => Err(PortError::Os(code)),
        }
    }

    /// The wake-up came; it comes once.
    pub fn overlapped_wait_callback(&mut self)
        ensures
            !final(self).registered,
    {
        self.registered = false;
    }

    /// Forgets the wake-up, and tells whether the system has to be told so.
    pub fn clear(&mut self) -> (r: bool)
        ensures
            r == old(self).registered,
            !final(self).registered,
    {
        let unregister: bool = self.registered;
        self.registered = false;
        unregister
    }
}

/// What follows a look at a completion event.
#[derive(Debug, PartialEq, Eq)]
pub enum ReadyStep {
    /// Register a wake-up; what comes of it goes to [`OverlappedEvent::registered`].
    Register,
    /// Answer the poll.
    Answer(Polled<Result<(), PortError>>),
}

/// A completion event that can be polled.
#[derive(Debug, Clone, Copy, PartialEq, Eq, Structural)]
pub struct OverlappedEvent {
    pub wait: OverlappedWait,
}

impl OverlappedEvent {
    /// An event that nobody waits for.
    pub fn new() -> (r: Self)
        ensures
            !r.wait.registered,
    {
        OverlappedEvent { wait: OverlappedWait::new() }
    }

    /// Decides what a poll comes to when looking at the event, without waiting, returned `result`
    /// and left the code `last_error` behind.
    pub fn poll_ready(&self, result: u32, last_error: i32) -> (r: ReadyStep)
        ensures
            r == ({
                let codes = win32_wait_codes();
                if result == codes.object_0 {
                    ReadyStep::Answer(Polled::Ready(Ok::<(), PortError>(())))
                } else if result == codes.timeout {
                    if self.wait.registered {
                        ReadyStep::Answer(Polled::Pending)
                    } else {
                        ReadyStep::Register
                    }
                } else if result == codes.failed {
                    ReadyStep::Answer(Polled::Ready(Err(PortError::Os(last_error))))
                } else {
                    ReadyStep::Answer(Polled::Ready(Err(PortError::UnexpectedWaitResult)))
                }
            }),
    {
        let codes: WaitCodes = wait_codes();
        if result == codes.object_0 {
            ReadyStep::Answer(Polled::Ready(Ok(())))
        } else if result == codes.timeout {
            if self.wait.ensure_registered() {
                ReadyStep::Register
            } else {
                ReadyStep::Answer(Polled::Pending)
            }
        } else if result == codes.failed {
            ReadyStep::Answer(Polled::Ready(Err(PortError::Os(last_error))))
        } else {
            ReadyStep::Answer(Polled::Ready(Err(PortError::UnexpectedWaitResult)))
        }
    }

    /// Answers a poll whose wake-up was to be registered.
    pub fn registered(&mut self, result: Result<(), i32>) -> (r: Polled<Result<(), PortError>>)
        ensures
            r == (match result {
                Ok(()) => Polled::Pending,
                Err(code) => Polled::Ready(Err::<(), PortError>(PortError::Os(code))),
            }),
            final(self).wait.registered == (old(self).wait.registered || result is Ok),
    {
        match self.wait.register_overlapped_wait(result) {
            Ok(()) => Polled::Pending,
            Err(err) => Polled::Ready(Err(err)),
        }
    }
}

/// What a look at the result of a transfer comes to.
#[derive(Debug, PartialEq, Eq)]
pub struct OverlappedPoll {
    /// The completion event has to be reset, since the transfer goes on.
    pub reset: bool,
    pub poll: Polled<Result<u32, PortError>>,
}

/// Decides what a look at the result of a transfer, without waiting, comes to: a transfer that
/// has not completed is waited for, any other failure is reported.
pub fn poll_overlapped_result(result: Result<u32, i32>) -> (r: OverlappedPoll)
    ensures
        r == (match result {
            Ok(bytes) => OverlappedPoll {
                reset: false,
                poll: Polled::Ready(Ok::<u32, PortError>(bytes)),
            },
            Err(code) => if code == win32_wait_codes().io_incomplete {
                OverlappedPoll { reset: true, poll: Polled::Pending }
            } else {
                OverlappedPoll { reset: false, poll: Polled::Ready(Err(PortError::Os(code))) }
            },
        }),
{
    let codes: WaitCodes = wait_codes();
    match result {
        Ok(bytes) => OverlappedPoll { reset: false, poll: Polled::Ready(Ok(bytes)) },
        Err(code) => if code == codes.io_incomplete as i32 {
            OverlappedPoll { reset: true, poll: Polled::Pending }
        } else {
            OverlappedPoll { reset: false, poll: Polled::Ready(Err(PortError::Os(code))) }
        },
    }
}

/// A look at a completion event: a signalled event is ready, one that is not is waited for with
/// one wake-up, and a look that failed is answered with its code, whatever the code.
pub proof fn law_look_says_result(
    event: OverlappedEvent,
    result: u32,
    last_error: i32,
    r: ReadyStep,
)
    requires
        call_ensures(OverlappedEvent::poll_ready, (&event, result, last_error), r),
    ensures
        r == ReadyStep::Answer(Polled::Ready(Ok::<(), PortError>(()))) <==> result == 0,
        r == ReadyStep::Answer(Polled::<Result<(), PortError>>::Pending) <==> result == 258
            && event.wait.registered,
        r is Register <==> result == 258 && !event.wait.registered,
        result == 0xffff_ffff ==> r == ReadyStep::Answer(
            Polled::Ready(Err::<(), PortError>(PortError::Os(last_error))),
        ),
        result != 0 && result != 258 && result != 0xffff_ffff ==> r == ReadyStep::Answer(
            Polled::Ready(Err::<(), PortError>(PortError::UnexpectedWaitResult)),
        ),
{
}

/// A look at a result: any number of bytes is the answer, a transfer that goes on is waited for
/// with its event reset, and any other code is the failure.
pub proof fn law_result_is_answered(result: Result<u32, i32>, r: OverlappedPoll)
    requires
        call_ensures(poll_overlapped_result, (result,), r),
    ensures
        r.poll is Pending <==> result == Err::<u32, i32>(996),
        r.reset <==> r.poll is Pending,
        result matches Ok(bytes) ==> r.poll == Polled::Ready(Ok::<u32, PortError>(bytes)),
        result matches Err(code) ==> code != 996 ==> r.poll == Polled::Ready(
            Err::<u32, PortError>(PortError::Os(code)),
        ),
{
}

} // verus!
