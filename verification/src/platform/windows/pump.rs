//! The receive pump: waits for the device to report input, reads what is there and hands it to
//! the FIFO.
use vstd::prelude::*;

use super::codes::{wait_codes, win32_wait_codes, WaitCodes};
use crate::error::PortError;
use crate::fifo::received;

verus! {

/// Where the pump is while it fetches what the device has.
#[derive(Debug, Clone, Copy, PartialEq, Eq, Structural)]
pub enum PurgePhase {
    /// The device is being asked how much it has.
    Querying,
    /// The completion event is being reset, to read this many bytes.
    Resetting(u32),
    /// A read is being started.
    Starting,
    /// A read that did not end at once is being asked why.
    Diagnosing,
    /// A read is being waited for.
    Waiting,
    /// A read that has completed is being asked for its size.
    Collecting,
    /// What was read is being handed over.
    Delivering,
}

/// Where the pump is: each phase waits for one kind of event.
#[derive(Debug, Clone, Copy, PartialEq, Eq, Structural)]
pub enum PumpPhase {
    /// The completion event for input reports is being created.
    CreatingEvent,
    /// The completion event for reads is being created.
    CreatingRead,
    /// What the device had before the first report is being fetched.
    FirstPurge(PurgePhase),
    /// Input reports are being turned on.
    Masking,
    /// The completion event for input reports is being reset.
    Resetting,
    /// A report is being requested.
    Watching,
    /// The request is being asked whether it is pending.
    Diagnosing,
    /// A report and the stop signal are being waited for.
    WaitingAny,
    /// A report that has come is being taken.
    Collecting,
    /// What a report announced is being fetched.
    Purge(PurgePhase),
    /// The pump has ended.
    Stopped,
}

/// What the outside reports to the pump.
#[derive(Debug, PartialEq, Eq)]
pub enum PumpEvent {
    /// A call that returns nothing succeeded, or failed with a code.
    Called(Result<(), i32>),
    /// The device has this many bytes, or the query failed with a code.
    Queried(Result<u32, i32>),
    /// A read ended at once with this many bytes, or did not.
    ReadStarted(Option<u32>),
    /// The last error code.
    LastError(u32),
    /// What waiting returned, and the last error code after it.
    Waited { result: u32, last_error: i32 },
    /// A read brought this many bytes, or failed with a code.
    ReadCollected(Result<u32, i32>),
    /// The bytes are in the FIFO and its reader was woken.
    Delivered,
    /// A report was requested, and did not come at once.
    Watched,
}

/// What the pump asks the outside for.
#[derive(Debug, PartialEq, Eq)]
pub enum PumpAction {
    /// Create the completion event for input reports.
    CreateEvent,
    /// Create the completion event for reads.
    CreateRead,
    /// Ask the device how much it has.
    Query,
    /// Reset the completion event for reads.
    ResetRead,
    /// Read into a buffer of this many bytes.
    Read(u32),
    /// Ask for the last error code.
    GetLastError,
    /// Wait for the read.
    WaitRead,
    /// Ask for the size of the read.
    CollectRead,
    /// Hand the first bytes of the buffer over, this many, and wake the reader.
    Deliver(u32),
    /// Turn input reports on.
    SetMask,
    /// Reset the completion event for input reports.
    ResetEvent,
    /// Request an input report.
    Watch,
    /// Wait for a report or the stop signal.
    WaitAny,
    /// Take the report.
    CollectEvent,
    /// End, after cancelling the request for a report if `cancel` says so.
    Stop { cancel: bool, result: Result<(), PortError> },
}

/// The event is the one that the phase of a fetch waits for.
pub open spec fn purge_awaits(phase: PurgePhase, event: PumpEvent) -> bool {
    match phase {
        PurgePhase::Querying => event is Queried,
        PurgePhase::Resetting(_) => event is Called,
        PurgePhase::Starting => event is ReadStarted,
        PurgePhase::Diagnosing => event is LastError,
        PurgePhase::Waiting => event is Waited,
        PurgePhase::Collecting => event is ReadCollected,
        PurgePhase::Delivering => event is Delivered,
    }
}

/// The event is the one that the phase waits for.
pub open spec fn awaits(phase: PumpPhase, event: PumpEvent) -> bool {
    match phase {
        PumpPhase::CreatingEvent => event is Called,
        PumpPhase::CreatingRead => event is Called,
        PumpPhase::FirstPurge(purge) => purge_awaits(purge, event),
        PumpPhase::Masking => event is Called,
        PumpPhase::Resetting => event is Called,
        PumpPhase::Watching => event is Watched,
        PumpPhase::Diagnosing => event is LastError,
        PumpPhase::WaitingAny => event is Waited,
        PumpPhase::Collecting => event is Called,
        PumpPhase::Purge(purge) => purge_awaits(purge, event),
        PumpPhase::Stopped => false,
    }
}

/// What follows an event in the course of a fetch.
#[derive(Debug, PartialEq, Eq)]
pub enum PurgeNext {
    /// The fetch goes on.
    Go(PurgePhase, PumpAction),
    /// The fetch is done.
    Done,
    /// A call failed with this code.
    Failed(i32),
}

/// What follows an event that the phase of a fetch waits for.
pub open spec fn purge_next(phase: PurgePhase, event: PumpEvent) -> PurgeNext {
    let codes = win32_wait_codes();
    match (phase, event) {
        (PurgePhase::Querying, PumpEvent::Queried(Ok(len))) => if len > 0 {
            PurgeNext::Go(PurgePhase::Resetting(len), PumpAction::ResetRead)
        } else {
            PurgeNext::Done
        },
        (PurgePhase::Querying, PumpEvent::Queried(Err(code))) => PurgeNext::Failed(code),
        (PurgePhase::Resetting(len), PumpEvent::Called(Ok(()))) => PurgeNext::Go(
            PurgePhase::Starting,
            PumpAction::Read(len),
        ),
        (PurgePhase::Resetting(_), PumpEvent::Called(Err(code))) => PurgeNext::Failed(code),
        (PurgePhase::Starting, PumpEvent::ReadStarted(Some(n))) => PurgeNext::Go(
            PurgePhase::Delivering,
            PumpAction::Deliver(n),
        ),
        (PurgePhase::Starting, PumpEvent::ReadStarted(None)) => PurgeNext::Go(
            PurgePhase::Diagnosing,
            PumpAction::GetLastError,
        ),
        (PurgePhase::Diagnosing, PumpEvent::LastError(code)) => if code == codes.io_pending {
            PurgeNext::Go(PurgePhase::Waiting, PumpAction::WaitRead)
        } else {
            PurgeNext::Failed(code as i32)
        },
        (PurgePhase::Waiting, PumpEvent::Waited { result, last_error }) => if result
            == codes.object_0 {
            PurgeNext::Go(PurgePhase::Collecting, PumpAction::CollectRead)
        } else {
            PurgeNext::Failed(last_error)
        },
        (PurgePhase::Collecting, PumpEvent::ReadCollected(Ok(n))) => PurgeNext::Go(
            PurgePhase::Delivering,
            PumpAction::Deliver(n),
        ),
        (PurgePhase::Collecting, PumpEvent::ReadCollected(Err(code))) => PurgeNext::Failed(code),
        _ => PurgeNext::Done,
    }
}

/// The pump ends because a call failed with this code.
pub open spec fn failed(code: i32) -> (PumpPhase, PumpAction) {
    (PumpPhase::Stopped, PumpAction::Stop { cancel: false, result: Err(PortError::Os(code)) })
}

/// The phase and the action that follow an event that the phase waits for.
pub open spec fn pump_next(phase: PumpPhase, event: PumpEvent) -> (PumpPhase, PumpAction) {
    let codes = win32_wait_codes();
    match (phase, event) {
        (PumpPhase::FirstPurge(purge), _) => match purge_next(purge, event) {
            PurgeNext::Go(next, action) => (PumpPhase::FirstPurge(next), action),
            PurgeNext::Done => (PumpPhase::Masking, PumpAction::SetMask),
            PurgeNext::Failed(code) => failed(code),
        },
        (PumpPhase::Purge(purge), _) => match purge_next(purge, event) {
            PurgeNext::Go(next, action) => (PumpPhase::Purge(next), action),
            PurgeNext::Done => (PumpPhase::Resetting, PumpAction::ResetEvent),
            PurgeNext::Failed(code) => failed(code),
        },
        (_, PumpEvent::Called(Err(code))) => failed(code),
        (PumpPhase::CreatingEvent, _) => (PumpPhase::CreatingRead, PumpAction::CreateRead),
        (PumpPhase::CreatingRead, _) => (
            PumpPhase::FirstPurge(PurgePhase::Querying),
            PumpAction::Query,
        ),
        (PumpPhase::Masking, _) => (PumpPhase::Resetting, PumpAction::ResetEvent),
        (PumpPhase::Resetting, _) => (PumpPhase::Watching, PumpAction::Watch),
        (PumpPhase::Watching, _) => (PumpPhase::Diagnosing, PumpAction::GetLastError),
        (PumpPhase::Diagnosing, PumpEvent::LastError(code)) => if code == codes.io_pending {
            (PumpPhase::WaitingAny, PumpAction::WaitAny)
        } else {
            failed(code as i32)
        },
        (PumpPhase::WaitingAny, PumpEvent::Waited { result, last_error }) => if result
            == codes.object_0 {
            (PumpPhase::Collecting, PumpAction::CollectEvent)
        } else if result == codes.object_0 + 1 {
            (PumpPhase::Stopped, PumpAction::Stop { cancel: true, result: Ok(()) })
        } else {
            failed(last_error)
        },
        (PumpPhase::Collecting, _) => (PumpPhase::Purge(PurgePhase::Querying), PumpAction::Query),
        _ => (PumpPhase::Stopped, PumpAction::Stop { cancel: false, result: Ok(()) }),
    }
}

/// The receive pump of one port.
#[derive(Debug, Clone, Copy, PartialEq, Eq, Structural)]
pub struct ReceivePump {
    pub phase: PumpPhase,
}

/// Fetches what the device has, one event at a time.
fn purge_pending_data(phase: PurgePhase, event: PumpEvent) -> (r: PurgeNext)
    requires
        purge_awaits(phase, event),
    ensures
        r == purge_next(phase, event),
{
    let codes: WaitCodes = wait_codes();
    match event {
        PumpEvent::Queried(Ok(len)) => if len > 0 {
            PurgeNext::Go(PurgePhase::Resetting(len), PumpAction::ResetRead)
        } else {
            PurgeNext::Done
        },
        PumpEvent::Queried(Err(code)) => PurgeNext::Failed(code),
        PumpEvent::Called(Ok(())) => match phase {
            PurgePhase::Resetting(len) => PurgeNext::Go(
                PurgePhase::Starting,
                PumpAction::Read(len),
            ),
            _ => PurgeNext::Done,
        },
        PumpEvent::Called(Err(code)) => PurgeNext::Failed(code),
        PumpEvent::ReadStarted(Some(n)) => PurgeNext::Go(
            PurgePhase::Delivering,
            PumpAction::Deliver(n),
        ),
        PumpEvent::ReadStarted(None) => PurgeNext::Go(
            PurgePhase::Diagnosing,
            PumpAction::GetLastError,
        ),
        PumpEvent::LastError(code) => if code == codes.io_pending {
            PurgeNext::Go(PurgePhase::Waiting, PumpAction::WaitRead)
        } else {
            PurgeNext::Failed(code as i32)
        },
        PumpEvent::Waited { result, last_error } => if result == codes.object_0 {
            PurgeNext::Go(PurgePhase::Collecting, PumpAction::CollectRead)
        } else {
            PurgeNext::Failed(last_error)
        },
        PumpEvent::ReadCollected(Ok(n)) => PurgeNext::Go(
            PurgePhase::Delivering,
            PumpAction::Deliver(n),
        ),
        PumpEvent::ReadCollected(Err(code)) => PurgeNext::Failed(code),
        PumpEvent::Delivered => PurgeNext::Done,
        PumpEvent::Watched => PurgeNext::Done,
    }
}

/// The pump ends because a call failed with this code.
fn stop(code: i32) -> (r: (PumpPhase, PumpAction))
    ensures
        r == failed(code),
{
    (PumpPhase::Stopped, PumpAction::Stop { cancel: false, result: Err(PortError::Os(code)) })
}

impl ReceivePump {
    /// A pump that has nothing yet.
    pub fn new() -> (r: (Self, PumpAction))
        ensures
            r.0.phase == PumpPhase::CreatingEvent,
            r.1 == PumpAction::CreateEvent,
    {
        (ReceivePump { phase: PumpPhase::CreatingEvent }, PumpAction::CreateEvent)
    }

    /// Tells whether the pump waits for this kind of event.
    pub fn awaits(&self, event: &PumpEvent) -> (r: bool)
        ensures
            r == awaits(self.phase, *event),
    {
        match (self.phase, event) {
            (PumpPhase::CreatingEvent, PumpEvent::Called(_)) => true,
            (PumpPhase::CreatingRead, PumpEvent::Called(_)) => true,
            (PumpPhase::FirstPurge(purge), _) => Self::purge_awaits(purge, event),
            (PumpPhase::Masking, PumpEvent::Called(_)) => true,
            (PumpPhase::Resetting, PumpEvent::Called(_)) => true,
            (PumpPhase::Watching, PumpEvent::Watched) => true,
            (PumpPhase::Diagnosing, PumpEvent::LastError(_)) => true,
            (PumpPhase::WaitingAny, PumpEvent::Waited { .. }) => true,
            (PumpPhase::Collecting, PumpEvent::Called(_)) => true,
            (PumpPhase::Purge(purge), _) => Self::purge_awaits(purge, event),
            _ => false,
        }
    }

    fn purge_awaits(phase: PurgePhase, event: &PumpEvent) -> (r: bool)
        ensures
            r == purge_awaits(phase, *event),
    {
        match (phase, event) {
            (PurgePhase::Querying, PumpEvent::Queried(_)) => true,
            (PurgePhase::Resetting(_), PumpEvent::Called(_)) => true,
            (PurgePhase::Starting, PumpEvent::ReadStarted(_)) => true,
            (PurgePhase::Diagnosing, PumpEvent::LastError(_)) => true,
            (PurgePhase::Waiting, PumpEvent::Waited { .. }) => true,
            (PurgePhase::Collecting, PumpEvent::ReadCollected(_)) => true,
            (PurgePhase::Delivering, PumpEvent::Delivered) => true,
            _ => false,
        }
    }

    /// Takes an event in and says what to do next.
    pub fn receive_events(&mut self, event: PumpEvent) -> (action: PumpAction)
        requires
            awaits(old(self).phase, event),
        ensures
            (final(self).phase, action) == pump_next(old(self).phase, event),
    {
        let codes: WaitCodes = wait_codes();
        let (phase, action): (PumpPhase, PumpAction) = match self.phase {
            PumpPhase::FirstPurge(purge) => match purge_pending_data(purge, event) {
                PurgeNext::Go(next, action) => (PumpPhase::FirstPurge(next), action),
                PurgeNext::Done => (PumpPhase::Masking, PumpAction::SetMask),
                PurgeNext::Failed(code) => stop(code),
            },
            PumpPhase::Purge(purge) => match purge_pending_data(purge, event) {
                PurgeNext::Go(next, action) => (PumpPhase::Purge(next), action),
                PurgeNext::Done => (PumpPhase::Resetting, PumpAction::ResetEvent),
                PurgeNext::Failed(code) => stop(code),
            },
            other => match event {
                PumpEvent::Called(Err(code)) => stop(code),
                PumpEvent::Called(Ok(())) => match other {
                    PumpPhase::CreatingEvent => (PumpPhase::CreatingRead, PumpAction::CreateRead),
                    PumpPhase::CreatingRead => (
                        PumpPhase::FirstPurge(PurgePhase::Querying),
                        PumpAction::Query,
                    ),
                    PumpPhase::Masking => (PumpPhase::Resetting, PumpAction::ResetEvent),
                    PumpPhase::Resetting => (PumpPhase::Watching, PumpAction::Watch),
                    _ => (PumpPhase::Purge(PurgePhase::Querying), PumpAction::Query),
                },
                PumpEvent::LastError(code) => if code == codes.io_pending {
                    (PumpPhase::WaitingAny, PumpAction::WaitAny)
                } else {
                    stop(code as i32)
                },
                PumpEvent::Waited { result, last_error } => if result == codes.object_0 {
                    (PumpPhase::Collecting, PumpAction::CollectEvent)
                } else if result == codes.object_0 + 1 {
                    (PumpPhase::Stopped, PumpAction::Stop { cancel: true, result: Ok(()) })
                } else {
                    stop(last_error)
                },
                _ => (PumpPhase::Diagnosing, PumpAction::GetLastError),
            },
        };
        self.phase = phase;
        action
    }
}

/// Each event is the one that the pump, started in `phase`, waits for when it comes.
pub open spec fn is_run(phase: PumpPhase, events: Seq<PumpEvent>) -> bool
    decreases events.len(),
{
    events.len() > 0 ==> {
        &&& awaits(phase, events[0])
        &&& is_run(pump_next(phase, events[0]).0, events.drop_first())
    }
}

/// How many bytes each read among these events brought, in their order.
pub open spec fn reads(events: Seq<PumpEvent>) -> Seq<u32>
    decreases events.len(),
{
    if events.len() == 0 {
        Seq::empty()
    } else {
        let later = reads(events.drop_first());
        match events[0] {
            PumpEvent::ReadStarted(Some(n)) => seq![n] + later,
            PumpEvent::ReadCollected(Ok(n)) => seq![n] + later,
            _ => later,
        }
    }
}

/// How many bytes the pump, started in `phase`, hands over each time in the course of a run.
pub open spec fn deliveries(phase: PumpPhase, events: Seq<PumpEvent>) -> Seq<u32>
    decreases events.len(),
{
    if events.len() == 0 {
        Seq::empty()
    } else {
        let (next, action) = pump_next(phase, events[0]);
        let later = deliveries(next, events.drop_first());
        match action {
            PumpAction::Deliver(n) => seq![n] + later,
            _ => later,
        }
    }
}

/// Over any run the pump hands over exactly what it reads: one delivery for each read that ended,
/// in the order of the reads, and of the same size.
pub proof fn law_pump_delivers_what_it_reads(phase: PumpPhase, events: Seq<PumpEvent>)
    requires
        is_run(phase, events),
    ensures
        deliveries(phase, events) == reads(events),
    decreases events.len(),
{
    if events.len() > 0 {
        law_pump_delivers_what_it_reads(
            pump_next(phase, events[0]).0,
            events.drop_first(),
        );
    }
}

/// The bytes that the reads among these events brought, in their order. `buffers` says what the
/// read buffer holds when each of the events comes.
pub open spec fn bytes_read(events: Seq<PumpEvent>, buffers: Seq<Seq<u8>>) -> Seq<u8>
    decreases events.len(),
{
    if events.len() == 0 {
        Seq::empty()
    } else {
        let later = bytes_read(events.drop_first(), buffers.drop_first());
        match events[0] {
            PumpEvent::ReadStarted(Some(n)) => received(buffers[0], n as usize) + later,
            PumpEvent::ReadCollected(Ok(n)) => received(buffers[0], n as usize) + later,
            _ => later,
        }
    }
}

/// The FIFO after a run of the pump, if each delivery moves the front of the read buffer to its
/// end.
pub open spec fn fifo_after(
    fifo: Seq<u8>,
    phase: PumpPhase,
    events: Seq<PumpEvent>,
    buffers: Seq<Seq<u8>>,
) -> Seq<u8>
    decreases events.len(),
{
    if events.len() == 0 {
        fifo
    } else {
        let (next, action) = pump_next(phase, events[0]);
        let grown = match action {
            PumpAction::Deliver(n) => fifo + received(buffers[0], n as usize),
            _ => fifo,
        };
        fifo_after(grown, next, events.drop_first(), buffers.drop_first())
    }
}

/// Over any run the FIFO grows by exactly the bytes that were read, in the order in which they
/// were read.
pub proof fn law_fifo_grows_by_what_is_read(
    fifo: Seq<u8>,
    phase: PumpPhase,
    events: Seq<PumpEvent>,
    buffers: Seq<Seq<u8>>,
)
    requires
        is_run(phase, events),
        buffers.len() == events.len(),
    ensures
        fifo_after(fifo, phase, events, buffers) == fifo + bytes_read(events, buffers),
    decreases events.len(),
{
    if events.len() == 0 {
        assert(fifo + bytes_read(events, buffers) =~= fifo);
    } else {
        let (next, action) = pump_next(phase, events[0]);
        let later = bytes_read(events.drop_first(), buffers.drop_first());
        let grown = match action {
            PumpAction::Deliver(n) => fifo + received(buffers[0], n as usize),
            _ => fifo,
        };
        law_fifo_grows_by_what_is_read(grown, next, events.drop_first(), buffers.drop_first());
        if let PumpAction::Deliver(n) = action {
            assert(grown + later =~= fifo + (received(buffers[0], n as usize) + later));
        }
    }
}

/// What the system would answer to each call in the course of one fetch.
pub struct FetchReplies {
    pub queried: Result<u32, i32>,
    pub reset: Result<(), i32>,
    pub started: Option<u32>,
    pub last_error: u32,
    pub wait_result: u32,
    pub wait_error: i32,
    pub collected: Result<u32, i32>,
}

impl FetchReplies {
    /// The event that the system's answer in a phase of the fetch is.
    pub open spec fn in_phase(self, phase: PurgePhase) -> PumpEvent {
        match phase {
            PurgePhase::Querying => PumpEvent::Queried(self.queried),
            PurgePhase::Resetting(_) => PumpEvent::Called(self.reset),
            PurgePhase::Starting => PumpEvent::ReadStarted(self.started),
            PurgePhase::Diagnosing => PumpEvent::LastError(self.last_error),
            PurgePhase::Waiting => PumpEvent::Waited {
                result: self.wait_result,
                last_error: self.wait_error,
            },
            PurgePhase::Collecting => PumpEvent::ReadCollected(self.collected),
            PurgePhase::Delivering => PumpEvent::Delivered,
        }
    }
}

/// What a fetch has done: how many bytes it asked for, and how many it handed over.
pub struct Fetched {
    pub asked: Option<u32>,
    pub delivered: Option<u32>,
}

/// What a fetch comes to if the system answers like this: a device that has something is asked
/// for all of it, and what it gives, at once or after a wait, is handed over.
pub open spec fn fetch_result(replies: FetchReplies) -> (Fetched, Result<(), i32>) {
    let codes = win32_wait_codes();
    let nothing = Fetched { asked: None, delivered: None };
    match replies.queried {
        Err(code) => (nothing, Err(code)),
        Ok(len) => if len == 0 {
            (nothing, Ok(()))
        } else {
            match replies.reset {
                Err(code) => (nothing, Err(code)),
                Ok(()) => {
                    let bytes = match replies.started {
                        Some(n) => Ok(n),
                        None => if replies.last_error != codes.io_pending {
                            Err(replies.last_error as i32)
                        } else if replies.wait_result != codes.object_0 {
                            Err(replies.wait_error)
                        } else {
                            replies.collected
                        },
                    };
                    match bytes {
                        Ok(n) => (Fetched { asked: Some(len), delivered: Some(n) }, Ok(())),
                        Err(code) => (Fetched { asked: Some(len), delivered: None }, Err(code)),
                    }
                },
            }
        },
    }
}

/// What a fetch has done, and what follows, after at most `steps` further events.
pub open spec fn fetch(
    phase: PurgePhase,
    done: Fetched,
    replies: FetchReplies,
    steps: nat,
) -> (Fetched, PurgeNext)
    decreases steps,
{
    let next = purge_next(phase, replies.in_phase(phase));
    match next {
        PurgeNext::Go(then, action) if steps > 0 => {
            let done = match action {
                PumpAction::Read(len) => Fetched { asked: Some(len), ..done },
                PumpAction::Deliver(n) => Fetched { delivered: Some(n), ..done },
                _ => done,
            };
            fetch(then, done, replies, (steps - 1) as nat)
        },
        _ => (done, next),
    }
}

/// A fetch always ends, after seven events at most, and comes to what [`fetch_result`] says.
pub proof fn law_fetch_comes_to_its_result(replies: FetchReplies)
    ensures
        fetch(
            PurgePhase::Querying,
            (Fetched { asked: None, delivered: None }),
            replies,
            6,
        ) == ({
            let (done, result) = fetch_result(replies);
            (
                done,
                match result {
                    Ok(()) => PurgeNext::Done,
                    Err(code) => PurgeNext::Failed(code),
                },
            )
        }),
{
    reveal_with_fuel(fetch, 8);
}

/// When the pump ends: without a failure exactly when the stop signal comes, and then it cancels
/// the request that is still open. Input reports are turned on only after what the device already
/// had was fetched.
pub proof fn law_pump_ends(phase: PumpPhase, event: PumpEvent)
    requires
        awaits(phase, event),
    ensures
        ({
            let (next, action) = pump_next(phase, event);
            let told_to_stop = match event {
                PumpEvent::Waited { result, .. } => phase is WaitingAny && result
                    == win32_wait_codes().object_0 + 1,
                _ => false,
            };
            &&& next is Stopped <==> action is Stop
            &&& told_to_stop ==> action is Stop
            &&& action matches PumpAction::Stop { cancel, result } ==> {
                &&& result is Ok <==> told_to_stop
                &&& cancel == told_to_stop
            }
            &&& action is SetMask ==> phase is FirstPurge
        }),
{
}

/// Bytes that wait are fetched, before the first report and after each one alike: whatever number
/// above zero the device reports, exactly that many are read, and what the read brings, at once or
/// after a wait, is handed over; a device that has nothing is not read.
pub proof fn law_waiting_bytes_are_fetched(first: bool, len: u32, n: u32, wait_error: i32)
    ensures
        ({
            let at = |purge: PurgePhase|
                if first {
                    PumpPhase::FirstPurge(purge)
                } else {
                    PumpPhase::Purge(purge)
                };
            let done = if first {
                (PumpPhase::Masking, PumpAction::SetMask)
            } else {
                (PumpPhase::Resetting, PumpAction::ResetEvent)
            };
            let completed = PumpEvent::Waited { result: 0, last_error: wait_error };
            &&& awaits(at(PurgePhase::Querying), PumpEvent::Queried(Ok(len)))
            &&& len > 0 ==> pump_next(at(PurgePhase::Querying), PumpEvent::Queried(Ok(len))) == (
                at(PurgePhase::Resetting(len)),
                PumpAction::ResetRead,
            )
            &&& len == 0 ==> pump_next(at(PurgePhase::Querying), PumpEvent::Queried(Ok(len)))
                == done
            &&& awaits(at(PurgePhase::Resetting(len)), PumpEvent::Called(Ok(())))
            &&& pump_next(at(PurgePhase::Resetting(len)), PumpEvent::Called(Ok(()))) == (
                at(PurgePhase::Starting),
                PumpAction::Read(len),
            )
            &&& awaits(at(PurgePhase::Starting), PumpEvent::ReadStarted(Some(n)))
            &&& pump_next(at(PurgePhase::Starting), PumpEvent::ReadStarted(Some(n))) == (
                at(PurgePhase::Delivering),
                PumpAction::Deliver(n),
            )
            &&& awaits(at(PurgePhase::Starting), PumpEvent::ReadStarted(None))
            &&& pump_next(at(PurgePhase::Starting), PumpEvent::ReadStarted(None)) == (
                at(PurgePhase::Diagnosing),
                PumpAction::GetLastError,
            )
            &&& awaits(at(PurgePhase::Diagnosing), PumpEvent::LastError(997))
            &&& pump_next(at(PurgePhase::Diagnosing), PumpEvent::LastError(997)) == (
                at(PurgePhase::Waiting),
                PumpAction::WaitRead,
            )
            &&& awaits(at(PurgePhase::Waiting), completed)
            &&& pump_next(at(PurgePhase::Waiting), completed) == (
                at(PurgePhase::Collecting),
                PumpAction::CollectRead,
            )
            &&& awaits(at(PurgePhase::Collecting), PumpEvent::ReadCollected(Ok(n)))
            &&& pump_next(at(PurgePhase::Collecting), PumpEvent::ReadCollected(Ok(n))) == (
                at(PurgePhase::Delivering),
                PumpAction::Deliver(n),
            )
            &&& awaits(at(PurgePhase::Delivering), PumpEvent::Delivered)
            &&& pump_next(at(PurgePhase::Delivering), PumpEvent::Delivered) == done
        }),
{
}

/// The pump gets ready, fetches what the device already has, turns reports on, and from then on
/// goes round: it asks for a report, waits for it or for the stop signal, takes it, and fetches.
pub proof fn law_pump_goes_round(last_error: i32)
    ensures
        ({
            let ok = PumpEvent::Called(Ok::<(), i32>(()));
            &&& awaits(PumpPhase::CreatingEvent, ok) && awaits(PumpPhase::CreatingRead, ok)
            &&& awaits(PumpPhase::Masking, ok) && awaits(PumpPhase::Resetting, ok)
            &&& awaits(PumpPhase::Watching, PumpEvent::Watched)
            &&& awaits(PumpPhase::Diagnosing, PumpEvent::LastError(997))
            &&& awaits(PumpPhase::WaitingAny, (PumpEvent::Waited { result: 0, last_error }))
            &&& awaits(PumpPhase::Collecting, ok)
            &&& pump_next(PumpPhase::CreatingEvent, ok) == (
                PumpPhase::CreatingRead,
                PumpAction::CreateRead,
            )
            &&& pump_next(PumpPhase::CreatingRead, ok) == (
                PumpPhase::FirstPurge(PurgePhase::Querying),
                PumpAction::Query,
            )
            &&& pump_next(PumpPhase::Masking, ok) == (PumpPhase::Resetting, PumpAction::ResetEvent)
            &&& pump_next(PumpPhase::Resetting, ok) == (PumpPhase::Watching, PumpAction::Watch)
            &&& pump_next(PumpPhase::Watching, PumpEvent::Watched) == (
                PumpPhase::Diagnosing,
                PumpAction::GetLastError,
            )
            &&& pump_next(PumpPhase::Diagnosing, PumpEvent::LastError(997)) == (
                PumpPhase::WaitingAny,
                PumpAction::WaitAny,
            )
            &&& pump_next(
                PumpPhase::WaitingAny,
                (PumpEvent::Waited { result: 0, last_error }),
            ) == (PumpPhase::Collecting, PumpAction::CollectEvent)
            &&& pump_next(PumpPhase::Collecting, ok) == (
                PumpPhase::Purge(PurgePhase::Querying),
                PumpAction::Query,
            )
        }),
{
}

/// The stop signal, which is the second object that is waited for, ends the pump without a failure
/// and with the open request cancelled. Every failure ends it with the code of the failure,
/// whatever the code: that of the call, or the last error where a request is not pending or a wait
/// ended in any other way.
pub proof fn law_stop_and_failures_end_the_pump(
    phase: PumpPhase,
    code: i32,
    last: u32,
    result: u32,
    first: bool,
)
    ensures
        ({
            let ended = |code: i32|
                (
                    PumpPhase::Stopped,
                    PumpAction::Stop { cancel: false, result: Err(PortError::Os(code)) },
                );
            let at = |purge: PurgePhase|
                if first {
                    PumpPhase::FirstPurge(purge)
                } else {
                    PumpPhase::Purge(purge)
                };
            let waited = PumpEvent::Waited { result, last_error: code };
            let failures = seq![
                PumpEvent::Called(Err(code)),
                PumpEvent::Queried(Err(code)),
                PumpEvent::ReadCollected(Err(code)),
            ];
            &&& pump_next(
                PumpPhase::WaitingAny,
                (PumpEvent::Waited { result: 1, last_error: code }),
            ) == (PumpPhase::Stopped, PumpAction::Stop { cancel: true, result: Ok(()) })
            &&& awaits(PumpPhase::WaitingAny, waited) && awaits(at(PurgePhase::Waiting), waited)
            &&& result > 1 ==> pump_next(PumpPhase::WaitingAny, waited) == ended(code)
            &&& result > 0 ==> pump_next(at(PurgePhase::Waiting), waited) == ended(code)
            &&& awaits(phase, failures[0]) ==> pump_next(phase, failures[0]) == ended(code)
            &&& awaits(phase, failures[1]) ==> pump_next(phase, failures[1]) == ended(code)
            &&& awaits(phase, failures[2]) ==> pump_next(phase, failures[2]) == ended(code)
            &&& last != 997 && awaits(phase, PumpEvent::LastError(last)) ==> pump_next(
                phase,
                PumpEvent::LastError(last),
            ) == ended(last as i32)
        }),
{
}

/// A pump that has ended takes no event, and each other phase takes one kind of event only.
pub proof fn law_events_in_turn(phase: PumpPhase, purge: PurgePhase, event: PumpEvent)
    ensures
        !awaits(PumpPhase::Stopped, event),
        awaits(PumpPhase::FirstPurge(purge), event) == awaits(PumpPhase::Purge(purge), event),
        awaits(PumpPhase::Purge(purge), event) <==> {
            ||| purge is Querying && event is Queried
            ||| purge is Resetting && event is Called
            ||| purge is Starting && event is ReadStarted
            ||| purge is Diagnosing && event is LastError
            ||| purge is Waiting && event is Waited
            ||| purge is Collecting && event is ReadCollected
            ||| purge is Delivering && event is Delivered
        },
        !(phase is FirstPurge || phase is Purge) ==> (awaits(phase, event) <==> {
            ||| (phase is CreatingEvent || phase is CreatingRead) && event is Called
            ||| (phase is Masking || phase is Resetting || phase is Collecting) && event is Called
            ||| phase is Watching && event is Watched
            ||| phase is Diagnosing && event is LastError
            ||| phase is WaitingAny && event is Waited
        }),
{
}

} // verus!
