//! The receive pump: waits for the port, reads what is there and hands it to the FIFO.
use vstd::prelude::*;

use super::ErrnoCodes;
use crate::error::PortError;
use crate::fifo::received;

verus! {

/// What woke the pump.
#[derive(Debug, Clone, Copy, PartialEq, Eq, Structural)]
pub struct PollReply {
    /// The pump was told to stop.
    pub cancel: bool,
    /// Whether the port has data; nothing if the system's answer about it cannot be read.
    pub readable: Option<bool>,
}

/// Where the pump is: each phase waits for one kind of event.
#[derive(Debug, Clone, Copy, PartialEq, Eq, Structural)]
pub enum PumpPhase {
    /// The port is being asked how much it has.
    Counting,
    /// This many bytes are being read.
    Reading(u32),
    /// What was read is being handed over.
    Delivering,
    /// The port and the stop signal are being waited for.
    Polling,
    /// The pump has ended.
    Stopped,
}

/// What the outside reports to the pump.
#[derive(Debug, PartialEq, Eq)]
pub enum PumpEvent {
    /// The port has this many bytes, or the query failed with a code.
    Counted(Result<u32, i32>),
    /// A read brought this many bytes, or failed with a code.
    DidRead(Result<usize, i32>),
    /// The bytes are in the FIFO and its reader was woken.
    Delivered,
    /// Waiting ended, or failed with a code.
    Polled(Result<PollReply, i32>),
}

/// What the pump asks the outside for.
#[derive(Debug, PartialEq, Eq)]
pub enum PumpAction {
    /// Ask the port how much it has.
    Count,
    /// Read into a buffer of this many bytes.
    Read(u32),
    /// Hand the first bytes of the buffer over, this many, and wake the reader.
    Deliver(usize),
    /// Wait for the port or the stop signal.
    Poll,
    /// End.
    Stop(Result<(), PortError>),
}

/// The event is the one that the phase waits for.
pub open spec fn awaits(phase: PumpPhase, event: PumpEvent) -> bool {
    match phase {
        PumpPhase::Counting => event is Counted,
        PumpPhase::Reading(_) => event is DidRead,
        PumpPhase::Delivering => event is Delivered,
        PumpPhase::Polling => event is Polled,
        PumpPhase::Stopped => false,
    }
}

/// The phase and the action that follow an event that the phase waits for.
pub open spec fn pump_next(phase: PumpPhase, event: PumpEvent, errnos: ErrnoCodes) -> (
    PumpPhase,
    PumpAction,
) {
    match event {
        PumpEvent::Counted(Ok(count)) if count > 0 => (
            PumpPhase::Reading(count),
            PumpAction::Read(count),
        ),
        PumpEvent::Counted(Ok(_)) => (PumpPhase::Polling, PumpAction::Poll),
        PumpEvent::DidRead(Ok(n)) if n > 0 => (PumpPhase::Delivering, PumpAction::Deliver(n)),
        PumpEvent::DidRead(Ok(_)) => (PumpPhase::Polling, PumpAction::Poll),
        PumpEvent::DidRead(Err(code)) if code == errnos.again => (
            PumpPhase::Polling,
            PumpAction::Poll,
        ),
        PumpEvent::DidRead(Err(code)) if code == errnos.interrupted && phase is Reading => (
            phase,
            PumpAction::Read(phase->Reading_0),
        ),
        PumpEvent::Delivered => (PumpPhase::Polling, PumpAction::Poll),
        PumpEvent::Polled(Ok(reply)) => if reply.cancel {
            (PumpPhase::Stopped, PumpAction::Stop(Ok(())))
        } else {
            match reply.readable {
                Some(true) => (PumpPhase::Counting, PumpAction::Count),
                Some(false) => (
                    PumpPhase::Stopped,
                    PumpAction::Stop(Err(PortError::UnexpectedReadEvents)),
                ),
                None => (PumpPhase::Polling, PumpAction::Poll),
            }
        },
        PumpEvent::Counted(Err(code)) => (
            PumpPhase::Stopped,
            PumpAction::Stop(Err(PortError::Os(code))),
        ),
        PumpEvent::DidRead(Err(code)) => (
            PumpPhase::Stopped,
            PumpAction::Stop(Err(PortError::Os(code))),
        ),
        PumpEvent::Polled(Err(code)) => (
            PumpPhase::Stopped,
            PumpAction::Stop(Err(PortError::Os(code))),
        ),
    }
}

/// The receive pump of one port.
#[derive(Debug, Clone, Copy, PartialEq, Eq, Structural)]
pub struct ReceivePump {
    pub phase: PumpPhase,
}

impl ReceivePump {
    /// A pump that first fetches what the port already has.
    pub fn new() -> (r: (Self, PumpAction))
        ensures
            r.0.phase == PumpPhase::Counting,
            r.1 == PumpAction::Count,
    {
        (ReceivePump { phase: PumpPhase::Counting }, PumpAction::Count)
    }

    /// Tells whether the pump waits for this kind of event.
    pub fn awaits(&self, event: &PumpEvent) -> (r: bool)
        ensures
            r == awaits(self.phase, *event),
    {
        match (self.phase, event) {
            (PumpPhase::Counting, PumpEvent::Counted(_)) => true,
            (PumpPhase::Reading(_), PumpEvent::DidRead(_)) => true,
            (PumpPhase::Delivering, PumpEvent::Delivered) => true,
            (PumpPhase::Polling, PumpEvent::Polled(_)) => true,
            _ => false,
        }
    }

    /// Takes an event in and says what to do next.
    pub fn receive_thread(&mut self, event: PumpEvent, errnos: &ErrnoCodes) -> (action: PumpAction)
        requires
            awaits(old(self).phase, event),
        ensures
            (final(self).phase, action) == pump_next(old(self).phase, event, *errnos),
    {
        let (phase, action): (PumpPhase, PumpAction) = match event {
            PumpEvent::Counted(Ok(count)) => if count > 0 {
                (PumpPhase::Reading(count), PumpAction::Read(count))
            } else {
                (PumpPhase::Polling, PumpAction::Poll)
            },
            PumpEvent::Counted(Err(code)) => stop(code),
            PumpEvent::DidRead(Ok(n)) => if n > 0 {
                (PumpPhase::Delivering, PumpAction::Deliver(n))
            } else {
                (PumpPhase::Polling, PumpAction::Poll)
            },
            PumpEvent::DidRead(Err(code)) => if code == errnos.again {
                (PumpPhase::Polling, PumpAction::Poll)
            } else if code == errnos.interrupted {
                match self.phase {
                    PumpPhase::Reading(len) => (PumpPhase::Reading(len), PumpAction::Read(len)),
                    _ => stop(code),
                }
            } else {
                stop(code)
            },
            PumpEvent::Delivered => (PumpPhase::Polling, PumpAction::Poll),
            PumpEvent::Polled(Ok(reply)) => if reply.cancel {
                (PumpPhase::Stopped, PumpAction::Stop(Ok(())))
            } else {
                match reply.readable {
                    Some(true) => (PumpPhase::Counting, PumpAction::Count),
                    Some(false) => (
                        PumpPhase::Stopped,
                        PumpAction::Stop(Err(PortError::UnexpectedReadEvents)),
                    ),
                    None => (PumpPhase::Polling, PumpAction::Poll),
                }
            },
            PumpEvent::Polled(Err(code)) => stop(code),
        };
        self.phase = phase;
        action
    }
}

/// The pump ends because a call failed with this code.
fn stop(code: i32) -> (r: (PumpPhase, PumpAction))
    ensures
        r == (PumpPhase::Stopped, PumpAction::Stop(Err::<(), PortError>(PortError::Os(code)))),
{
    (PumpPhase::Stopped, PumpAction::Stop(Err(PortError::Os(code))))
}

/// Each event is the one that the pump, started in `phase`, waits for when it comes.
pub open spec fn is_run(phase: PumpPhase, events: Seq<PumpEvent>, errnos: ErrnoCodes) -> bool
    decreases events.len(),
{
    events.len() > 0 ==> {
        &&& awaits(phase, events[0])
        &&& is_run(pump_next(phase, events[0], errnos).0, events.drop_first(), errnos)
    }
}

/// How many bytes each read among these events brought, in their order; reads that brought none
/// are left out.
pub open spec fn reads(events: Seq<PumpEvent>) -> Seq<usize>
    decreases events.len(),
{
    if events.len() == 0 {
        Seq::empty()
    } else {
        let later = reads(events.drop_first());
        match events[0] {
            PumpEvent::DidRead(Ok(n)) if n > 0 => seq![n] + later,
            _ => later,
        }
    }
}

/// How many bytes the pump, started in `phase`, hands over each time in the course of a run.
pub open spec fn deliveries(phase: PumpPhase, events: Seq<PumpEvent>, errnos: ErrnoCodes) -> Seq<
    usize,
>
    decreases events.len(),
{
    if events.len() == 0 {
        Seq::empty()
    } else {
        let (next, action) = pump_next(phase, events[0], errnos);
        let later = deliveries(next, events.drop_first(), errnos);
        match action {
            PumpAction::Deliver(n) => seq![n] + later,
            _ => later,
        }
    }
}

/// Over any run the pump hands over exactly what it reads: one delivery for each read that brought
/// bytes, in the order of the reads, and of the same size.
pub proof fn law_pump_delivers_what_it_reads(
    phase: PumpPhase,
    events: Seq<PumpEvent>,
    errnos: ErrnoCodes,
)
    requires
        is_run(phase, events, errnos),
    ensures
        deliveries(phase, events, errnos) == reads(events),
    decreases events.len(),
{
    if events.len() > 0 {
        law_pump_delivers_what_it_reads(
            pump_next(phase, events[0], errnos).0,
            events.drop_first(),
            errnos,
        );
    }
}

/// The bytes that the reads among these events brought, in their order. `buffers` says what the
/// read buffer holds when each of the events comes.
pub open spec fn bytes_read(events: Seq<PumpEvent>, buffers: Seq<Seq<u8>>) -> Seq<u8>
    decreases events.len(),
{
    if events.len() == 0 {
        Seq::empty()
    } else {
        let later = bytes_read(events.drop_first(), buffers.drop_first());
        match events[0] {
            PumpEvent::DidRead(Ok(n)) => received(buffers[0], n) + later,
            _ => later,
        }
    }
}

/// The FIFO after a run of the pump, if each delivery moves the front of the read buffer to its
/// end.
pub open spec fn fifo_after(
    fifo: Seq<u8>,
    phase: PumpPhase,
    events: Seq<PumpEvent>,
    buffers: Seq<Seq<u8>>,
    errnos: ErrnoCodes,
) -> Seq<u8>
    decreases events.len(),
{
    if events.len() == 0 {
        fifo
    } else {
        let (next, action) = pump_next(phase, events[0], errnos);
        let grown = match action {
            PumpAction::Deliver(n) => fifo + received(buffers[0], n),
            _ => fifo,
        };
        fifo_after(grown, next, events.drop_first(), buffers.drop_first(), errnos)
    }
}

/// Over any run the FIFO grows by exactly the bytes that were read, in the order in which they
/// were read.
pub proof fn law_fifo_grows_by_what_is_read(
    fifo: Seq<u8>,
    phase: PumpPhase,
    events: Seq<PumpEvent>,
    buffers: Seq<Seq<u8>>,
    errnos: ErrnoCodes,
)
    requires
        is_run(phase, events, errnos),
        buffers.len() == events.len(),
    ensures
        fifo_after(fifo, phase, events, buffers, errnos) == fifo + bytes_read(events, buffers),
    decreases events.len(),
{
    if events.len() == 0 {
        assert(fifo + bytes_read(events, buffers) =~= fifo);
    } else {
        let (next, action) = pump_next(phase, events[0], errnos);
        let later = bytes_read(events.drop_first(), buffers.drop_first());
        let grown = match action {
            PumpAction::Deliver(n) => fifo + received(buffers[0], n),
            _ => fifo,
        };
        law_fifo_grows_by_what_is_read(
            grown,
            next,
            events.drop_first(),
            buffers.drop_first(),
            errnos,
        );
        match events[0] {
            PumpEvent::DidRead(Ok(n)) => {
                assert(n == 0 ==> received(buffers[0], n) =~= Seq::<u8>::empty());
                assert(grown =~= fifo + received(buffers[0], n));
                assert(grown + later =~= fifo + (received(buffers[0], n) + later));
            },
            _ => {},
        }
    }
}

/// The phase and the last action of the pump after a run that starts with this phase and action.
pub open spec fn after_run(
    phase: PumpPhase,
    action: PumpAction,
    events: Seq<PumpEvent>,
    errnos: ErrnoCodes,
) -> (PumpPhase, PumpAction)
    decreases events.len(),
{
    if events.len() == 0 {
        (phase, action)
    } else {
        let (next, then) = pump_next(phase, events[0], errnos);
        after_run(next, then, events.drop_first(), errnos)
    }
}

/// What the pump does after a read that ended like this, and not by an interruption: bytes are
/// handed over, a read without any is forgotten, a failure ends the pump.
pub open spec fn after_read(result: Result<usize, i32>, errnos: ErrnoCodes) -> (
    PumpPhase,
    PumpAction,
) {
    match result {
        Ok(n) => if n > 0 {
            (PumpPhase::Delivering, PumpAction::Deliver(n))
        } else {
            (PumpPhase::Polling, PumpAction::Poll)
        },
        Err(code) => if code == errnos.again {
            (PumpPhase::Polling, PumpAction::Poll)
        } else {
            (PumpPhase::Stopped, PumpAction::Stop(Err(PortError::Os(code))))
        },
    }
}

/// A read that is interrupted is made again, for as many bytes, as often as it takes: what the
/// pump does next depends on the first read that is not interrupted.
pub proof fn law_interrupted_reads_are_retried(
    count: u32,
    interruptions: nat,
    result: Result<usize, i32>,
    errnos: ErrnoCodes,
)
    requires
        errnos.wf(),
        result != Err::<usize, i32>(errnos.interrupted),
    ensures
        ({
            let tries = Seq::new(
                interruptions,
                |i: int| PumpEvent::DidRead(Err(errnos.interrupted)),
            );
            let events = tries.push(PumpEvent::DidRead(result));
            let (phase, action) = (PumpPhase::Reading(count), PumpAction::Read(count));
            &&& is_run(phase, events, errnos)
            &&& after_run(phase, action, tries, errnos) == (phase, action)
            &&& after_run(phase, action, events, errnos) == after_read(result, errnos)
        }),
    decreases interruptions,
{
    let tries = Seq::new(interruptions, |i: int| PumpEvent::DidRead(Err(errnos.interrupted)));
    let events = tries.push(PumpEvent::DidRead(result));
    if interruptions == 0 {
        assert(events[0] == PumpEvent::DidRead(result));
        assert(events.drop_first().len() == 0);
        reveal_with_fuel(after_run, 2);
        reveal_with_fuel(is_run, 2);
    } else {
        let fewer = (interruptions - 1) as nat;
        law_interrupted_reads_are_retried(count, fewer, result, errnos);
        let rest = Seq::new(fewer, |i: int| PumpEvent::DidRead(Err(errnos.interrupted)));
        assert(tries[0] == PumpEvent::DidRead(Err(errnos.interrupted)));
        assert(events[0] == tries[0]);
        assert(tries.drop_first() =~= rest);
        assert(events.drop_first() =~= rest.push(PumpEvent::DidRead(result)));
    }
}

/// When the pump ends: without a failure exactly when it is told to stop, whether or not the port
/// has data; a read that has to wait or is interrupted does not end it.
pub proof fn law_pump_ends(phase: PumpPhase, event: PumpEvent, errnos: ErrnoCodes)
    requires
        awaits(phase, event),
    ensures
        ({
            let (next, action) = pump_next(phase, event, errnos);
            &&& next is Stopped <==> action is Stop
            &&& action == PumpAction::Stop(Ok::<(), PortError>(())) <==> (event matches
                PumpEvent::Polled(Ok(reply)) && reply.cancel)
            &&& event == PumpEvent::DidRead(Err(errnos.again)) ==> action is Poll
            &&& event == PumpEvent::DidRead(Err(errnos.interrupted)) ==> !(action is Stop)
        }),
{
}

/// Bytes that wait are read: whatever number above zero the port reports, the pump reads exactly
/// that many; only a port that has nothing is waited for.
pub proof fn law_waiting_bytes_are_read(count: u32, errnos: ErrnoCodes)
    ensures
        ({
            let (phase, action) = pump_next(
                PumpPhase::Counting,
                PumpEvent::Counted(Ok(count)),
                errnos,
            );
            &&& awaits(PumpPhase::Counting, PumpEvent::Counted(Ok(count)))
            &&& count > 0 ==> phase == PumpPhase::Reading(count) && action == PumpAction::Read(
                count,
            )
            &&& count == 0 ==> phase == PumpPhase::Polling && action == PumpAction::Poll
        }),
{
}

/// Bytes that were read are handed over, all of them and nothing more, and then the port is waited
/// for; a read that brought none, or would have had to wait, hands nothing over.
pub proof fn law_read_bytes_are_delivered(len: u32, n: usize, errnos: ErrnoCodes)
    ensures
        ({
            let reading = PumpPhase::Reading(len);
            let (phase, action) = pump_next(reading, PumpEvent::DidRead(Ok(n)), errnos);
            let handed_over = pump_next(PumpPhase::Delivering, PumpEvent::Delivered, errnos);
            let waited = pump_next(reading, PumpEvent::DidRead(Err(errnos.again)), errnos);
            &&& awaits(reading, PumpEvent::DidRead(Ok(n)))
            &&& awaits(PumpPhase::Delivering, PumpEvent::Delivered)
            &&& n > 0 ==> phase == PumpPhase::Delivering && action == PumpAction::Deliver(n)
            &&& n == 0 ==> phase == PumpPhase::Polling && action == PumpAction::Poll
            &&& handed_over.0 == PumpPhase::Polling && handed_over.1 == PumpAction::Poll
            &&& waited.0 == PumpPhase::Polling && waited.1 == PumpAction::Poll
        }),
{
}

/// What wakes the pump: a stop signal ends it before anything else; a port with data is asked how
/// much it has; a port that woke the pump without data ends it with a failure; an answer that
/// cannot be read is waited for again.
pub proof fn law_wake_ups(cancel: bool, readable: Option<bool>, errnos: ErrnoCodes)
    ensures
        ({
            let event = PumpEvent::Polled(Ok(PollReply { cancel, readable }));
            let (phase, action) = pump_next(PumpPhase::Polling, event, errnos);
            &&& awaits(PumpPhase::Polling, event)
            &&& cancel ==> phase == PumpPhase::Stopped && action == PumpAction::Stop(
                Ok::<(), PortError>(()),
            )
            &&& !cancel && readable == Some(true) ==> phase == PumpPhase::Counting && action
                == PumpAction::Count
            &&& !cancel && readable == Some(false) ==> phase == PumpPhase::Stopped && action
                == PumpAction::Stop(Err::<(), PortError>(PortError::UnexpectedReadEvents))
            &&& !cancel && readable is None ==> phase == PumpPhase::Polling && action
                == PumpAction::Poll
        }),
{
}

/// A failed call ends the pump with the code of the failure, whatever the code; only reads that
/// would have had to wait or were interrupted are no failures.
pub proof fn law_failures_end_the_pump(len: u32, code: i32, errnos: ErrnoCodes)
    ensures
        ({
            let ended = (
                PumpPhase::Stopped,
                PumpAction::Stop(Err::<(), PortError>(PortError::Os(code))),
            );
            let reading = PumpPhase::Reading(len);
            &&& awaits(PumpPhase::Counting, PumpEvent::Counted(Err(code)))
            &&& awaits(PumpPhase::Polling, PumpEvent::Polled(Err(code)))
            &&& awaits(reading, PumpEvent::DidRead(Err(code)))
            &&& pump_next(PumpPhase::Counting, PumpEvent::Counted(Err(code)), errnos) == ended
            &&& pump_next(PumpPhase::Polling, PumpEvent::Polled(Err(code)), errnos) == ended
            &&& code != errnos.again && code != errnos.interrupted ==> pump_next(
                reading,
                PumpEvent::DidRead(Err(code)),
                errnos,
            ) == ended
        }),
{
}

/// A pump that has ended takes no event, and each other phase takes one kind of event only.
pub proof fn law_events_in_turn(phase: PumpPhase, event: PumpEvent)
    ensures
        awaits(phase, event) <==> (phase is Counting && event is Counted) || (phase is Reading
            && event is DidRead) || (phase is Delivering && event is Delivered) || (phase is Polling
            && event is Polled),
{
}

/// One round: a port that has data is emptied into the FIFO, and then waited for again.
pub proof fn law_round_delivers(count: u32, n: usize, errnos: ErrnoCodes)
    requires
        0 < n <= count,
    ensures
        ({
            let events = seq![
                PumpEvent::Polled(Ok(PollReply { cancel: false, readable: Some(true) })),
                PumpEvent::Counted(Ok(count)),
                PumpEvent::DidRead(Ok(n)),
                PumpEvent::Delivered,
            ];
            &&& is_run(PumpPhase::Polling, events, errnos)
            &&& deliveries(PumpPhase::Polling, events, errnos) == seq![n]
            &&& after_run(PumpPhase::Polling, PumpAction::Poll, events, errnos) == (
                PumpPhase::Polling,
                PumpAction::Poll,
            )
        }),
{
    let e1 = seq![PumpEvent::Delivered];
    let e2 = seq![PumpEvent::DidRead(Ok(n)), PumpEvent::Delivered];
    let e3 = seq![PumpEvent::Counted(Ok(count)), PumpEvent::DidRead(Ok(n)), PumpEvent::Delivered];
    let e4 = seq![
        PumpEvent::Polled(Ok(PollReply { cancel: false, readable: Some(true) })),
        PumpEvent::Counted(Ok(count)),
        PumpEvent::DidRead(Ok(n)),
        PumpEvent::Delivered,
    ];
    assert(e4.drop_first() =~= e3);
    assert(e3.drop_first() =~= e2);
    assert(e2.drop_first() =~= e1);
    assert(e1.drop_first() =~= Seq::<PumpEvent>::empty());
    reveal_with_fuel(is_run, 6);
    reveal_with_fuel(deliveries, 6);
    reveal_with_fuel(after_run, 6);
    assert(deliveries(PumpPhase::Polling, e4, errnos) =~= seq![n]);
}

} // verus!
