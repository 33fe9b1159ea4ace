//! An opened port: what its reads, writes and flushes come to.
use vstd::prelude::*;

use crate::error::{clone_io_error, PortError};
use crate::fifo::{taken, EventsInnerRead};

verus! {

/// The answer of an operation that may have to wait.
#[derive(Debug, PartialEq, Eq)]
pub enum Polled<T> {
    Ready(T),
    Pending,
}

/// The answer of a read from the FIFO.
#[derive(Debug, PartialEq, Eq)]
pub enum ReadStep<T> {
    /// The receive pump has to be started; until it delivers, the read waits.
    StartThread,
    /// Nothing has been received; the read waits.
    Pending,
    /// The read is done.
    Ready(T),
}

/// What follows a flush request.
#[derive(Debug, Clone, Copy, PartialEq, Eq, Structural)]
pub enum FlushStep {
    /// A write is still under way; the flush waits.
    Pending,
    /// Start a flush task, then poll it.
    StartTask,
    /// Poll the flush task that was started before.
    PollTask,
}

/// An opened serial port for async reads and writes.
///
/// Readers share the FIFO that the receive pump fills. The pump is started by the first read.
#[derive(Debug, Clone, Copy, PartialEq, Eq, Structural)]
pub struct SerialPortStream {
    /// The receive pump was started.
    pub read_thread_started: bool,
    /// A flush task was started and has not ended.
    pub flush_task: bool,
    /// The last write had to wait.
    pub write_in_flight: bool,
}

/// Something that happens to the sending side of a port.
pub enum WriteEvent {
    /// A write came to an answer, or has to wait.
    Write { pending: bool },
    /// A flush or a close was requested.
    Flush,
    /// The flush task was polled, and has ended or has to wait.
    FlushPolled { pending: bool },
}

/// The state after an event on the sending side.
pub open spec fn write_event(s: SerialPortStream, event: WriteEvent) -> SerialPortStream {
    match event {
        WriteEvent::Write { pending } => SerialPortStream { write_in_flight: pending, ..s },
        WriteEvent::Flush => SerialPortStream {
            flush_task: s.flush_task || s.flush_step() == FlushStep::StartTask,
            ..s
        },
        WriteEvent::FlushPolled { pending } => SerialPortStream { flush_task: pending, ..s },
    }
}

/// Everything that a read depends on.
pub struct ReadState {
    pub started: bool,
    pub buffer: Seq<u8>,
    pub error: Option<PortError>,
}

/// What a read that takes at most `room` bytes, or any number without a `room`, comes to.
pub open spec fn read_polled(s: ReadState, room: Option<nat>) -> (
    ReadState,
    ReadStep<Result<Seq<u8>, PortError>>,
) {
    match s.error {
        Some(e) => (s, ReadStep::Ready(Err(e))),
        None => if !s.started {
            (ReadState { started: true, ..s }, ReadStep::StartThread)
        } else if s.buffer.len() == 0 {
            (s, ReadStep::Pending)
        } else {
            let n = match room {
                Some(most) => taken(s.buffer, most) as int,
                None => s.buffer.len() as int,
            };
            (
                ReadState { buffer: s.buffer.skip(n), ..s },
                ReadStep::Ready(Ok(s.buffer.take(n))),
            )
        },
    }
}

/// The answer `r` and the buffer `after` say what the read came to: bytes go to the front of the
/// buffer, and nothing else in it changes.
pub open spec fn fills(
    step: ReadStep<Result<Seq<u8>, PortError>>,
    before: Seq<u8>,
    after: Seq<u8>,
    r: ReadStep<Result<usize, PortError>>,
) -> bool {
    match step {
        ReadStep::StartThread => r is StartThread && after == before,
        ReadStep::Pending => r is Pending && after == before,
        ReadStep::Ready(Err(e)) => {
            &&& r == ReadStep::Ready(Err::<usize, PortError>(e))
            &&& after == before
        },
        ReadStep::Ready(Ok(bytes)) => {
            &&& r matches ReadStep::Ready(Ok(n))
            &&& n == bytes.len()
            &&& after == bytes + before.skip(n as int)
        },
    }
}

impl SerialPortStream {
    /// What a flush request leads to: it waits for a write that is under way, and at most one
    /// flush task exists at a time.
    pub open spec fn flush_step(self) -> FlushStep {
        if self.write_in_flight {
            FlushStep::Pending
        } else if self.flush_task {
            FlushStep::PollTask
        } else {
            FlushStep::StartTask
        }
    }

    /// What a read depends on, for this port and its FIFO.
    pub open spec fn read_state(self, inner: EventsInnerRead) -> ReadState {
        ReadState {
            started: self.read_thread_started,
            buffer: inner.in_buffer@,
            error: inner.stream_error,
        }
    }

    /// A port that was just opened.
    pub fn new() -> (r: Self)
        ensures
            r == (SerialPortStream {
                read_thread_started: false,
                flush_task: false,
                write_in_flight: false,
            }),
    {
        SerialPortStream { read_thread_started: false, flush_task: false, write_in_flight: false }
    }

    /// Makes sure that the pump runs: an earlier failure of the pump is reported, a pump that was
    /// not started is to be started now.
    pub fn poll_receiver_ready(&mut self, inner: &EventsInnerRead) -> (r: ReadStep<
        Result<(), PortError>,
    >)
        ensures
            match inner.stream_error {
                Some(e) => *final(self) == *old(self) && r == ReadStep::Ready(
                    Err::<(), PortError>(e),
                ),
                None => {
                    &&& *final(self) == (SerialPortStream {
                        read_thread_started: true,
                        ..*old(self)
                    })
                    &&& r == if old(self).read_thread_started {
                        ReadStep::Ready(Ok::<(), PortError>(()))
                    } else {
                        ReadStep::StartThread
                    }
                },
            },
    {
        if let Some(err) = &inner.stream_error {
            return ReadStep::Ready(Err(clone_io_error(err)));
        }
        if !self.read_thread_started {
            self.read_thread_started = true;
            return ReadStep::StartThread;
        }
        ReadStep::Ready(Ok(()))
    }

    /// Reads bytes from the FIFO into `buf`, as many as there are or as fit. What does not fit
    /// stays in the FIFO.
    pub fn poll_read_fifo(&mut self, inner: &mut EventsInnerRead, buf: &mut [u8]) -> (r: ReadStep<
        Result<usize, PortError>,
    >)
        ensures
            ({
                let (after, step) = read_polled(
                    old(self).read_state(*old(inner)),
                    Some(old(buf)@.len()),
                );
                &&& final(self).read_state(*final(inner)) == after
                &&& fills(step, old(buf)@, final(buf)@, r)
            }),
            final(self).flush_task == old(self).flush_task,
            final(self).write_in_flight == old(self).write_in_flight,
    {
        match self.poll_receiver_ready(inner) {
            ReadStep::StartThread => ReadStep::StartThread,
            ReadStep::Pending => ReadStep::Pending,
            ReadStep::Ready(Err(e)) => ReadStep::Ready(Err(e)),
            ReadStep::Ready(Ok(())) => {
                if inner.in_buffer.is_empty() {
                    return ReadStep::Pending;
                }
                let n: usize = inner.take_some(buf);
                ReadStep::Ready(Ok(n))
            },
        }
    }

    /// Reads into a buffer that has room for at least one byte.
    pub fn poll_read(&mut self, inner: &mut EventsInnerRead, buf: &mut [u8]) -> (r: ReadStep<
        Result<usize, PortError>,
    >)
        requires
            old(buf)@.len() > 0,
        ensures
            ({
                let (after, step) = read_polled(
                    old(self).read_state(*old(inner)),
                    Some(old(buf)@.len()),
                );
                &&& final(self).read_state(*final(inner)) == after
                &&& fills(step, old(buf)@, final(buf)@, r)
            }),
            final(self).flush_task == old(self).flush_task,
            final(self).write_in_flight == old(self).write_in_flight,
    {
        self.poll_read_fifo(inner, buf)
    }

    /// Polls for the next received chunk: when ready, every byte that is in the FIFO.
    pub fn try_poll_next(&mut self, inner: &mut EventsInnerRead) -> (r: ReadStep<
        Option<Result<Vec<u8>, PortError>>,
    >)
        ensures
            ({
                let (after, step) = read_polled(old(self).read_state(*old(inner)), None);
                &&& final(self).read_state(*final(inner)) == after
                &&& match step {
                    ReadStep::StartThread => r is StartThread,
                    ReadStep::Pending => r is Pending,
                    ReadStep::Ready(Err(e)) => r == ReadStep::Ready(
                        Some(Err::<Vec<u8>, PortError>(e)),
                    ),
                    ReadStep::Ready(Ok(bytes)) => r matches ReadStep::Ready(Some(Ok(data)))
                        && data@ == bytes,
                }
            }),
            final(self).flush_task == old(self).flush_task,
            final(self).write_in_flight == old(self).write_in_flight,
    {
        match self.poll_receiver_ready(inner) {
            ReadStep::StartThread => ReadStep::StartThread,
            ReadStep::Pending => ReadStep::Pending,
            ReadStep::Ready(Err(e)) => ReadStep::Ready(Some(Err(e))),
            ReadStep::Ready(Ok(())) => {
                if !inner.in_buffer.is_empty() {
                    let data: Vec<u8> = inner.take_all();
                    assert(data@ =~= data@.take(data@.len() as int));
                    assert(inner.in_buffer@ =~= data@.skip(data@.len() as int));
                    return ReadStep::Ready(Some(Ok(data)));
                }
                ReadStep::Pending
            },
        }
    }

    /// Takes note of what a write came to, and hands the answer on.
    pub fn poll_write<T>(&mut self, result: Polled<T>) -> (r: Polled<T>)
        ensures
            r == result,
            *final(self) == write_event(
                *old(self),
                (WriteEvent::Write { pending: result is Pending }),
            ),
    {
        self.write_in_flight = match &result {
            Polled::Pending => true,
            Polled::Ready(_) => false,
        };
        result
    }

    /// Decides what a flush request leads to.
    pub fn poll_flush(&mut self) -> (r: FlushStep)
        ensures
            r == old(self).flush_step(),
            *final(self) == write_event(*old(self), WriteEvent::Flush),
    {
        if self.write_in_flight {
            return FlushStep::Pending;
        }
        if !self.flush_task {
            self.flush_task = true;
            return FlushStep::StartTask;
        }
        FlushStep::PollTask
    }

    /// Takes note of what polling the flush task came to, and hands the answer on. A task that
    /// has ended is forgotten.
    pub fn flush_polled<T>(&mut self, result: Polled<T>) -> (r: Polled<T>)
        requires
            old(self).flush_task,
        ensures
            r == result,
            *final(self) == write_event(
                *old(self),
                (WriteEvent::FlushPolled { pending: result is Pending }),
            ),
    {
        self.flush_task = match &result {
            Polled::Pending => true,
            Polled::Ready(_) => false,
        };
        result
    }

    /// Closing a port is flushing it.
    pub fn poll_close(&mut self) -> (r: FlushStep)
        ensures
            r == old(self).flush_step(),
            *final(self) == write_event(*old(self), WriteEvent::Flush),
    {
        self.poll_flush()
    }
}

/// Something that happens to the receiving side of a port.
pub enum ReadEvent {
    /// The pump delivered a chunk.
    Received(Seq<u8>),
    /// The pump failed.
    Failed(PortError),
    /// A read with this much room.
    Read(nat),
    /// A poll for the next chunk.
    Next,
}

/// The state after an event, and what a read handed out, if it handed anything out.
pub open spec fn read_event(s: ReadState, event: ReadEvent) -> (
    ReadState,
    Option<ReadStep<Result<Seq<u8>, PortError>>>,
) {
    match event {
        ReadEvent::Received(chunk) => (ReadState { buffer: s.buffer + chunk, ..s }, None),
        ReadEvent::Failed(e) => (ReadState { error: Some(e), ..s }, None),
        ReadEvent::Read(room) => {
            let (after, step) = read_polled(s, Some(room));
            (after, Some(step))
        },
        ReadEvent::Next => {
            let (after, step) = read_polled(s, None);
            (after, Some(step))
        },
    }
}

/// The state after a history of events.
pub open spec fn after_events(s: ReadState, events: Seq<ReadEvent>) -> ReadState
    decreases events.len(),
{
    if events.len() == 0 {
        s
    } else {
        read_event(after_events(s, events.drop_last()), events.last()).0
    }
}

/// The bytes that the pump delivered in the course of a history.
pub open spec fn bytes_in(events: Seq<ReadEvent>) -> Seq<u8>
    decreases events.len(),
{
    if events.len() == 0 {
        Seq::empty()
    } else {
        let before = bytes_in(events.drop_last());
        match events.last() {
            ReadEvent::Received(chunk) => before + chunk,
            _ => before,
        }
    }
}

/// The bytes that reads handed out in the course of a history.
pub open spec fn bytes_out(s: ReadState, events: Seq<ReadEvent>) -> Seq<u8>
    decreases events.len(),
{
    if events.len() == 0 {
        Seq::empty()
    } else {
        let before = bytes_out(s, events.drop_last());
        match read_event(after_events(s, events.drop_last()), events.last()).1 {
            Some(ReadStep::Ready(Ok(bytes))) => before + bytes,
            _ => before,
        }
    }
}

/// How often the pump was to be started in the course of a history.
pub open spec fn starts(s: ReadState, events: Seq<ReadEvent>) -> nat
    decreases events.len(),
{
    if events.len() == 0 {
        0
    } else {
        let before = starts(s, events.drop_last());
        match read_event(after_events(s, events.drop_last()), events.last()).1 {
            Some(ReadStep::StartThread) => before + 1,
            _ => before,
        }
    }
}

/// Nothing is lost, repeated or reordered: what reads handed out, followed by what is still in
/// the FIFO, is what was in the FIFO at first, followed by what the pump delivered. Reads of
/// either sort can be mixed.
pub proof fn law_bytes_come_out_in_order(s: ReadState, events: Seq<ReadEvent>)
    ensures
        bytes_out(s, events) + after_events(s, events).buffer == s.buffer + bytes_in(events),
    decreases events.len(),
{
    if events.len() == 0 {
        assert(bytes_out(s, events) + s.buffer =~= s.buffer + bytes_in(events));
    } else {
        let past = events.drop_last();
        law_bytes_come_out_in_order(s, past);
        let before = after_events(s, past);
        let (after, step) = read_event(before, events.last());
        match events.last() {
            ReadEvent::Received(chunk) => {
                assert(bytes_out(s, past) + (before.buffer + chunk) =~= (bytes_out(s, past)
                    + before.buffer) + chunk);
                assert((s.buffer + bytes_in(past)) + chunk =~= s.buffer + (bytes_in(past) + chunk));
            },
            _ => {
                match step {
                    Some(ReadStep::Ready(Ok(bytes))) => {
                        assert(bytes + after.buffer =~= before.buffer);
                        assert((bytes_out(s, past) + bytes) + after.buffer =~= bytes_out(s, past)
                            + before.buffer);
                    },
                    _ => {},
                }
            },
        }
    }
}

/// Once the pump has failed, every read reports the failure, whatever is in the FIFO, and goes on
/// to do so as long as no other failure takes its place.
pub proof fn law_failure_stays(s: ReadState, events: Seq<ReadEvent>, error: PortError)
    requires
        s.error == Some(error),
        forall|i: int| 0 <= i < events.len() ==> !(#[trigger] events[i] is Failed),
    ensures
        after_events(s, events).error == Some(error),
        bytes_out(s, events) == Seq::<u8>::empty(),
        forall|room: Option<nat>| (#[trigger] read_polled(after_events(s, events), room)).1
            == ReadStep::Ready(Err::<Seq<u8>, PortError>(error)),
    decreases events.len(),
{
    if events.len() > 0 {
        law_failure_stays(s, events.drop_last(), error);
        assert(!(events[events.len() - 1] is Failed));
    }
}

/// The pump is started at most once in the life of a port.
pub proof fn law_pump_starts_once(s: ReadState, events: Seq<ReadEvent>)
    ensures
        starts(s, events) <= 1,
        s.started ==> starts(s, events) == 0,
        after_events(s, events).started == (s.started || starts(s, events) == 1),
    decreases events.len(),
{
    if events.len() > 0 {
        law_pump_starts_once(s, events.drop_last());
    }
}

/// A read that is ready with bytes hands out at least one, if it has room for one, and never more
/// than it has room for; a poll for the next chunk leaves nothing behind.
pub proof fn law_read_sizes(s: ReadState, room: Option<nat>)
    ensures
        ({
            let (after, step) = read_polled(s, room);
            step matches ReadStep::Ready(Ok(bytes)) ==> {
                &&& room != Some(0nat) ==> bytes.len() > 0
                &&& room matches Some(most) ==> bytes.len() <= most
                &&& room is None ==> after.buffer.len() == 0
            }
        }),
{
}

/// The state after a history of events on the sending side.
pub open spec fn after_writes(s: SerialPortStream, events: Seq<WriteEvent>) -> SerialPortStream
    decreases events.len(),
{
    if events.len() == 0 {
        s
    } else {
        write_event(after_writes(s, events.drop_last()), events.last())
    }
}

/// A flush task is polled only while there is one.
pub open spec fn is_write_history(s: SerialPortStream, events: Seq<WriteEvent>) -> bool
    decreases events.len(),
{
    events.len() > 0 ==> {
        &&& is_write_history(s, events.drop_last())
        &&& events.last() is FlushPolled ==> after_writes(s, events.drop_last()).flush_task
    }
}

/// How many flush tasks were started, less those that have ended, in the course of a history.
pub open spec fn open_flush_tasks(s: SerialPortStream, events: Seq<WriteEvent>) -> int
    decreases events.len(),
{
    if events.len() == 0 {
        0
    } else {
        let before = open_flush_tasks(s, events.drop_last());
        match events.last() {
            WriteEvent::Flush => if after_writes(s, events.drop_last()).flush_step()
                == FlushStep::StartTask {
                before + 1
            } else {
                before
            },
            WriteEvent::FlushPolled { pending } => if pending {
                before
            } else {
                before - 1
            },
            _ => before,
        }
    }
}

/// At any time at most one flush task is under way, and none is started while a write is.
pub proof fn law_one_flush_task(s: SerialPortStream, events: Seq<WriteEvent>)
    requires
        !s.flush_task,
        is_write_history(s, events),
    ensures
        open_flush_tasks(s, events) == (if after_writes(s, events).flush_task {
            1int
        } else {
            0
        }),
        after_writes(s, events).write_in_flight ==> after_writes(s, events).flush_step()
            == FlushStep::Pending,
    decreases events.len(),
{
    if events.len() > 0 {
        law_one_flush_task(s, events.drop_last());
    }
}

/// Without a failure the first read, with a buffer of any size or for the next chunk alike, starts
/// the pump, and takes nothing.
pub proof fn law_first_read_starts_pump(
    port: SerialPortStream,
    inner: EventsInnerRead,
    room: Option<nat>,
)
    requires
        inner.stream_error is None,
        !port.read_thread_started,
    ensures
        ({
            let (after, step) = read_polled(port.read_state(inner), room);
            &&& step == ReadStep::<Result<Seq<u8>, PortError>>::StartThread
            &&& after.started
            &&& after.buffer == inner.in_buffer@
            &&& after.error is None
        }),
{
}

/// Without a failure a read of a port whose pump was started waits exactly if the FIFO is empty.
/// Otherwise it takes from the front: everything, or as much as there is room for.
pub proof fn law_read_takes_what_is_there(
    port: SerialPortStream,
    inner: EventsInnerRead,
    room: Option<nat>,
)
    requires
        inner.stream_error is None,
        port.read_thread_started,
    ensures
        ({
            let fifo = inner.in_buffer@;
            let (after, step) = read_polled(port.read_state(inner), room);
            &&& after.started
            &&& after.error is None
            &&& fifo.len() == 0 ==> step == ReadStep::<Result<Seq<u8>, PortError>>::Pending
                && after.buffer.len() == 0
            &&& fifo.len() > 0 ==> {
                &&& step matches ReadStep::Ready(Ok(bytes))
                &&& bytes + after.buffer == fifo
                &&& room is None ==> bytes == fifo
                &&& room matches Some(most) ==> {
                    &&& bytes.len() <= most
                    &&& after.buffer.len() > 0 ==> bytes.len() == most
                }
            }
        }),
{
    let fifo = inner.in_buffer@;
    let (after, step) = read_polled(port.read_state(inner), room);
    if fifo.len() > 0 {
        if let ReadStep::Ready(Ok(bytes)) = step {
            assert(bytes + after.buffer =~= fifo);
            assert(room is None ==> bytes =~= fifo);
        }
    }
}

/// A failure of the pump is what every read answers, whether or not the pump was started and
/// whatever is in the FIFO; nothing is taken and no pump is started.
pub proof fn law_read_reports_failure(
    port: SerialPortStream,
    inner: EventsInnerRead,
    room: Option<nat>,
    error: PortError,
)
    requires
        inner.stream_error == Some(error),
    ensures
        ({
            let (after, step) = read_polled(port.read_state(inner), room);
            &&& step == ReadStep::Ready(Err::<Seq<u8>, PortError>(error))
            &&& after.started == port.read_thread_started
            &&& after.buffer == inner.in_buffer@
            &&& after.error == Some(error)
        }),
{
}

/// What a read with a buffer answers is what happened to the buffer: the bytes that it took are in
/// front, their number is the answer, and the rest of the buffer is as it was; an answer without
/// bytes leaves the whole buffer as it was.
pub proof fn law_answer_tells_buffer(
    step: ReadStep<Result<Seq<u8>, PortError>>,
    before: Seq<u8>,
    after: Seq<u8>,
    r: ReadStep<Result<usize, PortError>>,
)
    requires
        fills(step, before, after, r),
        step matches ReadStep::Ready(Ok(bytes)) ==> bytes.len() <= before.len(),
    ensures
        r is StartThread <==> step is StartThread,
        r is Pending <==> step is Pending,
        after.len() == before.len(),
        match r {
            ReadStep::Ready(Ok(n)) => {
                &&& step == ReadStep::Ready(Ok::<Seq<u8>, PortError>(after.take(n as int)))
                &&& after.skip(n as int) == before.skip(n as int)
            },
            ReadStep::Ready(Err(e)) => {
                &&& step == ReadStep::Ready(Err::<Seq<u8>, PortError>(e))
                &&& after == before
            },
            _ => after == before,
        },
{
    if let ReadStep::Ready(Ok(bytes)) = step {
        assert(after.take(bytes.len() as int) =~= bytes);
        assert(after.skip(bytes.len() as int) =~= before.skip(bytes.len() as int));
    }
}

/// A write counts as under way exactly if the last write had to wait. A flush waits for exactly
/// such a write; after a write that was ready it starts a flush task, or polls the one there is.
pub proof fn law_last_write_decides(s: SerialPortStream, events: Seq<WriteEvent>, last: int)
    requires
        0 <= last < events.len(),
        events[last] is Write,
        forall|i: int| last < i < events.len() ==> !(#[trigger] events[i] is Write),
    ensures
        ({
            let after = after_writes(s, events);
            let pending = events[last]->Write_pending;
            &&& after.write_in_flight == pending
            &&& pending ==> after.flush_step() == FlushStep::Pending
            &&& !pending && after.flush_task ==> after.flush_step() == FlushStep::PollTask
            &&& !pending && !after.flush_task ==> after.flush_step() == FlushStep::StartTask
        }),
    decreases events.len(),
{
    if last < events.len() - 1 {
        let past = events.drop_last();
        assert(!(events[events.len() - 1] is Write));
        assert forall|i: int| last < i < past.len() implies !(#[trigger] past[i] is Write) by {
            assert(past[i] == events[i]);
        }
        law_last_write_decides(s, past, last);
    }
}

/// Without a write none is under way that was not under way before.
pub proof fn law_only_writes_are_under_way(s: SerialPortStream, events: Seq<WriteEvent>)
    requires
        forall|i: int| 0 <= i < events.len() ==> !(#[trigger] events[i] is Write),
    ensures
        after_writes(s, events).write_in_flight == s.write_in_flight,
    decreases events.len(),
{
    if events.len() > 0 {
        let past = events.drop_last();
        assert(!(events[events.len() - 1] is Write));
        assert forall|i: int| 0 <= i < past.len() implies !(#[trigger] past[i] is Write) by {
            assert(past[i] == events[i]);
        }
        law_only_writes_are_under_way(s, past);
    }
}

/// A flush that need not wait has a task from then on, until the task is polled and has ended; the
/// next flush then starts another one. A flush that waits for a write starts none. Nothing on the
/// sending side starts or stops the pump.
pub proof fn law_flush_task_lives_until_it_ends(s: SerialPortStream, event: WriteEvent)
    ensures
        ({
            let after = write_event(s, event);
            &&& after.read_thread_started == s.read_thread_started
            &&& event is Write ==> after.flush_task == s.flush_task
            &&& event is Flush ==> {
                &&& after.write_in_flight == s.write_in_flight
                &&& !s.write_in_flight ==> after.flush_task && after.flush_step()
                    == FlushStep::PollTask
                &&& s.write_in_flight ==> after.flush_task == s.flush_task
            }
            &&& event matches WriteEvent::FlushPolled { pending } ==> {
                &&& after.write_in_flight == s.write_in_flight
                &&& after.flush_task == pending
                &&& !pending && !s.write_in_flight ==> after.flush_step() == FlushStep::StartTask
            }
        }),
{
}

} // verus!
