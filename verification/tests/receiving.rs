use nix::libc;

use serialport_stream::error::{clone_io_error, ErrorKind, PortError};
use serialport_stream::fifo::{copy_prefix, EventsInnerRead};
use serialport_stream::platform::unix::host::Host;
use serialport_stream::platform::unix::pump::{PollReply, PumpAction, PumpEvent, ReceivePump};
use serialport_stream::stream::{FlushStep, Polled, ReadStep, SerialPortStream};

fn started() -> (SerialPortStream, EventsInnerRead) {
    let mut port = SerialPortStream::new();
    let mut inner = EventsInnerRead::new();
    assert!(matches!(port.try_poll_next(&mut inner), ReadStep::StartThread));
    (port, inner)
}

#[test]
fn the_first_read_starts_the_pump_once() {
    let (mut port, mut inner) = started();
    assert!(port.read_thread_started);
    let mut buf = [0u8; 4];
    assert_eq!(port.poll_read(&mut inner, &mut buf), ReadStep::Pending);
    assert_eq!(port.try_poll_next(&mut inner), ReadStep::Pending);
}

#[test]
fn a_read_leaves_what_does_not_fit() {
    let (mut port, mut inner) = started();
    inner.receive(&mut vec![1, 2, 3, 4, 5], 5);
    let mut buf = [9u8; 3];
    assert_eq!(port.poll_read(&mut inner, &mut buf), ReadStep::Ready(Ok(3)));
    assert_eq!(buf, [1, 2, 3]);
    let mut buf = [9u8; 4];
    assert_eq!(port.poll_read(&mut inner, &mut buf), ReadStep::Ready(Ok(2)));
    assert_eq!(buf, [4, 5, 9, 9]);
    assert_eq!(port.poll_read(&mut inner, &mut buf), ReadStep::Pending);
}

#[test]
fn the_next_chunk_is_everything() {
    let (mut port, mut inner) = started();
    inner.receive(&mut vec![1, 2], 2);
    inner.receive(&mut vec![3], 1);
    assert_eq!(port.try_poll_next(&mut inner), ReadStep::Ready(Some(Ok(vec![1, 2, 3]))));
    assert_eq!(port.try_poll_next(&mut inner), ReadStep::Pending);
}

#[test]
fn mixed_reads_keep_the_order() {
    let (mut port, mut inner) = started();
    inner.receive(&mut vec![1, 2, 3], 3);
    let mut buf = [0u8; 1];
    assert_eq!(port.poll_read(&mut inner, &mut buf), ReadStep::Ready(Ok(1)));
    assert_eq!(buf, [1]);
    inner.receive(&mut vec![4], 1);
    assert_eq!(port.try_poll_next(&mut inner), ReadStep::Ready(Some(Ok(vec![2, 3, 4]))));
}

#[test]
fn receiving_takes_what_was_read_and_empties_the_buffer() {
    let mut inner = EventsInnerRead::new();
    let mut buffer = vec![1, 2, 3, 4];
    inner.receive(&mut buffer, 2);
    assert_eq!(inner.in_buffer, vec![1, 2]);
    assert!(buffer.is_empty());
    inner.receive(&mut vec![5], 9);
    assert_eq!(inner.in_buffer, vec![1, 2, 5]);
}

#[test]
fn a_pump_failure_is_reported_again_and_again() {
    let (mut port, mut inner) = started();
    inner.receive(&mut vec![1], 1);
    inner.fail(PortError::Os(libc::EIO));
    let mut buf = [0u8; 1];
    for _ in 0..2 {
        assert_eq!(
            port.poll_read(&mut inner, &mut buf),
            ReadStep::Ready(Err(PortError::Os(libc::EIO)))
        );
        assert_eq!(
            port.try_poll_next(&mut inner),
            ReadStep::Ready(Some(Err(PortError::Os(libc::EIO))))
        );
    }
    let mut fresh = SerialPortStream::new();
    assert_eq!(
        fresh.poll_receiver_ready(&inner),
        ReadStep::Ready(Err(PortError::Os(libc::EIO)))
    );
    assert!(!fresh.read_thread_started);
}

#[test]
fn copies_of_errors_keep_code_kind_and_text() {
    let os = PortError::Os(5);
    assert_eq!(clone_io_error(&os), os);
    assert_eq!(clone_io_error(&os).raw_os_error(), Some(5));
    assert_eq!(os.kind(), ErrorKind::OfCode(5));
    assert_eq!(os.message(), None);
    let text = PortError::Message {
        kind: ErrorKind::InvalidInput,
        text: "no".to_string(),
    };
    assert_eq!(clone_io_error(&text), text);
    assert_eq!(text.raw_os_error(), None);
    assert_eq!(
        PortError::UnexpectedReadEvents.message(),
        Some("read fd events != POLLIN")
    );
    assert_eq!(
        PortError::UnexpectedWaitResult.message(),
        Some("unexpected WaitForSingleObjectEx result")
    );
    assert_eq!(PortError::UnexpectedWaitResult.kind(), ErrorKind::Other);
}

#[test]
fn prefixes_are_copied() {
    let mut buf = [7u8; 4];
    copy_prefix(&mut buf, &vec![1, 2, 3], 2);
    assert_eq!(buf, [1, 2, 7, 7]);
}

#[test]
fn flushes_wait_for_writes_and_run_one_at_a_time() {
    let mut port = SerialPortStream::new();
    assert_eq!(port.poll_write(Polled::<u8>::Pending), Polled::Pending);
    assert_eq!(port.poll_flush(), FlushStep::Pending);
    assert_eq!(port.poll_write(Polled::Ready(3)), Polled::Ready(3));
    assert_eq!(port.poll_flush(), FlushStep::StartTask);
    assert_eq!(port.flush_polled(Polled::<u8>::Pending), Polled::Pending);
    assert_eq!(port.poll_close(), FlushStep::PollTask);
    assert_eq!(port.flush_polled(Polled::Ready(())), Polled::Ready(()));
    assert_eq!(port.poll_close(), FlushStep::StartTask);
}

#[test]
fn the_pump_fetches_first_and_then_waits() {
    let errnos = Host::new().errnos;
    let (mut pump, action) = ReceivePump::new();
    assert_eq!(action, PumpAction::Count);
    assert_eq!(
        pump.receive_thread(PumpEvent::Counted(Ok(5)), &errnos),
        PumpAction::Read(5)
    );
    assert_eq!(
        pump.receive_thread(PumpEvent::DidRead(Err(libc::EINTR)), &errnos),
        PumpAction::Read(5)
    );
    assert_eq!(
        pump.receive_thread(PumpEvent::DidRead(Ok(3)), &errnos),
        PumpAction::Deliver(3)
    );
    assert!(pump.awaits(&PumpEvent::Delivered));
    assert!(!pump.awaits(&PumpEvent::Counted(Ok(0))));
    assert_eq!(pump.receive_thread(PumpEvent::Delivered, &errnos), PumpAction::Poll);
    let unreadable = PollReply { cancel: false, readable: None };
    assert_eq!(
        pump.receive_thread(PumpEvent::Polled(Ok(unreadable)), &errnos),
        PumpAction::Poll
    );
    let data = PollReply { cancel: false, readable: Some(true) };
    assert_eq!(
        pump.receive_thread(PumpEvent::Polled(Ok(data)), &errnos),
        PumpAction::Count
    );
    assert_eq!(pump.receive_thread(PumpEvent::Counted(Ok(0)), &errnos), PumpAction::Poll);
    let both = PollReply { cancel: true, readable: Some(true) };
    assert_eq!(
        pump.receive_thread(PumpEvent::Polled(Ok(both)), &errnos),
        PumpAction::Stop(Ok(()))
    );
    assert!(!pump.awaits(&PumpEvent::Delivered));
}

#[test]
fn the_pump_ends_on_failures() {
    let errnos = Host::new().errnos;
    let (mut pump, _) = ReceivePump::new();
    assert_eq!(
        pump.receive_thread(PumpEvent::Counted(Err(libc::EIO)), &errnos),
        PumpAction::Stop(Err(PortError::Os(libc::EIO)))
    );
    let (mut pump, _) = ReceivePump::new();
    pump.receive_thread(PumpEvent::Counted(Ok(1)), &errnos);
    assert_eq!(
        pump.receive_thread(PumpEvent::DidRead(Err(libc::EAGAIN)), &errnos),
        PumpAction::Poll
    );
    let hangup = PollReply { cancel: false, readable: Some(false) };
    assert_eq!(
        pump.receive_thread(PumpEvent::Polled(Ok(hangup)), &errnos),
        PumpAction::Stop(Err(PortError::UnexpectedReadEvents))
    );
    let (mut pump, _) = ReceivePump::new();
    pump.receive_thread(PumpEvent::Counted(Ok(0)), &errnos);
    assert_eq!(
        pump.receive_thread(PumpEvent::Polled(Err(libc::EINTR)), &errnos),
        PumpAction::Stop(Err(PortError::Os(libc::EINTR)))
    );
}

#[test]
fn what_the_pump_reads_comes_out_in_order() {
    let errnos = Host::new().errnos;
    let (mut port, mut inner) = started();
    let chunks: [&[u8]; 3] = [b"ab", b"cde", b"f"];
    let mut chunks = chunks.iter();
    let mut buffer: Vec<u8> = Vec::new();
    let mut chunk: &[u8] = &[];
    let (mut pump, mut action) = ReceivePump::new();
    loop {
        let event = match action {
            PumpAction::Count => PumpEvent::Counted(Ok(8)),
            PumpAction::Read(len) => {
                buffer.resize(len as usize, 0);
                buffer[..chunk.len()].copy_from_slice(chunk);
                PumpEvent::DidRead(Ok(chunk.len()))
            }
            PumpAction::Deliver(n) => {
                inner.receive(&mut buffer, n);
                PumpEvent::Delivered
            }
            PumpAction::Poll => {
                let next = chunks.next();
                chunk = next.copied().unwrap_or_default();
                PumpEvent::Polled(Ok(PollReply { cancel: next.is_none(), readable: Some(true) }))
            }
            PumpAction::Stop(result) => {
                assert_eq!(result, Ok(()));
                break;
            }
        };
        assert!(pump.awaits(&event));
        action = pump.receive_thread(event, &errnos);
    }
    let mut buf = [0u8; 4];
    assert_eq!(port.poll_read(&mut inner, &mut buf), ReadStep::Ready(Ok(4)));
    assert_eq!(&buf, b"abcd");
    assert_eq!(port.try_poll_next(&mut inner), ReadStep::Ready(Some(Ok(b"ef".to_vec()))));
}
