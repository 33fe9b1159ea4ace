use windows_sys::Win32::Devices::Communication as win;
use windows_sys::Win32::Foundation as found;

use serialport_stream::error::PortError;
use serialport_stream::fifo::EventsInnerRead;
use serialport_stream::platform::windows::comm::{
    apply_line_settings, clear, configure_port, data_terminal_ready_function, init_dcb,
    open_timeouts, receive_event_mask, set_baud_rate, set_bitfield_bit, CommTimeouts, Dcb,
    DtrControl, RtsControl,
};
use serialport_stream::platform::windows::name::device_name;
use serialport_stream::platform::windows::overlapped::{
    read_answer, Cleanup, Transfer, TransferAction, TransferEvent, TransferPhase,
};
use serialport_stream::platform::windows::pump::{PumpAction, PumpEvent, ReceivePump};
use serialport_stream::platform::windows::reactor::{
    poll_overlapped_result, OverlappedEvent, OverlappedPoll, OverlappedWait, ReadyStep,
};
use serialport_stream::stream::Polled;
use serialport_stream::{new, ClearBuffer, DataBits, FlowControl, Parity, StopBits};

fn block(bitfield: u32) -> Dcb {
    Dcb {
        baud_rate: 1,
        bitfield,
        byte_size: 0,
        parity: 9,
        stop_bits: 9,
        xon_char: 0,
        xoff_char: 0,
        error_char: 1,
        eof_char: 0,
    }
}

#[test]
fn single_bits_and_two_bit_fields() {
    let mut word = 0u32;
    set_bitfield_bit(&mut word, 31, true);
    assert_eq!(word, 0x8000_0000);
    set_bitfield_bit(&mut word, 31, false);
    assert_eq!(word, 0);
    let mut dcb = block(0);
    dcb.set_f_dtr_control(DtrControl::Handshake);
    assert_eq!(dcb.bitfield, 0x20);
    dcb.set_f_dtr_control(DtrControl::Enable);
    assert_eq!(dcb.bitfield, 0x10);
    dcb.set_f_rts_control(RtsControl::Toggle);
    assert_eq!(dcb.bitfield, 0x3010);
    dcb.set_f_rts_control(RtsControl::Handshake);
    assert_eq!(dcb.bitfield, 0x2010);
    let mut dcb = block(0);
    dcb.set_f_binary(true);
    dcb.set_f_parity(true);
    dcb.set_f_outx_cts_flow(true);
    dcb.set_f_outx_dsr_flow(true);
    dcb.set_f_dsr_sensitivity(true);
    dcb.set_f_out_x(true);
    dcb.set_f_in_x(true);
    dcb.set_f_error_char(true);
    dcb.set_f_null(true);
    dcb.set_f_abort_on_error(true);
    assert_eq!(dcb.bitfield, 0b0100_1111_0100_1111);
}

#[test]
fn fixed_members() {
    let mut dcb = block(u32::MAX);
    init_dcb(&mut dcb);
    assert_eq!(dcb.bitfield, !0x4c79u32 | 1);
    assert_eq!((dcb.xon_char, dcb.xoff_char), (17, 19));
    assert_eq!((dcb.error_char, dcb.eof_char), (0, 26));
}

#[test]
fn line_settings_in_a_block() {
    let mut dcb = block(0);
    apply_line_settings(&mut dcb, &new("COM3", 115_200));
    assert_eq!((dcb.baud_rate, dcb.byte_size, dcb.bitfield), (115_200, 8, 0));
    assert_eq!((dcb.parity, dcb.stop_bits), (win::NOPARITY, win::ONESTOPBIT));

    let builder = new("COM3", 9600)
        .data_bits(DataBits::Five)
        .parity(Parity::Odd)
        .stop_bits(StopBits::Two)
        .flow_control(FlowControl::Hardware);
    let dcb = configure_port(block(0xffff_8080), &builder);
    assert_eq!(dcb.bitfield, 0xffff_8080 | 0x1007);
    assert_eq!((dcb.byte_size, dcb.parity, dcb.stop_bits), (5, win::ODDPARITY, win::TWOSTOPBITS));

    let dcb = configure_port(block(u32::MAX), &builder.parity(Parity::Even).flow_control(FlowControl::Software));
    assert_eq!(dcb.bitfield & 0x7f7f, 0x0303);
    assert_eq!(dcb.parity, win::EVENPARITY);

    let mut changed = dcb;
    set_baud_rate(&mut changed, 42);
    assert_eq!(changed, Dcb { baud_rate: 42, ..dcb });
}

#[test]
fn numbers_of_the_communications_api() {
    assert_eq!(data_terminal_ready_function(true), win::SETDTR);
    assert_eq!(data_terminal_ready_function(false), win::CLRDTR);
    assert_eq!(clear(ClearBuffer::Input), win::PURGE_RXABORT | win::PURGE_RXCLEAR);
    assert_eq!(clear(ClearBuffer::Output), win::PURGE_TXABORT | win::PURGE_TXCLEAR);
    assert_eq!(clear(ClearBuffer::All), 15);
    assert_eq!(receive_event_mask(), win::EV_RXCHAR);
    assert_eq!(
        open_timeouts(),
        CommTimeouts {
            read_interval: 1,
            read_total_multiplier: 0,
            read_total_constant: 0,
            write_total_multiplier: 0,
            write_total_constant: 0,
        }
    );
}

#[test]
fn device_names() {
    let wide = |s: &str| -> Vec<u16> {
        let mut units: Vec<u16> = s.encode_utf16().collect();
        units.push(0);
        units
    };
    assert_eq!(device_name("COM3"), wide("\\\\.\\COM3"));
    assert_eq!(device_name("\\\\.\\COM10"), wide("\\\\.\\COM10"));
    assert_eq!(device_name("\\x"), wide("\\x"));
    assert_eq!(device_name(""), wide("\\\\.\\"));
    assert_eq!(device_name("ä€😀"), wide("\\\\.\\ä€😀"));
}

fn ready(result: Result<u32, PortError>, cleanup: Cleanup) -> TransferAction {
    TransferAction::Answer {
        cleanup,
        poll: Polled::Ready(result),
    }
}

fn waits() -> TransferAction {
    TransferAction::Answer {
        cleanup: Cleanup::Nothing,
        poll: Polled::Pending,
    }
}

#[test]
fn a_transfer_that_ends_at_once() {
    let mut transfer = Transfer::new();
    assert!(transfer.awaits(&TransferEvent::Poll));
    assert_eq!(transfer.step(TransferEvent::Poll), TransferAction::Create);
    assert!(!transfer.awaits(&TransferEvent::Poll));
    assert_eq!(transfer.step(TransferEvent::Created(Ok(()))), TransferAction::Start);
    assert_eq!(transfer.step(TransferEvent::Started(true)), TransferAction::Collect);
    assert_eq!(
        transfer.step(TransferEvent::Collected(Ok(12))),
        ready(Ok(12), Cleanup::Nothing)
    );
    assert_eq!(transfer.phase, TransferPhase::Idle);
    assert_eq!(transfer.drop_cleanup(), Cleanup::ClearWait);
}

#[test]
fn a_transfer_in_flight() {
    let mut transfer = Transfer::new();
    transfer.step(TransferEvent::Poll);
    transfer.step(TransferEvent::Created(Ok(())));
    assert_eq!(transfer.step(TransferEvent::Started(false)), TransferAction::GetLastError);
    assert_eq!(
        transfer.step(TransferEvent::LastError(found::ERROR_IO_PENDING)),
        TransferAction::Register
    );
    assert_eq!(transfer.step(TransferEvent::Registered(Ok(()))), waits());
    assert_eq!(transfer.drop_cleanup(), Cleanup::ClearWaitAndCancel);
    assert_eq!(transfer.step(TransferEvent::Poll), TransferAction::Wait);
    let timeout = TransferEvent::Waited {
        result: found::WAIT_TIMEOUT,
        last_error: 0,
    };
    assert_eq!(transfer.step(timeout), waits());
    transfer.step(TransferEvent::Poll);
    let signalled = TransferEvent::Waited {
        result: found::WAIT_OBJECT_0,
        last_error: 0,
    };
    assert_eq!(transfer.step(signalled), TransferAction::Collect);
    assert_eq!(
        transfer.step(TransferEvent::Collected(Ok(3))),
        ready(Ok(3), Cleanup::ClearWait)
    );
}

fn in_flight() -> Transfer {
    Transfer {
        phase: TransferPhase::InFlight,
    }
}

#[test]
fn transfers_that_fail() {
    let mut transfer = Transfer::new();
    transfer.step(TransferEvent::Poll);
    assert_eq!(
        transfer.step(TransferEvent::Created(Err(8))),
        ready(Err(PortError::Os(8)), Cleanup::Nothing)
    );
    transfer.step(TransferEvent::Poll);
    transfer.step(TransferEvent::Created(Ok(())));
    transfer.step(TransferEvent::Started(false));
    assert_eq!(
        transfer.step(TransferEvent::LastError(5)),
        ready(Err(PortError::Os(5)), Cleanup::Nothing)
    );
    transfer.step(TransferEvent::Poll);
    transfer.step(TransferEvent::Created(Ok(())));
    transfer.step(TransferEvent::Started(true));
    assert_eq!(
        transfer.step(TransferEvent::Collected(Err(6))),
        ready(Err(PortError::Os(6)), Cleanup::Nothing)
    );
    transfer.step(TransferEvent::Poll);
    transfer.step(TransferEvent::Created(Ok(())));
    transfer.step(TransferEvent::Started(false));
    transfer.step(TransferEvent::LastError(found::ERROR_IO_PENDING));
    assert_eq!(
        transfer.step(TransferEvent::Registered(Err(7))),
        ready(Err(PortError::Os(7)), Cleanup::Nothing)
    );

    let mut transfer = in_flight();
    transfer.step(TransferEvent::Poll);
    let failed = TransferEvent::Waited {
        result: found::WAIT_FAILED,
        last_error: 6,
    };
    assert_eq!(
        transfer.step(failed),
        ready(Err(PortError::Os(6)), Cleanup::ClearWaitAndCancel)
    );
    let mut transfer = in_flight();
    transfer.step(TransferEvent::Poll);
    let odd = TransferEvent::Waited {
        result: 192,
        last_error: 6,
    };
    assert_eq!(
        transfer.step(odd),
        ready(Err(PortError::UnexpectedWaitResult), Cleanup::ClearWaitAndCancel)
    );
    let mut transfer = in_flight();
    transfer.step(TransferEvent::Poll);
    let signalled = TransferEvent::Waited {
        result: found::WAIT_OBJECT_0,
        last_error: 0,
    };
    transfer.step(signalled);
    assert_eq!(
        transfer.step(TransferEvent::Collected(Err(995))),
        ready(Err(PortError::Os(995)), Cleanup::ClearWaitAndCancel)
    );
}

fn waited(result: u32) -> PumpEvent {
    PumpEvent::Waited {
        result,
        last_error: 77,
    }
}

fn pump_at_work() -> ReceivePump {
    let (mut pump, action) = ReceivePump::new();
    assert_eq!(action, PumpAction::CreateEvent);
    assert_eq!(pump.receive_events(PumpEvent::Called(Ok(()))), PumpAction::CreateRead);
    assert_eq!(pump.receive_events(PumpEvent::Called(Ok(()))), PumpAction::Query);
    assert_eq!(pump.receive_events(PumpEvent::Queried(Ok(0))), PumpAction::SetMask);
    assert_eq!(pump.receive_events(PumpEvent::Called(Ok(()))), PumpAction::ResetEvent);
    assert_eq!(pump.receive_events(PumpEvent::Called(Ok(()))), PumpAction::Watch);
    assert_eq!(pump.receive_events(PumpEvent::Watched), PumpAction::GetLastError);
    assert_eq!(
        pump.receive_events(PumpEvent::LastError(found::ERROR_IO_PENDING)),
        PumpAction::WaitAny
    );
    pump
}

#[test]
fn the_win32_pump_reads_what_is_reported() {
    let mut pump = pump_at_work();
    assert!(pump.awaits(&waited(0)));
    assert!(!pump.awaits(&PumpEvent::Delivered));
    assert_eq!(pump.receive_events(waited(found::WAIT_OBJECT_0)), PumpAction::CollectEvent);
    assert_eq!(pump.receive_events(PumpEvent::Called(Ok(()))), PumpAction::Query);
    assert_eq!(pump.receive_events(PumpEvent::Queried(Ok(4))), PumpAction::ResetRead);
    assert_eq!(pump.receive_events(PumpEvent::Called(Ok(()))), PumpAction::Read(4));
    assert_eq!(pump.receive_events(PumpEvent::ReadStarted(None)), PumpAction::GetLastError);
    assert_eq!(
        pump.receive_events(PumpEvent::LastError(found::ERROR_IO_PENDING)),
        PumpAction::WaitRead
    );
    assert_eq!(pump.receive_events(waited(found::WAIT_OBJECT_0)), PumpAction::CollectRead);
    assert_eq!(
        pump.receive_events(PumpEvent::ReadCollected(Ok(4))),
        PumpAction::Deliver(4)
    );
    assert_eq!(pump.receive_events(PumpEvent::Delivered), PumpAction::ResetEvent);
}

#[test]
fn the_win32_pump_fetches_what_was_there_before() {
    let (mut pump, _) = ReceivePump::new();
    pump.receive_events(PumpEvent::Called(Ok(())));
    pump.receive_events(PumpEvent::Called(Ok(())));
    pump.receive_events(PumpEvent::Queried(Ok(2)));
    pump.receive_events(PumpEvent::Called(Ok(())));
    assert_eq!(
        pump.receive_events(PumpEvent::ReadStarted(Some(2))),
        PumpAction::Deliver(2)
    );
    assert_eq!(pump.receive_events(PumpEvent::Delivered), PumpAction::SetMask);
}

#[test]
fn the_win32_pump_ends() {
    assert_eq!(
        pump_at_work().receive_events(waited(found::WAIT_OBJECT_0 + 1)),
        PumpAction::Stop {
            cancel: true,
            result: Ok(())
        }
    );
    let failed = |code: i32| PumpAction::Stop {
        cancel: false,
        result: Err(PortError::Os(code)),
    };
    assert_eq!(pump_at_work().receive_events(waited(found::WAIT_FAILED)), failed(77));
    let (mut pump, _) = ReceivePump::new();
    assert_eq!(pump.receive_events(PumpEvent::Called(Err(8))), failed(8));
    let mut pump = pump_at_work();
    pump.receive_events(waited(found::WAIT_OBJECT_0));
    pump.receive_events(PumpEvent::Called(Ok(())));
    assert_eq!(pump.receive_events(PumpEvent::Queried(Err(31))), failed(31));
    let mut pump = pump_at_work();
    pump.receive_events(waited(found::WAIT_OBJECT_0));
    pump.receive_events(PumpEvent::Called(Ok(())));
    pump.receive_events(PumpEvent::Queried(Ok(1)));
    pump.receive_events(PumpEvent::Called(Ok(())));
    pump.receive_events(PumpEvent::ReadStarted(None));
    assert_eq!(pump.receive_events(PumpEvent::LastError(5)), failed(5));
}

#[test]
fn one_wake_up_at_a_time() {
    let mut wait = OverlappedWait::new();
    assert!(wait.ensure_registered());
    assert_eq!(wait.register_overlapped_wait(Err(6)), Err(PortError::Os(6)));
    assert!(wait.ensure_registered());
    assert_eq!(wait.register_overlapped_wait(Ok(())), Ok(()));
    assert!(!wait.ensure_registered());
    assert!(wait.clear());
    assert!(!wait.clear());
    wait.register_overlapped_wait(Ok(())).unwrap();
    wait.overlapped_wait_callback();
    assert!(!wait.clear());
}

#[test]
fn polling_a_completion_event() {
    let mut event = OverlappedEvent::new();
    assert_eq!(
        event.poll_ready(found::WAIT_OBJECT_0, 0),
        ReadyStep::Answer(Polled::Ready(Ok(())))
    );
    assert_eq!(event.poll_ready(found::WAIT_TIMEOUT, 0), ReadyStep::Register);
    assert_eq!(event.registered(Err(3)), Polled::Ready(Err(PortError::Os(3))));
    assert_eq!(event.registered(Ok(())), Polled::Pending);
    assert_eq!(
        event.poll_ready(found::WAIT_TIMEOUT, 0),
        ReadyStep::Answer(Polled::Pending)
    );
    assert_eq!(
        event.poll_ready(found::WAIT_FAILED, 6),
        ReadyStep::Answer(Polled::Ready(Err(PortError::Os(6))))
    );
    assert_eq!(
        event.poll_ready(128, 6),
        ReadyStep::Answer(Polled::Ready(Err(PortError::UnexpectedWaitResult)))
    );
}

#[test]
fn polling_a_result() {
    assert_eq!(
        poll_overlapped_result(Ok(9)),
        OverlappedPoll {
            reset: false,
            poll: Polled::Ready(Ok(9))
        }
    );
    assert_eq!(
        poll_overlapped_result(Err(found::ERROR_IO_INCOMPLETE as i32)),
        OverlappedPoll {
            reset: true,
            poll: Polled::Pending
        }
    );
    assert_eq!(
        poll_overlapped_result(Err(995)),
        OverlappedPoll {
            reset: false,
            poll: Polled::Ready(Err(PortError::Os(995)))
        }
    );
}

#[test]
fn different_settings_make_different_blocks() {
    let mut blocks: Vec<Dcb> = Vec::new();
    for parity in [Parity::Off, Parity::Odd, Parity::Even] {
        for flow_control in [FlowControl::Off, FlowControl::Software, FlowControl::Hardware] {
            for data_bits in [DataBits::Five, DataBits::Six, DataBits::Seven, DataBits::Eight] {
                for stop_bits in [StopBits::One, StopBits::Two] {
                    let builder = new("COM3", 9600)
                        .parity(parity)
                        .flow_control(flow_control)
                        .data_bits(data_bits)
                        .stop_bits(stop_bits);
                    let dcb = configure_port(block(u32::MAX), &builder);
                    assert!(!blocks.contains(&dcb));
                    blocks.push(dcb);
                }
            }
        }
    }
}

#[test]
fn different_paths_make_different_device_names() {
    let paths = ["COM1", "COM2", "COM10", "", "\u{10000}", "\u{10400}", "\u{ffff}"];
    let names: Vec<Vec<u16>> = paths.iter().map(|path| device_name(path)).collect();
    for i in 0..names.len() {
        for j in 0..i {
            assert_ne!(names[i], names[j]);
        }
    }
    assert_eq!(device_name("COM1"), device_name("\\\\.\\COM1"));
}

#[test]
fn a_read_hands_out_what_went_over() {
    let mut buf = [9u8; 4];
    let source = vec![1u8, 2, 3];
    assert_eq!(read_answer(Polled::Pending, &source, &mut buf), Polled::Pending);
    assert_eq!(
        read_answer(Polled::Ready(Err(PortError::Os(5))), &source, &mut buf),
        Polled::Ready(Err(PortError::Os(5)))
    );
    assert_eq!(buf, [9; 4]);
    assert_eq!(
        read_answer(Polled::Ready(Ok(2)), &source, &mut buf),
        Polled::Ready(Ok(2))
    );
    assert_eq!(buf, [1, 2, 9, 9]);
}

#[test]
fn what_the_win32_pump_reads_comes_out_in_order() {
    let mut inner = EventsInnerRead::new();
    let mut buffer: Vec<u8> = Vec::new();
    let mut chunks = [b"ab".to_vec(), b"cde".to_vec(), b"f".to_vec()].into_iter();
    let (mut pump, mut action) = ReceivePump::new();
    let mut queries = 0;
    loop {
        let event = match action {
            PumpAction::Query => {
                queries += 1;
                PumpEvent::Queried(Ok(8))
            }
            PumpAction::Read(len) => {
                let chunk = chunks.next().unwrap();
                buffer.resize(len as usize, 0);
                buffer[..chunk.len()].copy_from_slice(&chunk);
                PumpEvent::ReadStarted(Some(chunk.len() as u32))
            }
            PumpAction::Deliver(n) => {
                inner.receive(&mut buffer, n as usize);
                PumpEvent::Delivered
            }
            PumpAction::Watch => PumpEvent::Watched,
            PumpAction::GetLastError => PumpEvent::LastError(found::ERROR_IO_PENDING),
            PumpAction::WaitAny => waited(if queries < 3 { 0 } else { 1 }),
            PumpAction::Stop { cancel, result } => {
                assert!(cancel);
                assert_eq!(result, Ok(()));
                break;
            }
            _ => PumpEvent::Called(Ok(())),
        };
        assert!(pump.awaits(&event));
        action = pump.receive_events(event);
    }
    assert_eq!(inner.take_all(), b"abcdef".to_vec());
}
