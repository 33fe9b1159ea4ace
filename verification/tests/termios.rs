use nix::libc;

use serialport_stream::error::ErrorKind;
use serialport_stream::platform::unix::host::Host;
use serialport_stream::platform::unix::serial::{
    apply_line_settings, data_terminal_ready_status, enable_receiver, linux_ppc_baud_constant,
    set_baud_rate, set_data_bits, set_flow_control, set_parity, set_stop_bits, speed_request,
    BaudScheme, Termios, INPUT_SPEED_SHIFT, TIOCM_DTR,
};
use serialport_stream::platform::unix::{
    bytes_to_read, clear, transfer_outcome, DrainStep, OutputFlush, TransferOutcome,
};
use serialport_stream::error::PortError;
use serialport_stream::{new, ClearBuffer, DataBits, FlowControl, Parity, StopBits};

fn record(c_iflag: u32, c_cflag: u32) -> Termios {
    Termios {
        c_iflag,
        c_cflag,
        c_ispeed: 1,
        c_ospeed: 2,
    }
}

#[test]
fn host_numbers_are_those_of_libc() {
    let host = Host::new();
    assert_eq!(host.masks.parenb, libc::PARENB);
    assert_eq!(host.masks.parodd, libc::PARODD);
    assert_eq!(host.masks.crtscts, libc::CRTSCTS);
    assert_eq!(host.masks.csize, libc::CSIZE);
    assert_eq!(host.masks.cs5, libc::CS5);
    assert_eq!(host.masks.cs8, libc::CS8);
    assert_eq!(host.masks.cstopb, libc::CSTOPB);
    assert_eq!(host.masks.cbaud, libc::CBAUD);
    assert_eq!(host.masks.cbaud << INPUT_SPEED_SHIFT, libc::CIBAUD);
    assert_eq!(host.masks.bother, libc::BOTHER);
    assert_eq!(host.masks.ixon | host.masks.ixoff, libc::IXON | libc::IXOFF);
    assert_eq!(host.masks.inpck, libc::INPCK);
    assert_eq!(host.masks.ignpar, libc::IGNPAR);
    assert_eq!(host.speeds.codes[0], libc::B50);
    assert_eq!(host.speeds.codes[12], libc::B9600);
    assert_eq!(host.speeds.codes[16], libc::B115200);
    assert_eq!(host.speeds.codes[29], libc::B4000000);
    assert_eq!(host.queues.both, libc::TCIOFLUSH);
    assert_eq!(host.errnos.again, libc::EAGAIN);
    assert_eq!(host.errnos.interrupted, libc::EINTR);
}

#[test]
fn host_flags_do_not_overlap() {
    let m = Host::new().masks;
    let words = [m.parenb, m.parodd, m.crtscts, m.csize, m.cstopb, m.cbaud | (m.cbaud << INPUT_SPEED_SHIFT)];
    for (i, a) in words.iter().enumerate() {
        for b in &words[i + 1..] {
            assert_eq!(a & b, 0);
        }
    }
    let codes = Host::new().speeds.codes;
    for (i, a) in codes.iter().enumerate() {
        assert_eq!(a & !m.cbaud, 0);
        for b in &codes[i + 1..] {
            assert!(a != b);
        }
    }
}

#[test]
fn parity_touches_its_own_bits_only() {
    let m = Host::new().masks;
    let mut t = record(u32::MAX, u32::MAX);
    set_parity(&mut t, Parity::Off, &m);
    assert_eq!(t.c_cflag, u32::MAX & !(libc::PARENB | libc::PARODD));
    assert_eq!(t.c_iflag, u32::MAX & !libc::INPCK);
    let mut t = record(0, 0);
    set_parity(&mut t, Parity::Odd, &m);
    assert_eq!(t, record(libc::INPCK, libc::PARENB | libc::PARODD));
    set_parity(&mut t, Parity::Even, &m);
    assert_eq!(t, record(libc::INPCK, libc::PARENB));
    set_parity(&mut t, Parity::Off, &m);
    assert_eq!(t, record(libc::IGNPAR, 0));
}

#[test]
fn flow_control_size_and_stop_bits() {
    let m = Host::new().masks;
    let mut t = record(0, 0);
    set_flow_control(&mut t, FlowControl::Software, &m);
    assert_eq!(t, record(libc::IXON | libc::IXOFF, 0));
    set_flow_control(&mut t, FlowControl::Hardware, &m);
    assert_eq!(t, record(0, libc::CRTSCTS));
    set_flow_control(&mut t, FlowControl::Off, &m);
    assert_eq!(t, record(0, 0));
    for (bits, code) in [
        (DataBits::Five, libc::CS5),
        (DataBits::Six, libc::CS6),
        (DataBits::Seven, libc::CS7),
        (DataBits::Eight, libc::CS8),
    ] {
        let mut t = record(0, u32::MAX);
        set_data_bits(&mut t, bits, &m);
        assert_eq!(t.c_cflag, (u32::MAX & !libc::CSIZE) | code);
    }
    let mut t = record(0, 0);
    set_stop_bits(&mut t, StopBits::Two, &m);
    assert_eq!(t.c_cflag, libc::CSTOPB);
    set_stop_bits(&mut t, StopBits::One, &m);
    assert_eq!(t.c_cflag, 0);
}

#[test]
fn all_line_settings_take_effect_together() {
    let host = Host::new();
    let mut before = record(0, u32::MAX & !(libc::CREAD | libc::CLOCAL));
    enable_receiver(&mut before, &host.masks);
    assert_eq!(before.c_cflag, u32::MAX);
    let builder = new("p", 250_000)
        .parity(Parity::Even)
        .data_bits(DataBits::Seven)
        .stop_bits(StopBits::Two)
        .flow_control(FlowControl::Software);
    let t = apply_line_settings(
        before,
        &builder,
        BaudScheme::AnyRate,
        &host.masks,
        &host.speeds,
    )
    .unwrap();
    assert_eq!(t.c_cflag & (libc::PARENB | libc::PARODD), libc::PARENB);
    assert_eq!(t.c_cflag & libc::CSIZE, libc::CS7);
    assert_eq!(t.c_cflag & libc::CSTOPB, libc::CSTOPB);
    assert_eq!(t.c_cflag & libc::CRTSCTS, 0);
    assert_eq!(t.c_cflag & (libc::CBAUD | libc::CIBAUD), libc::BOTHER);
    assert_eq!(t.c_cflag & (libc::CREAD | libc::CLOCAL), libc::CREAD | libc::CLOCAL);
    assert_eq!(t.c_iflag, libc::INPCK | libc::IXON | libc::IXOFF);
    assert_eq!((t.c_ispeed, t.c_ospeed), (250_000, 250_000));
}

#[test]
fn changing_the_baud_rate_keeps_line_settings() {
    let host = Host::new();
    let builder = new("p", 9600).parity(Parity::Odd).stop_bits(StopBits::Two);
    let t = apply_line_settings(
        record(0, 0),
        &builder,
        BaudScheme::AnyRate,
        &host.masks,
        &host.speeds,
    )
    .unwrap();
    let mut changed = t;
    set_baud_rate(&mut changed, 1234, BaudScheme::AnyRate, &host.masks, &host.speeds).unwrap();
    assert_eq!(changed.c_cflag, t.c_cflag);
    assert_eq!(changed.c_iflag, t.c_iflag);
    assert_eq!((changed.c_ispeed, changed.c_ospeed), (1234, 1234));
}

#[test]
fn standard_rates_have_codes_and_others_are_refused() {
    let host = Host::new();
    assert_eq!(linux_ppc_baud_constant(115_200, &host.speeds), Ok(libc::B115200));
    assert_eq!(linux_ppc_baud_constant(50, &host.speeds), Ok(libc::B50));
    assert_eq!(linux_ppc_baud_constant(4_000_000, &host.speeds), Ok(libc::B4000000));
    let err = linux_ppc_baud_constant(250_000, &host.speeds).unwrap_err();
    assert_eq!(err.kind(), ErrorKind::InvalidInput);
    assert_eq!(err.message(), Some("unsupported baud rate: 250000"));

    let mut t = record(3, 5);
    assert!(set_baud_rate(&mut t, 7, BaudScheme::StandardRate, &host.masks, &host.speeds).is_err());
    assert_eq!(t, record(3, 5));
    set_baud_rate(&mut t, 9600, BaudScheme::StandardRate, &host.masks, &host.speeds).unwrap();
    assert_eq!(t.c_cflag, (5 & !libc::CBAUD) | libc::B9600);
    assert_eq!((t.c_ispeed, t.c_ospeed), (libc::B9600, libc::B9600));
    let refused = apply_line_settings(
        record(0, 0),
        &new("p", 1),
        BaudScheme::StandardRate,
        &host.masks,
        &host.speeds,
    );
    assert_eq!(refused.unwrap_err().message(), Some("unsupported baud rate: 1"));
}

#[test]
fn rates_that_the_record_does_not_hold() {
    let host = Host::new();
    for scheme in [BaudScheme::SpeedCall, BaudScheme::SpeedRequest] {
        let mut t = record(3, 5);
        set_baud_rate(&mut t, 9600, scheme, &host.masks, &host.speeds).unwrap();
        assert_eq!(t, record(3, 5));
    }
    assert_eq!(speed_request(9600, BaudScheme::SpeedRequest), Some(9600));
    assert_eq!(speed_request(0, BaudScheme::SpeedRequest), None);
    assert_eq!(speed_request(9600, BaudScheme::AnyRate), None);
}

#[test]
fn dtr_status_changes_one_bit() {
    assert_eq!(data_terminal_ready_status(0x44, true), 0x44 | TIOCM_DTR);
    assert_eq!(data_terminal_ready_status(0x46, false), 0x44);
    assert_eq!(data_terminal_ready_status(-1, false), -3);
}

#[test]
fn clearing_selects_a_queue() {
    let queues = Host::new().queues;
    assert_eq!(clear(ClearBuffer::Input, &queues), libc::TCIFLUSH);
    assert_eq!(clear(ClearBuffer::Output, &queues), libc::TCOFLUSH);
    assert_eq!(clear(ClearBuffer::All, &queues), libc::TCIOFLUSH);
}

#[test]
fn transfers_wait_retry_or_fail() {
    let errnos = Host::new().errnos;
    assert_eq!(transfer_outcome(Ok(7), &errnos), TransferOutcome::Done(7));
    assert_eq!(transfer_outcome(Err(libc::EAGAIN), &errnos), TransferOutcome::WouldBlock);
    assert_eq!(transfer_outcome(Err(libc::EINTR), &errnos), TransferOutcome::Retry);
    assert_eq!(
        transfer_outcome(Err(libc::EIO), &errnos),
        TransferOutcome::Failed(PortError::Os(libc::EIO))
    );
}

#[test]
fn a_drain_is_tried_three_times() {
    let errnos = Host::new().errnos;
    let mut flush = OutputFlush::new();
    assert_eq!(flush.flush_output(Err(libc::EINTR), &errnos), DrainStep::Again);
    assert_eq!(flush.flush_output(Err(libc::EINTR), &errnos), DrainStep::Again);
    assert_eq!(
        flush.flush_output(Err(libc::EINTR), &errnos),
        DrainStep::Failed(PortError::Os(libc::EINTR))
    );
    let mut flush = OutputFlush::new();
    assert_eq!(flush.flush_output(Err(libc::EINTR), &errnos), DrainStep::Again);
    assert_eq!(flush.flush_output(Ok(()), &errnos), DrainStep::Done);
    let mut flush = OutputFlush::new();
    assert_eq!(
        flush.flush_output(Err(libc::EIO), &errnos),
        DrainStep::Failed(PortError::Os(libc::EIO))
    );
}

#[test]
fn byte_counts_are_not_negative() {
    assert_eq!(bytes_to_read(0, 12, 0), Ok(12));
    assert_eq!(bytes_to_read(0, 0, 0), Ok(0));
    assert_eq!(bytes_to_read(0, -5, 0), Ok(0));
    assert_eq!(bytes_to_read(-1, 12, libc::EBADF), Err(libc::EBADF));
}

#[test]
fn speed_codes_follow_the_standard_rates() {
    let speeds = Host::new().speeds;
    let codes = [
        (50, libc::B50),
        (134, libc::B134),
        (1800, libc::B1800),
        (38_400, libc::B38400),
        (57_600, libc::B57600),
        (460_800, libc::B460800),
        (500_000, libc::B500000),
        (921_600, libc::B921600),
        (1_152_000, libc::B1152000),
        (2_500_000, libc::B2500000),
        (3_500_000, libc::B3500000),
    ];
    for (baud_rate, code) in codes {
        assert_eq!(linux_ppc_baud_constant(baud_rate, &speeds), Ok(code));
    }
}

#[test]
fn different_settings_make_different_records() {
    let host = Host::new();
    let mut records: Vec<Termios> = Vec::new();
    for parity in [Parity::Off, Parity::Odd, Parity::Even] {
        for flow_control in [FlowControl::Off, FlowControl::Software, FlowControl::Hardware] {
            for data_bits in [DataBits::Five, DataBits::Six, DataBits::Seven, DataBits::Eight] {
                for stop_bits in [StopBits::One, StopBits::Two] {
                    let builder = new("p", 9600)
                        .parity(parity)
                        .flow_control(flow_control)
                        .data_bits(data_bits)
                        .stop_bits(stop_bits);
                    let t = apply_line_settings(
                        record(u32::MAX, u32::MAX),
                        &builder,
                        BaudScheme::AnyRate,
                        &host.masks,
                        &host.speeds,
                    )
                    .unwrap();
                    assert!(!records.contains(&t));
                    records.push(t);
                }
            }
        }
    }
}
