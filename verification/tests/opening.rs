use serialport_stream::error::{ErrorKind, PortError};
use serialport_stream::platform::open::{OpenAction, OpenSequence, OpenStep, StepFailure};
use serialport_stream::platform::shutdown::{
    unix_close_steps, windows_close_steps, CloseStep, PumpThread,
};
use serialport_stream::platform::windows::overlapped::{Cleanup, Transfer, TransferPhase};
use serialport_stream::{new, ClearBuffer};

fn refusal(code: i32) -> Result<(), StepFailure> {
    Err(StepFailure::Os {
        code,
        text: "denied".to_string(),
    })
}

fn all_steps(mut sequence: OpenSequence, first: OpenStep) -> Vec<OpenStep> {
    let mut steps = vec![first];
    loop {
        assert!(sequence.is_under_way());
        match sequence.resume(Ok(())) {
            OpenAction::Perform(step) => steps.push(step),
            OpenAction::Opened => return steps,
            OpenAction::Failed(e) => panic!("{:?}", e),
        }
    }
}

#[test]
fn unix_steps_in_order() {
    let builder = new("p", 9600).dtr_on_open(true).clear(ClearBuffer::Input);
    let (sequence, first) = OpenSequence::unix(&builder, true);
    assert_eq!(
        all_steps(sequence, first),
        vec![
            OpenStep::OpenDevice,
            OpenStep::ReadAttributes,
            OpenStep::WriteRawAttributes,
            OpenStep::ReadTermios,
            OpenStep::WriteTermios,
            OpenStep::TrySetDtr(true),
            OpenStep::Clear(ClearBuffer::Input),
            OpenStep::DuplicateForReads,
            OpenStep::DuplicateForWrites,
            OpenStep::DuplicateForFlush,
            OpenStep::DuplicateForPump,
            OpenStep::BeginReads,
            OpenStep::BeginWrites,
            OpenStep::CreateStopSignal,
        ]
    );
    let (sequence, first) = OpenSequence::unix(&new("p", 9600), false);
    let steps = all_steps(sequence, first);
    assert_eq!(steps.len(), 11);
    assert!(!steps.contains(&OpenStep::DuplicateForPump));
    assert!(!steps.contains(&OpenStep::CreateStopSignal));
}

#[test]
fn windows_steps_in_order() {
    let (sequence, first) = OpenSequence::windows(&new("COM3", 9600).clear(ClearBuffer::All), false);
    assert_eq!(
        all_steps(sequence, first),
        vec![
            OpenStep::CreateFile,
            OpenStep::ReadControlBlock,
            OpenStep::WriteControlBlock,
            OpenStep::SetDtr(false),
            OpenStep::Clear(ClearBuffer::All),
            OpenStep::SetTimeouts,
            OpenStep::BeginReads,
            OpenStep::BeginWrites,
        ]
    );
    let (sequence, first) = OpenSequence::windows(&new("COM3", 9600), true);
    let steps = all_steps(sequence, first);
    assert!(steps.contains(&OpenStep::CreateStopSignal));
    assert!(!steps.contains(&OpenStep::BeginReads));
}

#[test]
fn a_failed_step_ends_the_opening() {
    let (mut sequence, _) = OpenSequence::unix(&new("p", 9600), false);
    assert_eq!(sequence.resume(refusal(13)), OpenAction::Failed(PortError::Os(13)));
    assert!(!sequence.is_under_way());

    let (mut sequence, _) = OpenSequence::unix(&new("p", 9600), false);
    for _ in 0..4 {
        sequence.resume(Ok(()));
    }
    let refused = Err(StepFailure::Refused(PortError::UnexpectedReadEvents));
    assert_eq!(
        sequence.resume(refused),
        OpenAction::Failed(PortError::UnexpectedReadEvents)
    );
}

#[test]
fn dtr_may_fail_on_unix_only() {
    let (mut sequence, _) = OpenSequence::unix(&new("p", 9600), false);
    for _ in 0..5 {
        sequence.resume(Ok(()));
    }
    assert_eq!(
        sequence.resume(refusal(25)),
        OpenAction::Perform(OpenStep::DuplicateForReads)
    );
    let (mut sequence, _) = OpenSequence::windows(&new("COM3", 9600), false);
    for _ in 0..3 {
        sequence.resume(Ok(()));
    }
    assert_eq!(sequence.resume(refusal(25)), OpenAction::Failed(PortError::Os(25)));
}

#[test]
fn windows_failures_in_words() {
    let (mut sequence, _) = OpenSequence::windows(&new("COM3", 9600), false);
    match sequence.resume(refusal(2)) {
        OpenAction::Failed(e) => {
            assert_eq!(e.message(), Some("failed to open port COM3: denied"));
            assert_eq!(e.kind(), ErrorKind::OfCode(2));
        }
        other => panic!("{:?}", other),
    }
    let (mut sequence, _) = OpenSequence::windows(&new("COM3", 9600), false);
    for _ in 0..4 {
        sequence.resume(Ok(()));
    }
    match sequence.resume(refusal(87)) {
        OpenAction::Failed(e) => {
            assert_eq!(e.message(), Some("SetCommTimeouts failed: denied"));
            assert_eq!(e.kind(), ErrorKind::OfCode(87));
        }
        other => panic!("{:?}", other),
    }
}

#[test]
fn only_a_running_pump_is_stopped() {
    assert!(!PumpThread::of(false, false).must_be_stopped());
    assert!(PumpThread::of(true, false).must_be_stopped());
    assert!(!PumpThread::of(true, true).must_be_stopped());
}

#[test]
fn closing_a_terminal_discards_output() {
    let discard = CloseStep::Discard(ClearBuffer::Output);
    assert_eq!(
        unix_close_steps(PumpThread::Running),
        vec![CloseStep::SignalStop, CloseStep::JoinPump, discard]
    );
    assert_eq!(unix_close_steps(PumpThread::NotStarted), vec![discard]);
    assert_eq!(unix_close_steps(PumpThread::Finished), vec![discard]);
    assert!(discard.may_fail());
    assert!(!CloseStep::SignalStop.may_fail());
    assert!(!CloseStep::JoinPump.may_fail());
}

#[test]
fn closing_a_communications_device_cancels_what_is_in_flight() {
    let idle = Transfer::new();
    let busy = Transfer {
        phase: TransferPhase::InFlight,
    };
    assert_eq!(
        windows_close_steps(PumpThread::Running, None, busy),
        vec![
            CloseStep::SignalStop,
            CloseStep::JoinPump,
            CloseStep::CleanUpWrites(Cleanup::ClearWaitAndCancel),
        ]
    );
    let steps = windows_close_steps(PumpThread::NotStarted, Some(busy), idle);
    assert_eq!(
        steps,
        vec![
            CloseStep::CleanUpReads(Cleanup::ClearWaitAndCancel),
            CloseStep::CleanUpWrites(Cleanup::ClearWait),
        ]
    );
    assert!(steps.iter().all(CloseStep::may_fail));
}
