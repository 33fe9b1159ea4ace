//! The order in which a port is opened, and what a failed step means.
use vstd::prelude::*;
use vstd::string::*;

use crate::builder::{PortSettings, SerialPortStreamBuilder};
use crate::error::{ErrorKind, PortError};
use crate::types::ClearBuffer;

verus! {

/// One step on the way to an opened port.
#[derive(Debug, Clone, Copy, PartialEq, Eq, Structural)]
pub enum OpenStep {
    /// Open the terminal device.
    OpenDevice,
    /// Read the terminal attributes.
    ReadAttributes,
    /// Turn the receiver on, make the terminal raw, and write the attributes back.
    WriteRawAttributes,
    /// Read the record that line settings live in.
    ReadTermios,
    /// Write the record back with the line settings in it.
    WriteTermios,
    /// Drive DTR; a port that has no such line can still be used.
    TrySetDtr(bool),
    /// Drive DTR.
    SetDtr(bool),
    /// Clear driver buffers.
    Clear(ClearBuffer),
    /// Get a descriptor for reads.
    DuplicateForReads,
    /// Get a descriptor for writes.
    DuplicateForWrites,
    /// Get a descriptor for flushes.
    DuplicateForFlush,
    /// Get a descriptor for the receive pump.
    DuplicateForPump,
    /// Begin async reads.
    BeginReads,
    /// Begin async writes.
    BeginWrites,
    /// Create the signal that stops the receive pump.
    CreateStopSignal,
    /// Open the communications device.
    CreateFile,
    /// Read the device control block.
    ReadControlBlock,
    /// Write the device control block back with the line settings in it.
    WriteControlBlock,
    /// Set the communication timeouts.
    SetTimeouts,
}

/// The steps that open a terminal device, for a port with or without a receive pump.
pub open spec fn unix_steps(settings: PortSettings, stream: bool) -> Seq<OpenStep> {
    seq![
        OpenStep::OpenDevice,
        OpenStep::ReadAttributes,
        OpenStep::WriteRawAttributes,
        OpenStep::ReadTermios,
        OpenStep::WriteTermios,
        OpenStep::TrySetDtr(settings.dtr_on_open),
    ] + clear_steps(settings) + seq![
        OpenStep::DuplicateForReads,
        OpenStep::DuplicateForWrites,
        OpenStep::DuplicateForFlush,
    ] + (if stream {
        seq![
            OpenStep::DuplicateForPump,
            OpenStep::BeginReads,
            OpenStep::BeginWrites,
            OpenStep::CreateStopSignal,
        ]
    } else {
        seq![OpenStep::BeginReads, OpenStep::BeginWrites]
    })
}

/// The steps that open a communications device, for a port with or without a receive pump.
pub open spec fn windows_steps(settings: PortSettings, stream: bool) -> Seq<OpenStep> {
    seq![
        OpenStep::CreateFile,
        OpenStep::ReadControlBlock,
        OpenStep::WriteControlBlock,
        OpenStep::SetDtr(settings.dtr_on_open),
    ] + clear_steps(settings) + (if stream {
        seq![
            OpenStep::SetTimeouts,
            OpenStep::CreateStopSignal,
            OpenStep::BeginWrites,
        ]
    } else {
        seq![OpenStep::SetTimeouts, OpenStep::BeginReads, OpenStep::BeginWrites]
    })
}

/// The step that clears driver buffers, if any are to be cleared.
pub open spec fn clear_steps(settings: PortSettings) -> Seq<OpenStep> {
    match settings.clear_buffer {
        Some(buffer) => seq![OpenStep::Clear(buffer)],
        None => Seq::empty(),
    }
}

/// How a step failed.
#[derive(Debug, PartialEq, Eq)]
pub enum StepFailure {
    /// The system refused, with this code and these words.
    Os { code: i32, text: String },
    /// The settings cannot be written down for this system.
    Refused(PortError),
}

/// What follows a step.
#[derive(Debug, PartialEq, Eq)]
pub enum OpenAction {
    /// Do this next.
    Perform(OpenStep),
    /// The port is open.
    Opened,
    /// The port cannot be opened.
    Failed(PortError),
}

/// A port can be opened although this step failed.
pub open spec fn tolerates_failure(step: OpenStep) -> bool {
    step is TrySetDtr
}

/// Opening goes on after a step that succeeded or did not.
pub open spec fn goes_on(step: OpenStep, succeeded: bool) -> bool {
    succeeded || tolerates_failure(step)
}

/// The error that the failure of a step is reported with.
pub open spec fn is_open_error(
    step: OpenStep,
    path: Seq<char>,
    failure: StepFailure,
    e: PortError,
) -> bool {
    match failure {
        StepFailure::Refused(refused) => e == refused,
        StepFailure::Os { code, text } => match step {
            OpenStep::CreateFile => e.says(
                ErrorKind::OfCode(code),
                "failed to open port "@ + path + ": "@ + text@,
            ),
            OpenStep::SetTimeouts => e.says(
                ErrorKind::OfCode(code),
                "SetCommTimeouts failed: "@ + text@,
            ),
            _ => e == PortError::Os(code),
        },
    }
}

/// A port that is being opened.
#[derive(Debug)]
pub struct OpenSequence {
    pub path: String,
    pub steps: Vec<OpenStep>,
    /// The step under way; past the end once the sequence has ended.
    pub current: usize,
}

impl OpenSequence {
    /// A step is under way.
    pub open spec fn under_way(self) -> bool {
        self.current < self.steps@.len()
    }

    /// Starts to open a terminal device.
    pub fn unix(builder: &SerialPortStreamBuilder, stream: bool) -> (r: (Self, OpenStep))
        ensures
            r.0.path@ == builder.path@,
            r.0.steps@ == unix_steps(builder@, stream),
            r.0.current == 0,
            r.0.under_way(),
            r.1 == OpenStep::OpenDevice,
    {
        let mut steps: Vec<OpenStep> = Vec::new();
        steps.push(OpenStep::OpenDevice);
        steps.push(OpenStep::ReadAttributes);
        steps.push(OpenStep::WriteRawAttributes);
        steps.push(OpenStep::ReadTermios);
        steps.push(OpenStep::WriteTermios);
        steps.push(OpenStep::TrySetDtr(builder.dtr_on_open));
        if let Some(buffer) = builder.clear_buffer {
            steps.push(OpenStep::Clear(buffer));
        }
        steps.push(OpenStep::DuplicateForReads);
        steps.push(OpenStep::DuplicateForWrites);
        steps.push(OpenStep::DuplicateForFlush);
        if stream {
            steps.push(OpenStep::DuplicateForPump);
        }
        steps.push(OpenStep::BeginReads);
        steps.push(OpenStep::BeginWrites);
        if stream {
            steps.push(OpenStep::CreateStopSignal);
        }
        assert(steps@ =~= unix_steps(builder@, stream));
        (OpenSequence { path: builder.path.clone(), steps, current: 0 }, OpenStep::OpenDevice)
    }

    /// Starts to open a communications device.
    pub fn windows(builder: &SerialPortStreamBuilder, stream: bool) -> (r: (Self, OpenStep))
        ensures
            r.0.path@ == builder.path@,
            r.0.steps@ == windows_steps(builder@, stream),
            r.0.current == 0,
            r.0.under_way(),
            r.1 == OpenStep::CreateFile,
    {
        let mut steps: Vec<OpenStep> = Vec::new();
        steps.push(OpenStep::CreateFile);
        steps.push(OpenStep::ReadControlBlock);
        steps.push(OpenStep::WriteControlBlock);
        steps.push(OpenStep::SetDtr(builder.dtr_on_open));
        if let Some(buffer) = builder.clear_buffer {
            steps.push(OpenStep::Clear(buffer));
        }
        steps.push(OpenStep::SetTimeouts);
        if stream {
            steps.push(OpenStep::CreateStopSignal);
        } else {
            steps.push(OpenStep::BeginReads);
        }
        steps.push(OpenStep::BeginWrites);
        assert(steps@ =~= windows_steps(builder@, stream));
        (OpenSequence { path: builder.path.clone(), steps, current: 0 }, OpenStep::CreateFile)
    }

    /// Tells whether a step is under way.
    pub fn is_under_way(&self) -> (r: bool)
        ensures
            r == self.under_way(),
    {
        self.current < self.steps.len()
    }

    /// Takes in how the step under way ended, and says what follows.
    pub fn resume(&mut self, result: Result<(), StepFailure>) -> (r: OpenAction)
        requires
            old(self).under_way(),
        ensures
            final(self).path@ == old(self).path@,
            final(self).steps@ == old(self).steps@,
            ({
                let step = old(self).steps@[old(self).current as int];
                let next = old(self).current + 1;
                match result {
                    Err(failure) if !goes_on(step, false) => {
                        &&& r matches OpenAction::Failed(e)
                        &&& is_open_error(step, old(self).path@, failure, e)
                        &&& final(self).current == old(self).steps@.len()
                    },
                    _ => {
                        &&& final(self).current == next
                        &&& r == if next < old(self).steps@.len() {
                            OpenAction::Perform(old(self).steps@[next])
                        } else {
                            OpenAction::Opened
                        }
                    },
                }
            }),
    {
        let count: usize = self.steps.len();
        let step: OpenStep = self.steps[self.current];
        if let Err(failure) = result {
            let tolerated: bool = match step {
                OpenStep::TrySetDtr(_) => true,
                _ => false,
            };
            if !tolerated {
                self.current = count;
                return OpenAction::Failed(open_error(step, self.path.as_str(), failure));
            }
        }
        self.current = self.current + 1;
        if self.current < count {
            OpenAction::Perform(self.steps[self.current])
        } else {
            OpenAction::Opened
        }
    }
}

/// The error that the failure of a step is reported with.
fn open_error(step: OpenStep, path: &str, failure: StepFailure) -> (e: PortError)
    ensures
        is_open_error(step, path@, failure, e),
{
    match failure {
        StepFailure::Refused(refused) => refused,
        StepFailure::Os { code, text } => match step {
            OpenStep::CreateFile => {
                let mut message: String = "failed to open port ".to_owned();
                message.append(path);
                message.append(": ");
                message.append(text.as_str());
                PortError::Message { kind: ErrorKind::OfCode(code), text: message }
            },
            OpenStep::SetTimeouts => {
                let mut message: String = "SetCommTimeouts failed: ".to_owned();
                message.append(text.as_str());
                PortError::Message { kind: ErrorKind::OfCode(code), text: message }
            },
            _ => PortError::Os(code),
        },
    }
}

/// How many of the steps are made, given which of them the system lets succeed, if the first one
/// to be made is number `from`; one more than all of them if the port gets open.
pub open spec fn steps_made(steps: Seq<OpenStep>, succeeds: spec_fn(int) -> bool, from: int) -> int
    decreases steps.len() - from,
{
    if from >= steps.len() {
        (steps.len() + 1) as int
    } else if !goes_on(steps[from], succeeds(from)) {
        from + 1
    } else {
        steps_made(steps, succeeds, from + 1)
    }
}

/// A port gets open exactly if every step succeeds that has to, and no step is made after one
/// that failed and had to succeed.
pub proof fn law_open_needs_every_step(
    steps: Seq<OpenStep>,
    succeeds: spec_fn(int) -> bool,
    from: int,
)
    requires
        0 <= from <= steps.len(),
    ensures
        ({
            let made = steps_made(steps, succeeds, from);
            &&& from < made <= steps.len() + 1
            &&& made == steps.len() + 1 <==> forall|i: int|
                from <= i < steps.len() ==> goes_on(#[trigger] steps[i], succeeds(i))
            &&& made <= steps.len() ==> {
                &&& !goes_on(steps[made - 1], succeeds(made - 1))
                &&& forall|i: int|
                    from <= i < made - 1 ==> goes_on(#[trigger] steps[i], succeeds(i))
            }
        }),
    decreases steps.len() - from,
{
    if from < steps.len() && goes_on(steps[from], succeeds(from)) {
        law_open_needs_every_step(steps, succeeds, from + 1);
    }
}

/// The step puts a setting of the builder into effect.
pub open spec fn is_setting_step(step: OpenStep) -> bool {
    match step {
        OpenStep::WriteTermios => true,
        OpenStep::WriteControlBlock => true,
        OpenStep::TrySetDtr(_) => true,
        OpenStep::SetDtr(_) => true,
        OpenStep::Clear(_) => true,
        _ => false,
    }
}

/// Line settings, DTR and buffer clearing are in effect before async I/O begins, and no setting
/// is left out.
pub proof fn law_settings_before_io(settings: PortSettings, stream: bool, i: int, j: int)
    ensures
        ({
            let steps = unix_steps(settings, stream);
            &&& 0 <= i < steps.len() && 0 <= j < steps.len() && is_setting_step(steps[i]) && (
            steps[j] is BeginReads || steps[j] is BeginWrites) ==> i < j
            &&& steps.contains(OpenStep::WriteTermios)
            &&& steps.contains(OpenStep::TrySetDtr(settings.dtr_on_open))
            &&& settings.clear_buffer matches Some(buffer) ==> steps.contains(
                OpenStep::Clear(buffer),
            )
        }),
        ({
            let steps = windows_steps(settings, stream);
            &&& 0 <= i < steps.len() && 0 <= j < steps.len() && is_setting_step(steps[i]) && (
            steps[j] is BeginReads || steps[j] is BeginWrites) ==> i < j
            &&& steps.contains(OpenStep::WriteControlBlock)
            &&& steps.contains(OpenStep::SetDtr(settings.dtr_on_open))
            &&& settings.clear_buffer matches Some(buffer) ==> steps.contains(
                OpenStep::Clear(buffer),
            )
        }),
{
    let unix = unix_steps(settings, stream);
    let windows = windows_steps(settings, stream);
    assert(unix[4] == OpenStep::WriteTermios);
    assert(unix[5] == OpenStep::TrySetDtr(settings.dtr_on_open));
    assert(windows[2] == OpenStep::WriteControlBlock);
    assert(windows[3] == OpenStep::SetDtr(settings.dtr_on_open));
    if let Some(buffer) = settings.clear_buffer {
        assert(unix[6] == OpenStep::Clear(buffer));
        assert(windows[4] == OpenStep::Clear(buffer));
    }
}

/// A terminal is made raw before the record is read that line settings are written into, and that
/// read comes before the write; the write is the last step that rewrites terminal attributes.
pub proof fn law_line_settings_stay_in_force(
    settings: PortSettings,
    stream: bool,
    raw: int,
    read: int,
    write: int,
    other: int,
)
    ensures
        ({
            let steps = unix_steps(settings, stream);
            &&& steps.contains(OpenStep::WriteRawAttributes)
            &&& steps.contains(OpenStep::ReadTermios)
            &&& steps.contains(OpenStep::WriteTermios)
            &&& 0 <= raw < steps.len() && 0 <= read < steps.len() && 0 <= write < steps.len()
                && steps[raw] == OpenStep::WriteRawAttributes && steps[read]
                == OpenStep::ReadTermios && steps[write] == OpenStep::WriteTermios ==> raw < read
                < write
            &&& 0 <= write < other < steps.len() && steps[write] == OpenStep::WriteTermios ==> !(
            steps[other] is WriteRawAttributes || steps[other] is WriteTermios)
        }),
{
    let steps = unix_steps(settings, stream);
    assert(steps[2] == OpenStep::WriteRawAttributes);
    assert(steps[3] == OpenStep::ReadTermios);
    assert(steps[4] == OpenStep::WriteTermios);
}

/// A terminal device is opened by steps in their places, each made once and after those that it
/// needs: the device is opened; its attributes are read and made raw; the record is read and line
/// settings written into it; DTR is driven and buffers are cleared; descriptors are made; I/O
/// begins. DTR is driven as the settings have it, a clear is made exactly if they ask for one and of
/// what they ask for, a descriptor and a stop signal for the pump exactly if there is one, and all
/// the others always.
pub proof fn law_unix_steps_in_place(settings: PortSettings, stream: bool, i: int, j: int)
    ensures
        ({
            let steps = unix_steps(settings, stream);
            let rank = |step: OpenStep|
                match step {
                    OpenStep::OpenDevice => 1int,
                    OpenStep::ReadAttributes => 2,
                    OpenStep::WriteRawAttributes => 3,
                    OpenStep::ReadTermios => 4,
                    OpenStep::WriteTermios => 5,
                    OpenStep::TrySetDtr(_) => 6,
                    OpenStep::Clear(_) => 7,
                    OpenStep::DuplicateForReads => 8,
                    OpenStep::DuplicateForWrites => 9,
                    OpenStep::DuplicateForFlush => 10,
                    OpenStep::DuplicateForPump => 11,
                    OpenStep::BeginReads => 12,
                    OpenStep::BeginWrites => 13,
                    OpenStep::CreateStopSignal => 14,
                    _ => 0int,
                };
            &&& 0 <= i < j < steps.len() ==> 0 < rank(steps[i]) < rank(steps[j])
            &&& 0 <= i < steps.len() ==> {
                &&& steps[i] matches OpenStep::TrySetDtr(state) ==> state == settings.dtr_on_open
                &&& steps[i] matches OpenStep::Clear(buffer) ==> settings.clear_buffer == Some(
                    buffer,
                )
                &&& steps[i] is DuplicateForPump || steps[i] is CreateStopSignal ==> stream
            }
            &&& steps.contains(OpenStep::OpenDevice)
            &&& steps.contains(OpenStep::ReadAttributes)
            &&& steps.contains(OpenStep::WriteRawAttributes)
            &&& steps.contains(OpenStep::ReadTermios)
            &&& steps.contains(OpenStep::WriteTermios)
            &&& steps.contains(OpenStep::TrySetDtr(settings.dtr_on_open))
            &&& settings.clear_buffer matches Some(buffer) ==> steps.contains(
                OpenStep::Clear(buffer),
            )
            &&& steps.contains(OpenStep::DuplicateForReads)
            &&& steps.contains(OpenStep::DuplicateForWrites)
            &&& steps.contains(OpenStep::DuplicateForFlush)
            &&& steps.contains(OpenStep::BeginReads)
            &&& steps.contains(OpenStep::BeginWrites)
            &&& stream ==> steps.contains(OpenStep::DuplicateForPump) && steps.contains(
                OpenStep::CreateStopSignal,
            )
        }),
{
    let steps = unix_steps(settings, stream);
    let c: int = if settings.clear_buffer is Some {
        1
    } else {
        0
    };
    let p: int = if stream {
        1
    } else {
        0
    };
    assert(steps[0] == OpenStep::OpenDevice);
    assert(steps[1] == OpenStep::ReadAttributes);
    assert(steps[2] == OpenStep::WriteRawAttributes);
    assert(steps[3] == OpenStep::ReadTermios);
    assert(steps[4] == OpenStep::WriteTermios);
    assert(steps[5] == OpenStep::TrySetDtr(settings.dtr_on_open));
    if let Some(buffer) = settings.clear_buffer {
        assert(steps[6] == OpenStep::Clear(buffer));
    }
    assert(steps[6 + c] == OpenStep::DuplicateForReads);
    assert(steps[7 + c] == OpenStep::DuplicateForWrites);
    assert(steps[8 + c] == OpenStep::DuplicateForFlush);
    assert(steps[9 + c + p] == OpenStep::BeginReads);
    assert(steps[10 + c + p] == OpenStep::BeginWrites);
    if stream {
        assert(steps[9 + c] == OpenStep::DuplicateForPump);
        assert(steps[12 + c] == OpenStep::CreateStopSignal);
    }
}

/// A communications device is opened by steps in their places, each made once and after those that
/// it needs: the device is opened; its control block is read and written back; DTR is driven and
/// buffers are cleared; timeouts are set; the stop signal is created, or reads begin; writes begin.
/// DTR is driven as the settings have it, a clear is made exactly if they ask for one and of what
/// they ask for, a stop signal exactly if there is a pump, reads begin exactly if there is none,
/// and all the others are made always.
pub proof fn law_windows_steps_in_place(settings: PortSettings, stream: bool, i: int, j: int)
    ensures
        ({
            let steps = windows_steps(settings, stream);
            let rank = |step: OpenStep|
                match step {
                    OpenStep::CreateFile => 1int,
                    OpenStep::ReadControlBlock => 2,
                    OpenStep::WriteControlBlock => 3,
                    OpenStep::SetDtr(_) => 4,
                    OpenStep::Clear(_) => 5,
                    OpenStep::SetTimeouts => 6,
                    OpenStep::CreateStopSignal => 7,
                    OpenStep::BeginReads => 7,
                    OpenStep::BeginWrites => 8,
                    _ => 0int,
                };
            &&& 0 <= i < j < steps.len() ==> 0 < rank(steps[i]) < rank(steps[j])
            &&& 0 <= i < steps.len() ==> {
                &&& steps[i] matches OpenStep::SetDtr(state) ==> state == settings.dtr_on_open
                &&& steps[i] matches OpenStep::Clear(buffer) ==> settings.clear_buffer == Some(
                    buffer,
                )
                &&& steps[i] is CreateStopSignal ==> stream
                &&& steps[i] is BeginReads ==> !stream
            }
            &&& steps.contains(OpenStep::CreateFile)
            &&& steps.contains(OpenStep::ReadControlBlock)
            &&& steps.contains(OpenStep::WriteControlBlock)
            &&& steps.contains(OpenStep::SetDtr(settings.dtr_on_open))
            &&& settings.clear_buffer matches Some(buffer) ==> steps.contains(
                OpenStep::Clear(buffer),
            )
            &&& steps.contains(OpenStep::SetTimeouts)
            &&& stream ==> steps.contains(OpenStep::CreateStopSignal)
            &&& !stream ==> steps.contains(OpenStep::BeginReads)
            &&& steps.contains(OpenStep::BeginWrites)
        }),
{
    let steps = windows_steps(settings, stream);
    let c: int = if settings.clear_buffer is Some {
        1
    } else {
        0
    };
    assert(steps[0] == OpenStep::CreateFile);
    assert(steps[1] == OpenStep::ReadControlBlock);
    assert(steps[2] == OpenStep::WriteControlBlock);
    assert(steps[3] == OpenStep::SetDtr(settings.dtr_on_open));
    if let Some(buffer) = settings.clear_buffer {
        assert(steps[4] == OpenStep::Clear(buffer));
    }
    assert(steps[4 + c] == OpenStep::SetTimeouts);
    assert(steps[5 + c] == if stream {
        OpenStep::CreateStopSignal
    } else {
        OpenStep::BeginReads
    });
    assert(steps[6 + c] == OpenStep::BeginWrites);
}

/// Every step that failed ends the opening, but for one: DTR of a terminal device may fail. A step
/// that succeeded never ends it.
pub proof fn law_only_terminal_dtr_may_fail(step: OpenStep)
    ensures
        goes_on(step, true),
        goes_on(step, false) <==> step is TrySetDtr,
{
}

/// What a failed opening reports: a refused setting as it is; of the system's codes, the code
/// itself; and where the failure is put into words, the code as its kind, and words that name the
/// path or the call and end in the system's own words.
pub proof fn law_open_failure_is_reported(
    step: OpenStep,
    path: Seq<char>,
    code: i32,
    text: String,
    refused: PortError,
    e: PortError,
)
    ensures
        is_open_error(step, path, StepFailure::Refused(refused), e) ==> e == refused,
        is_open_error(step, path, (StepFailure::Os { code, text }), e) ==> {
            &&& e.spec_kind() == ErrorKind::OfCode(code)
            &&& step is CreateFile ==> e.spec_message() == Some(
                "failed to open port "@ + path + ": "@ + text@,
            )
            &&& step is SetTimeouts ==> e.spec_message() == Some(
                "SetCommTimeouts failed: "@ + text@,
            )
            &&& !(step is CreateFile || step is SetTimeouts) ==> e == PortError::Os(code)
        },
{
}

} // verus!
