//! Line settings as the flag words of a POSIX `termios` record.
use vstd::prelude::*;

use vstd::string::*;

use crate::bits::{
    disjoint, lemma_disjoint_parts, lemma_replace_keeps, lemma_replace_reads_back,
    lemma_within_parts, lemma_within_widens, replace_bits, within,
};
use crate::builder::{PortSettings, SerialPortStreamBuilder};
use crate::error::{invalid_input, ErrorKind, PortError};
use crate::text::{decimal, push_decimal};
use crate::types::{DataBits, FlowControl, Parity, StopBits};

verus! {

/// The words of a `termios` record that line settings live in.
#[derive(Debug, Clone, Copy, PartialEq, Eq, Structural)]
pub struct Termios {
    pub c_iflag: u32,
    pub c_cflag: u32,
    pub c_ispeed: u32,
    pub c_ospeed: u32,
}

/// The bits that a platform gives to each flag of a `termios` record.
#[derive(Debug, Clone, Copy, PartialEq, Eq, Structural)]
pub struct TermiosMasks {
    pub cread: u32,
    pub clocal: u32,
    pub parenb: u32,
    pub parodd: u32,
    pub crtscts: u32,
    pub csize: u32,
    pub cs5: u32,
    pub cs6: u32,
    pub cs7: u32,
    pub cs8: u32,
    pub cstopb: u32,
    pub cbaud: u32,
    pub bother: u32,
    pub inpck: u32,
    pub ignpar: u32,
    pub ixon: u32,
    pub ixoff: u32,
}

/// How far the field of the input speed is above that of the output speed.
pub const INPUT_SPEED_SHIFT: u32 = 16;

impl TermiosMasks {
    /// The bits of `c_cflag` that parity lives in.
    pub open spec fn parity_mask(self) -> u32 {
        self.parenb | self.parodd
    }

    /// The bits of `c_iflag` that parity lives in.
    pub open spec fn parity_input_mask(self) -> u32 {
        self.inpck | self.ignpar
    }

    /// The bits of `c_iflag` that software flow control lives in.
    pub open spec fn flow_input_mask(self) -> u32 {
        self.ixon | self.ixoff
    }

    /// The bits of `c_cflag` that the input speed lives in: the field of the output speed, moved
    /// up.
    pub open spec fn input_speed_mask(self) -> u32 {
        self.cbaud << INPUT_SPEED_SHIFT
    }

    /// The bits of `c_cflag` that both speeds live in.
    pub open spec fn speed_mask(self) -> u32 {
        self.cbaud | self.input_speed_mask()
    }

    /// Flags do not overlap, every flag has a bit, character sizes are distinct values of one
    /// field, and the mark of a free-form speed is a value of the speed field.
    pub open spec fn wf(self) -> bool {
        &&& disjoint(self.parenb, self.parodd)
        &&& disjoint(self.parity_mask(), self.crtscts)
        &&& disjoint(self.parity_mask() | self.crtscts, self.csize)
        &&& disjoint(self.parity_mask() | self.crtscts | self.csize, self.cstopb)
        &&& disjoint(
            self.parity_mask() | self.crtscts | self.csize | self.cstopb,
            self.speed_mask(),
        )
        &&& disjoint(
            self.parity_mask() | self.crtscts | self.csize | self.cstopb | self.speed_mask(),
            self.cread | self.clocal,
        )
        &&& disjoint(self.inpck, self.ignpar)
        &&& disjoint(self.ixon, self.ixoff)
        &&& disjoint(self.parity_input_mask(), self.flow_input_mask())
        &&& self.parenb != 0 && self.parodd != 0 && self.crtscts != 0 && self.cstopb != 0
        &&& self.inpck != 0 && self.ignpar != 0 && self.ixon != 0 && self.ixoff != 0
        &&& within(self.cs5, self.csize) && within(self.cs6, self.csize)
        &&& within(self.cs7, self.csize) && within(self.cs8, self.csize)
        &&& self.cs5 != self.cs6 && self.cs5 != self.cs7 && self.cs5 != self.cs8
        &&& self.cs6 != self.cs7 && self.cs6 != self.cs8 && self.cs7 != self.cs8
        &&& within(self.bother, self.cbaud)
    }

    /// What `c_cflag` holds for a parity.
    pub open spec fn parity_bits(self, parity: Parity) -> u32 {
        match parity {
            Parity::Off => 0,
            Parity::Odd => self.parenb | self.parodd,
            Parity::Even => self.parenb,
        }
    }

    /// What `c_iflag` holds for a parity: bytes are checked, or parity errors are ignored.
    pub open spec fn parity_input_bits(self, parity: Parity) -> u32 {
        if parity == Parity::Off {
            self.ignpar
        } else {
            self.inpck & !self.ignpar
        }
    }

    /// What `c_cflag` holds for a flow control mode.
    pub open spec fn flow_bits(self, flow_control: FlowControl) -> u32 {
        if flow_control == FlowControl::Hardware {
            self.crtscts
        } else {
            0
        }
    }

    /// What `c_iflag` holds for a flow control mode.
    pub open spec fn flow_input_bits(self, flow_control: FlowControl) -> u32 {
        if flow_control == FlowControl::Software {
            self.ixon | self.ixoff
        } else {
            0
        }
    }

    /// What `c_cflag` holds for a character size.
    pub open spec fn size_bits(self, data_bits: DataBits) -> u32 {
        match data_bits {
            DataBits::Five => self.cs5,
            DataBits::Six => self.cs6,
            DataBits::Seven => self.cs7,
            DataBits::Eight => self.cs8,
        }
    }

    /// What `c_cflag` holds for a number of stop bits.
    pub open spec fn stop_bits_bits(self, stop_bits: StopBits) -> u32 {
        if stop_bits == StopBits::Two {
            self.cstopb
        } else {
            0
        }
    }
}

impl Termios {
    /// The record with its parity fields replaced.
    pub open spec fn with_parity(self, parity: Parity, m: TermiosMasks) -> Termios {
        Termios {
            c_cflag: replace_bits(self.c_cflag, m.parity_mask(), m.parity_bits(parity)),
            c_iflag: replace_bits(
                self.c_iflag,
                m.parity_input_mask(),
                m.parity_input_bits(parity),
            ),
            ..self
        }
    }

    /// The record with its flow control fields replaced.
    pub open spec fn with_flow_control(self, flow_control: FlowControl, m: TermiosMasks) -> Termios {
        Termios {
            c_cflag: replace_bits(self.c_cflag, m.crtscts, m.flow_bits(flow_control)),
            c_iflag: replace_bits(
                self.c_iflag,
                m.flow_input_mask(),
                m.flow_input_bits(flow_control),
            ),
            ..self
        }
    }

    /// The record with its character size replaced.
    pub open spec fn with_data_bits(self, data_bits: DataBits, m: TermiosMasks) -> Termios {
        Termios {
            c_cflag: replace_bits(self.c_cflag, m.csize, m.size_bits(data_bits)),
            ..self
        }
    }

    /// The record with its stop bits replaced.
    pub open spec fn with_stop_bits(self, stop_bits: StopBits, m: TermiosMasks) -> Termios {
        Termios {
            c_cflag: replace_bits(self.c_cflag, m.cstopb, m.stop_bits_bits(stop_bits)),
            ..self
        }
    }
}

/// The bit rates that have a speed code of their own.
pub open spec fn standard_rates() -> Seq<u32> {
    seq![
        50, 75, 110, 134, 150, 200, 300, 600, 1200, 1800, 2400, 4800, 9600, 19_200, 38_400,
        57_600, 115_200, 230_400, 460_800, 500_000, 576_000, 921_600, 1_000_000, 1_152_000,
        1_500_000, 2_000_000, 2_500_000, 3_000_000, 3_500_000, 4_000_000,
    ]
}

/// The speed code that a platform gives to each standard bit rate, in the order of
/// [`standard_rates`].
#[derive(Debug, Clone, Copy)]
pub struct SpeedCodes {
    pub codes: [u32; 30],
}

impl SpeedCodes {
    /// Codes are distinct values of the speed field.
    pub open spec fn wf(self, cbaud: u32) -> bool {
        &&& forall|i: int| 0 <= i < 30 ==> within(#[trigger] self.codes@[i], cbaud)
        &&& forall|i: int, j: int|
            0 <= i < j < 30 ==> #[trigger] self.codes@[i] != #[trigger] self.codes@[j]
    }
}

/// How a platform is told the bit rate.
#[derive(Debug, Clone, Copy, PartialEq, Eq, Structural)]
pub enum BaudScheme {
    /// Any rate, as a number in the record.
    AnyRate,
    /// One of the standard rates, as a speed code in the record.
    StandardRate,
    /// By a call that fills the record in.
    SpeedCall,
    /// By a request of its own, once the record is in force.
    SpeedRequest,
}

/// The record `t` after it was told the bit rate.
pub open spec fn with_baud_rate(
    t: Termios,
    baud_rate: u32,
    scheme: BaudScheme,
    m: TermiosMasks,
    speeds: SpeedCodes,
) -> Termios {
    match scheme {
        BaudScheme::AnyRate => Termios {
            c_cflag: replace_bits(t.c_cflag, m.speed_mask(), m.bother),
            c_ispeed: baud_rate,
            c_ospeed: baud_rate,
            ..t
        },
        BaudScheme::StandardRate => {
            let code = speeds.codes@[standard_rates().index_of(baud_rate)];
            Termios {
                c_cflag: replace_bits(t.c_cflag, m.cbaud, code),
                c_ispeed: code,
                c_ospeed: code,
                ..t
            }
        },
        BaudScheme::SpeedCall => t,
        BaudScheme::SpeedRequest => t,
    }
}

/// The bit rate can be told to the platform.
pub open spec fn baud_rate_supported(baud_rate: u32, scheme: BaudScheme) -> bool {
    scheme == BaudScheme::StandardRate ==> standard_rates().contains(baud_rate)
}

/// Writes the parity into the record and leaves every other bit alone.
pub fn set_parity(termios: &mut Termios, parity: Parity, masks: &TermiosMasks)
    ensures
        *final(termios) == old(termios).with_parity(parity, *masks),
{
    let ghost c: u32 = termios.c_cflag;
    let ghost i: u32 = termios.c_iflag;
    let ghost m: TermiosMasks = *masks;
    proof {
        let e: u32 = m.parenb;
        let o: u32 = m.parodd;
        let k: u32 = m.inpck;
        let g: u32 = m.ignpar;
        assert(c & !(e | o) == (c & !(e | o)) | 0) by (bit_vector);
        assert(c | (e | o) == (c & !(e | o)) | (e | o)) by (bit_vector);
        assert((c & !o) | e == (c & !(e | o)) | e) by (bit_vector);
        assert((i & !k) | g == (i & !(k | g)) | g) by (bit_vector);
        assert((i | k) & !g == (i & !(k | g)) | (k & !g)) by (bit_vector);
    }
    match parity {
        Parity::Off => {
            termios.c_cflag = termios.c_cflag & !(masks.parenb | masks.parodd);
            termios.c_iflag = termios.c_iflag & !masks.inpck;
            termios.c_iflag = termios.c_iflag | masks.ignpar;
        },
        Parity::Odd => {
            termios.c_cflag = termios.c_cflag | (masks.parenb | masks.parodd);
            termios.c_iflag = termios.c_iflag | masks.inpck;
            termios.c_iflag = termios.c_iflag & !masks.ignpar;
        },
        Parity::Even => {
            termios.c_cflag = termios.c_cflag & !masks.parodd;
            termios.c_cflag = termios.c_cflag | masks.parenb;
            termios.c_iflag = termios.c_iflag | masks.inpck;
            termios.c_iflag = termios.c_iflag & !masks.ignpar;
        },
    }
}

/// Writes the flow control mode into the record and leaves every other bit alone.
pub fn set_flow_control(termios: &mut Termios, flow_control: FlowControl, masks: &TermiosMasks)
    ensures
        *final(termios) == old(termios).with_flow_control(flow_control, *masks),
{
    proof {
        let c: u32 = termios.c_cflag;
        let i: u32 = termios.c_iflag;
        let r: u32 = masks.crtscts;
        let x: u32 = masks.ixon | masks.ixoff;
        assert(c & !r == (c & !r) | 0) by (bit_vector);
        assert(c | r == (c & !r) | r) by (bit_vector);
        assert(i & !x == (i & !x) | 0) by (bit_vector);
        assert(i | x == (i & !x) | x) by (bit_vector);
    }
    match flow_control {
        FlowControl::Off => {
            termios.c_iflag = termios.c_iflag & !(masks.ixon | masks.ixoff);
            termios.c_cflag = termios.c_cflag & !masks.crtscts;
        },
        FlowControl::Software => {
            termios.c_iflag = termios.c_iflag | (masks.ixon | masks.ixoff);
            termios.c_cflag = termios.c_cflag & !masks.crtscts;
        },
        FlowControl::Hardware => {
            termios.c_iflag = termios.c_iflag & !(masks.ixon | masks.ixoff);
            termios.c_cflag = termios.c_cflag | masks.crtscts;
        },
    }
}

/// Writes the character size into the record and leaves every other bit alone.
pub fn set_data_bits(termios: &mut Termios, data_bits: DataBits, masks: &TermiosMasks)
    ensures
        *final(termios) == old(termios).with_data_bits(data_bits, *masks),
{
    let size: u32 = match data_bits {
        DataBits::Five => masks.cs5,
        DataBits::Six => masks.cs6,
        DataBits::Seven => masks.cs7,
        DataBits::Eight => masks.cs8,
    };
    termios.c_cflag = termios.c_cflag & !masks.csize;
    termios.c_cflag = termios.c_cflag | size;
}

/// Writes the number of stop bits into the record and leaves every other bit alone.
pub fn set_stop_bits(termios: &mut Termios, stop_bits: StopBits, masks: &TermiosMasks)
    ensures
        *final(termios) == old(termios).with_stop_bits(stop_bits, *masks),
{
    proof {
        let c: u32 = termios.c_cflag;
        let s: u32 = masks.cstopb;
        assert(c & !s == (c & !s) | 0) by (bit_vector);
        assert(c | s == (c & !s) | s) by (bit_vector);
    }
    match stop_bits {
        StopBits::One => {
            termios.c_cflag = termios.c_cflag & !masks.cstopb;
        },
        StopBits::Two => {
            termios.c_cflag = termios.c_cflag | masks.cstopb;
        },
    }
}

/// The place of a bit rate among the standard ones.
fn standard_rate_index(baud_rate: u32) -> (r: Option<usize>)
    ensures
        r is Some <==> standard_rates().contains(baud_rate),
        r matches Some(i) ==> i < 30 && i == standard_rates().index_of(baud_rate),
{
    let index: usize = match baud_rate {
        50 => 0,
        75 => 1,
        110 => 2,
        134 => 3,
        150 => 4,
        200 => 5,
        300 => 6,
        600 => 7,
        1200 => 8,
        1800 => 9,
        2400 => 10,
        4800 => 11,
        9600 => 12,
        19_200 => 13,
        38_400 => 14,
        57_600 => 15,
        115_200 => 16,
        230_400 => 17,
        460_800 => 18,
        500_000 => 19,
        576_000 => 20,
        921_600 => 21,
        1_000_000 => 22,
        1_152_000 => 23,
        1_500_000 => 24,
        2_000_000 => 25,
        2_500_000 => 26,
        3_000_000 => 27,
        3_500_000 => 28,
        4_000_000 => 29,
        _ => {
            return None;
        },
    };
    assert(standard_rates()[index as int] == baud_rate);
    Some(index)
}

/// The speed code of a standard bit rate.
///
/// Returns [`ErrorKind::InvalidInput`] for a rate that has none.
pub fn linux_ppc_baud_constant(baud_rate: u32, speeds: &SpeedCodes) -> (r: Result<u32, PortError>)
    ensures
        r is Ok <==> standard_rates().contains(baud_rate),
        r matches Ok(code) ==> code == speeds.codes@[standard_rates().index_of(baud_rate)],
        r matches Err(e) ==> e.says(
            ErrorKind::InvalidInput,
            "unsupported baud rate: "@ + decimal(baud_rate as nat),
        ),
{
    match standard_rate_index(baud_rate) {
        Some(index) => Ok(speeds.codes[index]),
        None => {
            let mut text: String = "unsupported baud rate: ".to_owned();
            push_decimal(&mut text, baud_rate);
            Err(invalid_input(text))
        },
    }
}

/// Writes the bit rate into the record, as far as the scheme keeps it there, and leaves every
/// other bit alone. A rate that the scheme has no code for is refused, and the record kept.
pub fn set_baud_rate(
    termios: &mut Termios,
    baud_rate: u32,
    scheme: BaudScheme,
    masks: &TermiosMasks,
    speeds: &SpeedCodes,
) -> (r: Result<(), PortError>)
    ensures
        r is Ok <==> baud_rate_supported(baud_rate, scheme),
        r is Ok ==> *final(termios) == with_baud_rate(
            *old(termios),
            baud_rate,
            scheme,
            *masks,
            *speeds,
        ),
        r matches Err(e) ==> *final(termios) == *old(termios) && e.says(
            ErrorKind::InvalidInput,
            "unsupported baud rate: "@ + decimal(baud_rate as nat),
        ),
{
    match scheme {
        BaudScheme::AnyRate => {
            let input_speed: u32 = masks.cbaud << INPUT_SPEED_SHIFT;
            termios.c_cflag = termios.c_cflag & !(masks.cbaud | input_speed);
            termios.c_cflag = termios.c_cflag | masks.bother;
            termios.c_ispeed = baud_rate;
            termios.c_ospeed = baud_rate;
            Ok(())
        },
        BaudScheme::StandardRate => match linux_ppc_baud_constant(baud_rate, speeds) {
            Ok(speed) => {
                termios.c_cflag = termios.c_cflag & !masks.cbaud;
                termios.c_cflag = termios.c_cflag | speed;
                termios.c_ispeed = speed;
                termios.c_ospeed = speed;
                Ok(())
            },
            Err(e) => Err(e),
        },
        BaudScheme::SpeedCall => Ok(()),
        BaudScheme::SpeedRequest => Ok(()),
    }
}

/// The rate to ask for once the record is in force, where the platform wants a request of its
/// own; a rate of zero is not asked for.
pub fn speed_request(baud_rate: u32, scheme: BaudScheme) -> (r: Option<u32>)
    ensures
        r == (if scheme == BaudScheme::SpeedRequest && baud_rate > 0 {
            Some(baud_rate)
        } else {
            None
        }),
{
    if scheme == BaudScheme::SpeedRequest && baud_rate > 0 {
        Some(baud_rate)
    } else {
        None
    }
}

/// The record `t` with all line settings in it.
pub open spec fn with_line_settings(
    t: Termios,
    settings: PortSettings,
    scheme: BaudScheme,
    m: TermiosMasks,
    speeds: SpeedCodes,
) -> Termios {
    with_baud_rate(
        t.with_parity(settings.parity, m).with_flow_control(
            settings.flow_control,
            m,
        ).with_data_bits(settings.data_bits, m).with_stop_bits(settings.stop_bits, m),
        settings.baud_rate,
        scheme,
        m,
        speeds,
    )
}

/// Writes parity, flow control, character size, stop bits and bit rate into a record.
pub fn apply_line_settings(
    termios: Termios,
    builder: &SerialPortStreamBuilder,
    scheme: BaudScheme,
    masks: &TermiosMasks,
    speeds: &SpeedCodes,
) -> (r: Result<Termios, PortError>)
    ensures
        r is Ok <==> baud_rate_supported(builder.baud_rate, scheme),
        r matches Ok(t) ==> t == with_line_settings(termios, builder@, scheme, *masks, *speeds),
        r matches Err(e) ==> e.says(
            ErrorKind::InvalidInput,
            "unsupported baud rate: "@ + decimal(builder.baud_rate as nat),
        ),
{
    let mut t: Termios = termios;
    set_parity(&mut t, builder.parity, masks);
    set_flow_control(&mut t, builder.flow_control, masks);
    set_data_bits(&mut t, builder.data_bits, masks);
    set_stop_bits(&mut t, builder.stop_bits, masks);
    match set_baud_rate(&mut t, builder.baud_rate, scheme, masks, speeds) {
        Ok(()) => Ok(t),
        Err(e) => Err(e),
    }
}

/// Turns the receiver on and modem control off, as every opened port has it.
pub fn enable_receiver(termios: &mut Termios, masks: &TermiosMasks)
    ensures
        *final(termios) == (Termios {
            c_cflag: old(termios).c_cflag | (masks.cread | masks.clocal),
            ..*old(termios)
        }),
{
    termios.c_cflag = termios.c_cflag | (masks.cread | masks.clocal);
}

/// The modem status bit of the DTR signal.
pub const TIOCM_DTR: i32 = 0x002;

/// The modem status word with the DTR signal raised or lowered.
pub fn data_terminal_ready_status(status: i32, state: bool) -> (r: i32)
    ensures
        r & TIOCM_DTR == (if state {
            TIOCM_DTR
        } else {
            0
        }),
        r & !TIOCM_DTR == status & !TIOCM_DTR,
{
    assert((status | 2) & 2 == 2i32 && (status | 2) & !2 == status & !2i32) by (bit_vector);
    assert((status & !2) & 2 == 0i32 && (status & !2) & !2 == status & !2i32) by (bit_vector);
    if state {
        status | TIOCM_DTR
    } else {
        status & !TIOCM_DTR
    }
}

impl Termios {
    /// The record's fields say this parity.
    pub open spec fn shows_parity(self, parity: Parity, m: TermiosMasks) -> bool {
        &&& self.c_cflag & m.parity_mask() == m.parity_bits(parity)
        &&& self.c_iflag & m.parity_input_mask() == m.parity_input_bits(parity)
    }

    /// The record's fields say this flow control mode.
    pub open spec fn shows_flow_control(self, flow_control: FlowControl, m: TermiosMasks) -> bool {
        &&& self.c_cflag & m.crtscts == m.flow_bits(flow_control)
        &&& self.c_iflag & m.flow_input_mask() == m.flow_input_bits(flow_control)
    }

    /// The record's fields say this character size.
    pub open spec fn shows_data_bits(self, data_bits: DataBits, m: TermiosMasks) -> bool {
        self.c_cflag & m.csize == m.size_bits(data_bits)
    }

    /// The record's fields say this number of stop bits.
    pub open spec fn shows_stop_bits(self, stop_bits: StopBits, m: TermiosMasks) -> bool {
        self.c_cflag & m.cstopb == m.stop_bits_bits(stop_bits)
    }

    /// The record's fields say this bit rate, as far as the scheme keeps it there.
    pub open spec fn shows_baud_rate(
        self,
        baud_rate: u32,
        scheme: BaudScheme,
        m: TermiosMasks,
        speeds: SpeedCodes,
    ) -> bool {
        match scheme {
            BaudScheme::AnyRate => {
                &&& self.c_cflag & m.speed_mask() == m.bother
                &&& self.c_ispeed == baud_rate
                &&& self.c_ospeed == baud_rate
            },
            BaudScheme::StandardRate => exists|i: int|
                {
                    &&& 0 <= i < 30
                    &&& standard_rates()[i] == baud_rate
                    &&& self.c_cflag & m.cbaud == #[trigger] speeds.codes@[i]
                    &&& self.c_ispeed == speeds.codes@[i]
                    &&& self.c_ospeed == speeds.codes@[i]
                },
            BaudScheme::SpeedCall => true,
            BaudScheme::SpeedRequest => true,
        }
    }
}

/// The fields of a record do not share bits, and each value fits its field.
proof fn lemma_fields(m: TermiosMasks)
    requires
        m.wf(),
    ensures
        disjoint(m.parity_mask(), m.crtscts),
        disjoint(m.parity_mask(), m.csize),
        disjoint(m.parity_mask(), m.cstopb),
        disjoint(m.parity_mask(), m.speed_mask()),
        disjoint(m.crtscts, m.parity_mask()),
        disjoint(m.crtscts, m.csize),
        disjoint(m.crtscts, m.cstopb),
        disjoint(m.crtscts, m.speed_mask()),
        disjoint(m.csize, m.parity_mask()),
        disjoint(m.csize, m.crtscts),
        disjoint(m.csize, m.cstopb),
        disjoint(m.csize, m.speed_mask()),
        disjoint(m.cstopb, m.parity_mask()),
        disjoint(m.cstopb, m.crtscts),
        disjoint(m.cstopb, m.csize),
        disjoint(m.cstopb, m.speed_mask()),
        disjoint(m.speed_mask(), m.parity_mask()),
        disjoint(m.speed_mask(), m.crtscts),
        disjoint(m.speed_mask(), m.csize),
        disjoint(m.speed_mask(), m.cstopb),
        disjoint(m.cbaud, m.parity_mask()),
        disjoint(m.cbaud, m.crtscts),
        disjoint(m.cbaud, m.csize),
        disjoint(m.cbaud, m.cstopb),
        disjoint(m.parity_mask(), m.cread | m.clocal),
        disjoint(m.crtscts, m.cread | m.clocal),
        disjoint(m.csize, m.cread | m.clocal),
        disjoint(m.cstopb, m.cread | m.clocal),
        disjoint(m.speed_mask(), m.cread | m.clocal),
        disjoint(m.cbaud, m.cread | m.clocal),
        disjoint(m.parity_input_mask(), m.flow_input_mask()),
        disjoint(m.flow_input_mask(), m.parity_input_mask()),
        forall|p: Parity| within(#[trigger] m.parity_bits(p), m.parity_mask()),
        forall|p: Parity| within(#[trigger] m.parity_input_bits(p), m.parity_input_mask()),
        forall|f: FlowControl| within(#[trigger] m.flow_bits(f), m.crtscts),
        forall|f: FlowControl| within(#[trigger] m.flow_input_bits(f), m.flow_input_mask()),
        forall|d: DataBits| within(#[trigger] m.size_bits(d), m.csize),
        forall|s: StopBits| within(#[trigger] m.stop_bits_bits(s), m.cstopb),
        within(m.bother, m.speed_mask()),
{
    let p = m.parity_mask();
    lemma_disjoint_parts(p, m.crtscts, m.csize);
    lemma_disjoint_parts(p | m.crtscts, m.csize, m.cstopb);
    lemma_disjoint_parts(p, m.crtscts, m.cstopb);
    let line = p | m.crtscts | m.csize | m.cstopb;
    lemma_disjoint_parts(p | m.crtscts | m.csize, m.cstopb, m.speed_mask());
    lemma_disjoint_parts(p | m.crtscts, m.csize, m.speed_mask());
    lemma_disjoint_parts(p, m.crtscts, m.speed_mask());
    let rc = m.cread | m.clocal;
    lemma_disjoint_parts(line, m.speed_mask(), rc);
    lemma_disjoint_parts(p | m.crtscts | m.csize, m.cstopb, rc);
    lemma_disjoint_parts(p | m.crtscts, m.csize, rc);
    lemma_disjoint_parts(p, m.crtscts, rc);
    lemma_swap(p, m.crtscts);
    lemma_swap(m.parity_input_mask(), m.flow_input_mask());
    lemma_swap(p, m.speed_mask());
    lemma_swap(m.crtscts, m.speed_mask());
    lemma_swap(m.csize, m.speed_mask());
    lemma_swap(m.cstopb, m.speed_mask());
    lemma_disjoint_parts(m.cbaud, m.input_speed_mask(), p);
    lemma_disjoint_parts(m.cbaud, m.input_speed_mask(), m.crtscts);
    lemma_disjoint_parts(m.cbaud, m.input_speed_mask(), m.csize);
    lemma_disjoint_parts(m.cbaud, m.input_speed_mask(), m.cstopb);
    lemma_disjoint_parts(m.cbaud, m.input_speed_mask(), rc);
    lemma_within_parts(m.parenb, m.parodd);
    lemma_within_parts(m.parity_mask(), 0);
    lemma_within_parts(m.inpck, m.ignpar);
    lemma_within_parts(m.crtscts, 0);
    lemma_within_parts(m.flow_input_mask(), 0);
    lemma_within_parts(m.cstopb, 0);
    lemma_within_widens(m.bother, m.cbaud, m.input_speed_mask());
}

proof fn lemma_swap(a: u32, b: u32)
    ensures
        disjoint(a, b) == disjoint(b, a),
{
    assert(a & b == b & a) by (bit_vector);
}

/// Line settings take effect: a record that they were written into says each of them, and the
/// receiver is on if it was on.
pub proof fn law_line_settings_take_effect(
    t: Termios,
    settings: PortSettings,
    scheme: BaudScheme,
    m: TermiosMasks,
    speeds: SpeedCodes,
)
    requires
        m.wf(),
        scheme == BaudScheme::StandardRate ==> speeds.wf(m.cbaud),
        baud_rate_supported(settings.baud_rate, scheme),
    ensures
        ({
            let after = with_line_settings(t, settings, scheme, m, speeds);
            &&& after.shows_parity(settings.parity, m)
            &&& after.shows_flow_control(settings.flow_control, m)
            &&& after.shows_data_bits(settings.data_bits, m)
            &&& after.shows_stop_bits(settings.stop_bits, m)
            &&& after.shows_baud_rate(settings.baud_rate, scheme, m, speeds)
            &&& after.c_cflag & (m.cread | m.clocal) == t.c_cflag & (m.cread | m.clocal)
        }),
{
    lemma_fields(m);
    let t1 = t.with_parity(settings.parity, m);
    let t2 = t1.with_flow_control(settings.flow_control, m);
    let t3 = t2.with_data_bits(settings.data_bits, m);
    let t4 = t3.with_stop_bits(settings.stop_bits, m);
    let rc = m.cread | m.clocal;
    let pb = m.parity_bits(settings.parity);
    let pi = m.parity_input_bits(settings.parity);
    let fb = m.flow_bits(settings.flow_control);
    let fi = m.flow_input_bits(settings.flow_control);
    let db = m.size_bits(settings.data_bits);
    let sb = m.stop_bits_bits(settings.stop_bits);
    lemma_replace_reads_back(t.c_cflag, m.parity_mask(), pb);
    lemma_replace_reads_back(t.c_iflag, m.parity_input_mask(), pi);
    lemma_replace_keeps(t.c_cflag, m.parity_mask(), pb, rc);
    lemma_replace_reads_back(t1.c_cflag, m.crtscts, fb);
    lemma_replace_reads_back(t1.c_iflag, m.flow_input_mask(), fi);
    lemma_replace_keeps(t1.c_cflag, m.crtscts, fb, m.parity_mask());
    lemma_replace_keeps(t1.c_iflag, m.flow_input_mask(), fi, m.parity_input_mask());
    lemma_replace_keeps(t1.c_cflag, m.crtscts, fb, rc);
    lemma_replace_reads_back(t2.c_cflag, m.csize, db);
    lemma_replace_keeps(t2.c_cflag, m.csize, db, m.parity_mask());
    lemma_replace_keeps(t2.c_cflag, m.csize, db, m.crtscts);
    lemma_replace_keeps(t2.c_cflag, m.csize, db, rc);
    lemma_replace_reads_back(t3.c_cflag, m.cstopb, sb);
    lemma_replace_keeps(t3.c_cflag, m.cstopb, sb, m.parity_mask());
    lemma_replace_keeps(t3.c_cflag, m.cstopb, sb, m.crtscts);
    lemma_replace_keeps(t3.c_cflag, m.cstopb, sb, m.csize);
    lemma_replace_keeps(t3.c_cflag, m.cstopb, sb, rc);
    law_baud_change_keeps_line_settings(t4, settings.baud_rate, scheme, m, speeds);
    match scheme {
        BaudScheme::AnyRate => {
            lemma_replace_reads_back(t4.c_cflag, m.speed_mask(), m.bother);
        },
        BaudScheme::StandardRate => {
            let i = standard_rates().index_of(settings.baud_rate);
            lemma_replace_reads_back(t4.c_cflag, m.cbaud, speeds.codes@[i]);
            assert(standard_rates()[i] == settings.baud_rate);
        },
        _ => {},
    }
}

/// Changing the bit rate leaves data bits, parity, stop bits and flow control as they were.
pub proof fn law_baud_change_keeps_line_settings(
    t: Termios,
    baud_rate: u32,
    scheme: BaudScheme,
    m: TermiosMasks,
    speeds: SpeedCodes,
)
    requires
        m.wf(),
        scheme == BaudScheme::StandardRate ==> speeds.wf(m.cbaud),
        baud_rate_supported(baud_rate, scheme),
    ensures
        ({
            let after = with_baud_rate(t, baud_rate, scheme, m, speeds);
            &&& forall|p: Parity| #[trigger] after.shows_parity(p, m) == t.shows_parity(p, m)
            &&& forall|f: FlowControl| #[trigger]
                after.shows_flow_control(f, m) == t.shows_flow_control(f, m)
            &&& forall|d: DataBits| #[trigger]
                after.shows_data_bits(d, m) == t.shows_data_bits(d, m)
            &&& forall|s: StopBits| #[trigger]
                after.shows_stop_bits(s, m) == t.shows_stop_bits(s, m)
            &&& after.c_cflag & (m.cread | m.clocal) == t.c_cflag & (m.cread | m.clocal)
            &&& after.c_iflag == t.c_iflag
        }),
{
    lemma_fields(m);
    let rc = m.cread | m.clocal;
    match scheme {
        BaudScheme::AnyRate => {
            lemma_replace_keeps(t.c_cflag, m.speed_mask(), m.bother, m.parity_mask());
            lemma_replace_keeps(t.c_cflag, m.speed_mask(), m.bother, m.crtscts);
            lemma_replace_keeps(t.c_cflag, m.speed_mask(), m.bother, m.csize);
            lemma_replace_keeps(t.c_cflag, m.speed_mask(), m.bother, m.cstopb);
            lemma_replace_keeps(t.c_cflag, m.speed_mask(), m.bother, rc);
        },
        BaudScheme::StandardRate => {
            let code = speeds.codes@[standard_rates().index_of(baud_rate)];
            lemma_replace_keeps(t.c_cflag, m.cbaud, code, m.parity_mask());
            lemma_replace_keeps(t.c_cflag, m.cbaud, code, m.crtscts);
            lemma_replace_keeps(t.c_cflag, m.cbaud, code, m.csize);
            lemma_replace_keeps(t.c_cflag, m.cbaud, code, m.cstopb);
            lemma_replace_keeps(t.c_cflag, m.cbaud, code, rc);
        },
        _ => {},
    }
}

/// A record says at most one value of each setting.
pub proof fn law_record_is_unambiguous(
    t: Termios,
    m: TermiosMasks,
    p: (Parity, Parity),
    f: (FlowControl, FlowControl),
    d: (DataBits, DataBits),
    s: (StopBits, StopBits),
)
    requires
        m.wf(),
    ensures
        t.shows_parity(p.0, m) && t.shows_parity(p.1, m) ==> p.0 == p.1,
        t.shows_flow_control(f.0, m) && t.shows_flow_control(f.1, m) ==> f.0 == f.1,
        t.shows_data_bits(d.0, m) && t.shows_data_bits(d.1, m) ==> d.0 == d.1,
        t.shows_stop_bits(s.0, m) && t.shows_stop_bits(s.1, m) ==> s.0 == s.1,
{
    let e: u32 = m.parenb;
    let o: u32 = m.parodd;
    assert(e & o == 0 && e != 0 && o != 0 ==> (e | o) != e && (e | o) != 0) by (bit_vector);
    let x: u32 = m.ixon;
    let y: u32 = m.ixoff;
    assert(x != 0 ==> (x | y) != 0) by (bit_vector);
}

/// Reading a flag of a field of two flags.
proof fn lemma_flags_of_field(word: u32, a: u32, b: u32)
    requires
        a & b == 0,
        a != 0,
        b != 0,
    ensures
        word & (a | b) == 0 ==> word & a == 0 && word & b == 0,
        word & (a | b) == a ==> word & a == a && word & b == 0,
        word & (a | b) == b ==> word & a == 0 && word & b == b,
        word & (a | b) == a | b ==> word & a == a && word & b == b,
        a & !b == a,
{
    assert(a & b == 0 ==> (word & (a | b) == 0 ==> word & a == 0 && word & b == 0) && (word & (a
        | b) == a ==> word & a == a && word & b == 0) && (word & (a | b) == b ==> word & a == 0
        && word & b == b) && (word & (a | b) == a | b ==> word & a == a && word & b == b) && a & !b
        == a) by (bit_vector);
}

/// The flags of a record say the settings that were written into it, each by its own flag.
/// `PARENB` and `INPCK` are on exactly with a parity, `PARODD` exactly with odd parity, `IGNPAR`
/// exactly without a parity; `CRTSCTS` exactly with hardware flow control, `IXON` and `IXOFF`
/// exactly with software flow control; `CSTOPB` exactly with two stop bits; and the character size
/// is the one of its name.
pub proof fn law_flags_say_settings(
    t: Termios,
    settings: PortSettings,
    scheme: BaudScheme,
    m: TermiosMasks,
    speeds: SpeedCodes,
)
    requires
        m.wf(),
        scheme == BaudScheme::StandardRate ==> speeds.wf(m.cbaud),
        baud_rate_supported(settings.baud_rate, scheme),
    ensures
        ({
            let after = with_line_settings(t, settings, scheme, m, speeds);
            let flag = |on: bool, bit: u32| if on { bit } else { 0u32 };
            let parity = !(settings.parity is Off);
            let software = settings.flow_control is Software;
            &&& after.c_cflag & m.parenb == flag(parity, m.parenb)
            &&& after.c_cflag & m.parodd == flag(settings.parity is Odd, m.parodd)
            &&& after.c_iflag & m.inpck == flag(parity, m.inpck)
            &&& after.c_iflag & m.ignpar == flag(!parity, m.ignpar)
            &&& after.c_cflag & m.crtscts == flag(settings.flow_control is Hardware, m.crtscts)
            &&& after.c_iflag & m.ixon == flag(software, m.ixon)
            &&& after.c_iflag & m.ixoff == flag(software, m.ixoff)
            &&& after.c_cflag & m.cstopb == flag(settings.stop_bits is Two, m.cstopb)
            &&& after.c_cflag & m.csize == m.cs5 <==> settings.data_bits is Five
            &&& after.c_cflag & m.csize == m.cs6 <==> settings.data_bits is Six
            &&& after.c_cflag & m.csize == m.cs7 <==> settings.data_bits is Seven
            &&& after.c_cflag & m.csize == m.cs8 <==> settings.data_bits is Eight
        }),
{
    law_line_settings_take_effect(t, settings, scheme, m, speeds);
    let after = with_line_settings(t, settings, scheme, m, speeds);
    lemma_flags_of_field(after.c_cflag, m.parenb, m.parodd);
    lemma_flags_of_field(after.c_iflag, m.inpck, m.ignpar);
    lemma_flags_of_field(after.c_iflag, m.ixon, m.ixoff);
}

/// Line settings touch nothing else: a bit that belongs to none of them is as it was.
pub proof fn law_line_settings_keep_other_bits(
    t: Termios,
    settings: PortSettings,
    scheme: BaudScheme,
    m: TermiosMasks,
    speeds: SpeedCodes,
    bit: u32,
    input_bit: u32,
)
    requires
        m.wf(),
        scheme == BaudScheme::StandardRate ==> speeds.wf(m.cbaud),
        baud_rate_supported(settings.baud_rate, scheme),
        (m.parenb | m.parodd) & bit == 0,
        m.crtscts & bit == 0,
        m.csize & bit == 0,
        m.cstopb & bit == 0,
        (m.cbaud | (m.cbaud << 16)) & bit == 0,
        (m.inpck | m.ignpar) & input_bit == 0,
        (m.ixon | m.ixoff) & input_bit == 0,
    ensures
        ({
            let after = with_line_settings(t, settings, scheme, m, speeds);
            &&& after.c_cflag & bit == t.c_cflag & bit
            &&& after.c_iflag & input_bit == t.c_iflag & input_bit
        }),
{
    lemma_fields(m);
    let t1 = t.with_parity(settings.parity, m);
    let t2 = t1.with_flow_control(settings.flow_control, m);
    let t3 = t2.with_data_bits(settings.data_bits, m);
    let t4 = t3.with_stop_bits(settings.stop_bits, m);
    lemma_disjoint_parts(m.cbaud, m.input_speed_mask(), bit);
    lemma_replace_keeps(t.c_cflag, m.parity_mask(), m.parity_bits(settings.parity), bit);
    lemma_replace_keeps(t1.c_cflag, m.crtscts, m.flow_bits(settings.flow_control), bit);
    lemma_replace_keeps(t2.c_cflag, m.csize, m.size_bits(settings.data_bits), bit);
    lemma_replace_keeps(t3.c_cflag, m.cstopb, m.stop_bits_bits(settings.stop_bits), bit);
    lemma_replace_keeps(
        t.c_iflag,
        m.parity_input_mask(),
        m.parity_input_bits(settings.parity),
        input_bit,
    );
    lemma_replace_keeps(
        t1.c_iflag,
        m.flow_input_mask(),
        m.flow_input_bits(settings.flow_control),
        input_bit,
    );
    match scheme {
        BaudScheme::AnyRate => {
            lemma_replace_keeps(t4.c_cflag, m.speed_mask(), m.bother, bit);
        },
        BaudScheme::StandardRate => {
            let code = speeds.codes@[standard_rates().index_of(settings.baud_rate)];
            lemma_replace_keeps(t4.c_cflag, m.cbaud, code, bit);
        },
        _ => {},
    }
}

/// A record that was told a bit rate says that rate, whatever it is: as a number, with the mark of
/// a free-form speed and no input speed of its own; or as the code that stands where the rate
/// stands among the standard rates. Where the platform is told by other means the record stays as
/// it was.
pub proof fn law_record_says_baud_rate(
    t: Termios,
    baud_rate: u32,
    scheme: BaudScheme,
    m: TermiosMasks,
    speeds: SpeedCodes,
    i: int,
)
    requires
        m.wf(),
        scheme == BaudScheme::StandardRate ==> speeds.wf(m.cbaud),
    ensures
        ({
            let after = with_baud_rate(t, baud_rate, scheme, m, speeds);
            &&& scheme is AnyRate ==> {
                &&& after.c_ispeed == baud_rate
                &&& after.c_ospeed == baud_rate
                &&& after.c_cflag & (m.cbaud | (m.cbaud << 16)) == m.bother
            }
            &&& scheme is StandardRate && 0 <= i < 30 && standard_rates()[i] == baud_rate ==> {
                &&& after.c_ispeed == speeds.codes@[i]
                &&& after.c_ospeed == speeds.codes@[i]
                &&& after.c_cflag & m.cbaud == speeds.codes@[i]
            }
            &&& scheme is SpeedCall || scheme is SpeedRequest ==> after == t
            &&& after.c_iflag == t.c_iflag
        }),
{
    lemma_fields(m);
    match scheme {
        BaudScheme::AnyRate => {
            lemma_replace_reads_back(t.c_cflag, m.speed_mask(), m.bother);
        },
        BaudScheme::StandardRate => {
            if 0 <= i < 30 && standard_rates()[i] == baud_rate {
                let at = standard_rates().index_of(baud_rate);
                law_standard_rates_ascend(i, at);
                law_standard_rates_ascend(at, i);
                lemma_replace_reads_back(t.c_cflag, m.cbaud, speeds.codes@[i]);
            }
        },
        _ => {},
    }
}

/// Standard rates are in ascending order, without repetition.
pub proof fn law_standard_rates_ascend(i: int, j: int)
    ensures
        standard_rates().len() == 30,
        0 <= i < j < 30 ==> standard_rates()[i] < standard_rates()[j],
{
}

/// The rates that can be told: any, unless codes are needed, and then the thirty that have one.
pub proof fn law_supported_rates(baud_rate: u32, scheme: BaudScheme)
    ensures
        !(scheme is StandardRate) ==> baud_rate_supported(baud_rate, scheme),
        scheme is StandardRate ==> (baud_rate_supported(baud_rate, scheme) <==> {
            ||| baud_rate == 50 || baud_rate == 75 || baud_rate == 110 || baud_rate == 134
            ||| baud_rate == 150 || baud_rate == 200 || baud_rate == 300 || baud_rate == 600
            ||| baud_rate == 1200 || baud_rate == 1800 || baud_rate == 2400 || baud_rate == 4800
            ||| baud_rate == 9600 || baud_rate == 19_200 || baud_rate == 38_400
            ||| baud_rate == 57_600 || baud_rate == 115_200 || baud_rate == 230_400
            ||| baud_rate == 460_800 || baud_rate == 500_000 || baud_rate == 576_000
            ||| baud_rate == 921_600 || baud_rate == 1_000_000 || baud_rate == 1_152_000
            ||| baud_rate == 1_500_000 || baud_rate == 2_000_000 || baud_rate == 2_500_000
            ||| baud_rate == 3_000_000 || baud_rate == 3_500_000 || baud_rate == 4_000_000
        }),
{
    let rates = standard_rates();
    assert(rates[0] == 50 && rates[1] == 75 && rates[2] == 110 && rates[3] == 134 && rates[4] == 150
        && rates[5] == 200 && rates[6] == 300 && rates[7] == 600 && rates[8] == 1200 && rates[9]
        == 1800 && rates[10] == 2400 && rates[11] == 4800 && rates[12] == 9600 && rates[13]
        == 19_200 && rates[14] == 38_400 && rates[15] == 57_600 && rates[16] == 115_200
        && rates[17] == 230_400 && rates[18] == 460_800 && rates[19] == 500_000 && rates[20]
        == 576_000 && rates[21] == 921_600 && rates[22] == 1_000_000 && rates[23] == 1_152_000
        && rates[24] == 1_500_000 && rates[25] == 2_000_000 && rates[26] == 2_500_000 && rates[27]
        == 3_000_000 && rates[28] == 3_500_000 && rates[29] == 4_000_000);
}

/// A rate is asked for by a request of its own exactly where the platform wants one, and the rate
/// is the one that was set; zero is never asked for.
pub proof fn law_request_asks_for_the_rate(baud_rate: u32, scheme: BaudScheme, r: Option<u32>)
    requires
        call_ensures(speed_request, (baud_rate, scheme), r),
    ensures
        r is Some <==> scheme is SpeedRequest && baud_rate != 0,
        r matches Some(rate) ==> rate == baud_rate,
{
}

/// DTR is the second bit of the modem status: it reads as what was asked for, and every other bit
/// as before.
pub proof fn law_status_says_dtr(status: i32, state: bool, r: i32)
    requires
        call_ensures(data_terminal_ready_status, (status, state), r),
    ensures
        r & 2 == (if state { 2i32 } else { 0 }),
        r & !2 == status & !2,
{
}

} // verus!
