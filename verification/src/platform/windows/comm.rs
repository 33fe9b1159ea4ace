//! Line settings as a Win32 device control block.
use vstd::prelude::*;

use super::codes::{comm_codes, win32_comm_codes, CommCodes};
use crate::bits::replace_bits;
use crate::builder::{PortSettings, SerialPortStreamBuilder};
use crate::types::{ClearBuffer, DataBits, FlowControl, Parity, StopBits};

verus! {

/// The members of a device control block that line settings live in.
#[derive(Debug, Clone, Copy, PartialEq, Eq, Structural)]
pub struct Dcb {
    pub baud_rate: u32,
    /// The one-bit and two-bit members, from `fBinary` in bit 0 on.
    pub bitfield: u32,
    pub byte_size: u8,
    pub parity: u8,
    pub stop_bits: u8,
    pub xon_char: i8,
    pub xoff_char: i8,
    pub error_char: i8,
    pub eof_char: i8,
}

/// What the device does with its DTR line.
#[derive(Debug, Clone, Copy, PartialEq, Eq, Structural)]
pub enum DtrControl {
    Disable,
    Enable,
    Handshake,
}

/// What the device does with its RTS line.
#[derive(Debug, Clone, Copy, PartialEq, Eq, Structural)]
pub enum RtsControl {
    Disable,
    Enable,
    Handshake,
    Toggle,
}

impl DtrControl {
    /// The number of the mode.
    pub open spec fn code(self) -> u32 {
        match self {
            DtrControl::Disable => 0,
            DtrControl::Enable => 1,
            DtrControl::Handshake => 2,
        }
    }
}

impl RtsControl {
    /// The number of the mode.
    pub open spec fn code(self) -> u32 {
        match self {
            RtsControl::Disable => 0,
            RtsControl::Enable => 1,
            RtsControl::Handshake => 2,
            RtsControl::Toggle => 3,
        }
    }
}

/// `word` with one bit set or cleared.
pub open spec fn with_bit(word: u32, bit: u32, value: bool) -> u32 {
    replace_bits(
        word,
        1u32 << bit,
        if value {
            1u32 << bit
        } else {
            0
        },
    )
}

/// Sets or clears one bit and leaves the others alone.
pub fn set_bitfield_bit(field: &mut u32, bit: u32, value: bool)
    requires
        bit < 32,
    ensures
        *final(field) == with_bit(*old(field), bit, value),
{
    let mask: u32 = 1u32 << bit;
    proof {
        let word: u32 = *field;
        assert(word | mask == (word & !mask) | mask) by (bit_vector);
        assert(word & !mask == (word & !mask) | 0) by (bit_vector);
    }
    if value {
        *field = *field | mask;
    } else {
        *field = *field & !mask;
    }
}

impl Dcb {
    /// The block with another bit field.
    pub open spec fn with_bitfield(self, bitfield: u32) -> Dcb {
        Dcb { bitfield, ..self }
    }

    pub fn set_f_binary(&mut self, value: bool)
        ensures
            *final(self) == old(self).with_bitfield(with_bit(old(self).bitfield, 0, value)),
    {
        set_bitfield_bit(&mut self.bitfield, 0, value);
    }

    pub fn set_f_parity(&mut self, value: bool)
        ensures
            *final(self) == old(self).with_bitfield(with_bit(old(self).bitfield, 1, value)),
    {
        set_bitfield_bit(&mut self.bitfield, 1, value);
    }

    pub fn set_f_outx_cts_flow(&mut self, value: bool)
        ensures
            *final(self) == old(self).with_bitfield(with_bit(old(self).bitfield, 2, value)),
    {
        set_bitfield_bit(&mut self.bitfield, 2, value);
    }

    pub fn set_f_outx_dsr_flow(&mut self, value: bool)
        ensures
            *final(self) == old(self).with_bitfield(with_bit(old(self).bitfield, 3, value)),
    {
        set_bitfield_bit(&mut self.bitfield, 3, value);
    }

    pub fn set_f_dtr_control(&mut self, value: DtrControl)
        ensures
            *final(self) == old(self).with_bitfield(
                replace_bits(old(self).bitfield, 0x30, value.code() << 4),
            ),
    {
        let code: u32 = match value {
            DtrControl::Disable => 0,
            DtrControl::Enable => 1,
            DtrControl::Handshake => 2,
        };
        self.bitfield = (self.bitfield & !0x30) | (code << 4);
    }

    pub fn set_f_dsr_sensitivity(&mut self, value: bool)
        ensures
            *final(self) == old(self).with_bitfield(with_bit(old(self).bitfield, 6, value)),
    {
        set_bitfield_bit(&mut self.bitfield, 6, value);
    }

    pub fn set_f_out_x(&mut self, value: bool)
        ensures
            *final(self) == old(self).with_bitfield(with_bit(old(self).bitfield, 8, value)),
    {
        set_bitfield_bit(&mut self.bitfield, 8, value);
    }

    pub fn set_f_in_x(&mut self, value: bool)
        ensures
            *final(self) == old(self).with_bitfield(with_bit(old(self).bitfield, 9, value)),
    {
        set_bitfield_bit(&mut self.bitfield, 9, value);
    }

    pub fn set_f_error_char(&mut self, value: bool)
        ensures
            *final(self) == old(self).with_bitfield(with_bit(old(self).bitfield, 10, value)),
    {
        set_bitfield_bit(&mut self.bitfield, 10, value);
    }

    pub fn set_f_null(&mut self, value: bool)
        ensures
            *final(self) == old(self).with_bitfield(with_bit(old(self).bitfield, 11, value)),
    {
        set_bitfield_bit(&mut self.bitfield, 11, value);
    }

    pub fn set_f_rts_control(&mut self, value: RtsControl)
        ensures
            *final(self) == old(self).with_bitfield(
                replace_bits(old(self).bitfield, 0x3000, value.code() << 12),
            ),
    {
        let code: u32 = match value {
            RtsControl::Disable => 0,
            RtsControl::Enable => 1,
            RtsControl::Handshake => 2,
            RtsControl::Toggle => 3,
        };
        self.bitfield = (self.bitfield & !0x3000) | (code << 12);
    }

    pub fn set_f_abort_on_error(&mut self, value: bool)
        ensures
            *final(self) == old(self).with_bitfield(with_bit(old(self).bitfield, 14, value)),
    {
        set_bitfield_bit(&mut self.bitfield, 14, value);
    }
}

/// The bits that do not depend on line settings: `fBinary`, `fOutxDsrFlow`, `fDtrControl`,
/// `fDsrSensitivity`, `fErrorChar`, `fNull` and `fAbortOnError`.
pub open spec fn fixed_mask() -> u32 {
    0x4c79
}

/// The bits that depend on line settings: `fParity`, `fOutxCtsFlow`, `fOutX`, `fInX` and
/// `fRtsControl`.
pub open spec fn line_mask() -> u32 {
    0x3306
}

/// What the bits under [`line_mask`] are for these line settings.
pub open spec fn line_bits(parity: Parity, flow_control: FlowControl) -> u32 {
    let parity_bits: u32 = if parity == Parity::Off {
        0
    } else {
        0x2
    };
    let flow_bits: u32 = match flow_control {
        FlowControl::Off => 0,
        FlowControl::Software => 0x300,
        FlowControl::Hardware => 0x1004,
    };
    parity_bits | flow_bits
}

/// The block with all members that do not depend on line settings: binary mode, no error
/// handling, no DSR handling, DTR off, and the usual XON, XOFF and EOF characters.
pub open spec fn initialized(dcb: Dcb) -> Dcb {
    Dcb {
        bitfield: replace_bits(dcb.bitfield, fixed_mask(), 1),
        xon_char: 17,
        xoff_char: 19,
        error_char: 0,
        eof_char: 26,
        ..dcb
    }
}

/// The block with all line settings.
pub open spec fn with_line_settings(dcb: Dcb, settings: PortSettings) -> Dcb {
    let codes = win32_comm_codes();
    Dcb {
        baud_rate: settings.baud_rate,
        bitfield: replace_bits(
            dcb.bitfield,
            line_mask(),
            line_bits(settings.parity, settings.flow_control),
        ),
        byte_size: settings.data_bits.count(),
        parity: match settings.parity {
            Parity::Off => codes.no_parity,
            Parity::Odd => codes.odd_parity,
            Parity::Even => codes.even_parity,
        },
        stop_bits: match settings.stop_bits {
            StopBits::One => codes.one_stop_bit,
            StopBits::Two => codes.two_stop_bits,
        },
        ..dcb
    }
}

/// Writes the members that do not depend on line settings.
pub fn init_dcb(dcb: &mut Dcb)
    ensures
        *final(dcb) == initialized(*old(dcb)),
{
    proof {
        let w: u32 = dcb.bitfield;
        let w1 = with_bit(w, 0, true);
        let w2 = with_bit(w1, 3, false);
        let w3 = replace_bits(w2, 0x30, DtrControl::Disable.code() << 4);
        let w4 = with_bit(w3, 6, false);
        let w5 = with_bit(w4, 10, false);
        let w6 = with_bit(w5, 11, false);
        let w7 = with_bit(w6, 14, false);
        assert(w7 == replace_bits(w, 0x4c79, 1)) by (bit_vector)
            requires
                w1 == (w & !(1u32 << 0)) | (1u32 << 0),
                w2 == (w1 & !(1u32 << 3)) | 0,
                w3 == (w2 & !0x30) | (0u32 << 4),
                w4 == (w3 & !(1u32 << 6)) | 0,
                w5 == (w4 & !(1u32 << 10)) | 0,
                w6 == (w5 & !(1u32 << 11)) | 0,
                w7 == (w6 & !(1u32 << 14)) | 0,
        ;
    }
    dcb.xon_char = 17;
    dcb.xoff_char = 19;
    dcb.error_char = 0;
    dcb.eof_char = 26;
    dcb.set_f_binary(true);
    dcb.set_f_outx_dsr_flow(false);
    dcb.set_f_dtr_control(DtrControl::Disable);
    dcb.set_f_dsr_sensitivity(false);
    dcb.set_f_error_char(false);
    dcb.set_f_null(false);
    dcb.set_f_abort_on_error(false);
}

/// The bit operations of [`apply_line_settings`], put together.
proof fn lemma_line_bits(w: u32, parity: Parity, flow_control: FlowControl)
    ensures
        ({
            let w1 = with_bit(w, 1, parity != Parity::Off);
            let w2 = with_bit(w1, 2, flow_control == FlowControl::Hardware);
            let rts = if flow_control == FlowControl::Hardware {
                RtsControl::Enable
            } else {
                RtsControl::Disable
            };
            let w3 = replace_bits(w2, 0x3000, rts.code() << 12);
            let w4 = with_bit(w3, 8, flow_control == FlowControl::Software);
            let w5 = with_bit(w4, 9, flow_control == FlowControl::Software);
            w5 == replace_bits(w, line_mask(), line_bits(parity, flow_control))
        }),
{
    let p: bool = parity != Parity::Off;
    let s: bool = flow_control == FlowControl::Software;
    let h: bool = flow_control == FlowControl::Hardware;
    let w1 = with_bit(w, 1, p);
    let w2 = with_bit(w1, 2, h);
    let rts = if h {
        RtsControl::Enable
    } else {
        RtsControl::Disable
    };
    let w3 = replace_bits(w2, 0x3000, rts.code() << 12);
    let w4 = with_bit(w3, 8, s);
    let w5 = with_bit(w4, 9, s);
    let bits = line_bits(parity, flow_control);
    assert(w5 == (w & !0x3306) | bits) by (bit_vector)
        requires
            !(s && h),
            w1 == (w & !(1u32 << 1)) | if p { 1u32 << 1 } else { 0 },
            w2 == (w1 & !(1u32 << 2)) | if h { 1u32 << 2 } else { 0 },
            w3 == (w2 & !0x3000) | if h { 1u32 << 12 } else { 0u32 << 12 },
            w4 == (w3 & !(1u32 << 8)) | if s { 1u32 << 8 } else { 0 },
            w5 == (w4 & !(1u32 << 9)) | if s { 1u32 << 9 } else { 0 },
            bits == (if p { 0x2u32 } else { 0 }) | (if s { 0x300u32 } else { if h { 0x1004u32 } else { 0 } }),
    ;
}

/// Writes the members that line settings live in.
pub fn apply_line_settings(dcb: &mut Dcb, builder: &SerialPortStreamBuilder)
    ensures
        *final(dcb) == with_line_settings(*old(dcb), builder@),
{
    proof {
        lemma_line_bits(dcb.bitfield, builder.parity, builder.flow_control);
    }
    let codes: CommCodes = comm_codes();
    dcb.baud_rate = builder.baud_rate;
    dcb.byte_size = match builder.data_bits {
        DataBits::Five => 5,
        DataBits::Six => 6,
        DataBits::Seven => 7,
        DataBits::Eight => 8,
    };
    dcb.parity = match builder.parity {
        Parity::Off => codes.no_parity,
        Parity::Odd => codes.odd_parity,
        Parity::Even => codes.even_parity,
    };
    dcb.set_f_parity(builder.parity != Parity::Off);
    dcb.stop_bits = match builder.stop_bits {
        StopBits::One => codes.one_stop_bit,
        StopBits::Two => codes.two_stop_bits,
    };
    match builder.flow_control {
        FlowControl::Off => {
            dcb.set_f_outx_cts_flow(false);
            dcb.set_f_rts_control(RtsControl::Disable);
            dcb.set_f_out_x(false);
            dcb.set_f_in_x(false);
        },
        FlowControl::Software => {
            dcb.set_f_outx_cts_flow(false);
            dcb.set_f_rts_control(RtsControl::Disable);
            dcb.set_f_out_x(true);
            dcb.set_f_in_x(true);
        },
        FlowControl::Hardware => {
            dcb.set_f_outx_cts_flow(true);
            dcb.set_f_rts_control(RtsControl::Enable);
            dcb.set_f_out_x(false);
            dcb.set_f_in_x(false);
        },
    }
}

/// The control block that a port is opened with, made from the one that the device has.
pub fn configure_port(dcb: Dcb, builder: &SerialPortStreamBuilder) -> (r: Dcb)
    ensures
        r == with_line_settings(initialized(dcb), builder@),
{
    let mut configured: Dcb = dcb;
    init_dcb(&mut configured);
    apply_line_settings(&mut configured, builder);
    configured
}

/// Changes the bit rate and nothing else.
pub fn set_baud_rate(dcb: &mut Dcb, baud_rate: u32)
    ensures
        *final(dcb) == (Dcb { baud_rate, ..*old(dcb) }),
{
    dcb.baud_rate = baud_rate;
}

/// The function number that raises or lowers the DTR line.
pub fn data_terminal_ready_function(state: bool) -> (r: u32)
    ensures
        r == (if state {
            win32_comm_codes().set_dtr
        } else {
            win32_comm_codes().clear_dtr
        }),
{
    let codes: CommCodes = comm_codes();
    if state {
        codes.set_dtr
    } else {
        codes.clear_dtr
    }
}

/// The purge flags of the buffers to clear: their contents are dropped and pending transfers on
/// them aborted.
pub fn clear(buffer: ClearBuffer) -> (r: u32)
    ensures
        r == ({
            let codes = win32_comm_codes();
            match buffer {
                ClearBuffer::Input => codes.purge_rx_abort | codes.purge_rx_clear,
                ClearBuffer::Output => codes.purge_tx_abort | codes.purge_tx_clear,
                ClearBuffer::All => codes.purge_rx_abort | codes.purge_rx_clear
                    | codes.purge_tx_abort | codes.purge_tx_clear,
            }
        }),
{
    let codes: CommCodes = comm_codes();
    match buffer {
        ClearBuffer::Input => codes.purge_rx_abort | codes.purge_rx_clear,
        ClearBuffer::Output => codes.purge_tx_abort | codes.purge_tx_clear,
        ClearBuffer::All => codes.purge_rx_abort | codes.purge_rx_clear | codes.purge_tx_abort
            | codes.purge_tx_clear,
    }
}

/// The event that the receive pump waits for: a byte has come in.
pub fn receive_event_mask() -> (r: u32)
    ensures
        r == win32_comm_codes().rx_char,
{
    comm_codes().rx_char
}

/// Timeouts of a communications device, in milliseconds.
#[derive(Debug, Clone, Copy, PartialEq, Eq, Structural)]
pub struct CommTimeouts {
    pub read_interval: u32,
    pub read_total_multiplier: u32,
    pub read_total_constant: u32,
    pub write_total_multiplier: u32,
    pub write_total_constant: u32,
}

/// The timeouts of an opened port: a read ends one millisecond after the last byte, nothing else
/// is limited.
pub fn open_timeouts() -> (r: CommTimeouts)
    ensures
        r == (CommTimeouts {
            read_interval: 1,
            read_total_multiplier: 0,
            read_total_constant: 0,
            write_total_multiplier: 0,
            write_total_constant: 0,
        }),
{
    CommTimeouts {
        read_interval: 1,
        read_total_multiplier: 0,
        read_total_constant: 0,
        write_total_multiplier: 0,
        write_total_constant: 0,
    }
}

/// A configured block says what it was configured for: binary mode and nothing else among the
/// fixed bits, parity checking and flow control among the line bits, every other bit as the
/// device had it.
pub proof fn law_configured_block(dcb: Dcb, settings: PortSettings)
    ensures
        ({
            let after = with_line_settings(initialized(dcb), settings);
            &&& after.bitfield & fixed_mask() == 1
            &&& after.bitfield & line_mask() == line_bits(settings.parity, settings.flow_control)
            &&& after.bitfield & !(fixed_mask() | line_mask()) == dcb.bitfield & !(fixed_mask()
                | line_mask())
        }),
{
    let w: u32 = dcb.bitfield;
    let w1 = initialized(dcb).bitfield;
    let w2 = with_line_settings(initialized(dcb), settings).bitfield;
    let p: bool = settings.parity != Parity::Off;
    let s: bool = settings.flow_control == FlowControl::Software;
    let h: bool = settings.flow_control == FlowControl::Hardware;
    let bits = line_bits(settings.parity, settings.flow_control);
    assert(w2 & 0x4c79 == 1 && w2 & 0x3306 == bits && w2 & !(0x4c79 | 0x3306u32) == w & !(0x4c79
        | 0x3306u32)) by (bit_vector)
        requires
            w1 == (w & !0x4c79) | 1,
            w2 == (w1 & !0x3306) | bits,
            bits == (if p { 0x2u32 } else { 0 }) | (if s { 0x300u32 } else { if h { 0x1004u32 } else { 0 } }),
    ;
}

/// Different line settings make different control blocks.
pub proof fn law_block_is_unambiguous(dcb: Dcb, a: PortSettings, b: PortSettings)
    requires
        with_line_settings(initialized(dcb), a) == with_line_settings(initialized(dcb), b),
    ensures
        a.baud_rate == b.baud_rate,
        a.data_bits == b.data_bits,
        a.parity == b.parity,
        a.stop_bits == b.stop_bits,
        a.flow_control == b.flow_control,
{
    law_configured_block(dcb, a);
    law_configured_block(dcb, b);
    assert((0u32 | 0) == 0 && (0u32 | 0x300) == 0x300 && (0u32 | 0x1004) == 0x1004 && (0x2u32 | 0)
        == 0x2 && (0x2u32 | 0x300) == 0x302 && (0x2u32 | 0x1004) == 0x1006) by (bit_vector);
}

/// The members of a configured block say each setting by its own value: the rate, the number of
/// data bits, and the Win32 numbers of the parity and of the stop bits.
pub proof fn law_members_say_settings(dcb: Dcb, settings: PortSettings)
    ensures
        ({
            let after = with_line_settings(initialized(dcb), settings);
            &&& after.baud_rate == settings.baud_rate
            &&& after.byte_size == 5 <==> settings.data_bits is Five
            &&& after.byte_size == 6 <==> settings.data_bits is Six
            &&& after.byte_size == 7 <==> settings.data_bits is Seven
            &&& after.byte_size == 8 <==> settings.data_bits is Eight
            &&& after.parity == 0 <==> settings.parity is Off
            &&& after.parity == 1 <==> settings.parity is Odd
            &&& after.parity == 2 <==> settings.parity is Even
            &&& after.stop_bits == 0 <==> settings.stop_bits is One
            &&& after.stop_bits == 2 <==> settings.stop_bits is Two
            &&& after.xon_char == 17 && after.xoff_char == 19
            &&& after.error_char == 0 && after.eof_char == 26
        }),
{
}

/// The bits of a configured block say what they are named after. `fBinary` is on. `fParity` is on
/// exactly with a parity. `fOutxCtsFlow` is on, and RTS enabled, exactly with hardware flow
/// control; `fOutX` and `fInX` are on exactly with software flow control. DSR, DTR and error
/// handling are off, and every bit without a name here is as the device had it.
pub proof fn law_bits_say_settings(dcb: Dcb, settings: PortSettings)
    ensures
        ({
            let bits = with_line_settings(initialized(dcb), settings).bitfield;
            let hardware = settings.flow_control is Hardware;
            let software = settings.flow_control is Software;
            &&& bits & 0x1 == 0x1
            &&& bits & 0x2 == (if settings.parity is Off { 0u32 } else { 0x2 })
            &&& bits & 0x4 == (if hardware { 0x4u32 } else { 0 })
            &&& bits & 0x3000 == (if hardware { 0x1000u32 } else { 0 })
            &&& bits & 0x100 == (if software { 0x100u32 } else { 0 })
            &&& bits & 0x200 == (if software { 0x200u32 } else { 0 })
            &&& bits & 0x8 == 0 && bits & 0x30 == 0 && bits & 0x40 == 0
            &&& bits & 0x400 == 0 && bits & 0x800 == 0 && bits & 0x4000 == 0
            &&& bits & 0xffff_8080 == dcb.bitfield & 0xffff_8080
        }),
{
    let w: u32 = dcb.bitfield;
    let w1 = initialized(dcb).bitfield;
    let w2 = with_line_settings(initialized(dcb), settings).bitfield;
    let p: bool = settings.parity != Parity::Off;
    let s: bool = settings.flow_control == FlowControl::Software;
    let h: bool = settings.flow_control == FlowControl::Hardware;
    let bits = line_bits(settings.parity, settings.flow_control);
    assert(w2 & 0x1 == 0x1 && w2 & 0x2 == (if p { 0x2u32 } else { 0 }) && w2 & 0x4 == (if h { 0x4u32 } else { 0 })
        && w2 & 0x3000 == (if h { 0x1000u32 } else { 0 }) && w2 & 0x100 == (if s { 0x100u32 } else { 0 })
        && w2 & 0x200 == (if s { 0x200u32 } else { 0 }) && w2 & 0x8 == 0 && w2 & 0x30 == 0 && w2
        & 0x40 == 0 && w2 & 0x400 == 0 && w2 & 0x800 == 0 && w2 & 0x4000 == 0 && w2 & 0xffff_8080
        == w & 0xffff_8080) by (bit_vector)
        requires
            !(s && h),
            w1 == (w & !0x4c79) | 1,
            w2 == (w1 & !0x3306) | bits,
            bits == (if p { 0x2u32 } else { 0 }) | (if s { 0x300u32 } else { if h { 0x1004u32 } else { 0 } }),
    ;
}

/// Line settings change the line bits only and initialising the fixed ones only; neither needs the
/// other, and each says its own whatever was there before.
pub proof fn law_parts_are_independent(dcb: Dcb, settings: PortSettings)
    ensures
        initialized(with_line_settings(dcb, settings)) == with_line_settings(
            initialized(dcb),
            settings,
        ),
        initialized(initialized(dcb)) == initialized(dcb),
        with_line_settings(with_line_settings(dcb, settings), settings) == with_line_settings(
            dcb,
            settings,
        ),
{
    let w: u32 = dcb.bitfield;
    let p: bool = settings.parity != Parity::Off;
    let s: bool = settings.flow_control == FlowControl::Software;
    let h: bool = settings.flow_control == FlowControl::Hardware;
    let bits = line_bits(settings.parity, settings.flow_control);
    assert((((w & !0x3306) | bits) & !0x4c79) | 1 == (((w & !0x4c79) | 1) & !0x3306) | bits && (((w
        & !0x4c79) | 1) & !0x4c79) | 1 == (w & !0x4c79) | 1 && (((w & !0x3306) | bits) & !0x3306)
        | bits == (w & !0x3306) | bits) by (bit_vector)
        requires
            bits == (if p { 0x2u32 } else { 0 }) | (if s { 0x300u32 } else { if h { 0x1004u32 } else { 0 } }),
    ;
}

/// A bit that was set or cleared reads as such, and every other bit as before; a mode goes into
/// its two bits as its number.
pub proof fn law_bit_reads_back(word: u32, bit: u32, value: bool, dtr: DtrControl, rts: RtsControl)
    requires
        bit < 32,
    ensures
        (with_bit(word, bit, value) >> bit) & 1 == (if value { 1u32 } else { 0 }),
        with_bit(word, bit, value) & !(1u32 << bit) == word & !(1u32 << bit),
        dtr.code() == 0 <==> dtr is Disable,
        dtr.code() == 1 <==> dtr is Enable,
        dtr.code() == 2 <==> dtr is Handshake,
        rts.code() == 0 <==> rts is Disable,
        rts.code() == 1 <==> rts is Enable,
        rts.code() == 2 <==> rts is Handshake,
        rts.code() == 3 <==> rts is Toggle,
{
    let set = 1u32 << bit;
    let bits: u32 = if value {
        set
    } else {
        0
    };
    assert((((word & !set) | bits) >> bit) & 1 == (if value { 1u32 } else { 0 }) && ((word & !set)
        | bits) & !set == word & !set) by (bit_vector)
        requires
            bit < 32,
            set == 1u32 << bit,
            bits == if value { set } else { 0 },
    ;
}

/// Purging aborts and clears input exactly if input is to be cleared, and output exactly if output
/// is; DTR is raised or lowered by the function of that name.
pub proof fn law_calls_do_what_was_asked(buffer: ClearBuffer, flags: u32, state: bool, function: u32)
    requires
        call_ensures(clear, (buffer,), flags),
        call_ensures(data_terminal_ready_function, (state,), function),
    ensures
        flags & 0xa == (if buffer is Output { 0u32 } else { 0xa }),
        flags & 0x5 == (if buffer is Input { 0u32 } else { 0x5 }),
        flags & !0xf == 0,
        function == 5 <==> state,
        function == 6 <==> !state,
{
    assert((2u32 | 8) & 0xa == 0xa && (2u32 | 8) & 0x5 == 0 && (2u32 | 8) & !0xf == 0 && (1u32 | 4)
        & 0xa == 0 && (1u32 | 4) & 0x5 == 0x5 && (1u32 | 4) & !0xf == 0 && (2u32 | 8 | 1 | 4) & 0xa
        == 0xa && (2u32 | 8 | 1 | 4) & 0x5 == 0x5 && (2u32 | 8 | 1 | 4) & !0xf == 0)
        by (bit_vector);
}

} // verus!
