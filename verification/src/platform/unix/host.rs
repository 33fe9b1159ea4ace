//! The numbers that Linux gives to flags, speeds, queues and error codes.
use nix::libc::{
    B1000000, B110, B115200, B1152000, B1200, B134, B150, B1500000, B1800, B19200, B200, B2000000,
    B230400, B2400, B2500000, B300, B3000000, B3500000, B38400, B4000000, B460800, B4800, B50,
    B500000, B57600, B576000, B600, B75, B921600, B9600, BOTHER, CBAUD, CLOCAL, CREAD, CRTSCTS,
    CS5, CS6, CS7, CS8, CSIZE, CSTOPB, EAGAIN, EINTR, IGNPAR, INPCK, IXOFF, IXON, PARENB, PARODD,
    TCIFLUSH, TCIOFLUSH, TCOFLUSH,
};

use vstd::prelude::*;

use super::serial::{SpeedCodes, TermiosMasks};
use super::{ErrnoCodes, QueueSelectors};

verus! {

/// All numbers of the system that decisions depend on.
#[derive(Debug, Clone, Copy)]
pub struct Host {
    pub masks: TermiosMasks,
    pub speeds: SpeedCodes,
    pub queues: QueueSelectors,
    pub errnos: ErrnoCodes,
}

/// The `termios` flags of Linux on every architecture but PowerPC.
pub open spec fn common_masks() -> TermiosMasks {
    TermiosMasks {
        cread: 0x80,
        clocal: 0x800,
        parenb: 0x100,
        parodd: 0x200,
        crtscts: 0x8000_0000,
        csize: 0x30,
        cs5: 0,
        cs6: 0x10,
        cs7: 0x20,
        cs8: 0x30,
        cstopb: 0x40,
        cbaud: 0x100f,
        bother: 0x1000,
        inpck: 0x10,
        ignpar: 0x4,
        ixon: 0x400,
        ixoff: 0x1000,
    }
}

/// The `termios` flags of Linux on PowerPC.
pub open spec fn powerpc_masks() -> TermiosMasks {
    TermiosMasks {
        cread: 0x800,
        clocal: 0x8000,
        parenb: 0x1000,
        parodd: 0x2000,
        crtscts: 0x8000_0000,
        csize: 0x300,
        cs5: 0,
        cs6: 0x100,
        cs7: 0x200,
        cs8: 0x300,
        cstopb: 0x400,
        cbaud: 0xff,
        bother: 0x1f,
        inpck: 0x10,
        ignpar: 0x4,
        ixon: 0x200,
        ixoff: 0x400,
    }
}

/// The speed code of standard rate number `i` of Linux on architectures other than PowerPC, where
/// they have a code for every standard rate: the first fifteen are numbered from one on, the
/// others from one on again in the extended range.
pub open spec fn common_code(i: int) -> int {
    if i < 15 {
        i + 1
    } else {
        0x1000 + (i - 14)
    }
}

/// The speed code of standard rate number `i` of Linux on PowerPC: all are numbered from one on.
pub open spec fn powerpc_code(i: int) -> int {
    i + 1
}

/// The flags and speeds are those of one Linux architecture.
pub open spec fn is_linux(masks: TermiosMasks, speeds: SpeedCodes) -> bool {
    ||| masks == common_masks() && forall|i: int|
        0 <= i < 30 ==> #[trigger] speeds.codes@[i] == common_code(i)
    ||| masks == powerpc_masks() && forall|i: int|
        0 <= i < 30 ==> #[trigger] speeds.codes@[i] == powerpc_code(i)
}

/// The flags of a Linux architecture do not overlap, and its speeds are distinct values of the
/// speed field.
pub proof fn lemma_linux_wf(masks: TermiosMasks, speeds: SpeedCodes)
    requires
        is_linux(masks, speeds),
    ensures
        masks.wf(),
        speeds.wf(masks.cbaud),
{
    assert(0x100u32 & 0x200 == 0 && (0x100u32 | 0x200) & 0x8000_0000 == 0 && (0x100u32 | 0x200
        | 0x8000_0000) & 0x30 == 0 && (0x100u32 | 0x200 | 0x8000_0000 | 0x30) & 0x40 == 0 && (
    0x100u32 | 0x200 | 0x8000_0000 | 0x30 | 0x40) & (0x100fu32 | (0x100fu32 << 16)) == 0 && (0x100u32
        | 0x200 | 0x8000_0000 | 0x30 | 0x40 | (0x100fu32 | (0x100fu32 << 16))) & (0x80u32 | 0x800) == 0
        && 0x10u32 & 0x4 == 0 && 0x400u32 & 0x1000 == 0 && (0x10u32 | 0x4) & (0x400u32 | 0x1000)
        == 0 && 0u32 & !0x30 == 0 && 0x10u32 & !0x30 == 0 && 0x20u32 & !0x30 == 0 && 0x30u32
        & !0x30 == 0 && 0x1000u32 & !0x100f == 0) by (bit_vector);
    assert(0x1000u32 & 0x2000 == 0 && (0x1000u32 | 0x2000) & 0x8000_0000 == 0 && (0x1000u32 | 0x2000
        | 0x8000_0000) & 0x300 == 0 && (0x1000u32 | 0x2000 | 0x8000_0000 | 0x300) & 0x400 == 0 && (
    0x1000u32 | 0x2000 | 0x8000_0000 | 0x300 | 0x400) & (0xffu32 | (0xffu32 << 16)) == 0 && (0x1000u32
        | 0x2000 | 0x8000_0000 | 0x300 | 0x400 | (0xffu32 | (0xffu32 << 16))) & (0x800u32 | 0x8000) == 0
        && 0x200u32 & 0x400 == 0 && (0x10u32 | 0x4) & (0x200u32 | 0x400) == 0 && 0u32 & !0x300 == 0
        && 0x100u32 & !0x300 == 0 && 0x200u32 & !0x300 == 0 && 0x300u32 & !0x300 == 0 && 0x1fu32
        & !0xff == 0) by (bit_vector);
    assert(forall|v: u32|
        (v <= 15 || 0x1000 <= v <= 0x100f) ==> #[trigger] (v & !0x100f) == 0) by (bit_vector);
    assert(forall|v: u32| v <= 0xff ==> #[trigger] (v & !0xff) == 0) by (bit_vector);
}

impl Host {
    /// Flags do not overlap, speed codes fit the speed field, selectors and codes are distinct.
    pub open spec fn wf(self) -> bool {
        &&& self.masks.wf()
        &&& self.speeds.wf(self.masks.cbaud)
        &&& self.queues.wf()
        &&& self.errnos.wf()
    }

    /// The numbers of the system that this is built for.
    pub fn new() -> (r: Host)
        ensures
            r.wf(),
            is_linux(r.masks, r.speeds),
            r.queues == (QueueSelectors { input: 0, output: 1, both: 2 }),
            r.errnos == (ErrnoCodes { again: 11, interrupted: 4 }),
    {
        let (masks, speeds) = termios_constants();
        proof {
            lemma_linux_wf(masks, speeds);
        }
        Host { masks, speeds, queues: queue_constants(), errnos: errno_constants() }
    }
}

/// The `termios` flag constants of `libc` and its `B50` to `B4000000` speed constants.
///
/// `libc` has two sets of numbers for Linux and Android, one for PowerPC and one for all other
/// architectures that define every one of these constants; which set it is, is left unsaid.
#[verifier::external_body]
fn termios_constants() -> (r: (TermiosMasks, SpeedCodes))
    ensures
        is_linux(r.0, r.1),
{
    let masks = TermiosMasks {
        cread: CREAD, clocal: CLOCAL, parenb: PARENB, parodd: PARODD, crtscts: CRTSCTS,
        csize: CSIZE, cs5: CS5, cs6: CS6, cs7: CS7, cs8: CS8, cstopb: CSTOPB, cbaud: CBAUD,
        bother: BOTHER, inpck: INPCK, ignpar: IGNPAR, ixon: IXON, ixoff: IXOFF,
    };
    let codes = [
        B50, B75, B110, B134, B150, B200, B300, B600, B1200, B1800, B2400, B4800, B9600, B19200,
        B38400, B57600, B115200, B230400, B460800, B500000, B576000, B921600, B1000000, B1152000,
        B1500000, B2000000, B2500000, B3000000, B3500000, B4000000,
    ];
    (masks, SpeedCodes { codes })
}

/// The `tcflush` selectors of `libc`, which are these on every Linux target.
#[verifier::external_body]
fn queue_constants() -> (r: QueueSelectors)
    ensures
        r.input == 0,
        r.output == 1,
        r.both == 2,
{
    QueueSelectors { input: TCIFLUSH, output: TCOFLUSH, both: TCIOFLUSH }
}

/// The error codes `EAGAIN` and `EINTR` of `libc`, which are these on every Linux target.
#[verifier::external_body]
fn errno_constants() -> (r: ErrnoCodes)
    ensures
        r.again == 11,
        r.interrupted == 4,
{
    ErrnoCodes { again: EAGAIN, interrupted: EINTR }
}

} // verus!
