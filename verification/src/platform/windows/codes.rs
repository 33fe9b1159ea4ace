//! The numbers that the Win32 API gives to parities, signals, buffers and wait results.
use windows_sys::Win32::Devices::Communication::{
    CLRDTR, EVENPARITY, EV_RXCHAR, NOPARITY, ODDPARITY, ONESTOPBIT, PURGE_RXABORT, PURGE_RXCLEAR,
    PURGE_TXABORT, PURGE_TXCLEAR, SETDTR, TWOSTOPBITS,
};
use windows_sys::Win32::Foundation::{
    ERROR_IO_INCOMPLETE, ERROR_IO_PENDING, WAIT_FAILED, WAIT_OBJECT_0, WAIT_TIMEOUT,
};

use vstd::prelude::*;

verus! {

/// The numbers of the communications API.
#[derive(Debug, Clone, Copy, PartialEq, Eq, Structural)]
pub struct CommCodes {
    pub no_parity: u8,
    pub odd_parity: u8,
    pub even_parity: u8,
    pub one_stop_bit: u8,
    pub two_stop_bits: u8,
    pub set_dtr: u32,
    pub clear_dtr: u32,
    pub purge_rx_abort: u32,
    pub purge_rx_clear: u32,
    pub purge_tx_abort: u32,
    pub purge_tx_clear: u32,
    pub rx_char: u32,
}

/// The numbers that wait functions and the last error are compared with.
#[derive(Debug, Clone, Copy, PartialEq, Eq, Structural)]
pub struct WaitCodes {
    pub object_0: u32,
    pub timeout: u32,
    pub failed: u32,
    pub io_incomplete: u32,
    pub io_pending: u32,
}

/// What the communications API defines its numbers to be.
pub open spec fn win32_comm_codes() -> CommCodes {
    CommCodes {
        no_parity: 0,
        odd_parity: 1,
        even_parity: 2,
        one_stop_bit: 0,
        two_stop_bits: 2,
        set_dtr: 5,
        clear_dtr: 6,
        purge_rx_abort: 2,
        purge_rx_clear: 8,
        purge_tx_abort: 1,
        purge_tx_clear: 4,
        rx_char: 1,
    }
}

/// What the wait functions and the error codes are defined to be.
pub open spec fn win32_wait_codes() -> WaitCodes {
    WaitCodes {
        object_0: 0,
        timeout: 258,
        failed: 0xffff_ffff,
        io_incomplete: 996,
        io_pending: 997,
    }
}

/// The constants of `windows_sys::Win32::Devices::Communication`, with the values that the Win32
/// headers define.
#[verifier::external_body]
pub(crate) fn comm_codes() -> (r: CommCodes)
    ensures
        r == win32_comm_codes(),
{
    CommCodes {
        no_parity: NOPARITY, odd_parity: ODDPARITY, even_parity: EVENPARITY,
        one_stop_bit: ONESTOPBIT, two_stop_bits: TWOSTOPBITS, set_dtr: SETDTR, clear_dtr: CLRDTR,
        purge_rx_abort: PURGE_RXABORT, purge_rx_clear: PURGE_RXCLEAR,
        purge_tx_abort: PURGE_TXABORT, purge_tx_clear: PURGE_TXCLEAR, rx_char: EV_RXCHAR,
    }
}

/// The constants of `windows_sys::Win32::Foundation` for wait results and for the two error codes
/// of a transfer that has not ended, with the values that the Win32 headers define.
#[verifier::external_body]
pub(crate) fn wait_codes() -> (r: WaitCodes)
    ensures
        r == win32_wait_codes(),
{
    WaitCodes {
        object_0: WAIT_OBJECT_0, timeout: WAIT_TIMEOUT, failed: WAIT_FAILED,
        io_incomplete: ERROR_IO_INCOMPLETE, io_pending: ERROR_IO_PENDING,
    }
}

} // verus!
