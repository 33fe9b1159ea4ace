//! Ports behind a Win32 communications device.

pub mod codes;
pub mod comm;
pub mod name;
pub mod overlapped;
pub mod pump;
pub mod reactor;
