//! Decisions of an async serial port: line settings, open sequence, receive FIFO, and the
//! progress of reads, writes and flushes.
//!
//! Configure a port with [`new`] and the methods of [`SerialPortStreamBuilder`]. What happens to
//! it after that is decided here as well, one event at a time; the system calls themselves are
//! made elsewhere.

pub mod bits;
mod builder;
pub mod error;
pub mod fifo;
pub mod line_settings;
pub mod platform;
pub mod stream;
pub mod text;
mod types;

pub use builder::{new, PortSettings, SerialPortStreamBuilder, Setting};
pub use types::{ClearBuffer, DataBits, FlowControl, Parity, StopBits};
