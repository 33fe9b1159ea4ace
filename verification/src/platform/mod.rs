//! Platform-specific decisions.

pub mod open;
pub mod shutdown;
pub mod unix;
pub mod windows;
