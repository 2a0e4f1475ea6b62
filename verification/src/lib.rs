//! A verified model of asynchronous, engine-driven serial transfers: the
//! channel that moves the bytes, the serial port that owns the channel, the
//! pinned buffers the engine addresses, and the transfer token that owns
//! buffer and port while the engine runs.

pub mod buffer;
pub mod channel;
pub mod fence;
pub mod laws;
pub mod log;
pub mod peripherals;
pub mod serial;
