//! Logging by symbol address.

use vstd::prelude::*;

verus! {

/// A sink for log messages. A message travels as the address of the symbol
/// that carries its text; the sink decides where the address goes.
pub trait Log {
    /// What the sink can fail with.
    type Error;

    /// Sends the address of one message.
    fn log(&mut self, address: u8) -> Result<(), Self::Error>;
}

} // verus!
