use vstd::prelude::*;

verus! {

/// Errors that can occur during emulation.
///
/// ROM parsing problems are reported at load time; once a system exists,
/// the only runtime error is an invalid opcode reached during dispatch.
#[derive(Debug, Clone, PartialEq, Eq)]
pub enum EmulatorError {
    /// Reserved: an address outside the 16-bit space (cannot occur).
    InvalidAddress(u16),
    /// An unknown opcode byte was reached during dispatch.
    InvalidOpcode(u8),
    /// The ROM image could not be parsed (bad magic, truncation).
    RomLoadError(String),
    /// The ROM requests a mapper this core does not implement.
    UnsupportedMapper(u8),
    /// Any other emulation error, described by a message.
    Other(String),
}

} // verus!
