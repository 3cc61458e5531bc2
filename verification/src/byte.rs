use vstd::prelude::*;

verus! {

/// Interpret as command: introduces every control sequence.
pub const BYTE_IAC: u8 = 255;

/// DONT: the sender asks the receiver not to use an option.
pub const BYTE_DONT: u8 = 254;

/// DO: the sender asks the receiver to use an option.
pub const BYTE_DO: u8 = 253;

/// WONT: the sender will not use an option.
pub const BYTE_WONT: u8 = 252;

/// WILL: the sender will use an option.
pub const BYTE_WILL: u8 = 251;

/// SB: start of a sub-negotiation.
pub const BYTE_SB: u8 = 250;

/// SE: end of a sub-negotiation.
pub const BYTE_SE: u8 = 240;

} // verus!
