use vstd::prelude::*;

verus! {

/// Wire code for the end-of-subnegotiation marker (SE).
pub const SE: u8 = 240;

/// Wire code for the no-operation command (NOP).
pub const NOP: u8 = 241;

/// Wire code for the data-mark command.
pub const DATA_MARK: u8 = 242;

/// Wire code for the break command.
pub const BREAK: u8 = 243;

/// Wire code for the interrupt-process command.
pub const INTERRUPT_PROCESS: u8 = 244;

/// Wire code for the abort-output command.
pub const ABORT_OUTPUT: u8 = 245;

/// Wire code for the are-you-there command.
pub const ARE_YOU_THERE: u8 = 246;

/// Wire code for the erase-character command.
pub const ERASE_CHARACTER: u8 = 247;

/// Wire code for the erase-line command.
pub const ERASE_LINE: u8 = 248;

/// Wire code for the go-ahead command.
pub const GO_AHEAD: u8 = 249;

/// Wire code for the begin-subnegotiation marker (SB).
pub const SB: u8 = 250;

/// Wire code for the WILL negotiation verb.
pub const WILL: u8 = 251;

/// Wire code for the WONT negotiation verb.
pub const WONT: u8 = 252;

/// Wire code for the DO negotiation verb.
pub const DO: u8 = 253;

/// Wire code for the DONT negotiation verb.
pub const DONT: u8 = 254;

/// Wire code for the control-escape byte (IAC) that introduces every
/// command, negotiation and subnegotiation sequence.
pub const IAC: u8 = 255;

} // verus!
