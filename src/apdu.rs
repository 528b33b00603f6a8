//! Short-form ISO/IEC 7816-4 APDUs: the bytes sent to the card and the bytes it answers.

use vstd::prelude::*;

pub mod command;
pub mod response;

pub use command::Command;
pub use response::Response;

verus! {

/// Class byte of the interindustry commands.
pub const CLA_DEFAULT: u8 = 0x00;

/// Instruction byte of SELECT FILE.
pub const INS_SELECT_FILE: u8 = 0xA4;

/// Instruction byte of READ BINARY.
pub const INS_READ_BINARY: u8 = 0xB0;

/// Instruction byte of VERIFY.
pub const INS_VERIFY: u8 = 0x20;

/// A status word that does not report success, carried as the card sent it.
#[derive(Clone, Copy, Debug, PartialEq, Eq, Structural)]
pub struct StatusError {
    pub sw1: u8,
    pub sw2: u8,
}

impl From<(u8, u8)> for StatusError {
    fn from(trailer: (u8, u8)) -> (r: StatusError)
        ensures
            r == (StatusError { sw1: trailer.0, sw2: trailer.1 }),
    {
        StatusError { sw1: trailer.0, sw2: trailer.1 }
    }
}

impl vstd::std_specs::convert::FromSpecImpl<(u8, u8)> for StatusError {
    open spec fn obeys_from_spec() -> bool {
        true
    }

    open spec fn from_spec(trailer: (u8, u8)) -> StatusError {
        StatusError { sw1: trailer.0, sw2: trailer.1 }
    }
}

} // verus!
