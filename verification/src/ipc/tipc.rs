//! The secondary protocol: no domains, no data header; the request id
//! travels in the command type.

use vstd::prelude::*;

pub mod client;

verus! {

/// The command type of the request with id zero; the request with id `n`
/// has the command type `REQUEST_BASE + n`.
pub const REQUEST_BASE: u32 = 16;

/// The command types below the requests.
#[derive(Copy, Clone, PartialEq, Eq, Structural, Debug)]
pub enum CommandType {
    Invalid,
    CloseSession,
}

impl CommandType {
    /// The value on the wire.
    pub open spec fn spec_value(self) -> u32 {
        match self {
            CommandType::Invalid => 0,
            CommandType::CloseSession => 15,
        }
    }

    pub fn value(self) -> (v: u32)
        ensures
            v == self.spec_value(),
    {
        match self {
            CommandType::Invalid => 0,
            CommandType::CloseSession => 15,
        }
    }
}

} // verus!
