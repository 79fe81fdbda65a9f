//! FINS/TCP command codes: the 32-bit word of the envelope naming what
//! a frame carries.

use crate::num::{be_bytes, be_val, u32be};
use crate::tcp::protocol_violation::ProtocolViolation;
use vstd::prelude::*;

verus! {

broadcast use crate::num::lemma_u32be_len;

/// A command code as read from the wire, not yet validated.
#[derive(Debug, Default, Copy, Clone, Eq, PartialEq)]
pub struct RawCommandCode(u32be);

/// A raw command code always views as exactly its four bytes.
pub broadcast proof fn lemma_raw_command_code_len(v: RawCommandCode)
    ensures
        (#[trigger] v.spec_bytes()).len() == 4,
{
}

/// The 32-bit command word of each recognized command.
pub open spec fn spec_command_word(command: CommandCode) -> int {
    match command {
        CommandCode::ClientAddress => 0,
        CommandCode::ServerAddress => 1,
        CommandCode::Fins => 2,
    }
}

/// The command a 32-bit word encodes, if any.
pub open spec fn spec_command_decode(word: int) -> Option<CommandCode> {
    if word == 0 {
        Some(CommandCode::ClientAddress)
    } else if word == 1 {
        Some(CommandCode::ServerAddress)
    } else if word == 2 {
        Some(CommandCode::Fins)
    } else {
        None
    }
}

/// Serializing any command code and decoding the word again yields the
/// code unchanged.
pub proof fn lemma_command_code_round_trip(command: CommandCode)
    ensures
        spec_command_decode(spec_command_word(command)) == Some(command),
{
}

impl RawCommandCode {
    /// The four wire bytes of the raw command code.
    pub closed spec fn spec_bytes(self) -> Seq<u8> {
        self.0@
    }

    /// The integer value of the raw command code.
    pub open spec fn word(self) -> int {
        be_val(self.spec_bytes())
    }

    /// Wraps four wire bytes.
    pub fn from_bytes(val: [u8; 4]) -> (r: Self)
        ensures
            r.spec_bytes() == val@,
    {
        RawCommandCode(u32be::from_bytes(val))
    }

    /// The four wire bytes of the raw command code.
    pub fn to_bytes(self) -> (r: [u8; 4])
        ensures
            r@ == self.spec_bytes(),
    {
        self.0.to_bytes()
    }

    /// The native value of the raw command code.
    pub fn to_u32(self) -> (r: u32)
        ensures
            r == self.word(),
    {
        self.0.to_u32()
    }
}

/// What a FINS/TCP frame carries: a handshake body or FINS data.
#[derive(Debug, Copy, Clone, Eq, PartialEq, Structural)]
pub enum CommandCode {
    ClientAddress,
    ServerAddress,
    Fins,
}

impl CommandCode {
    /// Packs the command into its four wire bytes.
    pub fn to_raw(self) -> (r: RawCommandCode)
        ensures
            r.spec_bytes() == be_bytes(spec_command_word(self), 4),
            r.word() == spec_command_word(self),
    {
        match self {
            CommandCode::ClientAddress => RawCommandCode(u32be::from_u32(0)),
            CommandCode::ServerAddress => RawCommandCode(u32be::from_u32(1)),
            CommandCode::Fins => RawCommandCode(u32be::from_u32(2)),
        }
    }

    /// The command's name, for diagnostics.
    pub fn name(&self) -> (s: &'static str)
        ensures
            *self is ClientAddress ==> s@ == "ClientAddress"@,
            *self is ServerAddress ==> s@ == "ServerAddress"@,
            *self is Fins ==> s@ == "Fins"@,
    {
        match self {
            CommandCode::ClientAddress => "ClientAddress",
            CommandCode::ServerAddress => "ServerAddress",
            CommandCode::Fins => "Fins",
        }
    }

    /// Validates the wire word and names the command it encodes.
    ///
    /// Fails, carrying the offending raw word, on every unrecognized
    /// value.
    pub fn from_raw(val: RawCommandCode) -> (r: Result<Self, ProtocolViolation>)
        ensures
            match spec_command_decode(val.word()) {
                Some(command) => r == Ok::<_, ProtocolViolation>(command),
                None => r == Err::<CommandCode, _>(ProtocolViolation::UnknownCommand(val)),
            },
    {
        let word = val.to_u32();
        if word == 0 {
            Ok(Self::ClientAddress)
        } else if word == 1 {
            Ok(Self::ServerAddress)
        } else if word == 2 {
            Ok(Self::Fins)
        } else {
            Err(ProtocolViolation::UnknownCommand(val))
        }
    }
}

} // verus!
