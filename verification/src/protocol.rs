//! Values of the client-facing SOCKS5 wire protocol.

use vstd::prelude::*;

verus! {

/// A command a client can ask for.
#[derive(Clone, Copy, Debug, PartialEq, Eq, Structural)]
pub enum Command {
    Connect,
    Bind,
    UdpAssociate,
}

/// The command byte of each command.
pub open spec fn command_code(command: Command) -> u8 {
    match command {
        Command::Connect => 1,
        Command::Bind => 2,
        Command::UdpAssociate => 3,
    }
}

/// The command a byte stands for, if any.
pub open spec fn command_of(code: u8) -> Option<Command> {
    if code == 1 {
        Some(Command::Connect)
    } else if code == 2 {
        Some(Command::Bind)
    } else if code == 3 {
        Some(Command::UdpAssociate)
    } else {
        None
    }
}

impl Command {
    /// The byte that carries this command in a request.
    pub fn code(self) -> (code: u8)
        ensures
            code == command_code(self),
    {
        match self {
            Command::Connect => 1,
            Command::Bind => 2,
            Command::UdpAssociate => 3,
        }
    }

    /// Reads a command byte; bytes other than 1, 2 and 3 name no command.
    pub fn from_code(code: u8) -> (command: Option<Command>)
        ensures
            command == command_of(code),
    {
        if code == 1 {
            Some(Command::Connect)
        } else if code == 2 {
            Some(Command::Bind)
        } else if code == 3 {
            Some(Command::UdpAssociate)
        } else {
            None
        }
    }

    /// Only CONNECT is served; the other commands are answered with
    /// [`ReplyCode::CommandNotSupported`].
    pub fn is_supported(self) -> (supported: bool)
        ensures
            supported == (self == Command::Connect),
    {
        match self {
            Command::Connect => true,
            _ => false,
        }
    }
}

/// The reply codes this proxy sends.
#[derive(Clone, Copy, Debug, PartialEq, Eq, Structural)]
pub enum ReplyCode {
    Succeeded,
    HostUnreachable,
    CommandNotSupported,
}

/// The reply byte of each reply code.
pub open spec fn reply_code(reply: ReplyCode) -> u8 {
    match reply {
        ReplyCode::Succeeded => 0,
        ReplyCode::HostUnreachable => 4,
        ReplyCode::CommandNotSupported => 7,
    }
}

impl ReplyCode {
    /// The byte that carries this reply code in a reply.
    pub fn code(self) -> (code: u8)
        ensures
            code == reply_code(self),
    {
        match self {
            ReplyCode::Succeeded => 0,
            ReplyCode::HostUnreachable => 4,
            ReplyCode::CommandNotSupported => 7,
        }
    }
}

/// Every command survives the trip through its byte, and every byte that
/// names a command is that command's byte.
pub proof fn lemma_command_code_round_trip(command: Command, code: u8)
    ensures
        command_of(command_code(command)) == Some(command),
        command_of(code) matches Some(c) ==> command_code(c) == code,
{
}

} // verus!
