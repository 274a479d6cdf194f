use vstd::prelude::*;
use crate::event::Event;
use crate::pow::str_equal;

verus! {

/// A parsed inbound frame.
#[derive(Clone, Debug)]
pub enum NostrMessage {
    AuthMsg(AuthCmd),
    PowMsg(PowCmd),
}

/// An auth response as it arrives: `{"cmd": "AUTH", "event": {...}}`.
#[derive(Clone, Debug)]
pub struct AuthCmd {
    pub cmd: String,
    pub event: Event,
}

/// An accepted auth command.
#[derive(Clone, Debug)]
pub struct Auth {
    pub event: Event,
}

/// A mining request as it arrives: `{"cmd": "POW", "target_pow": n, "event": {...}}`.
#[derive(Clone, Debug)]
pub struct PowCmd {
    pub cmd: String,
    pub target_pow: u16,
    pub event: Event,
}

/// An accepted mining command.
#[derive(Clone, Debug)]
pub struct Pow {
    pub target_pow: u16,
    pub event: Event,
}

/// A frame that names no known command.
#[derive(PartialEq, Eq, Structural, Debug, Clone, Copy)]
pub enum CommandError {
    UnknownCommand,
}

impl From<AuthCmd> for Result<Auth, CommandError> {
    fn from(msg: AuthCmd) -> (r: Result<Auth, CommandError>) {
        if str_equal(msg.cmd.as_str(), "AUTH") {
            Ok(Auth { event: msg.event })
        } else {
            Err(CommandError::UnknownCommand)
        }
    }
}

impl vstd::std_specs::convert::FromSpecImpl<AuthCmd> for Result<Auth, CommandError> {
    open spec fn obeys_from_spec() -> bool {
        true
    }

    open spec fn from_spec(msg: AuthCmd) -> Self {
        if msg.cmd@ == "AUTH"@ {
            Ok(Auth { event: msg.event })
        } else {
            Err(CommandError::UnknownCommand)
        }
    }
}

impl From<PowCmd> for Result<Pow, CommandError> {
    fn from(msg: PowCmd) -> (r: Result<Pow, CommandError>) {
        if str_equal(msg.cmd.as_str(), "POW") {
            Ok(Pow { target_pow: msg.target_pow, event: msg.event })
        } else {
            Err(CommandError::UnknownCommand)
        }
    }
}

impl vstd::std_specs::convert::FromSpecImpl<PowCmd> for Result<Pow, CommandError> {
    open spec fn obeys_from_spec() -> bool {
        true
    }

    open spec fn from_spec(msg: PowCmd) -> Self {
        if msg.cmd@ == "POW"@ {
            Ok(Pow { target_pow: msg.target_pow, event: msg.event })
        } else {
            Err(CommandError::UnknownCommand)
        }
    }
}

} // verus!
