//! # Structural dispatch
//!
//! The one table that says, for each message type, which structure follows
//! the top-level header, and for each instruction, which extra header
//! follows the command header.  Both lookups are exhaustive: a message type
//! that the table leaves out comes back as `None`.
use vstd::prelude::*;
use crate::hdr::{Cmd, MsgType, Tp};

verus! {

/// What follows the top-level header of a message.
#[derive(Copy, Clone, Debug, PartialEq, Eq, Structural)]
pub enum Trailer {
    /// Nothing.
    Empty,
    /// A command header, and the extra header its instruction asks for.
    Command,
    /// A qubit notification: a qubit header.
    Qubit,
    /// A measurement outcome header.
    Outcome,
    /// A time information header.
    Time,
    /// A qubit header and an entanglement information header.
    Epr,
}

/// What follows the command header of a request.
#[derive(Copy, Clone, Debug, PartialEq, Eq, Structural)]
pub enum XtraKind {
    /// Nothing.
    Empty,
    /// A rotation header.
    Rot,
    /// A qubit header naming the target qubit.
    Qubit,
    /// A communication header naming the remote node.
    Comm,
}

impl XtraKind {
    pub open spec fn spec_len(self) -> u32 {
        match self {
            XtraKind::Empty => 0,
            XtraKind::Rot => 1,
            XtraKind::Qubit => 2,
            XtraKind::Comm => 8,
        }
    }

    /// Length in bytes of the extra header of this kind.
    pub fn len(&self) -> (r: u32)
        ensures
            r == self.spec_len(),
    {
        match self {
            XtraKind::Empty => 0,
            XtraKind::Rot => 1,
            XtraKind::Qubit => 2,
            XtraKind::Comm => 8,
        }
    }
}

impl Trailer {
    /// Length in bytes of a response trailer of this kind (a command's length
    /// depends on its instruction).
    pub open spec fn spec_notify_len(self) -> u32 {
        match self {
            Trailer::Qubit => 2,
            Trailer::Outcome => 1,
            Trailer::Time => 8,
            Trailer::Epr => 42,
            _ => 0,
        }
    }
}

impl MsgType {
    pub open spec fn spec_trailer(self) -> Option<Trailer> {
        match self {
            MsgType::Tp(Tp::Hello) => Some(Trailer::Empty),
            MsgType::Tp(Tp::Command) => Some(Trailer::Command),
            MsgType::Tp(Tp::Factory) => Some(Trailer::Command),
            MsgType::Tp(Tp::GetTime) => Some(Trailer::Command),
            MsgType::Tp(Tp::Done) => Some(Trailer::Empty),
            MsgType::Tp(Tp::Expire) => Some(Trailer::Empty),
            MsgType::Tp(Tp::Recv) => Some(Trailer::Qubit),
            MsgType::Tp(Tp::NewOk) => Some(Trailer::Qubit),
            MsgType::Tp(Tp::MeasOut) => Some(Trailer::Outcome),
            MsgType::Tp(Tp::InfTime) => Some(Trailer::Time),
            MsgType::Tp(Tp::EprOk) => Some(Trailer::Epr),
            MsgType::Tp(Tp::Mix) => None,
            MsgType::Tp(Tp::If) => None,
            MsgType::Error(_) => Some(Trailer::Empty),
        }
    }

    /// What follows the top-level header of a message of this type; `None`
    /// for a type this table does not cover.
    pub fn trailer(&self) -> (r: Option<Trailer>)
        ensures
            r == self.spec_trailer(),
    {
        match self {
            MsgType::Tp(Tp::Hello) => Some(Trailer::Empty),
            MsgType::Tp(Tp::Command) => Some(Trailer::Command),
            MsgType::Tp(Tp::Factory) => Some(Trailer::Command),
            MsgType::Tp(Tp::GetTime) => Some(Trailer::Command),
            MsgType::Tp(Tp::Done) => Some(Trailer::Empty),
            MsgType::Tp(Tp::Expire) => Some(Trailer::Empty),
            MsgType::Tp(Tp::Recv) => Some(Trailer::Qubit),
            MsgType::Tp(Tp::NewOk) => Some(Trailer::Qubit),
            MsgType::Tp(Tp::MeasOut) => Some(Trailer::Outcome),
            MsgType::Tp(Tp::InfTime) => Some(Trailer::Time),
            MsgType::Tp(Tp::EprOk) => Some(Trailer::Epr),
            MsgType::Tp(Tp::Mix) => None,
            MsgType::Tp(Tp::If) => None,
            MsgType::Error(_) => Some(Trailer::Empty),
        }
    }
}

impl Cmd {
    pub open spec fn spec_xtra_kind(self) -> XtraKind {
        match self {
            Cmd::RotX | Cmd::RotY | Cmd::RotZ => XtraKind::Rot,
            Cmd::Cnot | Cmd::Cphase => XtraKind::Qubit,
            Cmd::Send | Cmd::Epr => XtraKind::Comm,
            _ => XtraKind::Empty,
        }
    }

    /// Which extra header follows a command header with this instruction.
    pub fn xtra_kind(&self) -> (r: XtraKind)
        ensures
            r == self.spec_xtra_kind(),
    {
        match self {
            Cmd::RotX | Cmd::RotY | Cmd::RotZ => XtraKind::Rot,
            Cmd::Cnot | Cmd::Cphase => XtraKind::Qubit,
            Cmd::Send | Cmd::Epr => XtraKind::Comm,
            _ => XtraKind::Empty,
        }
    }
}

} // verus!
