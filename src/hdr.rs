//! # CQC headers
//!
//! Every header kind of the protocol, its fixed length in bytes, its layout
//! on the wire, and the validated conversions between the one-byte codes and
//! the named variants they stand for.  An unknown code converts to `None`,
//! never to a guessed variant.
use vstd::prelude::*;
use crate::wire::{
    be16, be32, be64, get_u16, get_u32, get_u64, holds_at, lemma_be16_of_u16_at,
    lemma_be32_of_u32_at, lemma_be64_of_u64_at, lemma_holds_at_part, lemma_subrange_concat,
    lemma_u16_at, lemma_u32_at, lemma_u64_at, put_u16, put_u32, put_u64, put_u8, u16_at, u32_at, u64_at,
};

verus! {

/// The version byte of every packet this library writes and accepts.
pub const CQC_VERSION: u8 = 2;

/// Flag of `CmdOpt`: send a notification when the command completes.
pub const CMD_OPT_NOTIFY: u8 = 0x01;

/// Flag of `CmdOpt`: there are actions to execute when done.
pub const CMD_OPT_ACTION: u8 = 0x02;

/// Flag of `CmdOpt` and `FactoryOpt`: block until the command is done.
pub const CMD_OPT_BLOCK: u8 = 0x04;

/// Flag of `CmdOpt`: execute the command after done.
pub const CMD_OPT_IFTHEN: u8 = 0x08;

// ----------------------------------------------------------------------------
// Version.
// ----------------------------------------------------------------------------

/// Protocol versions this library speaks.
#[derive(Copy, Clone, Debug, PartialEq, Eq, Structural)]
pub enum Version {
    V2,
}

impl Version {
    /// The one-byte code on the wire.
    pub open spec fn spec_to_u8(self) -> u8 {
        match self {
            Version::V2 => 2,
        }
    }

    /// The version byte.
    pub fn to_u8(self) -> (r: u8)
        ensures
            r == self.spec_to_u8(),
    {
        match self {
            Version::V2 => 2,
        }
    }

    /// Converts a version byte; `None` if that version is not supported.
    pub fn get(value: u8) -> (r: Option<Version>)
        ensures
            match r {
                Some(v) => v.spec_to_u8() == value,
                None => forall|v: Version| #[trigger] v.spec_to_u8() != value,
            },
    {
        if value == 2 {
            Some(Version::V2)
        } else {
            None
        }
    }
}

// ----------------------------------------------------------------------------
// Message types.
// ----------------------------------------------------------------------------

/// Message type: a normal type, or an error type.
#[derive(Copy, Clone, Debug, PartialEq, Eq, Structural)]
pub enum MsgType {
    Tp(Tp),
    Error(ErrTp),
}

/// Normal message types.
#[derive(Copy, Clone, Debug, PartialEq, Eq, Structural)]
pub enum Tp {
    /// Alive check.
    Hello,
    /// Execute a command list.
    Command,
    /// Start executing a command list repeatedly.
    Factory,
    /// Qubit has expired.
    Expire,
    /// Command execution done.
    Done,
    /// Received qubit.
    Recv,
    /// Created EPR pair.
    EprOk,
    /// Measurement outcome.
    MeasOut,
    /// Get creation time of qubit.
    GetTime,
    /// Inform about time.
    InfTime,
    /// Created new qubit.
    NewOk,
    /// Multiple header types will follow.
    Mix,
    /// Perform a conditional action.
    If,
}

/// Error message types.
#[derive(Copy, Clone, Debug, PartialEq, Eq, Structural)]
pub enum ErrTp {
    /// General purpose error (no details).
    General,
    /// No more qubits available.
    NoQubit,
    /// Command sequence not supported.
    Unsupp,
    /// Timeout.
    Timeout,
    /// Qubit already in use.
    InUse,
    /// Unknown qubit ID.
    Unknown,
}

impl Tp {
    /// The one-byte code on the wire.
    pub open spec fn spec_to_u8(self) -> u8 {
        match self {
            Tp::Hello => 0,
            Tp::Command => 1,
            Tp::Factory => 2,
            Tp::Expire => 3,
            Tp::Done => 4,
            Tp::Recv => 5,
            Tp::EprOk => 6,
            Tp::MeasOut => 7,
            Tp::GetTime => 8,
            Tp::InfTime => 9,
            Tp::NewOk => 10,
            Tp::Mix => 11,
            Tp::If => 12,
        }
    }

    /// The code of this normal message type.
    pub fn to_u8(self) -> (r: u8)
        ensures
            r == self.spec_to_u8(),
    {
        match self {
            Tp::Hello => 0,
            Tp::Command => 1,
            Tp::Factory => 2,
            Tp::Expire => 3,
            Tp::Done => 4,
            Tp::Recv => 5,
            Tp::EprOk => 6,
            Tp::MeasOut => 7,
            Tp::GetTime => 8,
            Tp::InfTime => 9,
            Tp::NewOk => 10,
            Tp::Mix => 11,
            Tp::If => 12,
        }
    }

    /// Converts a code to a normal message type; `None` if no normal message
    /// type has that code.
    pub fn get(value: u8) -> (r: Option<Tp>)
        ensures
            match r {
                Some(t) => t.spec_to_u8() == value,
                None => forall|t: Tp| #[trigger] t.spec_to_u8() != value,
            },
    {
        match value {
            0 => Some(Tp::Hello),
            1 => Some(Tp::Command),
            2 => Some(Tp::Factory),
            3 => Some(Tp::Expire),
            4 => Some(Tp::Done),
            5 => Some(Tp::Recv),
            6 => Some(Tp::EprOk),
            7 => Some(Tp::MeasOut),
            8 => Some(Tp::GetTime),
            9 => Some(Tp::InfTime),
            10 => Some(Tp::NewOk),
            11 => Some(Tp::Mix),
            12 => Some(Tp::If),
            _ => None,
        }
    }
}

impl ErrTp {
    /// The one-byte code on the wire.
    pub open spec fn spec_to_u8(self) -> u8 {
        match self {
            ErrTp::General => 20,
            ErrTp::NoQubit => 21,
            ErrTp::Unsupp => 22,
            ErrTp::Timeout => 23,
            ErrTp::InUse => 24,
            ErrTp::Unknown => 25,
        }
    }

    /// The code of this error message type.
    pub fn to_u8(self) -> (r: u8)
        ensures
            r == self.spec_to_u8(),
    {
        match self {
            ErrTp::General => 20,
            ErrTp::NoQubit => 21,
            ErrTp::Unsupp => 22,
            ErrTp::Timeout => 23,
            ErrTp::InUse => 24,
            ErrTp::Unknown => 25,
        }
    }

    /// Converts a code to an error message type; `None` if no error message
    /// type has that code.
    pub fn get(value: u8) -> (r: Option<ErrTp>)
        ensures
            match r {
                Some(e) => e.spec_to_u8() == value,
                None => forall|e: ErrTp| #[trigger] e.spec_to_u8() != value,
            },
    {
        match value {
            20 => Some(ErrTp::General),
            21 => Some(ErrTp::NoQubit),
            22 => Some(ErrTp::Unsupp),
            23 => Some(ErrTp::Timeout),
            24 => Some(ErrTp::InUse),
            25 => Some(ErrTp::Unknown),
            _ => None,
        }
    }
}

impl MsgType {
    /// The one-byte code on the wire.
    pub open spec fn spec_to_u8(self) -> u8 {
        match self {
            MsgType::Tp(t) => t.spec_to_u8(),
            MsgType::Error(e) => e.spec_to_u8(),
        }
    }

    /// The code of this message type.
    pub fn to_u8(self) -> (r: u8)
        ensures
            r == self.spec_to_u8(),
    {
        match self {
            MsgType::Tp(t) => t.to_u8(),
            MsgType::Error(e) => e.to_u8(),
        }
    }

    /// Converts a code to a message type; `None` if the code lies outside
    /// both the normal and the error range.
    fn lookup(value: u8) -> (r: Option<MsgType>)
        ensures
            match r {
                Some(m) => m.spec_to_u8() == value,
                None => forall|m: MsgType| #[trigger] m.spec_to_u8() != value,
            },
    {
        if value <= 12 {
            match Tp::get(value) {
                Some(t) => Some(MsgType::Tp(t)),
                None => None,
            }
        } else if 20 <= value && value <= 25 {
            match ErrTp::get(value) {
                Some(e) => Some(MsgType::Error(e)),
                None => None,
            }
        } else {
            assert forall|m: MsgType| #[trigger] m.spec_to_u8() != value by {
                match m {
                    MsgType::Tp(t) => assert(t.spec_to_u8() <= 12),
                    MsgType::Error(e) => assert(20 <= e.spec_to_u8() <= 25),
                }
            }
            None
        }
    }

    /// Whether this is a normal message type.
    pub fn is_tp(&self) -> (r: bool)
        ensures
            r == (self is Tp),
    {
        match self {
            MsgType::Tp(_) => true,
            MsgType::Error(_) => false,
        }
    }

    /// Whether this is an error message type.
    pub fn is_err(&self) -> (r: bool)
        ensures
            r == (self is Error),
    {
        match self {
            MsgType::Tp(_) => false,
            MsgType::Error(_) => true,
        }
    }

    /// Whether this is the alive check message type.
    pub fn is_hello(&self) -> (r: bool)
        ensures
            r == (*self == MsgType::Tp(Tp::Hello)),
    {
        match self {
            MsgType::Tp(Tp::Hello) => true,
            _ => false,
        }
    }

    /// Whether this is the command list message type.
    pub fn is_command(&self) -> (r: bool)
        ensures
            r == (*self == MsgType::Tp(Tp::Command)),
    {
        match self {
            MsgType::Tp(Tp::Command) => true,
            _ => false,
        }
    }

    /// Whether this is the factory message type.
    pub fn is_factory(&self) -> (r: bool)
        ensures
            r == (*self == MsgType::Tp(Tp::Factory)),
    {
        match self {
            MsgType::Tp(Tp::Factory) => true,
            _ => false,
        }
    }

    /// Whether this is the qubit expired message type.
    pub fn is_expire(&self) -> (r: bool)
        ensures
            r == (*self == MsgType::Tp(Tp::Expire)),
    {
        match self {
            MsgType::Tp(Tp::Expire) => true,
            _ => false,
        }
    }

    /// Whether this is the command done message type.
    pub fn is_done(&self) -> (r: bool)
        ensures
            r == (*self == MsgType::Tp(Tp::Done)),
    {
        match self {
            MsgType::Tp(Tp::Done) => true,
            _ => false,
        }
    }

    /// Whether this is the qubit received message type.
    pub fn is_recv(&self) -> (r: bool)
        ensures
            r == (*self == MsgType::Tp(Tp::Recv)),
    {
        match self {
            MsgType::Tp(Tp::Recv) => true,
            _ => false,
        }
    }

    /// Whether this is the EPR pair created message type.
    pub fn is_epr_ok(&self) -> (r: bool)
        ensures
            r == (*self == MsgType::Tp(Tp::EprOk)),
    {
        match self {
            MsgType::Tp(Tp::EprOk) => true,
            _ => false,
        }
    }

    /// Whether this is the measurement outcome message type.
    pub fn is_measout(&self) -> (r: bool)
        ensures
            r == (*self == MsgType::Tp(Tp::MeasOut)),
    {
        match self {
            MsgType::Tp(Tp::MeasOut) => true,
            _ => false,
        }
    }

    /// Whether this is the get creation time message type.
    pub fn is_get_time(&self) -> (r: bool)
        ensures
            r == (*self == MsgType::Tp(Tp::GetTime)),
    {
        match self {
            MsgType::Tp(Tp::GetTime) => true,
            _ => false,
        }
    }

    /// Whether this is the time information message type.
    pub fn is_inf_time(&self) -> (r: bool)
        ensures
            r == (*self == MsgType::Tp(Tp::InfTime)),
    {
        match self {
            MsgType::Tp(Tp::InfTime) => true,
            _ => false,
        }
    }

    /// Whether this is the new qubit created message type.
    pub fn is_new_ok(&self) -> (r: bool)
        ensures
            r == (*self == MsgType::Tp(Tp::NewOk)),
    {
        match self {
            MsgType::Tp(Tp::NewOk) => true,
            _ => false,
        }
    }

    /// Whether this is the mixed headers message type.
    pub fn is_mix(&self) -> (r: bool)
        ensures
            r == (*self == MsgType::Tp(Tp::Mix)),
    {
        match self {
            MsgType::Tp(Tp::Mix) => true,
            _ => false,
        }
    }

    /// Whether this is the conditional action message type.
    pub fn is_if(&self) -> (r: bool)
        ensures
            r == (*self == MsgType::Tp(Tp::If)),
    {
        match self {
            MsgType::Tp(Tp::If) => true,
            _ => false,
        }
    }

    /// Whether this is the general error error type.
    pub fn is_err_general(&self) -> (r: bool)
        ensures
            r == (*self == MsgType::Error(ErrTp::General)),
    {
        match self {
            MsgType::Error(ErrTp::General) => true,
            _ => false,
        }
    }

    /// Whether this is the no qubit available error type.
    pub fn is_err_noqubit(&self) -> (r: bool)
        ensures
            r == (*self == MsgType::Error(ErrTp::NoQubit)),
    {
        match self {
            MsgType::Error(ErrTp::NoQubit) => true,
            _ => false,
        }
    }

    /// Whether this is the unsupported command sequence error type.
    pub fn is_err_unsupp(&self) -> (r: bool)
        ensures
            r == (*self == MsgType::Error(ErrTp::Unsupp)),
    {
        match self {
            MsgType::Error(ErrTp::Unsupp) => true,
            _ => false,
        }
    }

    /// Whether this is the timeout error type.
    pub fn is_err_timeout(&self) -> (r: bool)
        ensures
            r == (*self == MsgType::Error(ErrTp::Timeout)),
    {
        match self {
            MsgType::Error(ErrTp::Timeout) => true,
            _ => false,
        }
    }

    /// Whether this is the qubit in use error type.
    pub fn is_err_inuse(&self) -> (r: bool)
        ensures
            r == (*self == MsgType::Error(ErrTp::InUse)),
    {
        match self {
            MsgType::Error(ErrTp::InUse) => true,
            _ => false,
        }
    }

    /// Whether this is the unknown qubit error type.
    pub fn is_err_unknown(&self) -> (r: bool)
        ensures
            r == (*self == MsgType::Error(ErrTp::Unknown)),
    {
        match self {
            MsgType::Error(ErrTp::Unknown) => true,
            _ => false,
        }
    }
}

impl From<MsgType> for u8 {
    fn from(msg_type: MsgType) -> (r: u8) {
        msg_type.to_u8()
    }
}

impl vstd::std_specs::convert::FromSpecImpl<MsgType> for u8 {
    open spec fn obeys_from_spec() -> bool {
        true
    }

    open spec fn from_spec(v: MsgType) -> u8 {
        v.spec_to_u8()
    }
}

// ----------------------------------------------------------------------------
// Instructions.
// ----------------------------------------------------------------------------

/// Instruction of a command header.
#[derive(Copy, Clone, Debug, PartialEq, Eq, Structural)]
pub enum Cmd {
    /// Identity (do nothing, wait one step).
    I,
    /// Ask for a new qubit.
    New,
    /// Measure qubit.
    Measure,
    /// Measure qubit in-place.
    MeasureInplace,
    /// Reset qubit to |0>.
    Reset,
    /// Send qubit to another node.
    Send,
    /// Ask to receive qubit.
    Recv,
    /// Create EPR pair with the specified node.
    Epr,
    /// Receive EPR pair.
    EprRecv,
    /// Pauli X.
    X,
    /// Pauli Z.
    Z,
    /// Pauli Y.
    Y,
    /// T gate.
    T,
    /// Rotation over angle around X in pi/256 increments.
    RotX,
    /// Rotation over angle around Y in pi/256 increments.
    RotY,
    /// Rotation over angle around Z in pi/256 increments.
    RotZ,
    /// Hadamard gate.
    H,
    /// K gate, taking the computational basis to the Y eigenbasis.
    K,
    /// CNOT gate with this qubit as control.
    Cnot,
    /// CPHASE gate with this qubit as control.
    Cphase,
    /// Allocate a number of qubits.
    Allocate,
    /// Release a qubit.
    Release,
}

impl Cmd {
    /// The one-byte code on the wire.
    pub open spec fn spec_to_u8(self) -> u8 {
        match self {
            Cmd::I => 0,
            Cmd::New => 1,
            Cmd::Measure => 2,
            Cmd::MeasureInplace => 3,
            Cmd::Reset => 4,
            Cmd::Send => 5,
            Cmd::Recv => 6,
            Cmd::Epr => 7,
            Cmd::EprRecv => 8,
            Cmd::X => 10,
            Cmd::Z => 11,
            Cmd::Y => 12,
            Cmd::T => 13,
            Cmd::RotX => 14,
            Cmd::RotY => 15,
            Cmd::RotZ => 16,
            Cmd::H => 17,
            Cmd::K => 18,
            Cmd::Cnot => 20,
            Cmd::Cphase => 21,
            Cmd::Allocate => 22,
            Cmd::Release => 23,
        }
    }

    /// The code of this value.
    pub fn to_u8(self) -> (r: u8)
        ensures
            r == self.spec_to_u8(),
    {
        match self {
            Cmd::I => 0,
            Cmd::New => 1,
            Cmd::Measure => 2,
            Cmd::MeasureInplace => 3,
            Cmd::Reset => 4,
            Cmd::Send => 5,
            Cmd::Recv => 6,
            Cmd::Epr => 7,
            Cmd::EprRecv => 8,
            Cmd::X => 10,
            Cmd::Z => 11,
            Cmd::Y => 12,
            Cmd::T => 13,
            Cmd::RotX => 14,
            Cmd::RotY => 15,
            Cmd::RotZ => 16,
            Cmd::H => 17,
            Cmd::K => 18,
            Cmd::Cnot => 20,
            Cmd::Cphase => 21,
            Cmd::Allocate => 22,
            Cmd::Release => 23,
        }
    }

    /// Converts a code to an instruction; `None` if no instruction has that code.
    fn lookup(value: u8) -> (r: Option<Cmd>)
        ensures
            match r {
                Some(c) => c.spec_to_u8() == value,
                None => forall|c: Cmd| #[trigger] c.spec_to_u8() != value,
            },
    {
        match value {
            0 => Some(Cmd::I),
            1 => Some(Cmd::New),
            2 => Some(Cmd::Measure),
            3 => Some(Cmd::MeasureInplace),
            4 => Some(Cmd::Reset),
            5 => Some(Cmd::Send),
            6 => Some(Cmd::Recv),
            7 => Some(Cmd::Epr),
            8 => Some(Cmd::EprRecv),
            10 => Some(Cmd::X),
            11 => Some(Cmd::Z),
            12 => Some(Cmd::Y),
            13 => Some(Cmd::T),
            14 => Some(Cmd::RotX),
            15 => Some(Cmd::RotY),
            16 => Some(Cmd::RotZ),
            17 => Some(Cmd::H),
            18 => Some(Cmd::K),
            20 => Some(Cmd::Cnot),
            21 => Some(Cmd::Cphase),
            22 => Some(Cmd::Allocate),
            23 => Some(Cmd::Release),
            _ => None,
        }
    }
}

/// Outcome of a measurement.
#[derive(Copy, Clone, Debug, PartialEq, Eq, Structural)]
pub enum MeasOut {
    Zero,
    One,
}

impl MeasOut {
    /// The one-byte code on the wire.
    pub open spec fn spec_to_u8(self) -> u8 {
        match self {
            MeasOut::Zero => 0,
            MeasOut::One => 1,
        }
    }

    /// The code of this value.
    pub fn to_u8(self) -> (r: u8)
        ensures
            r == self.spec_to_u8(),
    {
        match self {
            MeasOut::Zero => 0,
            MeasOut::One => 1,
        }
    }

    /// Converts a byte to a measurement outcome; `None` unless it is 0 or 1.
    fn lookup(value: u8) -> (r: Option<MeasOut>)
        ensures
            match r {
                Some(m) => m.spec_to_u8() == value,
                None => forall|m: MeasOut| #[trigger] m.spec_to_u8() != value,
            },
    {
        match value {
            0 => Some(MeasOut::Zero),
            1 => Some(MeasOut::One),
            _ => None,
        }
    }
}

/// Comparison operator of a conditional header.
#[derive(Copy, Clone, Debug, PartialEq, Eq, Structural)]
pub enum CmpType {
    /// Equal.
    Eq,
    /// Not equal.
    InEq,
}

impl CmpType {
    /// The one-byte code on the wire.
    pub open spec fn spec_to_u8(self) -> u8 {
        match self {
            CmpType::Eq => 0,
            CmpType::InEq => 1,
        }
    }

    /// The code of this value.
    pub fn to_u8(self) -> (r: u8)
        ensures
            r == self.spec_to_u8(),
    {
        match self {
            CmpType::Eq => 0,
            CmpType::InEq => 1,
        }
    }

    /// Converts a code to a comparison operator; `None` if no operator has that code.
    pub fn get(value: u8) -> (r: Option<CmpType>)
        ensures
            match r {
                Some(c) => c.spec_to_u8() == value,
                None => forall|c: CmpType| #[trigger] c.spec_to_u8() != value,
            },
    {
        match value {
            0 => Some(CmpType::Eq),
            1 => Some(CmpType::InEq),
            _ => None,
        }
    }
}

/// Kind of the right operand of a conditional header.
#[derive(Copy, Clone, Debug, PartialEq, Eq, Structural)]
pub enum OpType {
    /// An immediate value.
    Value,
    /// A reference to a stored value.
    RefId,
}

impl OpType {
    /// The one-byte code on the wire.
    pub open spec fn spec_to_u8(self) -> u8 {
        match self {
            OpType::Value => 0,
            OpType::RefId => 1,
        }
    }

    /// The code of this value.
    pub fn to_u8(self) -> (r: u8)
        ensures
            r == self.spec_to_u8(),
    {
        match self {
            OpType::Value => 0,
            OpType::RefId => 1,
        }
    }

    /// Converts a code to an operand kind; `None` if no kind has that code.
    pub fn get(value: u8) -> (r: Option<OpType>)
        ensures
            match r {
                Some(o) => o.spec_to_u8() == value,
                None => forall|o: OpType| #[trigger] o.spec_to_u8() != value,
            },
    {
        match value {
            0 => Some(OpType::Value),
            1 => Some(OpType::RefId),
            _ => None,
        }
    }
}

// ----------------------------------------------------------------------------
// Option flags.
// ----------------------------------------------------------------------------

/// Options of a command header, as independent flags in one byte: notify (0x01), action (0x02), block (0x04) and if-then (0x08).
#[derive(Copy, Clone, Debug, PartialEq, Eq, Structural)]
pub struct CmdOpt {
    bits: u8,
}

impl View for CmdOpt {
    type V = u8;

    closed spec fn view(&self) -> u8 {
        self.bits
    }
}

impl CmdOpt {
    /// The value that `from_bits_truncate(bits)` returns.
    pub closed spec fn spec_from_bits_truncate(bits: u8) -> CmdOpt {
        CmdOpt { bits: bits & 0x0F }
    }

    /// Only defined flags are set.
    pub open spec fn wf(self) -> bool {
        self@ & 0x0F == self@
    }

    /// Two option sets with the same bits are the same.
    pub proof fn lemma_view_injective(a: CmdOpt, b: CmdOpt)
        requires
            a@ == b@,
        ensures
            a == b,
    {
    }

    pub proof fn lemma_from_bits_truncate(bits: u8)
        ensures
            Self::spec_from_bits_truncate(bits)@ == bits & 0x0F,
            Self::spec_from_bits_truncate(bits).wf(),
    {
        assert((bits & 0x0F) & 0x0F == bits & 0x0F) by (bit_vector);
    }

    /// No flag set.
    pub fn empty() -> (r: CmdOpt)
        ensures
            r@ == 0,
            r.wf(),
    {
        assert(0u8 & 0x0F == 0u8) by (bit_vector);
        CmdOpt { bits: 0 }
    }

    /// The flags of `bits`; bits that stand for no flag are dropped.
    pub fn from_bits_truncate(bits: u8) -> (r: CmdOpt)
        ensures
            r == Self::spec_from_bits_truncate(bits),
            r@ == bits & 0x0F,
            r.wf(),
    {
        proof {
            Self::lemma_from_bits_truncate(bits);
        }
        CmdOpt { bits: bits & 0x0F }
    }

    /// The flags as one byte.
    pub fn bits(&self) -> (r: u8)
        ensures
            r == self@,
    {
        self.bits
    }

    /// Sets the notify flag; the other flags are kept.
    pub fn set_notify(&mut self) -> (r: &mut CmdOpt)
        ensures
            r@ == old(self)@ | 0x01,
            old(self).wf() ==> r.wf(),
            final(self)@ == final(r)@,
    {
        let b = self.bits;
        assert(b & 0x0F == b ==> (b | 0x01) & 0x0F == b | 0x01) by (bit_vector);
        self.bits = self.bits | 0x01;
        self
    }

    /// Whether the notify flag is set.
    pub fn get_notify(&self) -> (r: bool)
        ensures
            r == (self@ & 0x01 != 0),
    {
        self.bits & 0x01 != 0
    }

    /// Sets the action flag; the other flags are kept.
    pub fn set_action(&mut self) -> (r: &mut CmdOpt)
        ensures
            r@ == old(self)@ | 0x02,
            old(self).wf() ==> r.wf(),
            final(self)@ == final(r)@,
    {
        let b = self.bits;
        assert(b & 0x0F == b ==> (b | 0x02) & 0x0F == b | 0x02) by (bit_vector);
        self.bits = self.bits | 0x02;
        self
    }

    /// Whether the action flag is set.
    pub fn get_action(&self) -> (r: bool)
        ensures
            r == (self@ & 0x02 != 0),
    {
        self.bits & 0x02 != 0
    }

    /// Sets the block flag; the other flags are kept.
    pub fn set_block(&mut self) -> (r: &mut CmdOpt)
        ensures
            r@ == old(self)@ | 0x04,
            old(self).wf() ==> r.wf(),
            final(self)@ == final(r)@,
    {
        let b = self.bits;
        assert(b & 0x0F == b ==> (b | 0x04) & 0x0F == b | 0x04) by (bit_vector);
        self.bits = self.bits | 0x04;
        self
    }

    /// Whether the block flag is set.
    pub fn get_block(&self) -> (r: bool)
        ensures
            r == (self@ & 0x04 != 0),
    {
        self.bits & 0x04 != 0
    }

    /// Sets the if-then flag; the other flags are kept.
    pub fn set_ifthen(&mut self) -> (r: &mut CmdOpt)
        ensures
            r@ == old(self)@ | 0x08,
            old(self).wf() ==> r.wf(),
            final(self)@ == final(r)@,
    {
        let b = self.bits;
        assert(b & 0x0F == b ==> (b | 0x08) & 0x0F == b | 0x08) by (bit_vector);
        self.bits = self.bits | 0x08;
        self
    }

    /// Whether the if-then flag is set.
    pub fn get_ifthen(&self) -> (r: bool)
        ensures
            r == (self@ & 0x08 != 0),
    {
        self.bits & 0x08 != 0
    }
}

/// Options of a factory header, as independent flags in one byte: notify (0x01) and block (0x04).
#[derive(Copy, Clone, Debug, PartialEq, Eq, Structural)]
pub struct FactoryOpt {
    bits: u8,
}

impl View for FactoryOpt {
    type V = u8;

    closed spec fn view(&self) -> u8 {
        self.bits
    }
}

impl FactoryOpt {
    /// The value that `from_bits_truncate(bits)` returns.
    pub closed spec fn spec_from_bits_truncate(bits: u8) -> FactoryOpt {
        FactoryOpt { bits: bits & 0x05 }
    }

    /// Only defined flags are set.
    pub open spec fn wf(self) -> bool {
        self@ & 0x05 == self@
    }

    /// Two option sets with the same bits are the same.
    pub proof fn lemma_view_injective(a: FactoryOpt, b: FactoryOpt)
        requires
            a@ == b@,
        ensures
            a == b,
    {
    }

    pub proof fn lemma_from_bits_truncate(bits: u8)
        ensures
            Self::spec_from_bits_truncate(bits)@ == bits & 0x05,
            Self::spec_from_bits_truncate(bits).wf(),
    {
        assert((bits & 0x05) & 0x05 == bits & 0x05) by (bit_vector);
    }

    /// No flag set.
    pub fn empty() -> (r: FactoryOpt)
        ensures
            r@ == 0,
            r.wf(),
    {
        assert(0u8 & 0x05 == 0u8) by (bit_vector);
        FactoryOpt { bits: 0 }
    }

    /// The flags of `bits`; bits that stand for no flag are dropped.
    pub fn from_bits_truncate(bits: u8) -> (r: FactoryOpt)
        ensures
            r == Self::spec_from_bits_truncate(bits),
            r@ == bits & 0x05,
            r.wf(),
    {
        proof {
            Self::lemma_from_bits_truncate(bits);
        }
        FactoryOpt { bits: bits & 0x05 }
    }

    /// The flags as one byte.
    pub fn bits(&self) -> (r: u8)
        ensures
            r == self@,
    {
        self.bits
    }

    /// Sets the notify flag; the other flags are kept.
    pub fn set_notify(&mut self) -> (r: &mut FactoryOpt)
        ensures
            r@ == old(self)@ | 0x01,
            old(self).wf() ==> r.wf(),
            final(self)@ == final(r)@,
    {
        let b = self.bits;
        assert(b & 0x05 == b ==> (b | 0x01) & 0x05 == b | 0x01) by (bit_vector);
        self.bits = self.bits | 0x01;
        self
    }

    /// Whether the notify flag is set.
    pub fn get_notify(&self) -> (r: bool)
        ensures
            r == (self@ & 0x01 != 0),
    {
        self.bits & 0x01 != 0
    }

    /// Sets the block flag; the other flags are kept.
    pub fn set_block(&mut self) -> (r: &mut FactoryOpt)
        ensures
            r@ == old(self)@ | 0x04,
            old(self).wf() ==> r.wf(),
            final(self)@ == final(r)@,
    {
        let b = self.bits;
        assert(b & 0x05 == b ==> (b | 0x04) & 0x05 == b | 0x04) by (bit_vector);
        self.bits = self.bits | 0x04;
        self
    }

    /// Whether the block flag is set.
    pub fn get_block(&self) -> (r: bool)
        ensures
            r == (self@ & 0x04 != 0),
    {
        self.bits & 0x04 != 0
    }
}

// ----------------------------------------------------------------------------
// Headers.
// ----------------------------------------------------------------------------

/// Top-level header that begins every packet. `length` counts the bytes that follow it.
#[derive(Copy, Clone, Debug, PartialEq, Eq, Structural)]
pub struct CqcHdr {
    /// Protocol version.
    pub version: Version,
    /// Message type.
    pub msg_type: MsgType,
    /// Application ID; responses are tagged with it.
    pub app_id: u16,
    /// Length in bytes of everything after this header.
    pub length: u32,
}

impl CqcHdr {
    /// Length in bytes of this header kind on the wire.
    pub fn hdr_len() -> (r: u32)
        ensures
            r == 8,
    {
        8
    }

    /// Length in bytes of this header on the wire.
    pub fn len(&self) -> (r: u32)
        ensures
            r == 8,
            r == self.spec_bytes().len(),
    {
        8
    }

    /// Layout on the wire: the fields in order, multi-byte fields most
    /// significant byte first.
    pub open spec fn spec_bytes(self) -> Seq<u8> {
        seq![self.version.spec_to_u8()] + seq![self.msg_type.spec_to_u8()] + be16(self.app_id) + be32(self.length)
    }

    /// Appends the header to `out`.
    pub fn encode(&self, out: &mut Vec<u8>)
        ensures
            final(out)@ == old(out)@ + self.spec_bytes(),
    {
        put_u8(out, self.version.to_u8());
        put_u8(out, self.msg_type.to_u8());
        put_u16(out, self.app_id);
        put_u32(out, self.length);
        assert(out@ =~= old(out)@ + self.spec_bytes());
    }
}

/// Command header: the instruction to execute and the qubit to execute it on.
#[derive(Copy, Clone, Debug, PartialEq, Eq, Structural)]
pub struct CmdHdr {
    /// Qubit to perform the operation on.
    pub qubit_id: u16,
    /// Instruction to perform.
    pub instr: Cmd,
    /// Options when executing the command.
    pub options: CmdOpt,
}

impl CmdHdr {
    /// Length in bytes of this header kind on the wire.
    pub fn hdr_len() -> (r: u32)
        ensures
            r == 4,
    {
        4
    }

    /// Length in bytes of this header on the wire.
    pub fn len(&self) -> (r: u32)
        ensures
            r == 4,
            r == self.spec_bytes().len(),
    {
        4
    }

    /// Layout on the wire: the fields in order, multi-byte fields most
    /// significant byte first.
    pub open spec fn spec_bytes(self) -> Seq<u8> {
        be16(self.qubit_id) + seq![self.instr.spec_to_u8()] + seq![self.options@]
    }

    /// Appends the header to `out`.
    pub fn encode(&self, out: &mut Vec<u8>)
        ensures
            final(out)@ == old(out)@ + self.spec_bytes(),
    {
        put_u16(out, self.qubit_id);
        put_u8(out, self.instr.to_u8());
        put_u8(out, self.options.bits());
        assert(out@ =~= old(out)@ + self.spec_bytes());
    }
}

/// Assign header: where to store the outcome of a measurement.
#[derive(Copy, Clone, Debug, PartialEq, Eq, Structural)]
pub struct AssignHdr {
    /// Reference ID under which the outcome is stored.
    pub ref_id: u32,
}

impl AssignHdr {
    /// Length in bytes of this header kind on the wire.
    pub fn hdr_len() -> (r: u32)
        ensures
            r == 4,
    {
        4
    }

    /// Length in bytes of this header on the wire.
    pub fn len(&self) -> (r: u32)
        ensures
            r == 4,
            r == self.spec_bytes().len(),
    {
        4
    }

    /// Layout on the wire: the fields in order, multi-byte fields most
    /// significant byte first.
    pub open spec fn spec_bytes(self) -> Seq<u8> {
        be32(self.ref_id)
    }

    /// Appends the header to `out`.
    pub fn encode(&self, out: &mut Vec<u8>)
        ensures
            final(out)@ == old(out)@ + self.spec_bytes(),
    {
        put_u32(out, self.ref_id);
        assert(out@ =~= old(out)@ + self.spec_bytes());
    }
}

/// Rotation header, after the command header of a rotation.
#[derive(Copy, Clone, Debug, PartialEq, Eq, Structural)]
pub struct RotHdr {
    /// Angle step of the rotation, in pi/256 increments.
    pub step: u8,
}

impl RotHdr {
    /// Length in bytes of this header kind on the wire.
    pub fn hdr_len() -> (r: u32)
        ensures
            r == 1,
    {
        1
    }

    /// Length in bytes of this header on the wire.
    pub fn len(&self) -> (r: u32)
        ensures
            r == 1,
            r == self.spec_bytes().len(),
    {
        1
    }

    /// Layout on the wire: the fields in order, multi-byte fields most
    /// significant byte first.
    pub open spec fn spec_bytes(self) -> Seq<u8> {
        seq![self.step]
    }

    /// Appends the header to `out`.
    pub fn encode(&self, out: &mut Vec<u8>)
        ensures
            final(out)@ == old(out)@ + self.spec_bytes(),
    {
        put_u8(out, self.step);
        assert(out@ =~= old(out)@ + self.spec_bytes());
    }

    /// The header stored at offset `i` of `s`.
    pub open spec fn spec_parse_at(s: Seq<u8>, i: int) -> RotHdr {
        RotHdr {
            step: s[i],
        }
    }

    /// Reads the header stored at offset `pos` of `buf`.
    pub fn decode(buf: &[u8], pos: usize) -> (r: RotHdr)
        requires
            pos + 1 <= buf@.len(),
        ensures
            r == Self::spec_parse_at(buf@, pos as int),
    {
        // A slice's length is a usize, so the offsets below cannot overflow.
        let _len = buf.len();
        RotHdr {
            step: buf[pos],
        }
    }

    /// The header read at offset `i` of `s` is written as the bytes there.
    pub proof fn lemma_bytes_of_parse(s: Seq<u8>, i: int)
        requires
            0 <= i,
            i + 1 <= s.len(),
        ensures
            Self::spec_parse_at(s, i).spec_bytes() == s.subrange(i, i + 1),
    {

        assert(Self::spec_parse_at(s, i).spec_bytes() =~= s.subrange(i, i + 1));
    }

    /// Reading back the bytes of a header gives that header.
    pub proof fn lemma_parse_bytes(self, s: Seq<u8>, i: int)
        requires
            holds_at(s, i, self.spec_bytes()),
        ensures
            Self::spec_parse_at(s, i) == self,
    {
        assert(s.subrange(i, i + 1)[0] == s[i + 0]);
    }
}

/// Qubit header: the target of a two-qubit gate, or the qubit a notification is about.
#[derive(Copy, Clone, Debug, PartialEq, Eq, Structural)]
pub struct QubitHdr {
    /// Qubit ID.
    pub qubit_id: u16,
}

impl QubitHdr {
    /// Length in bytes of this header kind on the wire.
    pub fn hdr_len() -> (r: u32)
        ensures
            r == 2,
    {
        2
    }

    /// Length in bytes of this header on the wire.
    pub fn len(&self) -> (r: u32)
        ensures
            r == 2,
            r == self.spec_bytes().len(),
    {
        2
    }

    /// Layout on the wire: the fields in order, multi-byte fields most
    /// significant byte first.
    pub open spec fn spec_bytes(self) -> Seq<u8> {
        be16(self.qubit_id)
    }

    /// Appends the header to `out`.
    pub fn encode(&self, out: &mut Vec<u8>)
        ensures
            final(out)@ == old(out)@ + self.spec_bytes(),
    {
        put_u16(out, self.qubit_id);
        assert(out@ =~= old(out)@ + self.spec_bytes());
    }

    /// The header stored at offset `i` of `s`.
    pub open spec fn spec_parse_at(s: Seq<u8>, i: int) -> QubitHdr {
        QubitHdr {
            qubit_id: u16_at(s, i + 0),
        }
    }

    /// Reads the header stored at offset `pos` of `buf`.
    pub fn decode(buf: &[u8], pos: usize) -> (r: QubitHdr)
        requires
            pos + 2 <= buf@.len(),
        ensures
            r == Self::spec_parse_at(buf@, pos as int),
    {
        // A slice's length is a usize, so the offsets below cannot overflow.
        let _len = buf.len();
        QubitHdr {
            qubit_id: get_u16(buf, pos + 0),
        }
    }

    /// The header read at offset `i` of `s` is written as the bytes there.
    pub proof fn lemma_bytes_of_parse(s: Seq<u8>, i: int)
        requires
            0 <= i,
            i + 2 <= s.len(),
        ensures
            Self::spec_parse_at(s, i).spec_bytes() == s.subrange(i, i + 2),
    {
        lemma_be16_of_u16_at(s, i + 0);
        assert(Self::spec_parse_at(s, i).spec_bytes() =~= s.subrange(i, i + 2));
    }

    /// Reading back the bytes of a header gives that header.
    pub proof fn lemma_parse_bytes(self, s: Seq<u8>, i: int)
        requires
            holds_at(s, i, self.spec_bytes()),
        ensures
            Self::spec_parse_at(s, i) == self,
    {
        lemma_holds_at_part(s, i, self.spec_bytes(), 0, 2);
        assert(self.spec_bytes().subrange(0, 2) =~= be16(self.qubit_id));
        lemma_u16_at(s, i + 0, self.qubit_id);
    }
}

/// Communication header: the remote node of a send or an EPR creation.
#[derive(Copy, Clone, Debug, PartialEq, Eq, Structural)]
pub struct CommHdr {
    /// Remote application ID.
    pub remote_app_id: u16,
    /// Port of the remote node for classical control information.
    pub remote_port: u16,
    /// IPv4 address of the remote node.
    pub remote_node: u32,
}

impl CommHdr {
    /// Length in bytes of this header kind on the wire.
    pub fn hdr_len() -> (r: u32)
        ensures
            r == 8,
    {
        8
    }

    /// Length in bytes of this header on the wire.
    pub fn len(&self) -> (r: u32)
        ensures
            r == 8,
            r == self.spec_bytes().len(),
    {
        8
    }

    /// Layout on the wire: the fields in order, multi-byte fields most
    /// significant byte first.
    pub open spec fn spec_bytes(self) -> Seq<u8> {
        be16(self.remote_app_id) + be16(self.remote_port) + be32(self.remote_node)
    }

    /// Appends the header to `out`.
    pub fn encode(&self, out: &mut Vec<u8>)
        ensures
            final(out)@ == old(out)@ + self.spec_bytes(),
    {
        put_u16(out, self.remote_app_id);
        put_u16(out, self.remote_port);
        put_u32(out, self.remote_node);
        assert(out@ =~= old(out)@ + self.spec_bytes());
    }

    /// The header stored at offset `i` of `s`.
    pub open spec fn spec_parse_at(s: Seq<u8>, i: int) -> CommHdr {
        CommHdr {
            remote_app_id: u16_at(s, i + 0),
            remote_port: u16_at(s, i + 2),
            remote_node: u32_at(s, i + 4),
        }
    }

    /// Reads the header stored at offset `pos` of `buf`.
    pub fn decode(buf: &[u8], pos: usize) -> (r: CommHdr)
        requires
            pos + 8 <= buf@.len(),
        ensures
            r == Self::spec_parse_at(buf@, pos as int),
    {
        // A slice's length is a usize, so the offsets below cannot overflow.
        let _len = buf.len();
        CommHdr {
            remote_app_id: get_u16(buf, pos + 0),
            remote_port: get_u16(buf, pos + 2),
            remote_node: get_u32(buf, pos + 4),
        }
    }

    /// The header read at offset `i` of `s` is written as the bytes there.
    pub proof fn lemma_bytes_of_parse(s: Seq<u8>, i: int)
        requires
            0 <= i,
            i + 8 <= s.len(),
        ensures
            Self::spec_parse_at(s, i).spec_bytes() == s.subrange(i, i + 8),
    {
        lemma_be16_of_u16_at(s, i + 0);
        lemma_be16_of_u16_at(s, i + 2);
        lemma_be32_of_u32_at(s, i + 4);
        assert(Self::spec_parse_at(s, i).spec_bytes() =~= s.subrange(i, i + 8));
    }

    /// Reading back the bytes of a header gives that header.
    pub proof fn lemma_parse_bytes(self, s: Seq<u8>, i: int)
        requires
            holds_at(s, i, self.spec_bytes()),
        ensures
            Self::spec_parse_at(s, i) == self,
    {
        lemma_holds_at_part(s, i, self.spec_bytes(), 0, 2);
        assert(self.spec_bytes().subrange(0, 2) =~= be16(self.remote_app_id));
        lemma_u16_at(s, i + 0, self.remote_app_id);
        lemma_holds_at_part(s, i, self.spec_bytes(), 2, 2);
        assert(self.spec_bytes().subrange(2, 4) =~= be16(self.remote_port));
        lemma_u16_at(s, i + 2, self.remote_port);
        lemma_holds_at_part(s, i, self.spec_bytes(), 4, 4);
        assert(self.spec_bytes().subrange(4, 8) =~= be32(self.remote_node));
        lemma_u32_at(s, i + 4, self.remote_node);
    }
}

/// Factory header: how often to repeat a command list.
#[derive(Copy, Clone, Debug, PartialEq, Eq, Structural)]
pub struct FactoryHdr {
    /// Number of iterations.
    pub num_iter: u8,
    /// Options of the factory.
    pub options: FactoryOpt,
}

impl FactoryHdr {
    /// Length in bytes of this header kind on the wire.
    pub fn hdr_len() -> (r: u32)
        ensures
            r == 2,
    {
        2
    }

    /// Length in bytes of this header on the wire.
    pub fn len(&self) -> (r: u32)
        ensures
            r == 2,
            r == self.spec_bytes().len(),
    {
        2
    }

    /// Layout on the wire: the fields in order, multi-byte fields most
    /// significant byte first.
    pub open spec fn spec_bytes(self) -> Seq<u8> {
        seq![self.num_iter] + seq![self.options@]
    }

    /// Appends the header to `out`.
    pub fn encode(&self, out: &mut Vec<u8>)
        ensures
            final(out)@ == old(out)@ + self.spec_bytes(),
    {
        put_u8(out, self.num_iter);
        put_u8(out, self.options.bits());
        assert(out@ =~= old(out)@ + self.spec_bytes());
    }
}

/// Measurement outcome header.
#[derive(Copy, Clone, Debug, PartialEq, Eq, Structural)]
pub struct MeasOutHdr {
    /// Measurement outcome.
    pub meas_out: MeasOut,
}

impl MeasOutHdr {
    /// Length in bytes of this header kind on the wire.
    pub fn hdr_len() -> (r: u32)
        ensures
            r == 1,
    {
        1
    }

    /// Length in bytes of this header on the wire.
    pub fn len(&self) -> (r: u32)
        ensures
            r == 1,
            r == self.spec_bytes().len(),
    {
        1
    }

    /// Layout on the wire: the fields in order, multi-byte fields most
    /// significant byte first.
    pub open spec fn spec_bytes(self) -> Seq<u8> {
        seq![self.meas_out.spec_to_u8()]
    }

    /// Appends the header to `out`.
    pub fn encode(&self, out: &mut Vec<u8>)
        ensures
            final(out)@ == old(out)@ + self.spec_bytes(),
    {
        put_u8(out, self.meas_out.to_u8());
        assert(out@ =~= old(out)@ + self.spec_bytes());
    }
}

/// Time information header.
#[derive(Copy, Clone, Debug, PartialEq, Eq, Structural)]
pub struct TimeInfoHdr {
    /// Time of creation.
    pub datetime: u64,
}

impl TimeInfoHdr {
    /// Length in bytes of this header kind on the wire.
    pub fn hdr_len() -> (r: u32)
        ensures
            r == 8,
    {
        8
    }

    /// Length in bytes of this header on the wire.
    pub fn len(&self) -> (r: u32)
        ensures
            r == 8,
            r == self.spec_bytes().len(),
    {
        8
    }

    /// Layout on the wire: the fields in order, multi-byte fields most
    /// significant byte first.
    pub open spec fn spec_bytes(self) -> Seq<u8> {
        be64(self.datetime)
    }

    /// Appends the header to `out`.
    pub fn encode(&self, out: &mut Vec<u8>)
        ensures
            final(out)@ == old(out)@ + self.spec_bytes(),
    {
        put_u64(out, self.datetime);
        assert(out@ =~= old(out)@ + self.spec_bytes());
    }

    /// The header stored at offset `i` of `s`.
    pub open spec fn spec_parse_at(s: Seq<u8>, i: int) -> TimeInfoHdr {
        TimeInfoHdr {
            datetime: u64_at(s, i + 0),
        }
    }

    /// Reads the header stored at offset `pos` of `buf`.
    pub fn decode(buf: &[u8], pos: usize) -> (r: TimeInfoHdr)
        requires
            pos + 8 <= buf@.len(),
        ensures
            r == Self::spec_parse_at(buf@, pos as int),
    {
        // A slice's length is a usize, so the offsets below cannot overflow.
        let _len = buf.len();
        TimeInfoHdr {
            datetime: get_u64(buf, pos + 0),
        }
    }

    /// The header read at offset `i` of `s` is written as the bytes there.
    pub proof fn lemma_bytes_of_parse(s: Seq<u8>, i: int)
        requires
            0 <= i,
            i + 8 <= s.len(),
        ensures
            Self::spec_parse_at(s, i).spec_bytes() == s.subrange(i, i + 8),
    {
        lemma_be64_of_u64_at(s, i + 0);
        assert(Self::spec_parse_at(s, i).spec_bytes() =~= s.subrange(i, i + 8));
    }

    /// Reading back the bytes of a header gives that header.
    pub proof fn lemma_parse_bytes(self, s: Seq<u8>, i: int)
        requires
            holds_at(s, i, self.spec_bytes()),
        ensures
            Self::spec_parse_at(s, i) == self,
    {
        lemma_holds_at_part(s, i, self.spec_bytes(), 0, 8);
        assert(self.spec_bytes().subrange(0, 8) =~= be64(self.datetime));
        lemma_u64_at(s, i + 0, self.datetime);
    }
}

/// Entanglement information header: the parties of an EPR pair, its ID, when it was made and how good it is.
#[derive(Copy, Clone, Debug, PartialEq, Eq, Structural)]
pub struct EntInfoHdr {
    /// IPv4 address of this node.
    pub node_a: u32,
    /// Port of this node.
    pub port_a: u16,
    /// Application ID at this node.
    pub app_id_a: u16,
    /// IPv4 address of the other node.
    pub node_b: u32,
    /// Port of the other node.
    pub port_b: u16,
    /// Application ID at the other node.
    pub app_id_b: u16,
    /// Entanglement ID.
    pub id_ab: u32,
    /// Time of creation.
    pub timestamp: u64,
    /// Time of goodness.
    pub tog: u64,
    /// Goodness, an estimate of the fidelity.
    pub goodness: u16,
    /// Directionality flag (0 = mid, 1 = node A, 2 = node B).
    pub df: u8,
    /// Padding to a 4 byte boundary.
    pub align: u8,
}

impl EntInfoHdr {
    /// Length in bytes of this header kind on the wire.
    pub fn hdr_len() -> (r: u32)
        ensures
            r == 40,
    {
        40
    }

    /// Length in bytes of this header on the wire.
    pub fn len(&self) -> (r: u32)
        ensures
            r == 40,
            r == self.spec_bytes().len(),
    {
        40
    }

    /// Layout on the wire: the fields in order, multi-byte fields most
    /// significant byte first.
    pub open spec fn spec_bytes(self) -> Seq<u8> {
        be32(self.node_a) + be16(self.port_a) + be16(self.app_id_a) + be32(self.node_b) + be16(self.port_b) + be16(self.app_id_b) + be32(self.id_ab) + be64(self.timestamp) + be64(self.tog) + be16(self.goodness) + seq![self.df] + seq![self.align]
    }

    /// Appends the header to `out`.
    pub fn encode(&self, out: &mut Vec<u8>)
        ensures
            final(out)@ == old(out)@ + self.spec_bytes(),
    {
        put_u32(out, self.node_a);
        put_u16(out, self.port_a);
        put_u16(out, self.app_id_a);
        put_u32(out, self.node_b);
        put_u16(out, self.port_b);
        put_u16(out, self.app_id_b);
        put_u32(out, self.id_ab);
        put_u64(out, self.timestamp);
        put_u64(out, self.tog);
        put_u16(out, self.goodness);
        put_u8(out, self.df);
        put_u8(out, self.align);
        assert(out@ =~= old(out)@ + self.spec_bytes());
    }

    /// The header stored at offset `i` of `s`.
    pub open spec fn spec_parse_at(s: Seq<u8>, i: int) -> EntInfoHdr {
        EntInfoHdr {
            node_a: u32_at(s, i + 0),
            port_a: u16_at(s, i + 4),
            app_id_a: u16_at(s, i + 6),
            node_b: u32_at(s, i + 8),
            port_b: u16_at(s, i + 12),
            app_id_b: u16_at(s, i + 14),
            id_ab: u32_at(s, i + 16),
            timestamp: u64_at(s, i + 20),
            tog: u64_at(s, i + 28),
            goodness: u16_at(s, i + 36),
            df: s[i + 38],
            align: s[i + 39],
        }
    }

    /// Reads the header stored at offset `pos` of `buf`.
    pub fn decode(buf: &[u8], pos: usize) -> (r: EntInfoHdr)
        requires
            pos + 40 <= buf@.len(),
        ensures
            r == Self::spec_parse_at(buf@, pos as int),
    {
        // A slice's length is a usize, so the offsets below cannot overflow.
        let _len = buf.len();
        EntInfoHdr {
            node_a: get_u32(buf, pos + 0),
            port_a: get_u16(buf, pos + 4),
            app_id_a: get_u16(buf, pos + 6),
            node_b: get_u32(buf, pos + 8),
            port_b: get_u16(buf, pos + 12),
            app_id_b: get_u16(buf, pos + 14),
            id_ab: get_u32(buf, pos + 16),
            timestamp: get_u64(buf, pos + 20),
            tog: get_u64(buf, pos + 28),
            goodness: get_u16(buf, pos + 36),
            df: buf[pos + 38],
            align: buf[pos + 39],
        }
    }

    /// The header read at offset `i` of `s` is written as the bytes there.
    pub proof fn lemma_bytes_of_parse(s: Seq<u8>, i: int)
        requires
            0 <= i,
            i + 40 <= s.len(),
        ensures
            Self::spec_parse_at(s, i).spec_bytes() == s.subrange(i, i + 40),
    {
        let h = Self::spec_parse_at(s, i);
        lemma_be32_of_u32_at(s, i);
        lemma_be16_of_u16_at(s, i + 4);
        lemma_subrange_concat(s, i, i + 4, i + 6);
        let p6 = be32(h.node_a) + be16(h.port_a);
        assert(p6 == s.subrange(i, i + 6));
        lemma_be16_of_u16_at(s, i + 6);
        lemma_subrange_concat(s, i, i + 6, i + 8);
        let p8 = p6 + be16(h.app_id_a);
        assert(p8 == s.subrange(i, i + 8));
        lemma_be32_of_u32_at(s, i + 8);
        lemma_subrange_concat(s, i, i + 8, i + 12);
        let p12 = p8 + be32(h.node_b);
        assert(p12 == s.subrange(i, i + 12));
        lemma_be16_of_u16_at(s, i + 12);
        lemma_subrange_concat(s, i, i + 12, i + 14);
        let p14 = p12 + be16(h.port_b);
        assert(p14 == s.subrange(i, i + 14));
        lemma_be16_of_u16_at(s, i + 14);
        lemma_subrange_concat(s, i, i + 14, i + 16);
        let p16 = p14 + be16(h.app_id_b);
        assert(p16 == s.subrange(i, i + 16));
        lemma_be32_of_u32_at(s, i + 16);
        lemma_subrange_concat(s, i, i + 16, i + 20);
        let p20 = p16 + be32(h.id_ab);
        assert(p20 == s.subrange(i, i + 20));
        lemma_be64_of_u64_at(s, i + 20);
        lemma_subrange_concat(s, i, i + 20, i + 28);
        let p28 = p20 + be64(h.timestamp);
        assert(p28 == s.subrange(i, i + 28));
        lemma_be64_of_u64_at(s, i + 28);
        lemma_subrange_concat(s, i, i + 28, i + 36);
        let p36 = p28 + be64(h.tog);
        assert(p36 == s.subrange(i, i + 36));
        lemma_be16_of_u16_at(s, i + 36);
        lemma_subrange_concat(s, i, i + 36, i + 38);
        let p38 = p36 + be16(h.goodness);
        assert(p38 == s.subrange(i, i + 38));
        assert(seq![h.df] =~= s.subrange(i + 38, i + 39));
        lemma_subrange_concat(s, i, i + 38, i + 39);
        let p39 = p38 + seq![h.df];
        assert(p39 == s.subrange(i, i + 39));
        assert(seq![h.align] =~= s.subrange(i + 39, i + 40));
        lemma_subrange_concat(s, i, i + 39, i + 40);
        let p40 = p39 + seq![h.align];
        assert(p40 == s.subrange(i, i + 40));
    }

    /// Reading back the bytes of a header gives that header.
    pub proof fn lemma_parse_bytes(self, s: Seq<u8>, i: int)
        requires
            holds_at(s, i, self.spec_bytes()),
        ensures
            Self::spec_parse_at(s, i) == self,
    {
        lemma_holds_at_part(s, i, self.spec_bytes(), 0, 4);
        assert(self.spec_bytes().subrange(0, 4) =~= be32(self.node_a));
        lemma_u32_at(s, i + 0, self.node_a);
        lemma_holds_at_part(s, i, self.spec_bytes(), 4, 2);
        assert(self.spec_bytes().subrange(4, 6) =~= be16(self.port_a));
        lemma_u16_at(s, i + 4, self.port_a);
        lemma_holds_at_part(s, i, self.spec_bytes(), 6, 2);
        assert(self.spec_bytes().subrange(6, 8) =~= be16(self.app_id_a));
        lemma_u16_at(s, i + 6, self.app_id_a);
        lemma_holds_at_part(s, i, self.spec_bytes(), 8, 4);
        assert(self.spec_bytes().subrange(8, 12) =~= be32(self.node_b));
        lemma_u32_at(s, i + 8, self.node_b);
        lemma_holds_at_part(s, i, self.spec_bytes(), 12, 2);
        assert(self.spec_bytes().subrange(12, 14) =~= be16(self.port_b));
        lemma_u16_at(s, i + 12, self.port_b);
        lemma_holds_at_part(s, i, self.spec_bytes(), 14, 2);
        assert(self.spec_bytes().subrange(14, 16) =~= be16(self.app_id_b));
        lemma_u16_at(s, i + 14, self.app_id_b);
        lemma_holds_at_part(s, i, self.spec_bytes(), 16, 4);
        assert(self.spec_bytes().subrange(16, 20) =~= be32(self.id_ab));
        lemma_u32_at(s, i + 16, self.id_ab);
        lemma_holds_at_part(s, i, self.spec_bytes(), 20, 8);
        assert(self.spec_bytes().subrange(20, 28) =~= be64(self.timestamp));
        lemma_u64_at(s, i + 20, self.timestamp);
        lemma_holds_at_part(s, i, self.spec_bytes(), 28, 8);
        assert(self.spec_bytes().subrange(28, 36) =~= be64(self.tog));
        lemma_u64_at(s, i + 28, self.tog);
        lemma_holds_at_part(s, i, self.spec_bytes(), 36, 2);
        assert(self.spec_bytes().subrange(36, 38) =~= be16(self.goodness));
        lemma_u16_at(s, i + 36, self.goodness);
        assert(s.subrange(i, i + 40)[38] == s[i + 38]);
        assert(s.subrange(i, i + 40)[39] == s[i + 39]);
    }
}

/// Type header: the kind and length of the headers that follow.
#[derive(Copy, Clone, Debug, PartialEq, Eq, Structural)]
pub struct TypeHdr {
    /// Kind of the headers that follow.
    pub hdr_type: Tp,
    /// Length in bytes of the headers that follow.
    pub length: u32,
}

impl TypeHdr {
    /// Length in bytes of this header kind on the wire.
    pub fn hdr_len() -> (r: u32)
        ensures
            r == 5,
    {
        5
    }

    /// Length in bytes of this header on the wire.
    pub fn len(&self) -> (r: u32)
        ensures
            r == 5,
            r == self.spec_bytes().len(),
    {
        5
    }

    /// Layout on the wire: the fields in order, multi-byte fields most
    /// significant byte first.
    pub open spec fn spec_bytes(self) -> Seq<u8> {
        seq![self.hdr_type.spec_to_u8()] + be32(self.length)
    }

    /// Appends the header to `out`.
    pub fn encode(&self, out: &mut Vec<u8>)
        ensures
            final(out)@ == old(out)@ + self.spec_bytes(),
    {
        put_u8(out, self.hdr_type.to_u8());
        put_u32(out, self.length);
        assert(out@ =~= old(out)@ + self.spec_bytes());
    }
}

/// Conditional header: a comparison, and the length of what runs when it holds.
#[derive(Copy, Clone, Debug, PartialEq, Eq, Structural)]
pub struct IfHdr {
    /// Reference ID of the left operand.
    pub left_op: u32,
    /// Comparison operator.
    pub operator: CmpType,
    /// Kind of the right operand.
    pub right_op_t: OpType,
    /// Right operand: a value or a reference ID.
    pub right_op: u32,
    /// Length in bytes of the conditional body.
    pub length: u32,
}

impl IfHdr {
    /// Length in bytes of this header kind on the wire.
    pub fn hdr_len() -> (r: u32)
        ensures
            r == 14,
    {
        14
    }

    /// Length in bytes of this header on the wire.
    pub fn len(&self) -> (r: u32)
        ensures
            r == 14,
            r == self.spec_bytes().len(),
    {
        14
    }

    /// Layout on the wire: the fields in order, multi-byte fields most
    /// significant byte first.
    pub open spec fn spec_bytes(self) -> Seq<u8> {
        be32(self.left_op) + seq![self.operator.spec_to_u8()] + seq![self.right_op_t.spec_to_u8()] + be32(self.right_op) + be32(self.length)
    }

    /// Appends the header to `out`.
    pub fn encode(&self, out: &mut Vec<u8>)
        ensures
            final(out)@ == old(out)@ + self.spec_bytes(),
    {
        put_u32(out, self.left_op);
        put_u8(out, self.operator.to_u8());
        put_u8(out, self.right_op_t.to_u8());
        put_u32(out, self.right_op);
        put_u32(out, self.length);
        assert(out@ =~= old(out)@ + self.spec_bytes());
    }
}

impl MsgType {
    /// The message type whose code is `value`, if there is one.
    pub open spec fn spec_from_u8(value: u8) -> Option<MsgType> {
        if exists|m: MsgType| #[trigger] m.spec_to_u8() == value {
            Some(choose|m: MsgType| #[trigger] m.spec_to_u8() == value)
        } else {
            None
        }
    }

    /// Distinct values have distinct codes.
    pub proof fn lemma_to_u8_injective(a: MsgType, b: MsgType)
        requires
            a.spec_to_u8() == b.spec_to_u8(),
        ensures
            a == b,
    {
    }

    /// Converting the code of a value gives that value back.
    pub proof fn lemma_from_to_u8(m: MsgType)
        ensures
            Self::spec_from_u8(m.spec_to_u8()) == Some(m),
    {
        let chosen = choose|x: MsgType| #[trigger] x.spec_to_u8() == m.spec_to_u8();
        Self::lemma_to_u8_injective(chosen, m);
    }

    /// Converts a code; `None` if no message type has that code.
    pub fn get(value: u8) -> (r: Option<MsgType>)
        ensures
            r == Self::spec_from_u8(value),
            match r {
                Some(x) => x.spec_to_u8() == value,
                None => forall|x: MsgType| #[trigger] x.spec_to_u8() != value,
            },
    {
        let r = Self::lookup(value);
        proof {
            if let Some(x) = r {
                Self::lemma_from_to_u8(x);
            }
        }
        r
    }
}

impl Cmd {
    /// The instruction whose code is `value`, if there is one.
    pub open spec fn spec_from_u8(value: u8) -> Option<Cmd> {
        if exists|c: Cmd| #[trigger] c.spec_to_u8() == value {
            Some(choose|c: Cmd| #[trigger] c.spec_to_u8() == value)
        } else {
            None
        }
    }

    /// Distinct values have distinct codes.
    pub proof fn lemma_to_u8_injective(a: Cmd, b: Cmd)
        requires
            a.spec_to_u8() == b.spec_to_u8(),
        ensures
            a == b,
    {
    }

    /// Converting the code of a value gives that value back.
    pub proof fn lemma_from_to_u8(c: Cmd)
        ensures
            Self::spec_from_u8(c.spec_to_u8()) == Some(c),
    {
        let chosen = choose|x: Cmd| #[trigger] x.spec_to_u8() == c.spec_to_u8();
        Self::lemma_to_u8_injective(chosen, c);
    }

    /// Converts a code; `None` if no instruction has that code.
    pub fn get(value: u8) -> (r: Option<Cmd>)
        ensures
            r == Self::spec_from_u8(value),
            match r {
                Some(x) => x.spec_to_u8() == value,
                None => forall|x: Cmd| #[trigger] x.spec_to_u8() != value,
            },
    {
        let r = Self::lookup(value);
        proof {
            if let Some(x) = r {
                Self::lemma_from_to_u8(x);
            }
        }
        r
    }
}

impl MeasOut {
    /// The measurement outcome whose code is `value`, if there is one.
    pub open spec fn spec_from_u8(value: u8) -> Option<MeasOut> {
        if exists|m: MeasOut| #[trigger] m.spec_to_u8() == value {
            Some(choose|m: MeasOut| #[trigger] m.spec_to_u8() == value)
        } else {
            None
        }
    }

    /// Distinct values have distinct codes.
    pub proof fn lemma_to_u8_injective(a: MeasOut, b: MeasOut)
        requires
            a.spec_to_u8() == b.spec_to_u8(),
        ensures
            a == b,
    {
    }

    /// Converting the code of a value gives that value back.
    pub proof fn lemma_from_to_u8(m: MeasOut)
        ensures
            Self::spec_from_u8(m.spec_to_u8()) == Some(m),
    {
        let chosen = choose|x: MeasOut| #[trigger] x.spec_to_u8() == m.spec_to_u8();
        Self::lemma_to_u8_injective(chosen, m);
    }

    /// Converts a code; `None` if no measurement outcome has that code.
    pub fn get(value: u8) -> (r: Option<MeasOut>)
        ensures
            r == Self::spec_from_u8(value),
            match r {
                Some(x) => x.spec_to_u8() == value,
                None => forall|x: MeasOut| #[trigger] x.spec_to_u8() != value,
            },
    {
        let r = Self::lookup(value);
        proof {
            if let Some(x) = r {
                Self::lemma_from_to_u8(x);
            }
        }
        r
    }
}

} // verus!
