//! # Packets
//!
//! A request is a top-level header and, for command-bearing message types, a
//! command header with the extra header its instruction asks for.  A response
//! is a top-level header and, for some message types, a notification.
use vstd::prelude::*;
use crate::dispatch::{Trailer, XtraKind};
use crate::hdr::{CmdHdr, CommHdr, CqcHdr, EntInfoHdr, MeasOutHdr, QubitHdr, RotHdr, TimeInfoHdr};
use crate::wire::holds_at;

verus! {

// ----------------------------------------------------------------------------
// Requests.
// ----------------------------------------------------------------------------

/// A request: the top-level header, and a command for command-bearing
/// message types.
#[derive(Copy, Clone, Debug, PartialEq, Eq, Structural)]
pub struct Request {
    pub cqc_hdr: CqcHdr,
    pub req_cmd: Option<ReqCmd>,
}

/// A command: the command header, and the extra header its instruction asks
/// for.
#[derive(Copy, Clone, Debug, PartialEq, Eq, Structural)]
pub struct ReqCmd {
    pub cmd_hdr: CmdHdr,
    pub xtra_hdr: XtraHdr,
}

/// The extra header after a command header.
#[derive(Copy, Clone, Debug, PartialEq, Eq, Structural)]
pub enum XtraHdr {
    Rot(RotHdr),
    Qubit(QubitHdr),
    Comm(CommHdr),
    Empty,
}

impl XtraHdr {
    pub open spec fn spec_kind(self) -> XtraKind {
        match self {
            XtraHdr::Rot(_) => XtraKind::Rot,
            XtraHdr::Qubit(_) => XtraKind::Qubit,
            XtraHdr::Comm(_) => XtraKind::Comm,
            XtraHdr::Empty => XtraKind::Empty,
        }
    }

    pub open spec fn spec_len(self) -> u32 {
        self.spec_kind().spec_len()
    }

    pub open spec fn spec_bytes(self) -> Seq<u8> {
        match self {
            XtraHdr::Rot(h) => h.spec_bytes(),
            XtraHdr::Qubit(h) => h.spec_bytes(),
            XtraHdr::Comm(h) => h.spec_bytes(),
            XtraHdr::Empty => Seq::empty(),
        }
    }

    /// The extra header of kind `kind` stored at offset `i` of `s`.
    pub open spec fn spec_parse_at(kind: XtraKind, s: Seq<u8>, i: int) -> XtraHdr {
        match kind {
            XtraKind::Rot => XtraHdr::Rot(RotHdr::spec_parse_at(s, i)),
            XtraKind::Qubit => XtraHdr::Qubit(QubitHdr::spec_parse_at(s, i)),
            XtraKind::Comm => XtraHdr::Comm(CommHdr::spec_parse_at(s, i)),
            XtraKind::Empty => XtraHdr::Empty,
        }
    }

    /// Length in bytes of this extra header on the wire.
    pub fn len(&self) -> (r: u32)
        ensures
            r == self.spec_len(),
            r == self.spec_bytes().len(),
    {
        match self {
            XtraHdr::Rot(h) => h.len(),
            XtraHdr::Qubit(h) => h.len(),
            XtraHdr::Comm(h) => h.len(),
            XtraHdr::Empty => 0,
        }
    }

    /// Appends the extra header to `out`.
    pub fn encode(&self, out: &mut Vec<u8>)
        ensures
            final(out)@ == old(out)@ + self.spec_bytes(),
    {
        match self {
            XtraHdr::Rot(h) => h.encode(out),
            XtraHdr::Qubit(h) => h.encode(out),
            XtraHdr::Comm(h) => h.encode(out),
            XtraHdr::Empty => {
                assert(out@ =~= old(out)@ + self.spec_bytes());
            },
        }
    }

    /// Reads the extra header of kind `kind` stored at offset `pos` of `buf`.
    pub fn decode(kind: XtraKind, buf: &[u8], pos: usize) -> (r: XtraHdr)
        requires
            pos + kind.spec_len() <= buf@.len(),
        ensures
            r == Self::spec_parse_at(kind, buf@, pos as int),
    {
        match kind {
            XtraKind::Rot => XtraHdr::Rot(RotHdr::decode(buf, pos)),
            XtraKind::Qubit => XtraHdr::Qubit(QubitHdr::decode(buf, pos)),
            XtraKind::Comm => XtraHdr::Comm(CommHdr::decode(buf, pos)),
            XtraKind::Empty => XtraHdr::Empty,
        }
    }

    /// Reading back the bytes of an extra header gives that header.
    pub proof fn lemma_parse_bytes(self, s: Seq<u8>, i: int)
        requires
            holds_at(s, i, self.spec_bytes()),
        ensures
            Self::spec_parse_at(self.spec_kind(), s, i) == self,
    {
        match self {
            XtraHdr::Rot(h) => h.lemma_parse_bytes(s, i),
            XtraHdr::Qubit(h) => h.lemma_parse_bytes(s, i),
            XtraHdr::Comm(h) => h.lemma_parse_bytes(s, i),
            XtraHdr::Empty => {},
        }
    }

    /// The extra header read at offset `i` of `s` is written as the bytes
    /// there.
    pub proof fn lemma_bytes_of_parse(kind: XtraKind, s: Seq<u8>, i: int)
        requires
            0 <= i,
            i + kind.spec_len() <= s.len(),
        ensures
            Self::spec_parse_at(kind, s, i).spec_bytes() == s.subrange(i, i + kind.spec_len()),
    {
        match kind {
            XtraKind::Rot => RotHdr::lemma_bytes_of_parse(s, i),
            XtraKind::Qubit => QubitHdr::lemma_bytes_of_parse(s, i),
            XtraKind::Comm => CommHdr::lemma_bytes_of_parse(s, i),
            XtraKind::Empty => {
                assert(Self::spec_parse_at(kind, s, i).spec_bytes() =~= s.subrange(i, i));
            },
        }
    }

    pub fn is_rot_hdr(&self) -> (r: bool)
        ensures
            r == (self is Rot),
    {
        match self {
            XtraHdr::Rot(_) => true,
            _ => false,
        }
    }

    pub fn is_qubit_hdr(&self) -> (r: bool)
        ensures
            r == (self is Qubit),
    {
        match self {
            XtraHdr::Qubit(_) => true,
            _ => false,
        }
    }

    pub fn is_comm_hdr(&self) -> (r: bool)
        ensures
            r == (self is Comm),
    {
        match self {
            XtraHdr::Comm(_) => true,
            _ => false,
        }
    }

    /// The rotation header held.
    pub fn get_rot_hdr(self) -> (r: RotHdr)
        requires
            self is Rot,
        ensures
            self == XtraHdr::Rot(r),
    {
        match self {
            XtraHdr::Rot(h) => h,
            _ => RotHdr { step: 0 },
        }
    }

    /// The qubit header held.
    pub fn get_qubit_hdr(self) -> (r: QubitHdr)
        requires
            self is Qubit,
        ensures
            self == XtraHdr::Qubit(r),
    {
        match self {
            XtraHdr::Qubit(h) => h,
            _ => QubitHdr { qubit_id: 0 },
        }
    }

    /// The communication header held.
    pub fn get_comm_hdr(self) -> (r: CommHdr)
        requires
            self is Comm,
        ensures
            self == XtraHdr::Comm(r),
    {
        match self {
            XtraHdr::Comm(h) => h,
            _ => CommHdr { remote_app_id: 0, remote_port: 0, remote_node: 0 },
        }
    }

    /// Whether an extra header is present.
    pub fn is_some(&self) -> (r: bool)
        ensures
            r == !(self is Empty),
    {
        match self {
            XtraHdr::Empty => false,
            _ => true,
        }
    }

    /// Whether no extra header is present.
    pub fn is_none(&self) -> (r: bool)
        ensures
            r == (self is Empty),
    {
        match self {
            XtraHdr::Empty => true,
            _ => false,
        }
    }
}

impl ReqCmd {
    pub open spec fn spec_len(self) -> u32 {
        (4 + self.xtra_hdr.spec_len()) as u32
    }

    pub open spec fn spec_bytes(self) -> Seq<u8> {
        self.cmd_hdr.spec_bytes() + self.xtra_hdr.spec_bytes()
    }

    /// Length in bytes of the command on the wire.
    pub fn len(&self) -> (r: u32)
        ensures
            r == self.spec_len(),
            r == self.spec_bytes().len(),
    {
        CmdHdr::hdr_len() + self.xtra_hdr.len()
    }

    /// Appends the command to `out`.
    pub fn encode(&self, out: &mut Vec<u8>)
        ensures
            final(out)@ == old(out)@ + self.spec_bytes(),
    {
        self.cmd_hdr.encode(out);
        self.xtra_hdr.encode(out);
        assert(out@ =~= old(out)@ + self.spec_bytes());
    }
}

impl Request {
    /// Length in bytes of what follows the top-level header.
    pub open spec fn spec_body_len(self) -> u32 {
        match self.req_cmd {
            Some(c) => c.spec_len(),
            None => 0,
        }
    }

    pub open spec fn spec_len(self) -> u32 {
        (8 + self.spec_body_len()) as u32
    }

    /// The request has the shape the dispatch table gives it: a command
    /// only for a command-bearing message type, with the extra header its
    /// instruction asks for and only defined option flags; no command only
    /// when the length is zero or the message type has no trailer.  The
    /// length covers at least what follows.
    pub open spec fn wf_shape(self) -> bool {
        &&& self.spec_body_len() <= self.cqc_hdr.length
        &&& match self.req_cmd {
            None => self.cqc_hdr.length == 0 || self.cqc_hdr.msg_type.spec_trailer() == Some(
                Trailer::Empty,
            ),
            Some(c) => {
                &&& self.cqc_hdr.msg_type.spec_trailer() == Some(Trailer::Command)
                &&& c.xtra_hdr.spec_kind() == c.cmd_hdr.instr.spec_xtra_kind()
                &&& c.cmd_hdr.options.wf()
            },
        }
    }

    /// The request is consistent with the dispatch table, and its length
    /// is exactly the length of what follows.
    pub open spec fn wf(self) -> bool {
        &&& self.wf_shape()
        &&& self.cqc_hdr.length == self.spec_body_len()
    }

    /// Length in bytes of the whole request on the wire.
    pub fn len(&self) -> (r: u32)
        ensures
            r == self.spec_len(),
    {
        match &self.req_cmd {
            Some(c) => CqcHdr::hdr_len() + c.len(),
            None => CqcHdr::hdr_len(),
        }
    }
}

// ----------------------------------------------------------------------------
// Responses.
// ----------------------------------------------------------------------------

/// A response: the top-level header, and a notification for some message
/// types.
#[derive(Copy, Clone, Debug, PartialEq, Eq, Structural)]
pub struct Response {
    pub cqc_hdr: CqcHdr,
    pub notify: RspInfo,
}

/// The notification after the top-level header of a response.
#[derive(Copy, Clone, Debug, PartialEq, Eq, Structural)]
pub enum RspInfo {
    Qubit(QubitHdr),
    MeasOut(MeasOutHdr),
    Epr(EprInfo),
    Time(TimeInfoHdr),
    Empty,
}

/// Notification about an EPR pair: the qubit header and the entanglement
/// information header.
#[derive(Copy, Clone, Debug, PartialEq, Eq, Structural)]
pub struct EprInfo {
    pub qubit_hdr: QubitHdr,
    pub ent_info_hdr: EntInfoHdr,
}

impl EprInfo {
    pub open spec fn spec_bytes(self) -> Seq<u8> {
        self.qubit_hdr.spec_bytes() + self.ent_info_hdr.spec_bytes()
    }
}

impl RspInfo {
    pub open spec fn spec_trailer(self) -> Trailer {
        match self {
            RspInfo::Qubit(_) => Trailer::Qubit,
            RspInfo::MeasOut(_) => Trailer::Outcome,
            RspInfo::Epr(_) => Trailer::Epr,
            RspInfo::Time(_) => Trailer::Time,
            RspInfo::Empty => Trailer::Empty,
        }
    }

    pub open spec fn spec_len(self) -> u32 {
        self.spec_trailer().spec_notify_len()
    }

    pub open spec fn spec_bytes(self) -> Seq<u8> {
        match self {
            RspInfo::Qubit(h) => h.spec_bytes(),
            RspInfo::MeasOut(h) => h.spec_bytes(),
            RspInfo::Epr(e) => e.spec_bytes(),
            RspInfo::Time(h) => h.spec_bytes(),
            RspInfo::Empty => Seq::empty(),
        }
    }

    pub proof fn lemma_bytes_len(self)
        ensures
            self.spec_bytes().len() == self.spec_len(),
    {
    }

    /// Length in bytes of the notification on the wire.
    pub fn len(&self) -> (r: u32)
        ensures
            r == self.spec_len(),
            r == self.spec_bytes().len(),
    {
        match self {
            RspInfo::Qubit(h) => h.len(),
            RspInfo::MeasOut(h) => h.len(),
            RspInfo::Epr(e) => e.qubit_hdr.len() + e.ent_info_hdr.len(),
            RspInfo::Time(h) => h.len(),
            RspInfo::Empty => 0,
        }
    }

    /// Appends the notification to `out`.
    pub fn encode(&self, out: &mut Vec<u8>)
        ensures
            final(out)@ == old(out)@ + self.spec_bytes(),
    {
        match self {
            RspInfo::Qubit(h) => h.encode(out),
            RspInfo::MeasOut(h) => h.encode(out),
            RspInfo::Epr(e) => {
                e.qubit_hdr.encode(out);
                e.ent_info_hdr.encode(out);
                assert(out@ =~= old(out)@ + self.spec_bytes());
            },
            RspInfo::Time(h) => h.encode(out),
            RspInfo::Empty => {
                assert(out@ =~= old(out)@ + self.spec_bytes());
            },
        }
    }

    pub fn is_qubit_hdr(&self) -> (r: bool)
        ensures
            r == (self is Qubit),
    {
        match self {
            RspInfo::Qubit(_) => true,
            _ => false,
        }
    }

    pub fn is_meas_out_hdr(&self) -> (r: bool)
        ensures
            r == (self is MeasOut),
    {
        match self {
            RspInfo::MeasOut(_) => true,
            _ => false,
        }
    }

    pub fn is_epr_hdr(&self) -> (r: bool)
        ensures
            r == (self is Epr),
    {
        match self {
            RspInfo::Epr(_) => true,
            _ => false,
        }
    }

    pub fn is_time_info_hdr(&self) -> (r: bool)
        ensures
            r == (self is Time),
    {
        match self {
            RspInfo::Time(_) => true,
            _ => false,
        }
    }

    /// The qubit header held.
    pub fn get_qubit_hdr(self) -> (r: QubitHdr)
        requires
            self is Qubit,
        ensures
            self == RspInfo::Qubit(r),
    {
        match self {
            RspInfo::Qubit(h) => h,
            _ => QubitHdr { qubit_id: 0 },
        }
    }

    /// The measurement outcome header held.
    pub fn get_meas_out_hdr(self) -> (r: MeasOutHdr)
        requires
            self is MeasOut,
        ensures
            self == RspInfo::MeasOut(r),
    {
        match self {
            RspInfo::MeasOut(h) => h,
            _ => MeasOutHdr { meas_out: crate::hdr::MeasOut::Zero },
        }
    }

    /// The EPR notification held.
    pub fn get_epr_hdr(self) -> (r: EprInfo)
        requires
            self is Epr,
        ensures
            self == RspInfo::Epr(r),
    {
        match self {
            RspInfo::Epr(e) => e,
            _ => EprInfo {
                qubit_hdr: QubitHdr { qubit_id: 0 },
                ent_info_hdr: EntInfoHdr {
                    node_a: 0,
                    port_a: 0,
                    app_id_a: 0,
                    node_b: 0,
                    port_b: 0,
                    app_id_b: 0,
                    id_ab: 0,
                    timestamp: 0,
                    tog: 0,
                    goodness: 0,
                    df: 0,
                    align: 0,
                },
            },
        }
    }

    /// The time information header held.
    pub fn get_time_info_hdr(self) -> (r: TimeInfoHdr)
        requires
            self is Time,
        ensures
            self == RspInfo::Time(r),
    {
        match self {
            RspInfo::Time(h) => h,
            _ => TimeInfoHdr { datetime: 0 },
        }
    }

    /// Whether a notification is present.
    pub fn is_some(&self) -> (r: bool)
        ensures
            r == !(self is Empty),
    {
        match self {
            RspInfo::Empty => false,
            _ => true,
        }
    }

    /// Whether no notification is present.
    pub fn is_none(&self) -> (r: bool)
        ensures
            r == (self is Empty),
    {
        match self {
            RspInfo::Empty => true,
            _ => false,
        }
    }
}

impl Response {
    pub open spec fn spec_len(self) -> u32 {
        (8 + self.notify.spec_len()) as u32
    }

    /// The response has the shape the dispatch table gives it: the
    /// notification is the one its message type asks for, or absent with
    /// length zero.  The length covers at least the notification.
    pub open spec fn wf_shape(self) -> bool {
        &&& self.notify.spec_len() <= self.cqc_hdr.length
        &&& ((self.notify is Empty && self.cqc_hdr.length == 0)
            || self.cqc_hdr.msg_type.spec_trailer() == Some(self.notify.spec_trailer()))
    }

    /// The response is consistent with the dispatch table, and its length
    /// is exactly the length of the notification.
    pub open spec fn wf(self) -> bool {
        &&& self.wf_shape()
        &&& self.cqc_hdr.length == self.notify.spec_len()
    }

    /// Length in bytes of the whole response on the wire.
    pub fn len(&self) -> (r: u32)
        ensures
            r == self.spec_len(),
    {
        CqcHdr::hdr_len() + self.notify.len()
    }
}

} // verus!
