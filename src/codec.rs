//! # Packet codec
//!
//! Encoding writes the top-level header, with a length computed from the
//! trailing structures, and then each trailing structure in order.
//!
//! Decoding needs a whole packet: a shorter buffer is `TruncatedInput`, not
//! a request for more bytes.  It reads the top-level header, checks the
//! version before anything else, returns at once when the length is zero,
//! and otherwise looks the message type (and, for a command, the
//! instruction) up in the dispatch table.  Before each trailing structure is
//! read, the declared length is checked to cover it (`LengthMismatch`
//! otherwise) and then the buffer to hold it (`TruncatedInput` otherwise).
//! A declared length may exceed what the table requires: the bytes beyond
//! are part of the packet but are not read.  Last, the buffer must hold the
//! whole packet, eight bytes and the declared length, which is then the
//! number of bytes consumed, so a caller moves on to the next packet.
use vstd::prelude::*;
use crate::dispatch::Trailer;
use crate::hdr::{
    Cmd, CmdHdr, CmdOpt, CqcHdr, EntInfoHdr, MeasOut, MeasOutHdr, MsgType, QubitHdr, TimeInfoHdr,
    Version, CQC_VERSION,
};
use crate::packet::{EprInfo, ReqCmd, Request, Response, RspInfo, XtraHdr};
use crate::laws::{lemma_decoded_request_wf, lemma_decoded_response_wf};
use crate::wire::{get_u16, get_u32, u16_at, u32_at};

verus! {

/// Why a buffer does not decode.
#[derive(Copy, Clone, Debug, PartialEq, Eq, Structural)]
pub enum DecodeError {
    /// The version byte is not the supported version.
    UnsupportedVersion(u8),
    /// The message type code is unknown, or its message cannot be decoded
    /// as the kind of packet asked for.
    UnknownMessageType(u8),
    /// The instruction code of a command header is unknown.
    UnknownInstruction(u8),
    /// The outcome byte of a measurement outcome header is neither 0 nor 1.
    UnknownOutcome(u8),
    /// The buffer ends before the bytes that must be read, or before the
    /// end of the packet as its declared length gives it.
    TruncatedInput { needed: u64, available: u64 },
    /// The declared length is shorter than the structures the dispatch
    /// table requires.
    LengthMismatch { declared: u32, required: u32 },
}

/// Why a packet cannot be encoded.
#[derive(Copy, Clone, Debug, PartialEq, Eq, Structural)]
pub enum EncodeError {
    /// The buffer is shorter than the encoded packet; nothing was written.
    BufferTooSmall { needed: usize, available: usize },
}

// ----------------------------------------------------------------------------
// What encoding and decoding compute.
// ----------------------------------------------------------------------------

/// The bytes of a request: its top-level header, with the length of the
/// command that follows, and that command.
pub open spec fn spec_encode_request(r: Request) -> Seq<u8> {
    CqcHdr {
        version: r.cqc_hdr.version,
        msg_type: r.cqc_hdr.msg_type,
        app_id: r.cqc_hdr.app_id,
        length: r.spec_body_len(),
    }.spec_bytes() + match r.req_cmd {
        Some(c) => c.spec_bytes(),
        None => Seq::empty(),
    }
}

/// The bytes of a response: its top-level header, with the length of the
/// notification that follows, and that notification.
pub open spec fn spec_encode_response(r: Response) -> Seq<u8> {
    CqcHdr {
        version: r.cqc_hdr.version,
        msg_type: r.cqc_hdr.msg_type,
        app_id: r.cqc_hdr.app_id,
        length: r.notify.spec_len(),
    }.spec_bytes() + r.notify.spec_bytes()
}

/// The version gate: the supported version, or the byte that is not.
pub open spec fn spec_validate_version(byte: u8) -> Result<Version, DecodeError> {
    if byte == CQC_VERSION {
        Ok(Version::V2)
    } else {
        Err(DecodeError::UnsupportedVersion(byte))
    }
}

/// The top-level header at the start of `s`.
pub open spec fn spec_decode_cqc_hdr(s: Seq<u8>) -> Result<CqcHdr, DecodeError> {
    if s.len() < 8 {
        Err(DecodeError::TruncatedInput { needed: 8, available: s.len() as u64 })
    } else {
        match spec_validate_version(s[0]) {
            Err(e) => Err(e),
            Ok(version) => match MsgType::spec_from_u8(s[1]) {
                None => Err(DecodeError::UnknownMessageType(s[1])),
                Some(msg_type) => Ok(
                    CqcHdr { version, msg_type, app_id: u16_at(s, 2), length: u32_at(s, 4) },
                ),
            },
        }
    }
}

/// The command that follows the top-level header in `s`, whose declared
/// length is `length`.
pub open spec fn spec_decode_req_cmd(s: Seq<u8>, length: u32) -> Result<ReqCmd, DecodeError> {
    if length < 4 {
        Err(DecodeError::LengthMismatch { declared: length, required: 4 })
    } else if s.len() < 12 {
        Err(DecodeError::TruncatedInput { needed: 12, available: s.len() as u64 })
    } else {
        match Cmd::spec_from_u8(s[10]) {
            None => Err(DecodeError::UnknownInstruction(s[10])),
            Some(instr) => {
                let kind = instr.spec_xtra_kind();
                let required = (4 + kind.spec_len()) as u32;
                if length < required {
                    Err(DecodeError::LengthMismatch { declared: length, required })
                } else if s.len() < 8 + required {
                    Err(
                        DecodeError::TruncatedInput {
                            needed: (8 + required) as u64,
                            available: s.len() as u64,
                        },
                    )
                } else {
                    Ok(
                        ReqCmd {
                            cmd_hdr: CmdHdr {
                                qubit_id: u16_at(s, 8),
                                instr,
                                options: CmdOpt::spec_from_bits_truncate(s[11]),
                            },
                            xtra_hdr: XtraHdr::spec_parse_at(kind, s, 12),
                        },
                    )
                }
            },
        }
    }
}

/// The packet `p` read from `s` whose declared length is `length`, if `s`
/// holds the whole packet: `p` and the number of bytes the packet takes.
pub open spec fn spec_whole_packet<P>(s: Seq<u8>, length: u32, p: P) -> Result<
    (P, usize),
    DecodeError,
> {
    if s.len() < 8 + length {
        Err(
            DecodeError::TruncatedInput {
                needed: (8 + length) as u64,
                available: s.len() as u64,
            },
        )
    } else {
        Ok((p, (8 + length) as usize))
    }
}

/// The request at the start of `s`, and the number of bytes it takes.
pub open spec fn spec_decode_request(s: Seq<u8>) -> Result<(Request, usize), DecodeError> {
    match spec_decode_cqc_hdr(s) {
        Err(e) => Err(e),
        Ok(cqc_hdr) => if cqc_hdr.length == 0 {
            Ok((Request { cqc_hdr, req_cmd: None }, 8))
        } else {
            match cqc_hdr.msg_type.spec_trailer() {
                Some(Trailer::Command) => match spec_decode_req_cmd(s, cqc_hdr.length) {
                    Err(e) => Err(e),
                    Ok(c) => spec_whole_packet(
                        s,
                        cqc_hdr.length,
                        Request { cqc_hdr, req_cmd: Some(c) },
                    ),
                },
                Some(Trailer::Empty) => spec_whole_packet(
                    s,
                    cqc_hdr.length,
                    Request { cqc_hdr, req_cmd: None },
                ),
                _ => Err(DecodeError::UnknownMessageType(s[1])),
            }
        },
    }
}

/// The notification of kind `t` that follows the top-level header in `s`,
/// whose declared length is `length`.
pub open spec fn spec_decode_notify(s: Seq<u8>, length: u32, t: Trailer) -> Result<
    RspInfo,
    DecodeError,
> {
    let required = t.spec_notify_len();
    if length < required {
        Err(DecodeError::LengthMismatch { declared: length, required })
    } else if s.len() < 8 + required {
        Err(
            DecodeError::TruncatedInput {
                needed: (8 + required) as u64,
                available: s.len() as u64,
            },
        )
    } else {
        match t {
            Trailer::Qubit => Ok(RspInfo::Qubit(QubitHdr::spec_parse_at(s, 8))),
            Trailer::Outcome => match MeasOut::spec_from_u8(s[8]) {
                None => Err(DecodeError::UnknownOutcome(s[8])),
                Some(meas_out) => Ok(RspInfo::MeasOut(MeasOutHdr { meas_out })),
            },
            Trailer::Time => Ok(RspInfo::Time(TimeInfoHdr::spec_parse_at(s, 8))),
            Trailer::Epr => Ok(
                RspInfo::Epr(
                    EprInfo {
                        qubit_hdr: QubitHdr::spec_parse_at(s, 8),
                        ent_info_hdr: EntInfoHdr::spec_parse_at(s, 10),
                    },
                ),
            ),
            _ => Ok(RspInfo::Empty),
        }
    }
}

/// The response at the start of `s`, and the number of bytes it takes.
pub open spec fn spec_decode_response(s: Seq<u8>) -> Result<(Response, usize), DecodeError> {
    match spec_decode_cqc_hdr(s) {
        Err(e) => Err(e),
        Ok(cqc_hdr) => if cqc_hdr.length == 0 {
            Ok((Response { cqc_hdr, notify: RspInfo::Empty }, 8))
        } else {
            match cqc_hdr.msg_type.spec_trailer() {
                Some(Trailer::Command) => Err(DecodeError::UnknownMessageType(s[1])),
                None => Err(DecodeError::UnknownMessageType(s[1])),
                Some(Trailer::Empty) => spec_whole_packet(
                    s,
                    cqc_hdr.length,
                    Response { cqc_hdr, notify: RspInfo::Empty },
                ),
                Some(t) => match spec_decode_notify(s, cqc_hdr.length, t) {
                    Err(e) => Err(e),
                    Ok(notify) => spec_whole_packet(s, cqc_hdr.length, Response { cqc_hdr, notify }),
                },
            }
        },
    }
}

// ----------------------------------------------------------------------------
// Encoding.
// ----------------------------------------------------------------------------

/// Appends the bytes of `req` to `out`.
pub fn encode_request(req: &Request, out: &mut Vec<u8>)
    ensures
        final(out)@ == old(out)@ + spec_encode_request(*req),
{
    let length = match &req.req_cmd {
        Some(c) => c.len(),
        None => 0,
    };
    let cqc_hdr = CqcHdr {
        version: req.cqc_hdr.version,
        msg_type: req.cqc_hdr.msg_type,
        app_id: req.cqc_hdr.app_id,
        length,
    };
    cqc_hdr.encode(out);
    match &req.req_cmd {
        Some(c) => c.encode(out),
        None => {},
    }
    assert(out@ =~= old(out)@ + spec_encode_request(*req));
}

/// Appends the bytes of `rsp` to `out`.
pub fn encode_response(rsp: &Response, out: &mut Vec<u8>)
    ensures
        final(out)@ == old(out)@ + spec_encode_response(*rsp),
{
    let cqc_hdr = CqcHdr {
        version: rsp.cqc_hdr.version,
        msg_type: rsp.cqc_hdr.msg_type,
        app_id: rsp.cqc_hdr.app_id,
        length: rsp.notify.len(),
    };
    cqc_hdr.encode(out);
    rsp.notify.encode(out);
    assert(out@ =~= old(out)@ + spec_encode_response(*rsp));
}

// ----------------------------------------------------------------------------
// Decoding.
// ----------------------------------------------------------------------------

/// The version gate, applied to the version byte before any other field is
/// read.
pub fn validate_version(byte: u8) -> (r: Result<Version, DecodeError>)
    ensures
        r == spec_validate_version(byte),
{
    match Version::get(byte) {
        Some(v) => Ok(v),
        None => {
            assert(Version::V2.spec_to_u8() != byte);
            Err(DecodeError::UnsupportedVersion(byte))
        },
    }
}

/// Reads and checks the top-level header at the start of `buf`.
pub fn decode_cqc_hdr(buf: &[u8]) -> (r: Result<CqcHdr, DecodeError>)
    ensures
        r == spec_decode_cqc_hdr(buf@),
{
    let available = buf.len();
    if available < 8 {
        return Err(DecodeError::TruncatedInput { needed: 8, available: available as u64 });
    }
    let version = match validate_version(buf[0]) {
        Ok(v) => v,
        Err(e) => return Err(e),
    };
    let msg_type = match MsgType::get(buf[1]) {
        Some(m) => m,
        None => return Err(DecodeError::UnknownMessageType(buf[1])),
    };
    Ok(CqcHdr { version, msg_type, app_id: get_u16(buf, 2), length: get_u32(buf, 4) })
}

/// Reads the command that follows the top-level header in `buf`, whose
/// declared length is `length`.
fn decode_req_cmd(buf: &[u8], length: u32) -> (r: Result<ReqCmd, DecodeError>)
    ensures
        r == spec_decode_req_cmd(buf@, length),
{
    if length < 4 {
        return Err(DecodeError::LengthMismatch { declared: length, required: 4 });
    }
    let available = buf.len();
    if available < 12 {
        return Err(DecodeError::TruncatedInput { needed: 12, available: available as u64 });
    }
    let instr = match Cmd::get(buf[10]) {
        Some(c) => c,
        None => return Err(DecodeError::UnknownInstruction(buf[10])),
    };
    let kind = instr.xtra_kind();
    let required = 4 + kind.len();
    if length < required {
        return Err(DecodeError::LengthMismatch { declared: length, required });
    }
    if available < 8 + required as usize {
        return Err(
            DecodeError::TruncatedInput {
                needed: 8 + required as u64,
                available: available as u64,
            },
        );
    }
    let cmd_hdr = CmdHdr {
        qubit_id: get_u16(buf, 8),
        instr,
        options: CmdOpt::from_bits_truncate(buf[11]),
    };
    let xtra_hdr = XtraHdr::decode(kind, buf, 12);
    Ok(ReqCmd { cmd_hdr, xtra_hdr })
}

/// Returns `p`, read from `buf` with declared length `length`, and the
/// number of bytes the packet takes, if `buf` holds the whole packet.
fn whole_packet<P>(buf: &[u8], length: u32, p: P) -> (r: Result<(P, usize), DecodeError>)
    ensures
        r == spec_whole_packet(buf@, length, p),
{
    let available = buf.len();
    if available < 8 || available - 8 < length as usize {
        return Err(
            DecodeError::TruncatedInput {
                needed: 8 + length as u64,
                available: available as u64,
            },
        );
    }
    Ok((p, 8 + length as usize))
}

/// Reads the request at the start of `buf`; returns it with the number of
/// bytes it takes.
pub fn decode_request(buf: &[u8]) -> (r: Result<(Request, usize), DecodeError>)
    ensures
        r == spec_decode_request(buf@),
{
    let cqc_hdr = match decode_cqc_hdr(buf) {
        Ok(h) => h,
        Err(e) => return Err(e),
    };
    if cqc_hdr.length == 0 {
        return Ok((Request { cqc_hdr, req_cmd: None }, 8));
    }
    let length = cqc_hdr.length;
    match cqc_hdr.msg_type.trailer() {
        Some(Trailer::Command) => match decode_req_cmd(buf, length) {
            Ok(c) => whole_packet(buf, length, Request { cqc_hdr, req_cmd: Some(c) }),
            Err(e) => Err(e),
        },
        Some(Trailer::Empty) => whole_packet(buf, length, Request { cqc_hdr, req_cmd: None }),
        _ => Err(DecodeError::UnknownMessageType(buf[1])),
    }
}

/// Reads the notification of kind `t` that follows the top-level header in
/// `buf`, whose declared length is `length`.
fn decode_notify(buf: &[u8], length: u32, t: Trailer) -> (r: Result<RspInfo, DecodeError>)
    ensures
        r == spec_decode_notify(buf@, length, t),
{
    let required: u32 = match t {
        Trailer::Qubit => QubitHdr::hdr_len(),
        Trailer::Outcome => MeasOutHdr::hdr_len(),
        Trailer::Time => TimeInfoHdr::hdr_len(),
        Trailer::Epr => QubitHdr::hdr_len() + EntInfoHdr::hdr_len(),
        _ => 0,
    };
    if length < required {
        return Err(DecodeError::LengthMismatch { declared: length, required });
    }
    let available = buf.len();
    if available < 8 + required as usize {
        return Err(
            DecodeError::TruncatedInput {
                needed: 8 + required as u64,
                available: available as u64,
            },
        );
    }
    match t {
        Trailer::Qubit => Ok(RspInfo::Qubit(QubitHdr::decode(buf, 8))),
        Trailer::Outcome => match MeasOut::get(buf[8]) {
            Some(meas_out) => Ok(RspInfo::MeasOut(MeasOutHdr { meas_out })),
            None => Err(DecodeError::UnknownOutcome(buf[8])),
        },
        Trailer::Time => Ok(RspInfo::Time(TimeInfoHdr::decode(buf, 8))),
        Trailer::Epr => Ok(
            RspInfo::Epr(
                EprInfo {
                    qubit_hdr: QubitHdr::decode(buf, 8),
                    ent_info_hdr: EntInfoHdr::decode(buf, 10),
                },
            ),
        ),
        _ => Ok(RspInfo::Empty),
    }
}

/// Reads the response at the start of `buf`; returns it with the number of
/// bytes it takes.
pub fn decode_response(buf: &[u8]) -> (r: Result<(Response, usize), DecodeError>)
    ensures
        r == spec_decode_response(buf@),
{
    let cqc_hdr = match decode_cqc_hdr(buf) {
        Ok(h) => h,
        Err(e) => return Err(e),
    };
    if cqc_hdr.length == 0 {
        return Ok((Response { cqc_hdr, notify: RspInfo::Empty }, 8));
    }
    let length = cqc_hdr.length;
    match cqc_hdr.msg_type.trailer() {
        Some(Trailer::Command) => Err(DecodeError::UnknownMessageType(buf[1])),
        None => Err(DecodeError::UnknownMessageType(buf[1])),
        Some(Trailer::Empty) => whole_packet(
            buf,
            length,
            Response { cqc_hdr, notify: RspInfo::Empty },
        ),
        Some(t) => match decode_notify(buf, length, t) {
            Ok(notify) => whole_packet(buf, length, Response { cqc_hdr, notify }),
            Err(e) => Err(e),
        },
    }
}

// ----------------------------------------------------------------------------
// Packets, encoder and decoder.
// ----------------------------------------------------------------------------

/// A kind of packet that has one layout on the wire.
pub trait Packet: Sized {
    /// The bytes of the packet.
    spec fn spec_encode(&self) -> Seq<u8>;

    /// The packet at the start of `s`, and the number of bytes it takes.
    spec fn spec_decode(s: Seq<u8>) -> Result<(Self, usize), DecodeError>;

    /// Appends the bytes of the packet to `out`.
    fn encode_into(&self, out: &mut Vec<u8>)
        ensures
            final(out)@ == old(out)@ + self.spec_encode(),
    ;

    /// Reads the packet at the start of `buf`.
    fn decode_from(buf: &[u8]) -> (r: Result<(Self, usize), DecodeError>)
        ensures
            r == Self::spec_decode(buf@),
            match r {
                Ok((_, n)) => n <= buf@.len(),
                Err(_) => true,
            },
    ;
}

impl Packet for Request {
    open spec fn spec_encode(&self) -> Seq<u8> {
        spec_encode_request(*self)
    }

    open spec fn spec_decode(s: Seq<u8>) -> Result<(Request, usize), DecodeError> {
        spec_decode_request(s)
    }

    fn encode_into(&self, out: &mut Vec<u8>) {
        encode_request(self, out)
    }

    fn decode_from(buf: &[u8]) -> (r: Result<(Request, usize), DecodeError>) {
        // A slice's length is a usize, which the lemma below needs.
        let _len = buf.len();
        let r = decode_request(buf);
        proof {
            if r is Ok {
                lemma_decoded_request_wf(buf@);
            }
        }
        r
    }
}

impl Packet for Response {
    open spec fn spec_encode(&self) -> Seq<u8> {
        spec_encode_response(*self)
    }

    open spec fn spec_decode(s: Seq<u8>) -> Result<(Response, usize), DecodeError> {
        spec_decode_response(s)
    }

    fn encode_into(&self, out: &mut Vec<u8>) {
        encode_response(self, out)
    }

    fn decode_from(buf: &[u8]) -> (r: Result<(Response, usize), DecodeError>) {
        // A slice's length is a usize, which the lemma below needs.
        let _len = buf.len();
        let r = decode_response(buf);
        proof {
            if r is Ok {
                lemma_decoded_response_wf(buf@);
            }
        }
        r
    }
}

/// Packet encoder: writes packets in network byte order.
pub struct Encoder {}

impl Encoder {
    pub fn new() -> Encoder {
        Encoder {}
    }

    /// Writes `packet` at the start of `buffer` and returns the number of
    /// bytes written; the rest of `buffer` is untouched.  A buffer shorter
    /// than the packet is left as it was, and `BufferTooSmall` is returned.
    pub fn encode<T: Packet>(&self, packet: &T, buffer: &mut [u8]) -> (r: Result<usize, EncodeError>)
        ensures
            r is Ok <==> packet.spec_encode().len() <= old(buffer)@.len(),
            match r {
                Ok(n) => {
                    &&& n == packet.spec_encode().len()
                    &&& final(buffer)@ == packet.spec_encode() + old(buffer)@.subrange(
                        n as int,
                        old(buffer)@.len() as int,
                    )
                },
                Err(e) => {
                    &&& e == EncodeError::BufferTooSmall {
                        needed: packet.spec_encode().len() as usize,
                        available: old(buffer)@.len() as usize,
                    }
                    &&& final(buffer)@ == old(buffer)@
                },
            },
    {
        let mut bytes: Vec<u8> = Vec::new();
        packet.encode_into(&mut bytes);
        assert(bytes@ =~= packet.spec_encode());
        let needed = bytes.len();
        let available = buffer.len();
        if available < needed {
            return Err(EncodeError::BufferTooSmall { needed, available });
        }
        let mut i: usize = 0;
        while i < needed
            invariant
                needed == bytes@.len(),
                needed <= available,
                available == old(buffer)@.len(),
                i <= needed,
                buffer@.len() == available,
                buffer@.subrange(0, i as int) == bytes@.subrange(0, i as int),
                buffer@.subrange(needed as int, available as int) == old(buffer)@.subrange(
                    needed as int,
                    available as int,
                ),
            decreases needed - i,
        {
            buffer[i] = bytes[i];
            assert(buffer@.subrange(0, i + 1) =~= bytes@.subrange(0, i + 1));
            assert(buffer@.subrange(needed as int, available as int) =~= old(buffer)@.subrange(
                needed as int,
                available as int,
            ));
            i += 1;
        }
        assert(buffer@ =~= bytes@ + old(buffer)@.subrange(needed as int, available as int)) by {
            assert(bytes@.subrange(0, needed as int) =~= bytes@);
            assert(buffer@ =~= buffer@.subrange(0, needed as int) + buffer@.subrange(
                needed as int,
                available as int,
            ));
        }
        Ok(needed)
    }

    /// The bytes of `packet` in a new vector.
    pub fn into_vec<T: Packet>(&self, packet: &T) -> (r: Vec<u8>)
        ensures
            r@ == packet.spec_encode(),
    {
        let mut bytes: Vec<u8> = Vec::new();
        packet.encode_into(&mut bytes);
        assert(bytes@ =~= packet.spec_encode());
        bytes
    }
}

/// Packet decoder: reads packets in network byte order.
pub struct Decoder {}

impl Decoder {
    pub fn new() -> Decoder {
        Decoder {}
    }

    /// Reads the packet at the start of `buffer`; returns it with the number
    /// of bytes it takes, or the reason it is rejected.
    pub fn decode<T: Packet>(&self, buffer: &[u8]) -> (r: Result<(T, usize), DecodeError>)
        ensures
            r == T::spec_decode(buffer@),
            match r {
                Ok((_, n)) => n <= buffer@.len(),
                Err(_) => true,
            },
    {
        T::decode_from(buffer)
    }
}

} // verus!
