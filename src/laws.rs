//! Properties of the codec as a whole, each proved over the spec functions
//! that the encoder's and decoder's contracts use.
use vstd::prelude::*;
use crate::codec::{
    spec_decode_cqc_hdr, spec_decode_notify, spec_decode_req_cmd, spec_decode_request,
    spec_decode_response, spec_encode_request, spec_encode_response, DecodeError,
};
use crate::dispatch::Trailer;
use crate::hdr::{
    Cmd, CmdOpt, CqcHdr, EntInfoHdr, MeasOut, MsgType, QubitHdr, TimeInfoHdr, Tp, Version,
    CMD_OPT_BLOCK, CMD_OPT_NOTIFY, CQC_VERSION,
};
use crate::packet::{Request, Response, RspInfo, XtraHdr};
use crate::wire::{
    be16, be32, holds_at, lemma_be16_of_u16_at, lemma_be32_of_u32_at, lemma_holds_at_part,
    lemma_holds_at_split, lemma_holds_at_whole, lemma_subrange_concat, lemma_u16_at,
    lemma_u32_at, u32_at,
};

verus! {

/// A top-level header written at the start of `s` reads back as itself.
proof fn lemma_cqc_hdr_round_trip(h: CqcHdr, s: Seq<u8>)
    requires
        holds_at(s, 0, h.spec_bytes()),
    ensures
        spec_decode_cqc_hdr(s) == Ok::<CqcHdr, DecodeError>(h),
{
    let b = h.spec_bytes();
    assert(s.subrange(0, 8)[0] == s[0]);
    assert(s.subrange(0, 8)[1] == s[1]);
    assert(h.version == Version::V2);
    MsgType::lemma_from_to_u8(h.msg_type);
    lemma_holds_at_part(s, 0, b, 2, 2);
    assert(b.subrange(2, 4) =~= be16(h.app_id));
    lemma_u16_at(s, 2, h.app_id);
    lemma_holds_at_part(s, 0, b, 4, 4);
    assert(b.subrange(4, 8) =~= be32(h.length));
    lemma_u32_at(s, 4, h.length);
}

/// Round trip of requests: decoding the encoding of a well-formed request
/// gives that request back, and consumes every byte of the encoding.
pub proof fn lemma_request_round_trip(r: Request)
    requires
        r.wf(),
    ensures
        spec_decode_request(spec_encode_request(r)) == Ok::<(Request, usize), DecodeError>(
            (r, spec_encode_request(r).len() as usize),
        ),
{
    let s = spec_encode_request(r);
    let h = CqcHdr {
        version: r.cqc_hdr.version,
        msg_type: r.cqc_hdr.msg_type,
        app_id: r.cqc_hdr.app_id,
        length: r.spec_body_len(),
    };
    assert(h == r.cqc_hdr);
    let body = match r.req_cmd {
        Some(c) => c.spec_bytes(),
        None => Seq::empty(),
    };
    lemma_holds_at_whole(s);
    lemma_holds_at_split(s, 0, h.spec_bytes(), body);
    lemma_cqc_hdr_round_trip(h, s);
    match r.req_cmd {
        None => {},
        Some(c) => {
            let cb = c.cmd_hdr.spec_bytes();
            lemma_holds_at_split(s, 8, cb, c.xtra_hdr.spec_bytes());
            Cmd::lemma_from_to_u8(c.cmd_hdr.instr);
            assert(s.subrange(8, 12)[2] == s[10]);
            assert(s.subrange(8, 12)[3] == s[11]);
            lemma_holds_at_part(s, 8, cb, 0, 2);
            assert(cb.subrange(0, 2) =~= be16(c.cmd_hdr.qubit_id));
            lemma_u16_at(s, 8, c.cmd_hdr.qubit_id);
            CmdOpt::lemma_from_bits_truncate(s[11]);
            CmdOpt::lemma_view_injective(
                CmdOpt::spec_from_bits_truncate(s[11]),
                c.cmd_hdr.options,
            );
            c.xtra_hdr.lemma_parse_bytes(s, 12);
            assert(spec_decode_req_cmd(s, r.cqc_hdr.length) == Ok::<_, DecodeError>(c));
        },
    }
}

/// A notification written after a top-level header reads back as itself.
proof fn lemma_notify_round_trip(n: RspInfo, s: Seq<u8>)
    requires
        !(n is Empty),
        s.len() == 8 + n.spec_len(),
        holds_at(s, 8, n.spec_bytes()),
    ensures
        spec_decode_notify(s, n.spec_len(), n.spec_trailer()) == Ok::<RspInfo, DecodeError>(n),
{
    match n {
        RspInfo::Qubit(q) => {
            q.lemma_parse_bytes(s, 8);
        },
        RspInfo::MeasOut(m) => {
            assert(s.subrange(8, 9)[0] == s[8]);
            MeasOut::lemma_from_to_u8(m.meas_out);
        },
        RspInfo::Time(t) => {
            t.lemma_parse_bytes(s, 8);
        },
        RspInfo::Epr(e) => {
            lemma_holds_at_split(s, 8, e.qubit_hdr.spec_bytes(), e.ent_info_hdr.spec_bytes());
            e.qubit_hdr.lemma_parse_bytes(s, 8);
            e.ent_info_hdr.lemma_parse_bytes(s, 10);
        },
        RspInfo::Empty => {},
    }
}

/// Round trip of responses: decoding the encoding of a well-formed response
/// gives that response back, and consumes every byte of the encoding.
pub proof fn lemma_response_round_trip(r: Response)
    requires
        r.wf(),
    ensures
        spec_decode_response(spec_encode_response(r)) == Ok::<(Response, usize), DecodeError>(
            (r, spec_encode_response(r).len() as usize),
        ),
{
    let s = spec_encode_response(r);
    let h = CqcHdr {
        version: r.cqc_hdr.version,
        msg_type: r.cqc_hdr.msg_type,
        app_id: r.cqc_hdr.app_id,
        length: r.notify.spec_len(),
    };
    assert(h == r.cqc_hdr);
    r.notify.lemma_bytes_len();
    lemma_holds_at_whole(s);
    lemma_holds_at_split(s, 0, h.spec_bytes(), r.notify.spec_bytes());
    lemma_cqc_hdr_round_trip(h, s);
    if !(r.notify is Empty) {
        lemma_notify_round_trip(r.notify, s);
        assert(r.cqc_hdr.msg_type.spec_trailer() == Some(r.notify.spec_trailer()));
    }
}


/// Version rejection: a buffer that holds a top-level header whose version
/// byte is not the supported version is rejected as `UnsupportedVersion`,
/// whatever follows, as a request and as a response.
pub proof fn lemma_version_rejection(s: Seq<u8>)
    requires
        s.len() >= 8,
        s[0] != CQC_VERSION,
    ensures
        spec_decode_request(s) == Err::<(Request, usize), DecodeError>(
            DecodeError::UnsupportedVersion(s[0]),
        ),
        spec_decode_response(s) == Err::<(Response, usize), DecodeError>(
            DecodeError::UnsupportedVersion(s[0]),
        ),
{
}

/// Unknown message types: a supported version followed by a message type
/// byte outside both the normal range (0 to 12) and the error range (20 to
/// 25) is rejected as `UnknownMessageType`, as a request and as a response.
pub proof fn lemma_unknown_msg_type_rejection(s: Seq<u8>)
    requires
        s.len() >= 8,
        s[0] == CQC_VERSION,
        (12 < s[1] && s[1] < 20) || 25 < s[1],
    ensures
        spec_decode_request(s) == Err::<(Request, usize), DecodeError>(
            DecodeError::UnknownMessageType(s[1]),
        ),
        spec_decode_response(s) == Err::<(Response, usize), DecodeError>(
            DecodeError::UnknownMessageType(s[1]),
        ),
{
    assert forall|m: MsgType| #[trigger] m.spec_to_u8() != s[1] by {
        match m {
            MsgType::Tp(t) => assert(t.spec_to_u8() <= 12),
            MsgType::Error(e) => assert(20 <= e.spec_to_u8() <= 25),
        }
    }
}

/// Unknown instructions: a well-formed top-level header of a command-bearing
/// message type that declares a command, followed by a command header whose
/// instruction byte is no instruction (9, 19, or above 23), is rejected as
/// `UnknownInstruction`.
pub proof fn lemma_unknown_instruction_rejection(s: Seq<u8>)
    requires
        s.len() >= 12,
        s[0] == CQC_VERSION,
        s[1] == 1 || s[1] == 2 || s[1] == 8,
        u32_at(s, 4) >= 4,
        s[10] == 9 || s[10] == 19 || 23 < s[10],
    ensures
        spec_decode_request(s) == Err::<(Request, usize), DecodeError>(
            DecodeError::UnknownInstruction(s[10]),
        ),
{
    let m = if s[1] == 1 {
        MsgType::Tp(Tp::Command)
    } else if s[1] == 2 {
        MsgType::Tp(Tp::Factory)
    } else {
        MsgType::Tp(Tp::GetTime)
    };
    MsgType::lemma_from_to_u8(m);
    assert forall|c: Cmd| #[trigger] c.spec_to_u8() != s[10] by {}
}

/// A byte sequence holds, up to any length `k` not below the end of a part,
/// the same part as its prefix of length `k`.
proof fn lemma_holds_at_prefix(s: Seq<u8>, i: int, t: Seq<u8>, k: int)
    requires
        holds_at(s, i, t),
        i + t.len() <= k <= s.len(),
    ensures
        holds_at(s.subrange(0, k), i, t),
{
    assert(s.subrange(0, k).subrange(i, i + t.len()) =~= s.subrange(i, i + t.len()));
}

/// Truncation safety for requests: every proper prefix of the encoding of a
/// well-formed request is rejected as `TruncatedInput`, with the prefix's
/// length as the bytes available.
pub proof fn lemma_request_truncation(r: Request, k: int)
    requires
        r.wf(),
        0 <= k < spec_encode_request(r).len(),
    ensures
        match spec_decode_request(spec_encode_request(r).subrange(0, k)) {
            Err(DecodeError::TruncatedInput { needed, available }) => available == k && k
                < needed,
            _ => false,
        },
{
    let s = spec_encode_request(r);
    let t = s.subrange(0, k);
    let h = CqcHdr {
        version: r.cqc_hdr.version,
        msg_type: r.cqc_hdr.msg_type,
        app_id: r.cqc_hdr.app_id,
        length: r.spec_body_len(),
    };
    assert(h == r.cqc_hdr);
    if k >= 8 {
        let c = r.req_cmd->Some_0;
        lemma_holds_at_whole(s);
        lemma_holds_at_split(s, 0, h.spec_bytes(), c.spec_bytes());
        lemma_holds_at_prefix(s, 0, h.spec_bytes(), k);
        lemma_cqc_hdr_round_trip(h, t);
        if k >= 12 {
            lemma_holds_at_split(s, 8, c.cmd_hdr.spec_bytes(), c.xtra_hdr.spec_bytes());
            assert(s.subrange(8, 12)[2] == s[10]);
            assert(t[10] == s[10]);
            Cmd::lemma_from_to_u8(c.cmd_hdr.instr);
        }
    }
}

/// Truncation safety for responses: every proper prefix of the encoding of
/// a well-formed response is rejected as `TruncatedInput`, with the prefix's
/// length as the bytes available.
pub proof fn lemma_response_truncation(r: Response, k: int)
    requires
        r.wf(),
        0 <= k < spec_encode_response(r).len(),
    ensures
        match spec_decode_response(spec_encode_response(r).subrange(0, k)) {
            Err(DecodeError::TruncatedInput { needed, available }) => available == k && k
                < needed,
            _ => false,
        },
{
    let s = spec_encode_response(r);
    let t = s.subrange(0, k);
    let h = CqcHdr {
        version: r.cqc_hdr.version,
        msg_type: r.cqc_hdr.msg_type,
        app_id: r.cqc_hdr.app_id,
        length: r.notify.spec_len(),
    };
    assert(h == r.cqc_hdr);
    r.notify.lemma_bytes_len();
    if k >= 8 {
        lemma_holds_at_whole(s);
        lemma_holds_at_split(s, 0, h.spec_bytes(), r.notify.spec_bytes());
        lemma_holds_at_prefix(s, 0, h.spec_bytes(), k);
        lemma_cqc_hdr_round_trip(h, t);
        assert(r.cqc_hdr.msg_type.spec_trailer() == Some(r.notify.spec_trailer()));
    }
}

/// The bytes of the top-level header read from the start of `s` are the
/// first eight bytes of `s`.
proof fn lemma_cqc_hdr_bytes(s: Seq<u8>)
    requires
        spec_decode_cqc_hdr(s) is Ok,
    ensures
        spec_decode_cqc_hdr(s)->Ok_0.spec_bytes() == s.subrange(0, 8),
{
    let h = spec_decode_cqc_hdr(s)->Ok_0;
    assert(h.msg_type.spec_to_u8() == s[1]);
    lemma_be16_of_u16_at(s, 2);
    lemma_be32_of_u32_at(s, 4);
    assert(h.spec_bytes() =~= s.subrange(0, 8));
}

/// What decoding accepts has the shape the dispatch table gives it, with a
/// declared length that covers the command; the bytes consumed are the whole
/// packet as that length gives it, within the buffer.  When the declared
/// length is exactly the command's, the request is well-formed and the
/// bytes consumed are its encoding, but for flag bits of the options byte
/// that stand for no flag, which decoding drops.
pub proof fn lemma_decoded_request_wf(s: Seq<u8>)
    requires
        s.len() <= usize::MAX,
        spec_decode_request(s) is Ok,
    ensures
        ({
            let (r, n) = spec_decode_request(s)->Ok_0;
            &&& r.wf_shape()
            &&& n == 8 + r.cqc_hdr.length
            &&& n <= s.len()
            &&& r.cqc_hdr.length == r.spec_body_len() ==> {
                &&& r.wf()
                &&& n == spec_encode_request(r).len()
                &&& match r.req_cmd {
                    None => spec_encode_request(r) == s.subrange(0, n as int),
                    Some(_) => spec_encode_request(r) == s.subrange(0, n as int).update(
                        11,
                        s[11] & 0x0F,
                    ),
                }
            }
        }),
{
    let (r, n) = spec_decode_request(s)->Ok_0;
    let h = r.cqc_hdr;
    assert(h == spec_decode_cqc_hdr(s)->Ok_0);
    lemma_cqc_hdr_bytes(s);
    if h.length != 0 {
        assert(s.len() >= 8 + h.length);
        assert(n == 8 + h.length);
    }
    match r.req_cmd {
        Some(c) => {
            CmdOpt::lemma_from_bits_truncate(s[11]);
            if h.length == r.spec_body_len() {
                let kind = c.cmd_hdr.instr.spec_xtra_kind();
                assert(c.cmd_hdr.instr.spec_to_u8() == s[10]);
                assert(n == 12 + kind.spec_len());
                lemma_be16_of_u16_at(s, 8);
                XtraHdr::lemma_bytes_of_parse(kind, s, 12);
                let t = s.subrange(0, n as int).update(11, s[11] & 0x0F);
                assert(c.cmd_hdr.spec_bytes() =~= t.subrange(8, 12));
                assert(h.spec_bytes() =~= t.subrange(0, 8));
                assert(c.xtra_hdr.spec_bytes() =~= t.subrange(12, n as int));
                assert(spec_encode_request(r) =~= t);
            }
        },
        None => {
            if h.length == 0 {
                assert(spec_encode_request(r) =~= s.subrange(0, n as int));
            }
        },
    }
}

/// What decoding accepts has the shape the dispatch table gives it, with a
/// declared length that covers the notification; the bytes consumed are
/// the whole packet as that length gives it, within the buffer.  When the
/// declared length is exactly the notification's, the response is
/// well-formed and the bytes consumed are its encoding.
pub proof fn lemma_decoded_response_wf(s: Seq<u8>)
    requires
        s.len() <= usize::MAX,
        spec_decode_response(s) is Ok,
    ensures
        ({
            let (r, n) = spec_decode_response(s)->Ok_0;
            &&& r.wf_shape()
            &&& n == 8 + r.cqc_hdr.length
            &&& n <= s.len()
            &&& r.cqc_hdr.length == r.notify.spec_len() ==> {
                &&& r.wf()
                &&& n == spec_encode_response(r).len()
                &&& spec_encode_response(r) == s.subrange(0, n as int)
            }
        }),
{
    let (r, n) = spec_decode_response(s)->Ok_0;
    let h = spec_decode_cqc_hdr(s)->Ok_0;
    assert(r.cqc_hdr == h);
    r.notify.lemma_bytes_len();
    if h.length != 0 {
        assert(s.len() >= 8 + h.length);
        assert(n == 8 + h.length);
    }
    if r.cqc_hdr.length == r.notify.spec_len() {
        lemma_exact_response_bytes(s, r, n);
    }
}

/// A decoded response whose declared length is exactly its notification's
/// is written as the bytes it was read from.
proof fn lemma_exact_response_bytes(s: Seq<u8>, r: Response, n: usize)
    requires
        s.len() <= usize::MAX,
        spec_decode_response(s) == Ok::<(Response, usize), DecodeError>((r, n)),
        r.cqc_hdr.length == r.notify.spec_len(),
    ensures
        r.wf(),
        n == spec_encode_response(r).len(),
        spec_encode_response(r) == s.subrange(0, n as int),
{
    r.notify.lemma_bytes_len();
    lemma_cqc_hdr_bytes(s);
    assert(n == 8 + r.notify.spec_len());
    match r.notify {
        RspInfo::Qubit(_) => QubitHdr::lemma_bytes_of_parse(s, 8),
        RspInfo::MeasOut(m) => {
            assert(m.meas_out.spec_to_u8() == s[8]);
            assert(r.notify.spec_bytes() =~= s.subrange(8, 9));
        },
        RspInfo::Time(_) => TimeInfoHdr::lemma_bytes_of_parse(s, 8),
        RspInfo::Epr(_) => {
            QubitHdr::lemma_bytes_of_parse(s, 8);
            EntInfoHdr::lemma_bytes_of_parse(s, 10);
            lemma_subrange_concat(s, 8, 10, 50);
        },
        RspInfo::Empty => {},
    }
    assert(spec_encode_response(r) =~= s.subrange(0, n as int));
}

/// Flag independence: setting notify and block gives the same bits in
/// either order, each setter is idempotent, no other bit changes, and from
/// no flags the result is 0x05.
pub proof fn lemma_flags_order_independent(bits: u8)
    ensures
        (bits | CMD_OPT_NOTIFY) | CMD_OPT_BLOCK == (bits | CMD_OPT_BLOCK) | CMD_OPT_NOTIFY,
        (bits | CMD_OPT_NOTIFY) | CMD_OPT_BLOCK == bits | 0x05,
        (bits | CMD_OPT_NOTIFY) | CMD_OPT_NOTIFY == bits | CMD_OPT_NOTIFY,
        (bits | CMD_OPT_BLOCK) | CMD_OPT_BLOCK == bits | CMD_OPT_BLOCK,
        ((bits | 0x05) & 0xFA) == bits & 0xFA,
        (0u8 | CMD_OPT_NOTIFY) | CMD_OPT_BLOCK == 0x05,
{
    assert((bits | 0x01u8) | 0x04u8 == (bits | 0x04u8) | 0x01u8) by (bit_vector);
    assert((bits | 0x01u8) | 0x04u8 == bits | 0x05u8) by (bit_vector);
    assert((bits | 0x01u8) | 0x01u8 == bits | 0x01u8) by (bit_vector);
    assert((bits | 0x04u8) | 0x04u8 == bits | 0x04u8) by (bit_vector);
    assert(((bits | 0x05u8) & 0xFAu8) == bits & 0xFAu8) by (bit_vector);
    assert((0u8 | 0x01u8) | 0x04u8 == 0x05u8) by (bit_vector);
}

} // verus!
