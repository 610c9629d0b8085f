use cqc::hdr::{
    Cmd, CmdHdr, CmdOpt, CqcHdr, MsgType, QubitHdr, RotHdr, Tp, Version,
};
use cqc::{Encoder, ReqCmd, Request, XtraHdr};

fn byte16(value: u16, byte: u32) -> u8 {
    (value >> ((1 - byte) * 8)) as u8
}

fn byte32(value: u32, byte: u32) -> u8 {
    (value >> ((3 - byte) * 8)) as u8
}

const APP_ID: u16 = 0x0A_0E;
const QUBIT_ID: u16 = 0xBE_56;
const EXTRA_QUBIT_ID: u16 = 0xFE_80;
const STEP: u8 = 192;

fn command(instr: Cmd, xtra_hdr: XtraHdr) -> Request {
    let req_cmd = ReqCmd {
        cmd_hdr: CmdHdr {
            qubit_id: QUBIT_ID,
            instr,
            options: *CmdOpt::empty().set_notify().set_block(),
        },
        xtra_hdr,
    };
    Request {
        cqc_hdr: CqcHdr {
            version: Version::V2,
            msg_type: MsgType::Tp(Tp::Command),
            app_id: APP_ID,
            length: req_cmd.len(),
        },
        req_cmd: Some(req_cmd),
    }
}

fn expected_prefix(request: &Request) -> Vec<u8> {
    let (msg_type, length) = (request.cqc_hdr.msg_type, request.cqc_hdr.length);
    let mut expected = vec![
        Version::V2.to_u8(),
        u8::from(msg_type),
        byte16(APP_ID, 0),
        byte16(APP_ID, 1),
        byte32(length, 0),
        byte32(length, 1),
        byte32(length, 2),
        byte32(length, 3),
    ];
    if let Some(req_cmd) = &request.req_cmd {
        let (instr, options) = (req_cmd.cmd_hdr.instr, req_cmd.cmd_hdr.options);
        expected.extend_from_slice(&[
            byte16(QUBIT_ID, 0),
            byte16(QUBIT_ID, 1),
            instr.to_u8(),
            options.bits(),
        ]);
    }
    expected
}

#[test]
fn encode_cqc_hdr_encode() {
    let request = Request {
        cqc_hdr: CqcHdr {
            version: Version::V2,
            msg_type: MsgType::Tp(Tp::Hello),
            app_id: APP_ID,
            length: 0,
        },
        req_cmd: None,
    };
    let buf_len: usize = request.len() as usize;
    let mut buffer = vec![0xFF; buf_len];
    let expected = expected_prefix(&request);
    let encoder = Encoder::new();
    assert_eq!(encoder.encode(&request, &mut buffer[..]), Ok(buf_len));
    assert_eq!(buffer, expected);
}

#[test]
fn encode_cmd_hdr_encode() {
    let request = command(Cmd::New, XtraHdr::Empty);
    let buf_len: usize = request.len() as usize;
    let mut buffer = vec![0xFF; buf_len];
    let expected = expected_prefix(&request);
    let encoder = Encoder::new();
    assert_eq!(encoder.encode(&request, &mut buffer[..]), Ok(buf_len));
    assert_eq!(buffer, expected);
}

#[test]
fn encode_rot_hdr_encode() {
    let request = command(Cmd::RotX, XtraHdr::Rot(RotHdr { step: STEP }));
    let buf_len: usize = request.len() as usize;
    let mut buffer = vec![0xFF; buf_len];
    let mut expected = expected_prefix(&request);
    expected.push(STEP);
    let encoder = Encoder::new();
    assert_eq!(encoder.encode(&request, &mut buffer[..]), Ok(buf_len));
    assert_eq!(buffer, expected);
}

#[test]
fn encode_qubit_hdr_encode() {
    let request = command(
        Cmd::Cnot,
        XtraHdr::Qubit(QubitHdr {
            qubit_id: EXTRA_QUBIT_ID,
        }),
    );
    let buf_len: usize = request.len() as usize;
    let mut buffer = vec![0xFF; buf_len];
    let mut expected = expected_prefix(&request);
    expected.extend_from_slice(&[byte16(EXTRA_QUBIT_ID, 0), byte16(EXTRA_QUBIT_ID, 1)]);
    let encoder = Encoder::new();
    assert_eq!(encoder.encode(&request, &mut buffer[..]), Ok(buf_len));
    assert_eq!(buffer, expected);
}

#[test]
fn encode_buf_too_large() {
    let request = Request {
        cqc_hdr: CqcHdr {
            version: Version::V2,
            msg_type: MsgType::Tp(Tp::Hello),
            app_id: APP_ID,
            length: 0,
        },
        req_cmd: None,
    };
    let write_len: usize = request.len() as usize;
    let mut buffer = vec![0xFF; write_len + 4];
    let mut expected = expected_prefix(&request);
    expected.extend_from_slice(&[0xFF, 0xFF, 0xFF, 0xFF]);
    let encoder = Encoder::new();
    assert_eq!(encoder.encode(&request, &mut buffer[..]), Ok(write_len));
    assert_eq!(buffer, expected);
}

#[test]
fn encode_computes_length_from_the_body() {
    let mut request = command(Cmd::RotZ, XtraHdr::Rot(RotHdr { step: 1 }));
    request.cqc_hdr.length = 99;
    let bytes = Encoder::new().into_vec(&request);
    assert_eq!(&bytes[4..8], &[0, 0, 0, 5]);
}
