use cqc::builder::{Client, RemoteId};
use cqc::hdr::{Cmd, CmdHdr, CmdOpt, CommHdr, CqcHdr, MsgType, QubitHdr, RotHdr, Tp, Version};
use cqc::{DecodeError, Decoder, EncodeError, Encoder, Request};

fn byte16(value: u16, byte: u32) -> u8 {
    (value >> ((1 - byte) * 8)) as u8
}

fn byte32(value: u32, byte: u32) -> u8 {
    (value >> ((3 - byte) * 8)) as u8
}

const APP_ID: u16 = 0x0A_0E;
const QUBIT_ID: u16 = 0xBE_56;
const EXTRA_QUBIT_ID: u16 = 0xFE_80;
const REMOTE_APP_ID: u16 = 0x5E_3F;
const REMOTE_NODE: u32 = 0xAE_04_E2_52;
const REMOTE_PORT: u16 = 0x91_03;
const STEP: u8 = 192;

fn notify_block() -> CmdOpt {
    *CmdOpt::empty().set_notify().set_block()
}

fn header(msg_type: MsgType, length: u32) -> Vec<u8> {
    vec![
        Version::V2.to_u8(),
        u8::from(msg_type),
        byte16(APP_ID, 0),
        byte16(APP_ID, 1),
        byte32(length, 0),
        byte32(length, 1),
        byte32(length, 2),
        byte32(length, 3),
    ]
}

fn round_trip(request: &Request, expected: &Vec<u8>) {
    let buf_len: usize = request.len() as usize;
    let mut buffer = vec![0xAA; buf_len];

    let encoder = Encoder::new();
    assert_eq!(encoder.encode(request, &mut buffer[..]), Ok(buf_len));
    assert_eq!(&buffer, expected);

    let decoder = Decoder::new();
    let (decoded, consumed): (Request, usize) = decoder.decode(&buffer[..]).unwrap();
    assert_eq!(&decoded, request);
    assert_eq!(consumed, buf_len);
}

#[test]
fn request_cqc_hdr() {
    let builder = Client::new(APP_ID);
    let request = builder.hello();
    let expected = header(MsgType::Tp(Tp::Hello), 0);
    round_trip(&request, &expected);
}

#[test]
fn cmd_hdr() {
    let builder = Client::new(APP_ID);
    let request = builder.cmd_new(QUBIT_ID, notify_block());
    let length = CmdHdr::hdr_len();
    let options = notify_block();
    let mut expected = header(MsgType::Tp(Tp::Command), length);
    expected.extend_from_slice(&[
        byte16(QUBIT_ID, 0),
        byte16(QUBIT_ID, 1),
        Cmd::New.to_u8(),
        options.bits(),
    ]);
    round_trip(&request, &expected);
}

#[test]
fn rot_hdr() {
    let builder = Client::new(APP_ID);
    let request = builder.cmd_rot_x(QUBIT_ID, notify_block(), STEP);
    let length = CmdHdr::hdr_len() + RotHdr::hdr_len();
    let options = notify_block();
    let mut expected = header(MsgType::Tp(Tp::Command), length);
    expected.extend_from_slice(&[
        byte16(QUBIT_ID, 0),
        byte16(QUBIT_ID, 1),
        Cmd::RotX.to_u8(),
        options.bits(),
        STEP,
    ]);
    round_trip(&request, &expected);
}

#[test]
fn qubit_hdr() {
    let builder = Client::new(APP_ID);
    let request = builder.cmd_cnot(QUBIT_ID, notify_block(), EXTRA_QUBIT_ID);
    let length = CmdHdr::hdr_len() + QubitHdr::hdr_len();
    let options = notify_block();
    let mut expected = header(MsgType::Tp(Tp::Command), length);
    expected.extend_from_slice(&[
        byte16(QUBIT_ID, 0),
        byte16(QUBIT_ID, 1),
        Cmd::Cnot.to_u8(),
        options.bits(),
        byte16(EXTRA_QUBIT_ID, 0),
        byte16(EXTRA_QUBIT_ID, 1),
    ]);
    round_trip(&request, &expected);
}

#[test]
fn comm_hdr() {
    let builder = Client::new(APP_ID);
    let request = builder.cmd_send(
        QUBIT_ID,
        notify_block(),
        RemoteId {
            remote_app_id: REMOTE_APP_ID,
            remote_port: REMOTE_PORT,
            remote_node: REMOTE_NODE,
        },
    );
    let length = CmdHdr::hdr_len() + CommHdr::hdr_len();
    let options = notify_block();
    let mut expected = header(MsgType::Tp(Tp::Command), length);
    expected.extend_from_slice(&[
        byte16(QUBIT_ID, 0),
        byte16(QUBIT_ID, 1),
        Cmd::Send.to_u8(),
        options.bits(),
        byte16(REMOTE_APP_ID, 0),
        byte16(REMOTE_APP_ID, 1),
        byte16(REMOTE_PORT, 0),
        byte16(REMOTE_PORT, 1),
        byte32(REMOTE_NODE, 0),
        byte32(REMOTE_NODE, 1),
        byte32(REMOTE_NODE, 2),
        byte32(REMOTE_NODE, 3),
    ]);
    round_trip(&request, &expected);
}

#[test]
fn request_buf_too_large() {
    let builder = Client::new(APP_ID);
    let request = builder.hello();

    let write_len: usize = request.len() as usize;
    let buf_len: usize = write_len + 4;
    let mut buffer = vec![0xAA; buf_len];

    let mut expected = header(MsgType::Tp(Tp::Hello), 0);
    expected.extend_from_slice(&[0xAA, 0xAA, 0xAA, 0xAA]);

    let encoder = Encoder::new();
    assert_eq!(encoder.encode(&request, &mut buffer[..]), Ok(write_len));
    assert_eq!(buffer, expected);

    let decoder = Decoder::new();
    let (decoded, consumed): (Request, usize) = decoder.decode(&buffer[..]).unwrap();
    assert_eq!(decoded, request);
    assert_eq!(consumed, write_len);
}

#[test]
fn request_buf_too_small_is_rejected_untouched() {
    let builder = Client::new(APP_ID);
    let request = builder.hello();
    let mut buffer = vec![0xAA; (request.len() - 1) as usize];
    let encoder = Encoder::new();
    assert_eq!(
        encoder.encode(&request, &mut buffer[..]),
        Err(EncodeError::BufferTooSmall {
            needed: 8,
            available: 7
        })
    );
    assert_eq!(buffer, vec![0xAA; 7]);
}

#[test]
fn request_cmd_buf_too_small_is_rejected_untouched() {
    let builder = Client::new(APP_ID);
    let request = builder.cmd_i(QUBIT_ID, CmdOpt::empty());
    let mut buffer = vec![0xAA; (request.len() - 1) as usize];
    let encoder = Encoder::new();
    assert_eq!(
        encoder.encode(&request, &mut buffer[..]),
        Err(EncodeError::BufferTooSmall {
            needed: 12,
            available: 11
        })
    );
    assert_eq!(buffer, vec![0xAA; 11]);
}

fn command_packet(version: u8, msg_type: u8, length: u32) -> Vec<u8> {
    vec![
        version,
        msg_type,
        byte16(APP_ID, 0),
        byte16(APP_ID, 1),
        byte32(length, 0),
        byte32(length, 1),
        byte32(length, 2),
        byte32(length, 3),
        byte16(QUBIT_ID, 0),
        byte16(QUBIT_ID, 1),
        Cmd::New.to_u8(),
        notify_block().bits(),
    ]
}

#[test]
fn request_invalid_len_is_rejected() {
    let packet = command_packet(2, 1, CmdHdr::hdr_len() - 1);
    let decoder = Decoder::new();
    let r: Result<(Request, usize), DecodeError> = decoder.decode(&packet[..]);
    assert_eq!(
        r,
        Err(DecodeError::LengthMismatch {
            declared: 3,
            required: 4
        })
    );
}

#[test]
fn request_invalid_version_is_rejected() {
    let packet = command_packet(Version::V2.to_u8() + 1, 1, CmdHdr::hdr_len());
    let decoder = Decoder::new();
    let r: Result<(Request, usize), DecodeError> = decoder.decode(&packet[..]);
    assert_eq!(r, Err(DecodeError::UnsupportedVersion(3)));
}

#[test]
fn request_invalid_msg_type_is_rejected() {
    let packet = command_packet(2, 0xFF, CmdHdr::hdr_len());
    let decoder = Decoder::new();
    let r: Result<(Request, usize), DecodeError> = decoder.decode(&packet[..]);
    assert_eq!(r, Err(DecodeError::UnknownMessageType(0xFF)));
}

#[test]
fn request_unknown_instruction_is_rejected() {
    let mut packet = command_packet(2, 1, CmdHdr::hdr_len());
    packet[10] = 19;
    let decoder = Decoder::new();
    let r: Result<(Request, usize), DecodeError> = decoder.decode(&packet[..]);
    assert_eq!(r, Err(DecodeError::UnknownInstruction(19)));
}

#[test]
fn request_body_on_hello_is_skipped() {
    let packet = command_packet(2, 0, CmdHdr::hdr_len());
    let decoder = Decoder::new();
    let (r, n): (Request, usize) = decoder.decode(&packet[..]).unwrap();
    assert_eq!(n, 12);
    assert_eq!(r.req_cmd, None);
    assert_eq!(r.cqc_hdr.length, 4);
}

#[test]
fn request_longer_declared_length_is_consumed() {
    let mut packet = command_packet(2, 1, 6);
    packet.extend_from_slice(&[0, 0]);
    packet.extend_from_slice(&[9, 9, 9]);
    let decoder = Decoder::new();
    let (r, n): (Request, usize) = decoder.decode(&packet[..]).unwrap();
    assert_eq!(n, 14);
    assert_eq!(r.cqc_hdr.length, 6);
    let c = r.req_cmd.unwrap();
    assert_eq!(c.cmd_hdr.instr, Cmd::New);
    assert_eq!(c.cmd_hdr.qubit_id, QUBIT_ID);
    assert!(c.xtra_hdr.is_none());
}

#[test]
fn request_new_with_declared_length_five() {
    let mut packet = command_packet(2, 1, 5);
    packet.push(0);
    let decoder = Decoder::new();
    let (r, n): (Request, usize) = decoder.decode(&packet[..]).unwrap();
    assert_eq!(n, 13);
    assert_eq!(r.req_cmd.unwrap().cmd_hdr.instr, Cmd::New);
}

#[test]
fn request_declared_packet_longer_than_buffer_is_truncated() {
    let packet = command_packet(2, 1, 5);
    let decoder = Decoder::new();
    let r: Result<(Request, usize), DecodeError> = decoder.decode(&packet[..]);
    assert_eq!(
        r,
        Err(DecodeError::TruncatedInput {
            needed: 13,
            available: 12
        })
    );
}

#[test]
fn request_rotation_short_of_its_extra_is_rejected() {
    let mut packet = command_packet(2, 1, 4);
    packet[10] = Cmd::RotX.to_u8();
    let decoder = Decoder::new();
    let r: Result<(Request, usize), DecodeError> = decoder.decode(&packet[..]);
    assert_eq!(
        r,
        Err(DecodeError::LengthMismatch {
            declared: 4,
            required: 5
        })
    );
}

#[test]
fn request_zero_length_command_has_no_body() {
    let packet = header(MsgType::Tp(Tp::Command), 0);
    let decoder = Decoder::new();
    let (r, n): (Request, usize) = decoder.decode(&packet[..]).unwrap();
    assert_eq!(n, 8);
    assert_eq!(
        r,
        Request {
            cqc_hdr: CqcHdr {
                version: Version::V2,
                msg_type: MsgType::Tp(Tp::Command),
                app_id: APP_ID,
                length: 0
            },
            req_cmd: None
        }
    );
}

#[test]
fn request_options_undefined_bits_are_dropped() {
    let mut packet = command_packet(2, 1, CmdHdr::hdr_len());
    packet[11] = 0xF5;
    let decoder = Decoder::new();
    let (r, n): (Request, usize) = decoder.decode(&packet[..]).unwrap();
    assert_eq!(r.req_cmd.unwrap().cmd_hdr.options.bits(), 0x05);
    let mut reencoded = packet[..n].to_vec();
    reencoded[11] = 0x05;
    assert_eq!(Encoder::new().into_vec(&r), reencoded);
}

#[test]
fn request_stream_of_two_packets() {
    let builder = Client::new(APP_ID);
    let first = builder.cmd_rot_z(1, CmdOpt::empty(), 7);
    let second = builder.get_time(2);
    let encoder = Encoder::new();
    let mut stream = encoder.into_vec(&first);
    stream.extend_from_slice(&encoder.into_vec(&second));

    let decoder = Decoder::new();
    let (a, n): (Request, usize) = decoder.decode(&stream[..]).unwrap();
    assert_eq!(a, first);
    assert_eq!(n, 13);
    let (b, m): (Request, usize) = decoder.decode(&stream[n..]).unwrap();
    assert_eq!(b, second);
    assert_eq!(m, 12);
}

#[test]
fn request_every_builder_command_round_trips() {
    let c = Client::new(APP_ID);
    let o = notify_block();
    let remote = RemoteId {
        remote_app_id: 1,
        remote_node: 2,
        remote_port: 3,
    };
    let requests = vec![
        c.hello(),
        c.get_time(5),
        c.cmd_i(5, o),
        c.cmd_new(5, o),
        c.cmd_measure(5, o),
        c.cmd_measure_inplace(5, o),
        c.cmd_reset(5, o),
        c.cmd_send(5, o, remote),
        c.cmd_recv(5, o),
        c.cmd_epr(5, o, remote),
        c.cmd_epr_recv(5, o),
        c.cmd_x(5, o),
        c.cmd_z(5, o),
        c.cmd_y(5, o),
        c.cmd_t(5, o),
        c.cmd_rot_x(5, o, 1),
        c.cmd_rot_y(5, o, 2),
        c.cmd_rot_z(5, o, 3),
        c.cmd_h(5, o),
        c.cmd_k(5, o),
        c.cmd_cnot(5, o, 6),
        c.cmd_cphase(5, o, 6),
    ];
    let encoder = Encoder::new();
    let decoder = Decoder::new();
    for r in requests {
        let bytes = encoder.into_vec(&r);
        assert_eq!(bytes.len(), r.len() as usize);
        let (d, n): (Request, usize) = decoder.decode(&bytes[..]).unwrap();
        assert_eq!(d, r);
        assert_eq!(n, bytes.len());
        for k in 0..bytes.len() {
            let t: Result<(Request, usize), DecodeError> = decoder.decode(&bytes[..k]);
            match t {
                Err(DecodeError::TruncatedInput { available, .. }) => assert_eq!(available, k as u64),
                other => panic!("prefix of {} bytes gave {:?}", k, other),
            }
        }
    }
}

#[test]
fn request_xtra_accessors() {
    let c = Client::new(APP_ID);
    let r = c.cmd_rot_y(1, CmdOpt::empty(), 9).req_cmd.unwrap();
    assert!(r.xtra_hdr.is_rot_hdr());
    assert!(r.xtra_hdr.is_some());
    assert_eq!(r.xtra_hdr.get_rot_hdr(), RotHdr { step: 9 });
    assert_eq!(r.len(), 5);
    let r = c.cmd_h(1, CmdOpt::empty()).req_cmd.unwrap();
    assert!(r.xtra_hdr.is_none());
    assert_eq!(r.xtra_hdr.len(), 0);
}
