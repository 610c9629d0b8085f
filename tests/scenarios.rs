use cqc::builder::Client;
use cqc::hdr::{CmdOpt, Version};
use cqc::{DecodeError, Decoder, Encoder, Request, Response};

#[test]
fn scenario_liveness_check() {
    let request = Client::new(0x0A0E).hello();
    let bytes = Encoder::new().into_vec(&request);
    assert_eq!(
        bytes,
        vec![Version::V2.to_u8(), 0x00, 0x0A, 0x0E, 0x00, 0x00, 0x00, 0x00]
    );
    assert_eq!(request.cqc_hdr.length, 0);
}

#[test]
fn scenario_command_with_no_extra() {
    let mut options = CmdOpt::empty();
    options.set_notify();
    options.set_block();
    assert_eq!(options.bits(), 0x05);
    let request = Client::new(0x0A0E).cmd_new(0xBE56, options);
    let bytes = Encoder::new().into_vec(&request);
    assert_eq!(bytes.len(), 12);
    assert_eq!(&bytes[4..8], &[0, 0, 0, 4]);
    assert_eq!(&bytes[8..], &[0xBE, 0x56, 0x01, 0x05]);
    assert_eq!(request.cqc_hdr.length, 4);
}

#[test]
fn scenario_rotation_command() {
    let request = Client::new(0x0A0E).cmd_rot_x(0xBE56, CmdOpt::empty(), 192);
    let bytes = Encoder::new().into_vec(&request);
    assert_eq!(&bytes[4..8], &[0, 0, 0, 5]);
    assert_eq!(&bytes[8..], &[0xBE, 0x56, 14, 0x00, 192]);
    assert_eq!(request.cqc_hdr.length, 5);
}

#[test]
fn version_rejection_for_every_other_byte() {
    let decoder = Decoder::new();
    for v in 0u8..=255 {
        if v == 2 {
            continue;
        }
        let packet = vec![v, 0, 0, 0, 0, 0, 0, 0];
        let r: Result<(Request, usize), DecodeError> = decoder.decode(&packet[..]);
        assert_eq!(r, Err(DecodeError::UnsupportedVersion(v)));
        let r: Result<(Response, usize), DecodeError> = decoder.decode(&packet[..]);
        assert_eq!(r, Err(DecodeError::UnsupportedVersion(v)));
    }
}

#[test]
fn unknown_message_types_are_rejected() {
    let decoder = Decoder::new();
    for t in (13u8..20).chain(26u8..=255) {
        let packet = vec![2, t, 0, 0, 0, 0, 0, 0];
        let r: Result<(Request, usize), DecodeError> = decoder.decode(&packet[..]);
        assert_eq!(r, Err(DecodeError::UnknownMessageType(t)));
        let r: Result<(Response, usize), DecodeError> = decoder.decode(&packet[..]);
        assert_eq!(r, Err(DecodeError::UnknownMessageType(t)));
    }
}

#[test]
fn mix_and_if_with_a_body_are_not_in_the_table() {
    let decoder = Decoder::new();
    for t in [11u8, 12u8] {
        let packet = vec![2, t, 0, 0, 0, 0, 0, 4, 0, 0, 0, 0];
        let r: Result<(Request, usize), DecodeError> = decoder.decode(&packet[..]);
        assert_eq!(r, Err(DecodeError::UnknownMessageType(t)));
    }
}

#[test]
fn empty_and_short_buffers_are_truncated() {
    let decoder = Decoder::new();
    let r: Result<(Request, usize), DecodeError> = decoder.decode(&[]);
    assert_eq!(
        r,
        Err(DecodeError::TruncatedInput {
            needed: 8,
            available: 0
        })
    );
    let packet = vec![2, 1, 0, 0, 0, 0, 0, 5, 0xBE, 0x56, 14, 0];
    let r: Result<(Request, usize), DecodeError> = decoder.decode(&packet[..]);
    assert_eq!(
        r,
        Err(DecodeError::TruncatedInput {
            needed: 13,
            available: 12
        })
    );
    let r: Result<(Request, usize), DecodeError> = decoder.decode(&packet[..10]);
    assert_eq!(
        r,
        Err(DecodeError::TruncatedInput {
            needed: 12,
            available: 10
        })
    );
}

#[test]
fn largest_values_round_trip() {
    let request = Client::new(u16::MAX).cmd_cnot(u16::MAX, CmdOpt::from_bits_truncate(0xFF), u16::MAX);
    let bytes = Encoder::new().into_vec(&request);
    let (d, n): (Request, usize) = Decoder::new().decode(&bytes[..]).unwrap();
    assert_eq!(d, request);
    assert_eq!(n, 14);
    assert_eq!(&bytes[8..], &[0xFF, 0xFF, 20, 0x0F, 0xFF, 0xFF]);
}
