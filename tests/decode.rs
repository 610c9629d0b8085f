use cqc::hdr::{CqcHdr, EntInfoHdr, MeasOut, MeasOutHdr, MsgType, QubitHdr, Tp, Version};
use cqc::{Decoder, EprInfo, Response, RspInfo};

fn byte16(value: u16, byte: u32) -> u8 {
    (value >> ((1 - byte) * 8)) as u8
}

fn byte32(value: u32, byte: u32) -> u8 {
    (value >> ((3 - byte) * 8)) as u8
}

fn byte64(value: u64, byte: u32) -> u8 {
    (value >> ((7 - byte) * 8)) as u8
}

const QUBIT_ID: u16 = 0xFA_CE;
const APP_ID: u16 = 0x0A_0E;
const NODE: u32 = 0x12_34_AB_CD;
const PORT: u16 = 0x91_03;
const REMOTE_APP_ID: u16 = 0x5E_3F;
const REMOTE_NODE: u32 = 0xAE_04_E2_52;
const REMOTE_PORT: u16 = 0x20_43;
const ENT_ID: u32 = 0x76_23_AE_9F;
const TIMESTAMP: u64 = 0x22_11_AA_76_EA_82_9A_99;
const TOG: u64 = 0x11_00_99_65_D9_71_89_88;
const GOODNESS: u16 = 0xFF_01;

fn cqc_bytes(cqc_type: Tp, length: u32) -> Vec<u8> {
    vec![
        Version::V2.to_u8(),
        cqc_type.to_u8(),
        byte16(APP_ID, 0),
        byte16(APP_ID, 1),
        byte32(length, 0),
        byte32(length, 1),
        byte32(length, 2),
        byte32(length, 3),
    ]
}

fn decode(packet: &Vec<u8>) -> Response {
    let decoder = Decoder::new();
    let (result, consumed): (Response, usize) = decoder.decode(&packet[..]).unwrap();
    assert_eq!(consumed, packet.len());
    result
}

#[test]
fn decode_cqc_hdr_decode() {
    let cqc_type = Tp::NewOk;
    let length: u32 = 0;
    let cqc_hdr = CqcHdr {
        version: Version::V2,
        msg_type: MsgType::Tp(cqc_type),
        app_id: APP_ID,
        length,
    };
    let response = Response {
        cqc_hdr,
        notify: RspInfo::Empty,
    };
    let packet = cqc_bytes(cqc_type, length);
    assert_eq!(decode(&packet), response);
}

#[test]
fn qubit_rsp_decode() {
    let cqc_type = Tp::NewOk;
    let length: u32 = QubitHdr::hdr_len();
    let cqc_hdr = CqcHdr {
        version: Version::V2,
        msg_type: MsgType::Tp(cqc_type),
        app_id: APP_ID,
        length,
    };
    let response = Response {
        cqc_hdr,
        notify: RspInfo::Qubit(QubitHdr { qubit_id: QUBIT_ID }),
    };
    let mut packet = cqc_bytes(cqc_type, length);
    packet.push(byte16(QUBIT_ID, 0));
    packet.push(byte16(QUBIT_ID, 1));
    assert_eq!(decode(&packet), response);
}

#[test]
fn meas_out_rsp_decode() {
    let cqc_type = Tp::MeasOut;
    let length: u32 = MeasOutHdr::hdr_len();
    let cqc_hdr = CqcHdr {
        version: Version::V2,
        msg_type: MsgType::Tp(cqc_type),
        app_id: APP_ID,
        length,
    };
    let response = Response {
        cqc_hdr,
        notify: RspInfo::MeasOut(MeasOutHdr {
            meas_out: MeasOut::One,
        }),
    };
    let mut packet = cqc_bytes(cqc_type, length);
    packet.push(0x01);
    assert_eq!(decode(&packet), response);
}

#[test]
fn decode_ent_info_hdr_decode() {
    let cqc_type = Tp::EprOk;
    let length: u32 = QubitHdr::hdr_len() + EntInfoHdr::hdr_len();
    let cqc_hdr = CqcHdr {
        version: Version::V2,
        msg_type: MsgType::Tp(cqc_type),
        app_id: APP_ID,
        length,
    };
    let qubit_hdr = QubitHdr { qubit_id: QUBIT_ID };
    let ent_info_hdr = EntInfoHdr {
        node_a: NODE,
        port_a: PORT,
        app_id_a: APP_ID,
        node_b: REMOTE_NODE,
        port_b: REMOTE_PORT,
        app_id_b: REMOTE_APP_ID,
        id_ab: ENT_ID,
        timestamp: TIMESTAMP,
        tog: TOG,
        goodness: GOODNESS,
        df: 0,
        align: 0,
    };
    let response = Response {
        cqc_hdr,
        notify: RspInfo::Epr(EprInfo {
            qubit_hdr,
            ent_info_hdr,
        }),
    };
    let mut packet = cqc_bytes(cqc_type, length);
    packet.extend_from_slice(&[byte16(QUBIT_ID, 0), byte16(QUBIT_ID, 1)]);
    for i in 0..4 {
        packet.push(byte32(NODE, i));
    }
    packet.extend_from_slice(&[byte16(PORT, 0), byte16(PORT, 1)]);
    packet.extend_from_slice(&[byte16(APP_ID, 0), byte16(APP_ID, 1)]);
    for i in 0..4 {
        packet.push(byte32(REMOTE_NODE, i));
    }
    packet.extend_from_slice(&[byte16(REMOTE_PORT, 0), byte16(REMOTE_PORT, 1)]);
    packet.extend_from_slice(&[byte16(REMOTE_APP_ID, 0), byte16(REMOTE_APP_ID, 1)]);
    for i in 0..4 {
        packet.push(byte32(ENT_ID, i));
    }
    for i in 0..8 {
        packet.push(byte64(TIMESTAMP, i));
    }
    for i in 0..8 {
        packet.push(byte64(TOG, i));
    }
    packet.extend_from_slice(&[byte16(GOODNESS, 0), byte16(GOODNESS, 1), 0x00, 0x00]);
    assert_eq!(decode(&packet), response);
}
