use cqc::hdr::{
    AssignHdr, Cmd, CmdHdr, CmdOpt, CmpType, CommHdr, CqcHdr, EntInfoHdr, FactoryHdr, FactoryOpt,
    IfHdr, MeasOut, MeasOutHdr, MsgType, OpType, QubitHdr, RotHdr, TimeInfoHdr, Tp, TypeHdr,
    Version,
};

fn zero_ent_info() -> EntInfoHdr {
    EntInfoHdr {
        node_a: 0,
        port_a: 0,
        app_id_a: 0,
        node_b: 0,
        port_b: 0,
        app_id_b: 0,
        id_ab: 0,
        timestamp: 0,
        tog: 0,
        goodness: 0,
        df: 0,
        align: 0,
    }
}

#[test]
fn hdr_cqc_hdr_ser_size() {
    let cqc_hdr = CqcHdr {
        version: Version::V2,
        msg_type: MsgType::Tp(Tp::Hello),
        app_id: 0,
        length: 0,
    };
    let mut out = Vec::new();
    cqc_hdr.encode(&mut out);
    assert_eq!(out.len() as u32, CqcHdr::hdr_len());
}

#[test]
fn hdr_cmd_hdr_ser_size() {
    let cmd_hdr = CmdHdr {
        qubit_id: 0,
        instr: Cmd::I,
        options: CmdOpt::empty(),
    };
    let mut out = Vec::new();
    cmd_hdr.encode(&mut out);
    assert_eq!(out.len() as u32, CmdHdr::hdr_len());
}

#[test]
fn hdr_rot_hdr_ser_size() {
    let rot_hdr = RotHdr { step: 0 };
    let mut out = Vec::new();
    rot_hdr.encode(&mut out);
    assert_eq!(out.len() as u32, RotHdr::hdr_len());
}

#[test]
fn hdr_comm_hdr_ser_size() {
    let comm_hdr = CommHdr {
        remote_app_id: 0,
        remote_node: 0,
        remote_port: 0,
    };
    let mut out = Vec::new();
    comm_hdr.encode(&mut out);
    assert_eq!(out.len() as u32, CommHdr::hdr_len());
}

#[test]
fn hdr_factory_hdr_ser_size() {
    let factory_hdr = FactoryHdr {
        num_iter: 0,
        options: FactoryOpt::empty(),
    };
    let mut out = Vec::new();
    factory_hdr.encode(&mut out);
    assert_eq!(out.len() as u32, FactoryHdr::hdr_len());
}

#[test]
fn hdr_ent_info_hdr_ser_size() {
    let ent_info_hdr = zero_ent_info();
    let mut out = Vec::new();
    ent_info_hdr.encode(&mut out);
    assert_eq!(out.len() as u32, EntInfoHdr::hdr_len());
}

#[test]
fn mod_cqc_hdr_ser_size() {
    let cqc_hdr = CqcHdr {
        version: Version::V2,
        msg_type: MsgType::Tp(Tp::Hello),
        app_id: 0,
        length: 0,
    };
    let mut out = Vec::new();
    cqc_hdr.encode(&mut out);
    assert_eq!(out.len() as u32, cqc_hdr.len());
}

#[test]
fn mod_cmd_hdr_ser_size() {
    let cmd_hdr = CmdHdr {
        qubit_id: 0,
        instr: Cmd::I,
        options: CmdOpt::empty(),
    };
    let mut out = Vec::new();
    cmd_hdr.encode(&mut out);
    assert_eq!(out.len() as u32, cmd_hdr.len());
}

#[test]
fn assign_hdr_ser_size() {
    let assign_hdr = AssignHdr { ref_id: 0 };
    let mut out = Vec::new();
    assign_hdr.encode(&mut out);
    assert_eq!(out.len() as u32, assign_hdr.len());
}

#[test]
fn mod_rot_hdr_ser_size() {
    let rot_hdr = RotHdr { step: 0 };
    let mut out = Vec::new();
    rot_hdr.encode(&mut out);
    assert_eq!(out.len() as u32, rot_hdr.len());
}

#[test]
fn qubit_hdr_ser_size() {
    let qubit_hdr = QubitHdr { qubit_id: 0 };
    let mut out = Vec::new();
    qubit_hdr.encode(&mut out);
    assert_eq!(out.len() as u32, qubit_hdr.len());
}

#[test]
fn mod_comm_hdr_ser_size() {
    let comm_hdr = CommHdr {
        remote_app_id: 0,
        remote_node: 0,
        remote_port: 0,
    };
    let mut out = Vec::new();
    comm_hdr.encode(&mut out);
    assert_eq!(out.len() as u32, comm_hdr.len());
}

#[test]
fn mod_factory_hdr_ser_size() {
    let factory_hdr = FactoryHdr {
        num_iter: 0,
        options: FactoryOpt::empty(),
    };
    let mut out = Vec::new();
    factory_hdr.encode(&mut out);
    assert_eq!(out.len() as u32, factory_hdr.len());
}

#[test]
fn meas_out_hdr_ser_size() {
    let meas_out_hdr = MeasOutHdr {
        meas_out: MeasOut::Zero,
    };
    let mut out = Vec::new();
    meas_out_hdr.encode(&mut out);
    assert_eq!(out.len() as u32, meas_out_hdr.len());
}

#[test]
fn time_info_hdr_ser_size() {
    let time_info_hdr = TimeInfoHdr { datetime: 0 };
    let mut out = Vec::new();
    time_info_hdr.encode(&mut out);
    assert_eq!(out.len() as u32, time_info_hdr.len());
}

#[test]
fn mod_ent_info_hdr_ser_size() {
    let ent_info_hdr = zero_ent_info();
    let mut out = Vec::new();
    ent_info_hdr.encode(&mut out);
    assert_eq!(out.len() as u32, ent_info_hdr.len());
}

#[test]
fn type_hdr_ser_size() {
    let type_hdr = TypeHdr {
        hdr_type: Tp::Hello,
        length: 0,
    };
    let mut out = Vec::new();
    type_hdr.encode(&mut out);
    assert_eq!(out.len() as u32, type_hdr.len());
}

#[test]
fn if_hdr_ser_size() {
    let if_hdr = IfHdr {
        left_op: 0,
        operator: CmpType::Eq,
        right_op_t: OpType::Value,
        right_op: 0,
        length: 0,
    };
    let mut out = Vec::new();
    if_hdr.encode(&mut out);
    assert_eq!(out.len() as u32, if_hdr.len());
}

// Layouts on the wire, with exact bytes.

#[test]
fn comm_hdr_layout_is_app_id_port_node() {
    let comm_hdr = CommHdr {
        remote_app_id: 0x5E3F,
        remote_port: 0x9103,
        remote_node: 0xAE04_E252,
    };
    let mut out = Vec::new();
    comm_hdr.encode(&mut out);
    assert_eq!(out, vec![0x5E, 0x3F, 0x91, 0x03, 0xAE, 0x04, 0xE2, 0x52]);
}

#[test]
fn type_and_if_hdr_layouts() {
    let mut out = Vec::new();
    TypeHdr {
        hdr_type: Tp::If,
        length: 0x0102_0304,
    }
    .encode(&mut out);
    assert_eq!(out, vec![12, 0x01, 0x02, 0x03, 0x04]);

    let mut out = Vec::new();
    IfHdr {
        left_op: 0x0A0B_0C0D,
        operator: CmpType::InEq,
        right_op_t: OpType::RefId,
        right_op: 7,
        length: 0x100,
    }
    .encode(&mut out);
    assert_eq!(
        out,
        vec![0x0A, 0x0B, 0x0C, 0x0D, 1, 1, 0, 0, 0, 7, 0, 0, 1, 0]
    );
}

#[test]
fn factory_and_assign_hdr_layouts() {
    let mut opts = FactoryOpt::empty();
    opts.set_block();
    let mut out = Vec::new();
    FactoryHdr {
        num_iter: 9,
        options: opts,
    }
    .encode(&mut out);
    assert_eq!(out, vec![9, 0x04]);
    assert!(opts.get_block());
    assert!(!opts.get_notify());

    let mut out = Vec::new();
    AssignHdr { ref_id: 0xDEAD_BEEF }.encode(&mut out);
    assert_eq!(out, vec![0xDE, 0xAD, 0xBE, 0xEF]);
}

// Validated code conversions.

#[test]
fn msg_type_codes_round_trip_and_reject_gaps() {
    for value in 0u8..=255 {
        match MsgType::get(value) {
            Some(m) => {
                assert!(value <= 12 || (20..=25).contains(&value));
                assert_eq!(m.to_u8(), value);
                assert_eq!(u8::from(m), value);
                assert_eq!(m.is_tp(), value <= 12);
                assert_eq!(m.is_err(), value >= 20);
            }
            None => assert!((13..20).contains(&value) || value > 25),
        }
    }
}

#[test]
fn cmd_codes_round_trip_and_reject_gaps() {
    for value in 0u8..=255 {
        match Cmd::get(value) {
            Some(c) => assert_eq!(c.to_u8(), value),
            None => assert!(value == 9 || value == 19 || value > 23),
        }
    }
    assert_eq!(Cmd::get(14), Some(Cmd::RotX));
    assert_eq!(Cmd::get(21), Some(Cmd::Cphase));
}

#[test]
fn small_code_conversions() {
    assert_eq!(Version::get(2), Some(Version::V2));
    assert_eq!(Version::get(1), None);
    assert_eq!(Version::V2.to_u8(), 2);
    assert_eq!(MeasOut::get(0), Some(MeasOut::Zero));
    assert_eq!(MeasOut::get(1), Some(MeasOut::One));
    assert_eq!(MeasOut::get(2), None);
    assert_eq!(CmpType::get(1), Some(CmpType::InEq));
    assert_eq!(CmpType::get(2), None);
    assert_eq!(OpType::get(0), Some(OpType::Value));
    assert_eq!(OpType::get(3), None);
    assert_eq!(Tp::get(11), Some(Tp::Mix));
    assert_eq!(Tp::get(13), None);
    assert_eq!(cqc::hdr::ErrTp::get(24), Some(cqc::hdr::ErrTp::InUse));
    assert_eq!(cqc::hdr::ErrTp::get(26), None);
}

#[test]
fn msg_type_predicates() {
    let m = MsgType::Tp(Tp::Done);
    assert!(m.is_done());
    assert!(!m.is_hello());
    let e = MsgType::Error(cqc::hdr::ErrTp::Timeout);
    assert!(e.is_err_timeout());
    assert!(!e.is_err_general());
    assert!(MsgType::Tp(Tp::EprOk).is_epr_ok());
    assert!(MsgType::Tp(Tp::MeasOut).is_measout());
}

// Option flags.

#[test]
fn flag_independence_notify_then_block() {
    let mut a = CmdOpt::empty();
    a.set_notify().set_block();
    let mut b = CmdOpt::empty();
    b.set_block().set_notify();
    assert_eq!(a.bits(), 0x05);
    assert_eq!(b.bits(), 0x05);
    assert_eq!(a, b);
    assert!(a.get_notify() && a.get_block());
    assert!(!a.get_action() && !a.get_ifthen());
}

#[test]
fn flag_setters_are_idempotent_and_keep_other_bits() {
    let mut o = CmdOpt::from_bits_truncate(0x0A);
    o.set_notify();
    o.set_notify();
    assert_eq!(o.bits(), 0x0B);
    assert!(o.get_action() && o.get_ifthen());
}

#[test]
fn from_bits_truncate_drops_undefined_bits() {
    assert_eq!(CmdOpt::from_bits_truncate(0xFF).bits(), 0x0F);
    assert_eq!(FactoryOpt::from_bits_truncate(0xFF).bits(), 0x05);
}
