//! # Packet builder
//!
//! Builds well-formed packets from their parameters: every response built
//! here, and every request built with defined option flags, satisfies the
//! dispatch table, so it encodes and decodes back to itself.
use vstd::prelude::*;
use crate::hdr::{
    Cmd, CmdHdr, CmdOpt, CommHdr, CqcHdr, EntInfoHdr, MeasOut, MeasOutHdr, MsgType, QubitHdr, RotHdr,
    TimeInfoHdr, Tp, Version,
};
use crate::packet::{EprInfo, ReqCmd, Request, Response, RspInfo, XtraHdr};

verus! {

/// Address of a remote node and application.
#[derive(Copy, Clone, Debug, PartialEq, Eq, Structural)]
pub struct RemoteId {
    pub remote_app_id: u16,
    pub remote_node: u32,
    pub remote_port: u16,
}

/// Builds requests on behalf of one application.
pub struct Client {
    app_id: u16,
}

impl View for Client {
    type V = u16;

    /// The application ID the requests are tagged with.
    closed spec fn view(&self) -> u16 {
        self.app_id
    }
}

/// The request of type `msg_type` from application `app_id` that carries
/// `req_cmd`, with the length of that command.
pub open spec fn spec_request(app_id: u16, msg_type: MsgType, req_cmd: Option<ReqCmd>) -> Request {
    Request {
        cqc_hdr: CqcHdr {
            version: Version::V2,
            msg_type,
            app_id,
            length: match req_cmd {
                Some(c) => c.spec_len(),
                None => 0,
            },
        },
        req_cmd,
    }
}

/// The command request from application `app_id` to perform `instr` on
/// `qubit_id` with `options`, followed by `xtra_hdr`.
pub open spec fn spec_command(
    app_id: u16,
    qubit_id: u16,
    instr: Cmd,
    options: CmdOpt,
    xtra_hdr: XtraHdr,
) -> Request {
    spec_request(
        app_id,
        MsgType::Tp(Tp::Command),
        Some(ReqCmd { cmd_hdr: CmdHdr { qubit_id, instr, options }, xtra_hdr }),
    )
}

impl Client {
    pub fn new(app_id: u16) -> (r: Client)
        ensures
            r@ == app_id,
    {
        Client { app_id }
    }

    fn build(&self, msg_type: MsgType, req_cmd: Option<ReqCmd>) -> (r: Request)
        ensures
            r == spec_request(self@, msg_type, req_cmd),
    {
        let length = match &req_cmd {
            Some(req) => req.len(),
            None => 0,
        };
        let cqc_hdr = CqcHdr { version: Version::V2, msg_type, app_id: self.app_id, length };
        Request { cqc_hdr, req_cmd }
    }

    /// An alive check.
    pub fn hello(&self) -> (r: Request)
        ensures
            r == spec_request(self@, MsgType::Tp(Tp::Hello), None),
            r.wf(),
    {
        self.build(MsgType::Tp(Tp::Hello), None)
    }

    /// A request for the creation time of `qubit_id`.
    pub fn get_time(&self, qubit_id: u16) -> (r: Request)
        ensures
            r == spec_request(
                self@,
                MsgType::Tp(Tp::GetTime),
                Some(
                    ReqCmd {
                        cmd_hdr: CmdHdr {
                            qubit_id,
                            instr: Cmd::I,
                            options: CmdOpt::spec_from_bits_truncate(0),
                        },
                        xtra_hdr: XtraHdr::Empty,
                    },
                ),
            ),
            r.wf(),
    {
        let options = CmdOpt::empty();
        proof {
            CmdOpt::lemma_from_bits_truncate(0);
            assert(0u8 & 0x0F == 0u8) by (bit_vector);
            CmdOpt::lemma_view_injective(options, CmdOpt::spec_from_bits_truncate(0));
        }
        let req_cmd = self.build_req_cmd(qubit_id, Cmd::I, options, XtraHdr::Empty);
        self.build(MsgType::Tp(Tp::GetTime), Some(req_cmd))
    }

    fn command(&self, req_cmd: ReqCmd) -> (r: Request)
        ensures
            r == spec_request(self@, MsgType::Tp(Tp::Command), Some(req_cmd)),
    {
        self.build(MsgType::Tp(Tp::Command), Some(req_cmd))
    }

    /// A command to perform the identity instruction on `qubit_id`.
    pub fn cmd_i(&self, qubit_id: u16, options: CmdOpt) -> (r: Request)
        ensures
            r == spec_command(
                self@,
                qubit_id,
                Cmd::I,
                options,
                XtraHdr::Empty,
            ),
            options.wf() ==> r.wf(),
    {
        self.command(self.build_req_cmd(qubit_id, Cmd::I, options, XtraHdr::Empty))
    }

    /// A command to perform the new qubit instruction on `qubit_id`.
    pub fn cmd_new(&self, qubit_id: u16, options: CmdOpt) -> (r: Request)
        ensures
            r == spec_command(
                self@,
                qubit_id,
                Cmd::New,
                options,
                XtraHdr::Empty,
            ),
            options.wf() ==> r.wf(),
    {
        self.command(self.build_req_cmd(qubit_id, Cmd::New, options, XtraHdr::Empty))
    }

    /// A command to perform the measure instruction on `qubit_id`.
    pub fn cmd_measure(&self, qubit_id: u16, options: CmdOpt) -> (r: Request)
        ensures
            r == spec_command(
                self@,
                qubit_id,
                Cmd::Measure,
                options,
                XtraHdr::Empty,
            ),
            options.wf() ==> r.wf(),
    {
        self.command(self.build_req_cmd(qubit_id, Cmd::Measure, options, XtraHdr::Empty))
    }

    /// A command to perform the measure in-place instruction on `qubit_id`.
    pub fn cmd_measure_inplace(&self, qubit_id: u16, options: CmdOpt) -> (r: Request)
        ensures
            r == spec_command(
                self@,
                qubit_id,
                Cmd::MeasureInplace,
                options,
                XtraHdr::Empty,
            ),
            options.wf() ==> r.wf(),
    {
        self.command(self.build_req_cmd(qubit_id, Cmd::MeasureInplace, options, XtraHdr::Empty))
    }

    /// A command to perform the reset instruction on `qubit_id`.
    pub fn cmd_reset(&self, qubit_id: u16, options: CmdOpt) -> (r: Request)
        ensures
            r == spec_command(
                self@,
                qubit_id,
                Cmd::Reset,
                options,
                XtraHdr::Empty,
            ),
            options.wf() ==> r.wf(),
    {
        self.command(self.build_req_cmd(qubit_id, Cmd::Reset, options, XtraHdr::Empty))
    }

    /// A command to perform the send instruction on `qubit_id`.
    pub fn cmd_send(&self, qubit_id: u16, options: CmdOpt, remote_id: RemoteId) -> (r: Request)
        ensures
            r == spec_command(
                self@,
                qubit_id,
                Cmd::Send,
                options,
                XtraHdr::Comm(
                    CommHdr {
                        remote_app_id: remote_id.remote_app_id,
                        remote_port: remote_id.remote_port,
                        remote_node: remote_id.remote_node,
                    },
                ),
            ),
            options.wf() ==> r.wf(),
    {
        let xtra_hdr = self.xtra_remote_node(remote_id);
        self.command(self.build_req_cmd(qubit_id, Cmd::Send, options, xtra_hdr))
    }

    /// A command to perform the receive instruction on `qubit_id`.
    pub fn cmd_recv(&self, qubit_id: u16, options: CmdOpt) -> (r: Request)
        ensures
            r == spec_command(
                self@,
                qubit_id,
                Cmd::Recv,
                options,
                XtraHdr::Empty,
            ),
            options.wf() ==> r.wf(),
    {
        self.command(self.build_req_cmd(qubit_id, Cmd::Recv, options, XtraHdr::Empty))
    }

    /// A command to perform the create EPR instruction on `qubit_id`.
    pub fn cmd_epr(&self, qubit_id: u16, options: CmdOpt, remote_id: RemoteId) -> (r: Request)
        ensures
            r == spec_command(
                self@,
                qubit_id,
                Cmd::Epr,
                options,
                XtraHdr::Comm(
                    CommHdr {
                        remote_app_id: remote_id.remote_app_id,
                        remote_port: remote_id.remote_port,
                        remote_node: remote_id.remote_node,
                    },
                ),
            ),
            options.wf() ==> r.wf(),
    {
        let xtra_hdr = self.xtra_remote_node(remote_id);
        self.command(self.build_req_cmd(qubit_id, Cmd::Epr, options, xtra_hdr))
    }

    /// A command to perform the receive EPR instruction on `qubit_id`.
    pub fn cmd_epr_recv(&self, qubit_id: u16, options: CmdOpt) -> (r: Request)
        ensures
            r == spec_command(
                self@,
                qubit_id,
                Cmd::EprRecv,
                options,
                XtraHdr::Empty,
            ),
            options.wf() ==> r.wf(),
    {
        self.command(self.build_req_cmd(qubit_id, Cmd::EprRecv, options, XtraHdr::Empty))
    }

    /// A command to perform the Pauli X instruction on `qubit_id`.
    pub fn cmd_x(&self, qubit_id: u16, options: CmdOpt) -> (r: Request)
        ensures
            r == spec_command(
                self@,
                qubit_id,
                Cmd::X,
                options,
                XtraHdr::Empty,
            ),
            options.wf() ==> r.wf(),
    {
        self.command(self.build_req_cmd(qubit_id, Cmd::X, options, XtraHdr::Empty))
    }

    /// A command to perform the Pauli Z instruction on `qubit_id`.
    pub fn cmd_z(&self, qubit_id: u16, options: CmdOpt) -> (r: Request)
        ensures
            r == spec_command(
                self@,
                qubit_id,
                Cmd::Z,
                options,
                XtraHdr::Empty,
            ),
            options.wf() ==> r.wf(),
    {
        self.command(self.build_req_cmd(qubit_id, Cmd::Z, options, XtraHdr::Empty))
    }

    /// A command to perform the Pauli Y instruction on `qubit_id`.
    pub fn cmd_y(&self, qubit_id: u16, options: CmdOpt) -> (r: Request)
        ensures
            r == spec_command(
                self@,
                qubit_id,
                Cmd::Y,
                options,
                XtraHdr::Empty,
            ),
            options.wf() ==> r.wf(),
    {
        self.command(self.build_req_cmd(qubit_id, Cmd::Y, options, XtraHdr::Empty))
    }

    /// A command to perform the T gate instruction on `qubit_id`.
    pub fn cmd_t(&self, qubit_id: u16, options: CmdOpt) -> (r: Request)
        ensures
            r == spec_command(
                self@,
                qubit_id,
                Cmd::T,
                options,
                XtraHdr::Empty,
            ),
            options.wf() ==> r.wf(),
    {
        self.command(self.build_req_cmd(qubit_id, Cmd::T, options, XtraHdr::Empty))
    }

    /// A command to perform the rotation around X instruction on `qubit_id`.
    pub fn cmd_rot_x(&self, qubit_id: u16, options: CmdOpt, step: u8) -> (r: Request)
        ensures
            r == spec_command(
                self@,
                qubit_id,
                Cmd::RotX,
                options,
                XtraHdr::Rot(RotHdr { step }),
            ),
            options.wf() ==> r.wf(),
    {
        let xtra_hdr = self.xtra_rotation_angle(step);
        self.command(self.build_req_cmd(qubit_id, Cmd::RotX, options, xtra_hdr))
    }

    /// A command to perform the rotation around Y instruction on `qubit_id`.
    pub fn cmd_rot_y(&self, qubit_id: u16, options: CmdOpt, step: u8) -> (r: Request)
        ensures
            r == spec_command(
                self@,
                qubit_id,
                Cmd::RotY,
                options,
                XtraHdr::Rot(RotHdr { step }),
            ),
            options.wf() ==> r.wf(),
    {
        let xtra_hdr = self.xtra_rotation_angle(step);
        self.command(self.build_req_cmd(qubit_id, Cmd::RotY, options, xtra_hdr))
    }

    /// A command to perform the rotation around Z instruction on `qubit_id`.
    pub fn cmd_rot_z(&self, qubit_id: u16, options: CmdOpt, step: u8) -> (r: Request)
        ensures
            r == spec_command(
                self@,
                qubit_id,
                Cmd::RotZ,
                options,
                XtraHdr::Rot(RotHdr { step }),
            ),
            options.wf() ==> r.wf(),
    {
        let xtra_hdr = self.xtra_rotation_angle(step);
        self.command(self.build_req_cmd(qubit_id, Cmd::RotZ, options, xtra_hdr))
    }

    /// A command to perform the Hadamard instruction on `qubit_id`.
    pub fn cmd_h(&self, qubit_id: u16, options: CmdOpt) -> (r: Request)
        ensures
            r == spec_command(
                self@,
                qubit_id,
                Cmd::H,
                options,
                XtraHdr::Empty,
            ),
            options.wf() ==> r.wf(),
    {
        self.command(self.build_req_cmd(qubit_id, Cmd::H, options, XtraHdr::Empty))
    }

    /// A command to perform the K gate instruction on `qubit_id`.
    pub fn cmd_k(&self, qubit_id: u16, options: CmdOpt) -> (r: Request)
        ensures
            r == spec_command(
                self@,
                qubit_id,
                Cmd::K,
                options,
                XtraHdr::Empty,
            ),
            options.wf() ==> r.wf(),
    {
        self.command(self.build_req_cmd(qubit_id, Cmd::K, options, XtraHdr::Empty))
    }

    /// A command to perform the CNOT instruction on `qubit_id`.
    pub fn cmd_cnot(&self, qubit_id: u16, options: CmdOpt, target_qubit_id: u16) -> (r: Request)
        ensures
            r == spec_command(
                self@,
                qubit_id,
                Cmd::Cnot,
                options,
                XtraHdr::Qubit(QubitHdr { qubit_id: target_qubit_id }),
            ),
            options.wf() ==> r.wf(),
    {
        let xtra_hdr = self.xtra_target_qubit(target_qubit_id);
        self.command(self.build_req_cmd(qubit_id, Cmd::Cnot, options, xtra_hdr))
    }

    /// A command to perform the CPHASE instruction on `qubit_id`.
    pub fn cmd_cphase(&self, qubit_id: u16, options: CmdOpt, target_qubit_id: u16) -> (r: Request)
        ensures
            r == spec_command(
                self@,
                qubit_id,
                Cmd::Cphase,
                options,
                XtraHdr::Qubit(QubitHdr { qubit_id: target_qubit_id }),
            ),
            options.wf() ==> r.wf(),
    {
        let xtra_hdr = self.xtra_target_qubit(target_qubit_id);
        self.command(self.build_req_cmd(qubit_id, Cmd::Cphase, options, xtra_hdr))
    }

    fn build_req_cmd(&self, qubit_id: u16, instr: Cmd, options: CmdOpt, xtra_hdr: XtraHdr) -> (r:
        ReqCmd)
        ensures
            r == (ReqCmd { cmd_hdr: CmdHdr { qubit_id, instr, options }, xtra_hdr }),
    {
        let cmd_hdr = CmdHdr { qubit_id, instr, options };
        ReqCmd { cmd_hdr, xtra_hdr }
    }

    fn xtra_remote_node(&self, remote_id: RemoteId) -> (r: XtraHdr)
        ensures
            r == XtraHdr::Comm(
                CommHdr {
                    remote_app_id: remote_id.remote_app_id,
                    remote_port: remote_id.remote_port,
                    remote_node: remote_id.remote_node,
                },
            ),
    {
        XtraHdr::Comm(
            CommHdr {
                remote_app_id: remote_id.remote_app_id,
                remote_node: remote_id.remote_node,
                remote_port: remote_id.remote_port,
            },
        )
    }

    fn xtra_rotation_angle(&self, step: u8) -> (r: XtraHdr)
        ensures
            r == XtraHdr::Rot(RotHdr { step }),
    {
        XtraHdr::Rot(RotHdr { step })
    }

    fn xtra_target_qubit(&self, qubit_id: u16) -> (r: XtraHdr)
        ensures
            r == XtraHdr::Qubit(QubitHdr { qubit_id }),
    {
        XtraHdr::Qubit(QubitHdr { qubit_id })
    }
}

/// Builds responses on behalf of one application.
pub struct Server {
    app_id: u16,
}

impl View for Server {
    type V = u16;

    /// The application ID the responses are tagged with.
    closed spec fn view(&self) -> u16 {
        self.app_id
    }
}

/// The response of type `msg_type` to application `app_id` that carries
/// `notify`, with the length of that notification.
pub open spec fn spec_response(app_id: u16, msg_type: MsgType, notify: RspInfo) -> Response {
    Response {
        cqc_hdr: CqcHdr { version: Version::V2, msg_type, app_id, length: notify.spec_len() },
        notify,
    }
}

impl Server {
    pub fn new(app_id: u16) -> (r: Server)
        ensures
            r@ == app_id,
    {
        Server { app_id }
    }

    fn build(&self, msg_type: MsgType, notify: RspInfo) -> (r: Response)
        ensures
            r == spec_response(self@, msg_type, notify),
    {
        let cqc_hdr = CqcHdr {
            version: Version::V2,
            msg_type,
            app_id: self.app_id,
            length: notify.len(),
        };
        Response { cqc_hdr, notify }
    }

    /// A qubit has expired.  The dispatch table gives the expire type no
    /// notification, so the qubit ID is not carried on the wire and the
    /// response is the top-level header alone, with length zero.
    pub fn expire(&self, _qubit_id: u16) -> (r: Response)
        ensures
            r == spec_response(self@, MsgType::Tp(Tp::Expire), RspInfo::Empty),
            r.wf(),
    {
        self.build(MsgType::Tp(Tp::Expire), RspInfo::Empty)
    }

    /// Command execution is done.
    pub fn done(&self) -> (r: Response)
        ensures
            r == spec_response(self@, MsgType::Tp(Tp::Done), RspInfo::Empty),
            r.wf(),
    {
        self.build(MsgType::Tp(Tp::Done), RspInfo::Empty)
    }

    /// Qubit `qubit_id` was received.
    pub fn recv(&self, qubit_id: u16) -> (r: Response)
        ensures
            r == spec_response(self@, MsgType::Tp(Tp::Recv), RspInfo::Qubit(QubitHdr { qubit_id })),
            r.wf(),
    {
        let notify = self.rsp_info_qubit(qubit_id);
        self.build(MsgType::Tp(Tp::Recv), notify)
    }

    /// An EPR pair was created; `qubit_id` is the local half.
    pub fn epr_ok(&self, qubit_id: u16, ent_info: EntInfoHdr) -> (r: Response)
        ensures
            r == spec_response(
                self@,
                MsgType::Tp(Tp::EprOk),
                RspInfo::Epr(EprInfo { qubit_hdr: QubitHdr { qubit_id }, ent_info_hdr: ent_info }),
            ),
            r.wf(),
    {
        let notify = self.rsp_info_epr(qubit_id, ent_info);
        self.build(MsgType::Tp(Tp::EprOk), notify)
    }

    /// The outcome of a measurement.
    pub fn meas_out(&self, meas_out: MeasOut) -> (r: Response)
        ensures
            r == spec_response(self@, MsgType::Tp(Tp::MeasOut), RspInfo::MeasOut(MeasOutHdr { meas_out })),
            r.wf(),
    {
        let notify = self.rsp_info_meas_out(meas_out);
        self.build(MsgType::Tp(Tp::MeasOut), notify)
    }

    /// Information about a time.
    pub fn inf_time(&self, datetime: u64) -> (r: Response)
        ensures
            r == spec_response(self@, MsgType::Tp(Tp::InfTime), RspInfo::Time(TimeInfoHdr { datetime })),
            r.wf(),
    {
        let notify = self.rsp_info_time_info(datetime);
        self.build(MsgType::Tp(Tp::InfTime), notify)
    }

    /// A new qubit `qubit_id` was created.
    pub fn new_ok(&self, qubit_id: u16) -> (r: Response)
        ensures
            r == spec_response(self@, MsgType::Tp(Tp::NewOk), RspInfo::Qubit(QubitHdr { qubit_id })),
            r.wf(),
    {
        let notify = self.rsp_info_qubit(qubit_id);
        self.build(MsgType::Tp(Tp::NewOk), notify)
    }

    fn rsp_info_qubit(&self, qubit_id: u16) -> (r: RspInfo)
        ensures
            r == RspInfo::Qubit(QubitHdr { qubit_id }),
    {
        RspInfo::Qubit(QubitHdr { qubit_id })
    }

    fn rsp_info_meas_out(&self, meas_out: MeasOut) -> (r: RspInfo)
        ensures
            r == RspInfo::MeasOut(MeasOutHdr { meas_out }),
    {
        RspInfo::MeasOut(MeasOutHdr { meas_out })
    }

    fn rsp_info_epr(&self, qubit_id: u16, ent_info: EntInfoHdr) -> (r: RspInfo)
        ensures
            r == RspInfo::Epr(EprInfo { qubit_hdr: QubitHdr { qubit_id }, ent_info_hdr: ent_info }),
    {
        RspInfo::Epr(EprInfo { qubit_hdr: QubitHdr { qubit_id }, ent_info_hdr: ent_info })
    }

    fn rsp_info_time_info(&self, datetime: u64) -> (r: RspInfo)
        ensures
            r == RspInfo::Time(TimeInfoHdr { datetime }),
    {
        RspInfo::Time(TimeInfoHdr { datetime })
    }
}

} // verus!
