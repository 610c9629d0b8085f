//! # CQC codec
//!
//! Encoder and decoder for the CQC control protocol, which commands quantum
//! network nodes to create, transmit, measure and manipulate qubits.
//!
//! Packets are built from the typed headers of `hdr` (by hand, or with the
//! `builder` module), written to bytes in the one layout of the protocol,
//! and read back with every malformed input rejected by a `DecodeError`.
//! The library does no I/O: the caller moves the bytes.
//!
//! Modules, leaves first:
//! - `wire`: fixed-width integers in network byte order;
//! - `hdr`: the header kinds, their lengths and layouts, and the validated
//!   conversions of one-byte codes;
//! - `dispatch`: which structure follows which message type and
//!   instruction;
//! - `packet`: requests and responses, and when they are well-formed;
//! - `codec`: encoding and decoding of whole packets;
//! - `laws`: round trip, rejection and truncation properties;
//! - `builder`: construction of well-formed packets.
pub mod builder;
pub mod codec;
pub mod dispatch;
pub mod hdr;
pub mod laws;
pub mod packet;
pub mod wire;

pub use codec::{DecodeError, Decoder, EncodeError, Encoder, Packet};
pub use packet::{EprInfo, ReqCmd, Request, Response, RspInfo, XtraHdr};
