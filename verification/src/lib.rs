//! Encoder and decoder for Unified Diagnostic Services (UDS, ISO 14229)
//! messages.
//!
//! Callers hand in raw payload bytes together with the expected payload
//! length and receive either a typed [`UdsMessage`] or a decode failure;
//! encoding is the exact mirror.  The wire format is big-endian throughout:
//! byte 0 is the service identifier (SID; bit `0x40` set means response,
//! fixed `0x7f` means negative response), the remaining bytes are the
//! payload, whose shape the SID selects.
//!
//! Every codec is verified against a mathematical encoder and decoder pair:
//! [`spec_uds_enc`] and [`spec_uds_dec`].  The crate's central laws are
//! proved once and for all: decoding is exact ([`lemma_uds_dec_fidelity`]:
//! whatever decodes re-encodes byte-for-byte to the consumed input),
//! encoding round-trips ([`lemma_uds_round_trip`]), a buffer shorter than a
//! message's minimum never yields a partial success
//! ([`lemma_uds_short_buffer`]), and unknown SIDs degrade losslessly to a
//! raw message ([`lemma_uds_unknown_sid`]).

use vstd::prelude::*;

pub mod bytes;
pub mod did;
pub mod dtc;
pub mod error;
pub mod file_transfer;
pub mod laws;
pub mod message;
pub mod nrc;
pub mod payload;
pub mod rawuds;
pub mod transfers;

pub use error::DecErr;
pub use error::UdsError;
pub use laws::lemma_uds_dec_fidelity;
pub use laws::lemma_uds_round_trip;
pub use laws::lemma_uds_short_buffer;
pub use laws::lemma_uds_unknown_sid;
pub use payload::Payload;

use crate::did::ReadDIDReq;
use crate::did::ReadDIDRsp;
use crate::did::SpecDidWithData;
use crate::did::WriteDIDReq;
use crate::did::WriteDIDRsp;
use crate::dtc::ReadDTCReq;
use crate::dtc::ReadDTCRsp;
use crate::dtc::SpecReadDTCRsp;
use crate::error::err_kind;
use crate::file_transfer::RequestFileTransferReq;
use crate::file_transfer::RequestFileTransferRsp;
use crate::file_transfer::SpecRequestFileTransferReq;
use crate::nrc::Nrc;
use crate::rawuds::RawUds;
use crate::rawuds::SpecRawUds;
use crate::transfers::RequestDownloadReq;
use crate::transfers::RequestDownloadRsp;
use crate::transfers::SpecTransferDataReq;
use crate::transfers::SpecTransferExit;
use crate::transfers::TransferDataReq;
use crate::transfers::TransferDataRsp;
use crate::transfers::TransferExitReq;
use crate::transfers::TransferExitRsp;

verus! {

/// A UDS message
///
/// The enum is all the messages encoded and decoded by this crate.  If a
/// message is unknown, it is by default encoded or decoded as a `RawUds`.
#[derive(Debug, Clone, PartialEq)]
pub enum UdsMessage {
    /// Negative Response Code
    Nrc(Nrc),
    /// `RawUds` is not an actual message, but a placeholder for the UDS
    /// messages missing from [`UdsMessage`], which can be encoded as a raw
    /// byte array.
    RawUds(RawUds),
    /// Read DID request message
    ReadDIDReq(ReadDIDReq),
    /// Read DID response message
    ReadDIDRsp(ReadDIDRsp),
    /// Read DTC request message
    ReadDTCReq(ReadDTCReq),
    /// Read DTC response message
    ReadDTCRsp(ReadDTCRsp),
    /// Request Download, aka. `TransferStart`
    RequestDownloadReq(RequestDownloadReq),
    /// Request Download response
    RequestDownloadRsp(RequestDownloadRsp),
    /// Request File Transfer
    RequestFileTransferReq(RequestFileTransferReq),
    /// Request File Transfer response
    RequestFileTransferRsp(RequestFileTransferRsp),
    /// Transfer data request
    TransferDataReq(TransferDataReq),
    /// Transfer data response
    TransferDataRsp(TransferDataRsp),
    /// Transfer exit request
    TransferExitReq(TransferExitReq),
    /// Transfer exit response
    TransferExitRsp(TransferExitRsp),
    /// `WriteDID` request message
    WriteDIDReq(WriteDIDReq),
    /// Write DID response message
    WriteDIDRsp(WriteDIDRsp),
}

/// Mathematical model of [`UdsMessage`].
#[verifier::ext_equal]
#[allow(missing_docs)]
pub enum SpecUdsMessage {
    Nrc(Nrc),
    RawUds(SpecRawUds),
    ReadDIDReq(ReadDIDReq),
    ReadDIDRsp(SpecDidWithData),
    ReadDTCReq(ReadDTCReq),
    ReadDTCRsp(SpecReadDTCRsp),
    RequestDownloadReq(RequestDownloadReq),
    RequestDownloadRsp(RequestDownloadRsp),
    RequestFileTransferReq(SpecRequestFileTransferReq),
    RequestFileTransferRsp(RequestFileTransferRsp),
    TransferDataReq(SpecTransferDataReq),
    TransferDataRsp(TransferDataRsp),
    TransferExitReq(SpecTransferExit),
    TransferExitRsp(SpecTransferExit),
    WriteDIDReq(SpecDidWithData),
    WriteDIDRsp(WriteDIDRsp),
}

impl View for UdsMessage {
    type V = SpecUdsMessage;

    open spec fn view(&self) -> SpecUdsMessage {
        match self {
            UdsMessage::Nrc(p) => SpecUdsMessage::Nrc(p@),
            UdsMessage::RawUds(p) => SpecUdsMessage::RawUds(p@),
            UdsMessage::ReadDIDReq(p) => SpecUdsMessage::ReadDIDReq(p@),
            UdsMessage::ReadDIDRsp(p) => SpecUdsMessage::ReadDIDRsp(p@),
            UdsMessage::ReadDTCReq(p) => SpecUdsMessage::ReadDTCReq(p@),
            UdsMessage::ReadDTCRsp(p) => SpecUdsMessage::ReadDTCRsp(p@),
            UdsMessage::RequestDownloadReq(p) => SpecUdsMessage::RequestDownloadReq(p@),
            UdsMessage::RequestDownloadRsp(p) => SpecUdsMessage::RequestDownloadRsp(p@),
            UdsMessage::RequestFileTransferReq(p) => SpecUdsMessage::RequestFileTransferReq(p@),
            UdsMessage::RequestFileTransferRsp(p) => SpecUdsMessage::RequestFileTransferRsp(p@),
            UdsMessage::TransferDataReq(p) => SpecUdsMessage::TransferDataReq(p@),
            UdsMessage::TransferDataRsp(p) => SpecUdsMessage::TransferDataRsp(p@),
            UdsMessage::TransferExitReq(p) => SpecUdsMessage::TransferExitReq(p@),
            UdsMessage::TransferExitRsp(p) => SpecUdsMessage::TransferExitRsp(p@),
            UdsMessage::WriteDIDReq(p) => SpecUdsMessage::WriteDIDReq(p@),
            UdsMessage::WriteDIDRsp(p) => SpecUdsMessage::WriteDIDRsp(p@),
        }
    }
}

/// The message family a service identifier selects, the direction already
/// resolved.
#[allow(missing_docs)]
pub enum Sid {
    Nrc,
    RawUds(u8),
    ReadDTC,
    ReadDID,
    RequestDownload,
    RequestFileTransfer,
    TransferData,
    TransferExit,
    WriteDID,
}

/// The family of a direction-stripped service byte; unmapped bytes carry
/// themselves into [`Sid::RawUds`].
pub open spec fn spec_sid_family(value: u8) -> Sid {
    if value == 0x19 {
        Sid::ReadDTC
    } else if value == 0x22 {
        Sid::ReadDID
    } else if value == 0x2e {
        Sid::WriteDID
    } else if value == 0x34 {
        Sid::RequestDownload
    } else if value == 0x36 {
        Sid::TransferData
    } else if value == 0x37 {
        Sid::TransferExit
    } else if value == 0x38 {
        Sid::RequestFileTransfer
    } else if value == 0x3f {
        Sid::Nrc
    } else {
        Sid::RawUds(value)
    }
}

impl Sid {
    /// The family of a direction-stripped service byte.
    pub fn from_byte(value: u8) -> (r: Sid)
        ensures
            r == spec_sid_family(value),
    {
        match value {
            0x19 => Sid::ReadDTC,
            0x22 => Sid::ReadDID,
            0x2e => Sid::WriteDID,
            0x34 => Sid::RequestDownload,
            0x36 => Sid::TransferData,
            0x37 => Sid::TransferExit,
            0x38 => Sid::RequestFileTransfer,
            0x3f => Sid::Nrc,
            _ => Sid::RawUds(value),
        }
    }
}

/// Whether the SID byte has its response bit set.
pub open spec fn spec_sid_is_rsp(sid: u8) -> bool {
    (sid / 64) % 2 == 1
}

/// The SID byte with its response bit cleared.
pub open spec fn spec_sid_service(sid: u8) -> u8 {
    if spec_sid_is_rsp(sid) {
        (sid - 64) as u8
    } else {
        sid
    }
}

/// Whether this crate maps the SID byte to a typed message in its
/// direction.
pub open spec fn spec_sid_known(sid: u8) -> bool {
    let svc = spec_sid_service(sid);
    ||| svc == 0x19
    ||| svc == 0x22
    ||| svc == 0x2e
    ||| svc == 0x34
    ||| svc == 0x36
    ||| svc == 0x37
    ||| svc == 0x38
    ||| (spec_sid_is_rsp(sid) && svc == 0x3f)
}

/// The full wire bytes of a message: its SID byte followed by its payload;
/// a raw message is its byte array verbatim.
pub open spec fn spec_uds_enc(m: SpecUdsMessage) -> Seq<u8> {
    match m {
        SpecUdsMessage::Nrc(p) => seq![0x7fu8] + Nrc::enc(p),
        SpecUdsMessage::RawUds(p) => p.data,
        SpecUdsMessage::ReadDIDReq(p) => seq![0x22u8] + ReadDIDReq::enc(p),
        SpecUdsMessage::ReadDIDRsp(p) => seq![0x62u8] + ReadDIDRsp::enc(p),
        SpecUdsMessage::ReadDTCReq(p) => seq![0x19u8] + ReadDTCReq::enc(p),
        SpecUdsMessage::ReadDTCRsp(p) => seq![0x59u8] + ReadDTCRsp::enc(p),
        SpecUdsMessage::RequestDownloadReq(p) => seq![0x34u8] + RequestDownloadReq::enc(p),
        SpecUdsMessage::RequestDownloadRsp(p) => seq![0x74u8] + RequestDownloadRsp::enc(p),
        SpecUdsMessage::RequestFileTransferReq(p) => seq![0x38u8] + RequestFileTransferReq::enc(p),
        SpecUdsMessage::RequestFileTransferRsp(p) => seq![0x78u8] + RequestFileTransferRsp::enc(p),
        SpecUdsMessage::TransferDataReq(p) => seq![0x36u8] + TransferDataReq::enc(p),
        SpecUdsMessage::TransferDataRsp(p) => seq![0x76u8] + TransferDataRsp::enc(p),
        SpecUdsMessage::TransferExitReq(p) => seq![0x37u8] + TransferExitReq::enc(p),
        SpecUdsMessage::TransferExitRsp(p) => seq![0x77u8] + TransferExitRsp::enc(p),
        SpecUdsMessage::WriteDIDReq(p) => seq![0x2eu8] + WriteDIDReq::enc(p),
        SpecUdsMessage::WriteDIDRsp(p) => seq![0x6eu8] + WriteDIDRsp::enc(p),
    }
}

/// Whether encoding the message succeeds.
pub open spec fn spec_uds_enc_ok(m: SpecUdsMessage) -> bool {
    match m {
        SpecUdsMessage::Nrc(p) => Nrc::enc_ok(p),
        SpecUdsMessage::RawUds(p) => RawUds::enc_ok(p),
        SpecUdsMessage::ReadDIDReq(p) => ReadDIDReq::enc_ok(p),
        SpecUdsMessage::ReadDIDRsp(p) => ReadDIDRsp::enc_ok(p),
        SpecUdsMessage::ReadDTCReq(p) => ReadDTCReq::enc_ok(p),
        SpecUdsMessage::ReadDTCRsp(p) => ReadDTCRsp::enc_ok(p),
        SpecUdsMessage::RequestDownloadReq(p) => RequestDownloadReq::enc_ok(p),
        SpecUdsMessage::RequestDownloadRsp(p) => RequestDownloadRsp::enc_ok(p),
        SpecUdsMessage::RequestFileTransferReq(p) => RequestFileTransferReq::enc_ok(p),
        SpecUdsMessage::RequestFileTransferRsp(p) => RequestFileTransferRsp::enc_ok(p),
        SpecUdsMessage::TransferDataReq(p) => TransferDataReq::enc_ok(p),
        SpecUdsMessage::TransferDataRsp(p) => TransferDataRsp::enc_ok(p),
        SpecUdsMessage::TransferExitReq(p) => TransferExitReq::enc_ok(p),
        SpecUdsMessage::TransferExitRsp(p) => TransferExitRsp::enc_ok(p),
        SpecUdsMessage::WriteDIDReq(p) => WriteDIDReq::enc_ok(p),
        SpecUdsMessage::WriteDIDRsp(p) => WriteDIDRsp::enc_ok(p),
    }
}

/// Valid messages: those decoding can produce, and exactly those whose
/// encoding decodes back to themselves.  A raw message is valid when it
/// keeps a leading SID byte that no typed family claims.
pub open spec fn spec_uds_inv(m: SpecUdsMessage) -> bool {
    match m {
        SpecUdsMessage::Nrc(p) => Nrc::inv(p),
        SpecUdsMessage::RawUds(p) => p.data.len() >= 1 && !spec_sid_known(p.data[0]),
        SpecUdsMessage::ReadDIDReq(p) => ReadDIDReq::inv(p),
        SpecUdsMessage::ReadDIDRsp(p) => ReadDIDRsp::inv(p),
        SpecUdsMessage::ReadDTCReq(p) => ReadDTCReq::inv(p),
        SpecUdsMessage::ReadDTCRsp(p) => ReadDTCRsp::inv(p),
        SpecUdsMessage::RequestDownloadReq(p) => RequestDownloadReq::inv(p),
        SpecUdsMessage::RequestDownloadRsp(p) => RequestDownloadRsp::inv(p),
        SpecUdsMessage::RequestFileTransferReq(p) => RequestFileTransferReq::inv(p),
        SpecUdsMessage::RequestFileTransferRsp(p) => RequestFileTransferRsp::inv(p),
        SpecUdsMessage::TransferDataReq(p) => TransferDataReq::inv(p),
        SpecUdsMessage::TransferDataRsp(p) => TransferDataRsp::inv(p),
        SpecUdsMessage::TransferExitReq(p) => TransferExitReq::inv(p),
        SpecUdsMessage::TransferExitRsp(p) => TransferExitRsp::inv(p),
        SpecUdsMessage::WriteDIDReq(p) => WriteDIDReq::inv(p),
        SpecUdsMessage::WriteDIDRsp(p) => WriteDIDRsp::inv(p),
    }
}

/// The outcome of decoding a message of `n` declared bytes (SID included)
/// from the available input: the SID byte resolves direction and family,
/// the matching payload codec consumes exactly the `n - 1` remaining
/// declared bytes, and an unmapped SID degrades to a raw message that keeps
/// the SID byte.
pub open spec fn spec_uds_dec(bytes: Seq<u8>, n: nat) -> Result<SpecUdsMessage, DecErr>
    recommends
        n >= 1,
{
    if bytes.len() < 1 {
        Err(DecErr::Io)
    } else {
        let sid = bytes[0];
        let rest = bytes.skip(1);
        let m = (n - 1) as nat;
        let svc = spec_sid_service(sid);
        if spec_sid_is_rsp(sid) {
            if svc == 0x19 {
                match ReadDTCRsp::dec(rest, m) {
                    Ok(p) => Ok(SpecUdsMessage::ReadDTCRsp(p)),
                    Err(e) => Err(e),
                }
            } else if svc == 0x22 {
                match ReadDIDRsp::dec(rest, m) {
                    Ok(p) => Ok(SpecUdsMessage::ReadDIDRsp(p)),
                    Err(e) => Err(e),
                }
            } else if svc == 0x2e {
                match WriteDIDRsp::dec(rest, m) {
                    Ok(p) => Ok(SpecUdsMessage::WriteDIDRsp(p)),
                    Err(e) => Err(e),
                }
            } else if svc == 0x34 {
                match RequestDownloadRsp::dec(rest, m) {
                    Ok(p) => Ok(SpecUdsMessage::RequestDownloadRsp(p)),
                    Err(e) => Err(e),
                }
            } else if svc == 0x36 {
                match TransferDataRsp::dec(rest, m) {
                    Ok(p) => Ok(SpecUdsMessage::TransferDataRsp(p)),
                    Err(e) => Err(e),
                }
            } else if svc == 0x37 {
                match TransferExitRsp::dec(rest, m) {
                    Ok(p) => Ok(SpecUdsMessage::TransferExitRsp(p)),
                    Err(e) => Err(e),
                }
            } else if svc == 0x38 {
                match RequestFileTransferRsp::dec(rest, m) {
                    Ok(p) => Ok(SpecUdsMessage::RequestFileTransferRsp(p)),
                    Err(e) => Err(e),
                }
            } else if svc == 0x3f {
                match Nrc::dec(rest, m) {
                    Ok(p) => Ok(SpecUdsMessage::Nrc(p)),
                    Err(e) => Err(e),
                }
            } else {
                match RawUds::dec(rest, m) {
                    Ok(p) => Ok(SpecUdsMessage::RawUds(SpecRawUds { data: seq![sid] + p.data })),
                    Err(e) => Err(e),
                }
            }
        } else {
            if svc == 0x19 {
                match ReadDTCReq::dec(rest, m) {
                    Ok(p) => Ok(SpecUdsMessage::ReadDTCReq(p)),
                    Err(e) => Err(e),
                }
            } else if svc == 0x22 {
                match ReadDIDReq::dec(rest, m) {
                    Ok(p) => Ok(SpecUdsMessage::ReadDIDReq(p)),
                    Err(e) => Err(e),
                }
            } else if svc == 0x2e {
                match WriteDIDReq::dec(rest, m) {
                    Ok(p) => Ok(SpecUdsMessage::WriteDIDReq(p)),
                    Err(e) => Err(e),
                }
            } else if svc == 0x34 {
                match RequestDownloadReq::dec(rest, m) {
                    Ok(p) => Ok(SpecUdsMessage::RequestDownloadReq(p)),
                    Err(e) => Err(e),
                }
            } else if svc == 0x36 {
                match TransferDataReq::dec(rest, m) {
                    Ok(p) => Ok(SpecUdsMessage::TransferDataReq(p)),
                    Err(e) => Err(e),
                }
            } else if svc == 0x37 {
                match TransferExitReq::dec(rest, m) {
                    Ok(p) => Ok(SpecUdsMessage::TransferExitReq(p)),
                    Err(e) => Err(e),
                }
            } else if svc == 0x38 {
                match RequestFileTransferReq::dec(rest, m) {
                    Ok(p) => Ok(SpecUdsMessage::RequestFileTransferReq(p)),
                    Err(e) => Err(e),
                }
            } else {
                match RawUds::dec(rest, m) {
                    Ok(p) => Ok(SpecUdsMessage::RawUds(SpecRawUds { data: seq![sid] + p.data })),
                    Err(e) => Err(e),
                }
            }
        }
    }
}

/// Reads a UDS message from the payload bytes of one frame.
///
/// `payload_length` declares how many of the input bytes the message spans,
/// the SID byte included; on success exactly that many bytes were
/// consumed.
///
/// # Errors
///
/// If the input ends before the declared length, [`UdsError::Io`] is
/// returned.  If the input data does not decode into a valid UDS message,
/// [`UdsError::PayloadLengthTooShort`], [`UdsError::UnexpectedPayloadType`]
/// or [`UdsError::EncodingError`] is returned.
pub fn uds_read(data: &[u8], payload_length: usize) -> (r: Result<UdsMessage, UdsError>)
    requires
        payload_length >= 1,
    ensures
        match r {
            Ok(m) => spec_uds_dec(data@, payload_length as nat) == Ok::<SpecUdsMessage, DecErr>(
                m@,
            ),
            Err(e) => spec_uds_dec(data@, payload_length as nat) == Err::<SpecUdsMessage, DecErr>(
                err_kind(e),
            ),
        },
{
    let mut pos: usize = 0;
    if data.len() < 1 {
        return Err(UdsError::Io);
    }
    let sid = crate::bytes::read_u8(data, &mut pos);
    let is_rsp = (sid / 64) % 2 == 1;
    let service = if is_rsp {
        sid - 64
    } else {
        sid
    };
    let m = payload_length - 1;
    if is_rsp {
        match Sid::from_byte(service) {
            Sid::ReadDTC => {
                let mut p = ReadDTCRsp::default();
                match p.read_replace(data, &mut pos, m) {
                    Ok(()) => Ok(UdsMessage::ReadDTCRsp(p)),
                    Err(e) => Err(e),
                }
            },
            Sid::ReadDID => {
                let mut p = ReadDIDRsp::default();
                match p.read_replace(data, &mut pos, m) {
                    Ok(()) => Ok(UdsMessage::ReadDIDRsp(p)),
                    Err(e) => Err(e),
                }
            },
            Sid::WriteDID => {
                let mut p = WriteDIDRsp::default();
                match p.read_replace(data, &mut pos, m) {
                    Ok(()) => Ok(UdsMessage::WriteDIDRsp(p)),
                    Err(e) => Err(e),
                }
            },
            Sid::RequestDownload => {
                let mut p = RequestDownloadRsp::default();
                match p.read_replace(data, &mut pos, m) {
                    Ok(()) => Ok(UdsMessage::RequestDownloadRsp(p)),
                    Err(e) => Err(e),
                }
            },
            Sid::TransferData => {
                let mut p = TransferDataRsp::default();
                match p.read_replace(data, &mut pos, m) {
                    Ok(()) => Ok(UdsMessage::TransferDataRsp(p)),
                    Err(e) => Err(e),
                }
            },
            Sid::TransferExit => {
                let mut p = TransferExitRsp::default();
                match p.read_replace(data, &mut pos, m) {
                    Ok(()) => Ok(UdsMessage::TransferExitRsp(p)),
                    Err(e) => Err(e),
                }
            },
            Sid::RequestFileTransfer => {
                let mut p = RequestFileTransferRsp::default();
                match p.read_replace(data, &mut pos, m) {
                    Ok(()) => Ok(UdsMessage::RequestFileTransferRsp(p)),
                    Err(e) => Err(e),
                }
            },
            Sid::Nrc => {
                let mut p = Nrc::default();
                match p.read_replace(data, &mut pos, m) {
                    Ok(()) => Ok(UdsMessage::Nrc(p)),
                    Err(e) => Err(e),
                }
            },
            Sid::RawUds(_) => {
                let mut p = RawUds::default();
                match p.read_replace(data, &mut pos, m) {
                    Ok(()) => {
                        p.data.insert(0, sid);
                        proof {
                            assert(p@.data =~= seq![sid] + data@.skip(1).take(m as int));
                        }
                        Ok(UdsMessage::RawUds(p))
                    },
                    Err(e) => Err(e),
                }
            },
        }
    } else {
        match Sid::from_byte(service) {
            Sid::ReadDTC => {
                let mut p = ReadDTCReq::default();
                match p.read_replace(data, &mut pos, m) {
                    Ok(()) => Ok(UdsMessage::ReadDTCReq(p)),
                    Err(e) => Err(e),
                }
            },
            Sid::ReadDID => {
                let mut p = ReadDIDReq::default();
                match p.read_replace(data, &mut pos, m) {
                    Ok(()) => Ok(UdsMessage::ReadDIDReq(p)),
                    Err(e) => Err(e),
                }
            },
            Sid::WriteDID => {
                let mut p = WriteDIDReq::default();
                match p.read_replace(data, &mut pos, m) {
                    Ok(()) => Ok(UdsMessage::WriteDIDReq(p)),
                    Err(e) => Err(e),
                }
            },
            Sid::RequestDownload => {
                let mut p = RequestDownloadReq::default();
                match p.read_replace(data, &mut pos, m) {
                    Ok(()) => Ok(UdsMessage::RequestDownloadReq(p)),
                    Err(e) => Err(e),
                }
            },
            Sid::TransferData => {
                let mut p = TransferDataReq::default();
                match p.read_replace(data, &mut pos, m) {
                    Ok(()) => Ok(UdsMessage::TransferDataReq(p)),
                    Err(e) => Err(e),
                }
            },
            Sid::TransferExit => {
                let mut p = TransferExitReq::default();
                match p.read_replace(data, &mut pos, m) {
                    Ok(()) => Ok(UdsMessage::TransferExitReq(p)),
                    Err(e) => Err(e),
                }
            },
            Sid::RequestFileTransfer => {
                let mut p = RequestFileTransferReq::default();
                match p.read_replace(data, &mut pos, m) {
                    Ok(()) => Ok(UdsMessage::RequestFileTransferReq(p)),
                    Err(e) => Err(e),
                }
            },
            Sid::Nrc | Sid::RawUds(_) => {
                let mut p = RawUds::default();
                match p.read_replace(data, &mut pos, m) {
                    Ok(()) => {
                        p.data.insert(0, sid);
                        proof {
                            assert(p@.data =~= seq![sid] + data@.skip(1).take(m as int));
                        }
                        Ok(UdsMessage::RawUds(p))
                    },
                    Err(e) => Err(e),
                }
            },
        }
    }
}

/// Writes one SID byte followed by a payload; nothing is written when the
/// payload cannot be encoded.
fn write_with_sid<P: Payload>(out: &mut Vec<u8>, sid: u8, p: &P) -> (r: Result<(), UdsError>)
    ensures
        match r {
            Ok(()) => P::enc_ok(p@) && final(out)@ == old(out)@ + (seq![sid] + P::enc(p@)),
            Err(e) => !P::enc_ok(p@) && final(out)@ == old(out)@ && err_kind(e) == DecErr::Encoding,
        },
{
    let mut tmp: Vec<u8> = Vec::new();
    match p.write(&mut tmp) {
        Ok(()) => {
            out.push(sid);
            out.append(&mut tmp);
            proof {
                assert(out@ =~= old(out)@ + (seq![sid] + P::enc(p@)));
            }
            Ok(())
        },
        Err(e) => Err(e),
    }
}

/// Writes a UDS message: the SID byte derived from the message's variant,
/// then its payload; a raw message already embeds its leading byte.  On
/// failure the output is unchanged.
///
/// # Errors
///
/// If the message holds a value its wire format cannot carry (a width
/// selector outside {1, 2, 4}, an over-long path, a reserved mode of
/// operation, a DTC report shape that cannot be delimited),
/// [`UdsError::EncodingError`] is returned.
pub fn uds_write(out: &mut Vec<u8>, msg: &UdsMessage) -> (r: Result<(), UdsError>)
    ensures
        match r {
            Ok(()) => spec_uds_enc_ok(msg@) && final(out)@ == old(out)@ + spec_uds_enc(msg@),
            Err(e) => !spec_uds_enc_ok(msg@) && final(out)@ == old(out)@ && err_kind(e)
                == DecErr::Encoding,
        },
{
    match msg {
        UdsMessage::RawUds(p) => p.write(out),
        UdsMessage::Nrc(p) => write_with_sid(out, 0x7f, p),
        UdsMessage::ReadDIDReq(p) => write_with_sid(out, 0x22, p),
        UdsMessage::ReadDIDRsp(p) => write_with_sid(out, 0x62, p),
        UdsMessage::ReadDTCReq(p) => write_with_sid(out, 0x19, p),
        UdsMessage::ReadDTCRsp(p) => write_with_sid(out, 0x59, p),
        UdsMessage::RequestDownloadReq(p) => write_with_sid(out, 0x34, p),
        UdsMessage::RequestDownloadRsp(p) => write_with_sid(out, 0x74, p),
        UdsMessage::RequestFileTransferReq(p) => write_with_sid(out, 0x38, p),
        UdsMessage::RequestFileTransferRsp(p) => write_with_sid(out, 0x78, p),
        UdsMessage::TransferDataReq(p) => write_with_sid(out, 0x36, p),
        UdsMessage::TransferDataRsp(p) => write_with_sid(out, 0x76, p),
        UdsMessage::TransferExitReq(p) => write_with_sid(out, 0x37, p),
        UdsMessage::TransferExitRsp(p) => write_with_sid(out, 0x77, p),
        UdsMessage::WriteDIDReq(p) => write_with_sid(out, 0x2e, p),
        UdsMessage::WriteDIDRsp(p) => write_with_sid(out, 0x6e, p),
    }
}

/// What upgrading a raw message yields: the typed message its bytes decode
/// to, or the message unchanged when they do not decode.
pub open spec fn spec_uds_upgrade(m: SpecUdsMessage) -> SpecUdsMessage {
    match m {
        SpecUdsMessage::RawUds(raw) => if raw.data.len() >= 1 {
            match spec_uds_dec(raw.data, raw.data.len()) {
                Ok(t) => t,
                Err(_) => m,
            }
        } else {
            m
        },
        _ => m,
    }
}

/// Transform a `UdsMessage::RawUds` into a proper UDS message
///
/// If a message is provided in a `RawUds`, this function re-runs it through
/// message dispatch and returns the richer typed message on success, or the
/// provided message unchanged if the transformation is not found.  It never
/// fails the caller.
pub fn uds_rawuds_remove_raw(msg: UdsMessage) -> (r: UdsMessage)
    ensures
        r@ == spec_uds_upgrade(msg@),
{
    match msg {
        UdsMessage::RawUds(raw) => {
            if raw.data.len() == 0 {
                return UdsMessage::RawUds(raw);
            }
            let upgraded = uds_read(raw.data.as_slice(), raw.data.len());
            match upgraded {
                Ok(t) => t,
                Err(_) => UdsMessage::RawUds(raw),
            }
        },
        other => other,
    }
}

impl UdsMessage {
    /// The number of wire bytes of this message, its SID byte included.
    pub fn length(&self) -> (n: usize)
        requires
            spec_uds_inv(self@),
            spec_uds_enc(self@).len() <= usize::MAX,
        ensures
            n == spec_uds_enc(self@).len(),
    {
        match self {
            UdsMessage::RawUds(p) => p.length(),
            UdsMessage::Nrc(p) => 1 + p.length(),
            UdsMessage::ReadDIDReq(p) => 1 + p.length(),
            UdsMessage::ReadDIDRsp(p) => 1 + p.length(),
            UdsMessage::ReadDTCReq(p) => 1 + p.length(),
            UdsMessage::ReadDTCRsp(p) => 1 + p.length(),
            UdsMessage::RequestDownloadReq(p) => 1 + p.length(),
            UdsMessage::RequestDownloadRsp(p) => 1 + p.length(),
            UdsMessage::RequestFileTransferReq(p) => 1 + p.length(),
            UdsMessage::RequestFileTransferRsp(p) => 1 + p.length(),
            UdsMessage::TransferDataReq(p) => 1 + p.length(),
            UdsMessage::TransferDataRsp(p) => 1 + p.length(),
            UdsMessage::TransferExitReq(p) => 1 + p.length(),
            UdsMessage::TransferExitRsp(p) => 1 + p.length(),
            UdsMessage::WriteDIDReq(p) => 1 + p.length(),
            UdsMessage::WriteDIDRsp(p) => 1 + p.length(),
        }
    }
}

} // verus!
