//! The crate-level laws: round-trip exactness of the whole dispatch layer,
//! rejection of short buffers, and the lossless raw fallback.

use crate::did::ReadDIDReq;
use crate::did::ReadDIDRsp;
use crate::did::WriteDIDReq;
use crate::did::WriteDIDRsp;
use crate::dtc::ReadDTCReq;
use crate::dtc::ReadDTCRsp;
use crate::error::DecErr;
use crate::file_transfer::RequestFileTransferReq;
use crate::file_transfer::RequestFileTransferRsp;
use crate::nrc::Nrc;
use crate::payload::Payload;
use crate::rawuds::RawUds;
use crate::rawuds::SpecRawUds;
use crate::spec_sid_known;
use crate::spec_sid_service;
use crate::spec_uds_dec;
use crate::spec_uds_enc;
use crate::spec_uds_enc_ok;
use crate::spec_uds_inv;
use crate::transfers::RequestDownloadReq;
use crate::transfers::RequestDownloadRsp;
use crate::transfers::TransferDataReq;
use crate::transfers::TransferDataRsp;
use crate::transfers::TransferExitReq;
use crate::transfers::TransferExitRsp;
use crate::SpecUdsMessage;
use vstd::prelude::*;

verus! {

/// No message of the family the leading byte selects spans fewer wire bytes
/// than this, the SID byte included.
pub open spec fn spec_uds_min_len(bytes: Seq<u8>) -> nat {
    if bytes.len() < 1 {
        1
    } else {
        let sid = bytes[0];
        let svc = spec_sid_service(sid);
        if !spec_sid_known(sid) {
            1
        } else if crate::spec_sid_is_rsp(sid) {
            if svc == 0x19 {
                2
            } else if svc == 0x22 {
                3
            } else if svc == 0x2e {
                3
            } else if svc == 0x34 {
                2
            } else if svc == 0x36 {
                2
            } else if svc == 0x37 {
                1
            } else if svc == 0x38 {
                2
            } else {
                3
            }
        } else {
            if svc == 0x19 {
                2
            } else if svc == 0x22 {
                3
            } else if svc == 0x2e {
                3
            } else if svc == 0x34 {
                3
            } else if svc == 0x36 {
                2
            } else if svc == 0x37 {
                1
            } else {
                4
            }
        }
    }
}

/// Round trip: encoding any valid message and decoding it with its own
/// length gives the message back, value-exact.
#[verifier::rlimit(100)]
#[verifier::spinoff_prover]
pub proof fn lemma_uds_round_trip(m: SpecUdsMessage)
    requires
        spec_uds_inv(m),
    ensures
        spec_uds_enc_ok(m),
        spec_uds_enc(m).len() >= 1,
        spec_uds_dec(spec_uds_enc(m), spec_uds_enc(m).len()) == Ok::<SpecUdsMessage, DecErr>(m),
{
    let e = spec_uds_enc(m);
    match m {
        SpecUdsMessage::RawUds(p) => {
            assert(e.skip(1).take((e.len() - 1) as int) =~= e.skip(1));
            assert(SpecRawUds { data: seq![e[0]] + e.skip(1) } =~= p);
        },
        SpecUdsMessage::Nrc(p) => {
            Nrc::lemma_inv_enc_ok(p);
            Nrc::lemma_round_trip(p);
            assert(e.skip(1) =~= Nrc::enc(p));
        },
        SpecUdsMessage::ReadDIDReq(p) => {
            ReadDIDReq::lemma_inv_enc_ok(p);
            ReadDIDReq::lemma_round_trip(p);
            assert(e.skip(1) =~= ReadDIDReq::enc(p));
        },
        SpecUdsMessage::ReadDIDRsp(p) => {
            ReadDIDRsp::lemma_inv_enc_ok(p);
            ReadDIDRsp::lemma_round_trip(p);
            assert(e.skip(1) =~= ReadDIDRsp::enc(p));
        },
        SpecUdsMessage::ReadDTCReq(p) => {
            ReadDTCReq::lemma_inv_enc_ok(p);
            ReadDTCReq::lemma_round_trip(p);
            assert(e.skip(1) =~= ReadDTCReq::enc(p));
        },
        SpecUdsMessage::ReadDTCRsp(p) => {
            ReadDTCRsp::lemma_inv_enc_ok(p);
            ReadDTCRsp::lemma_round_trip(p);
            assert(e.skip(1) =~= ReadDTCRsp::enc(p));
        },
        SpecUdsMessage::RequestDownloadReq(p) => {
            RequestDownloadReq::lemma_inv_enc_ok(p);
            RequestDownloadReq::lemma_round_trip(p);
            assert(e.skip(1) =~= RequestDownloadReq::enc(p));
        },
        SpecUdsMessage::RequestDownloadRsp(p) => {
            RequestDownloadRsp::lemma_inv_enc_ok(p);
            RequestDownloadRsp::lemma_round_trip(p);
            assert(e.skip(1) =~= RequestDownloadRsp::enc(p));
        },
        SpecUdsMessage::RequestFileTransferReq(p) => {
            RequestFileTransferReq::lemma_inv_enc_ok(p);
            RequestFileTransferReq::lemma_round_trip(p);
            assert(e.skip(1) =~= RequestFileTransferReq::enc(p));
        },
        SpecUdsMessage::RequestFileTransferRsp(p) => {
            RequestFileTransferRsp::lemma_inv_enc_ok(p);
            RequestFileTransferRsp::lemma_round_trip(p);
            assert(e.skip(1) =~= RequestFileTransferRsp::enc(p));
        },
        SpecUdsMessage::TransferDataReq(p) => {
            TransferDataReq::lemma_inv_enc_ok(p);
            TransferDataReq::lemma_round_trip(p);
            assert(e.skip(1) =~= TransferDataReq::enc(p));
        },
        SpecUdsMessage::TransferDataRsp(p) => {
            TransferDataRsp::lemma_inv_enc_ok(p);
            TransferDataRsp::lemma_round_trip(p);
            assert(e.skip(1) =~= TransferDataRsp::enc(p));
        },
        SpecUdsMessage::TransferExitReq(p) => {
            TransferExitReq::lemma_inv_enc_ok(p);
            TransferExitReq::lemma_round_trip(p);
            assert(e.skip(1) =~= TransferExitReq::enc(p));
        },
        SpecUdsMessage::TransferExitRsp(p) => {
            TransferExitRsp::lemma_inv_enc_ok(p);
            TransferExitRsp::lemma_round_trip(p);
            assert(e.skip(1) =~= TransferExitRsp::enc(p));
        },
        SpecUdsMessage::WriteDIDReq(p) => {
            WriteDIDReq::lemma_inv_enc_ok(p);
            WriteDIDReq::lemma_round_trip(p);
            assert(e.skip(1) =~= WriteDIDReq::enc(p));
        },
        SpecUdsMessage::WriteDIDRsp(p) => {
            WriteDIDRsp::lemma_inv_enc_ok(p);
            WriteDIDRsp::lemma_round_trip(p);
            assert(e.skip(1) =~= WriteDIDRsp::enc(p));
        },
    }
}

/// Wire-level round-trip fidelity: whatever decodes is a valid message that
/// consumed exactly the declared bytes, and re-encoding it reproduces them
/// byte for byte.
#[verifier::rlimit(100)]
#[verifier::spinoff_prover]
pub proof fn lemma_uds_dec_fidelity(bytes: Seq<u8>, n: nat)
    requires
        n >= 1,
        spec_uds_dec(bytes, n) is Ok,
    ensures
        n <= bytes.len(),
        spec_uds_inv(spec_uds_dec(bytes, n)->Ok_0),
        spec_uds_enc(spec_uds_dec(bytes, n)->Ok_0) == bytes.take(n as int),
{
    let sid = bytes[0];
    let rest = bytes.skip(1);
    let m2 = (n - 1) as nat;
    let svc = spec_sid_service(sid);
    if crate::spec_sid_is_rsp(sid) {
        if svc == 0x19 {
            ReadDTCRsp::lemma_dec_fidelity(rest, m2);
        } else if svc == 0x22 {
            ReadDIDRsp::lemma_dec_fidelity(rest, m2);
        } else if svc == 0x2e {
            WriteDIDRsp::lemma_dec_fidelity(rest, m2);
        } else if svc == 0x34 {
            RequestDownloadRsp::lemma_dec_fidelity(rest, m2);
        } else if svc == 0x36 {
            TransferDataRsp::lemma_dec_fidelity(rest, m2);
        } else if svc == 0x37 {
            TransferExitRsp::lemma_dec_fidelity(rest, m2);
        } else if svc == 0x38 {
            RequestFileTransferRsp::lemma_dec_fidelity(rest, m2);
        } else if svc == 0x3f {
            Nrc::lemma_dec_fidelity(rest, m2);
        } else {
            RawUds::lemma_dec_fidelity(rest, m2);
        }
    } else {
        if svc == 0x19 {
            ReadDTCReq::lemma_dec_fidelity(rest, m2);
        } else if svc == 0x22 {
            ReadDIDReq::lemma_dec_fidelity(rest, m2);
        } else if svc == 0x2e {
            WriteDIDReq::lemma_dec_fidelity(rest, m2);
        } else if svc == 0x34 {
            RequestDownloadReq::lemma_dec_fidelity(rest, m2);
        } else if svc == 0x36 {
            TransferDataReq::lemma_dec_fidelity(rest, m2);
        } else if svc == 0x37 {
            TransferExitReq::lemma_dec_fidelity(rest, m2);
        } else if svc == 0x38 {
            RequestFileTransferReq::lemma_dec_fidelity(rest, m2);
        } else {
            RawUds::lemma_dec_fidelity(rest, m2);
        }
    }
    assert(seq![sid] + rest.take(m2 as int) =~= bytes.take(n as int));
}

/// Length validation: a buffer or a declared length shorter than the
/// selected family's minimum never yields a partial success.  The error is
/// the input-exhausted or length-violation kind for every family whose
/// layout starts with its length check; a file-transfer message reads its
/// mode-of-operation byte first and can therefore also reject such input as
/// malformed.
#[verifier::rlimit(100)]
#[verifier::spinoff_prover]
pub proof fn lemma_uds_short_buffer(bytes: Seq<u8>, n: nat)
    requires
        n >= 1,
        n < spec_uds_min_len(bytes) || bytes.len() < spec_uds_min_len(bytes),
    ensures
        spec_uds_dec(bytes, n) is Err,
        bytes.len() >= 1 && spec_sid_service(bytes[0]) != 0x38 ==> (spec_uds_dec(
            bytes,
            n,
        ) matches Err(e) && (e is Io || e matches DecErr::TooShort { .. })),
        bytes.len() >= 2 && spec_sid_service(bytes[0]) == 0x38 && !(
        crate::file_transfer::spec_mode_of(bytes[1]) is Reserved) ==> (spec_uds_dec(
            bytes,
            n,
        ) matches Err(e) && (e is Io || e matches DecErr::TooShort { .. })),
{
}

/// Unknown-SID fallback: a frame whose SID this crate does not map decodes
/// to a raw message holding exactly the consumed bytes, and re-encoding
/// that message reproduces them verbatim.
pub proof fn lemma_uds_unknown_sid(bytes: Seq<u8>, n: nat)
    requires
        1 <= n,
        n <= bytes.len(),
        !spec_sid_known(bytes[0]),
    ensures
        spec_uds_dec(bytes, n) == Ok::<SpecUdsMessage, DecErr>(
            SpecUdsMessage::RawUds(SpecRawUds { data: bytes.take(n as int) }),
        ),
        spec_uds_enc(SpecUdsMessage::RawUds(SpecRawUds { data: bytes.take(n as int) }))
            == bytes.take(n as int),
        spec_uds_inv(SpecUdsMessage::RawUds(SpecRawUds { data: bytes.take(n as int) })),
{
    assert(seq![bytes[0]] + bytes.skip(1).take((n - 1) as int) =~= bytes.take(n as int));
}

} // verus!
