//! Download negotiation and data transfer messages: nibble-packed control
//! bytes, variable-width address/size fields, and trailing data blocks.

use crate::bytes::be_bytes;
use crate::bytes::be_val;
use crate::bytes::lemma_be_bytes_len;
use crate::bytes::lemma_be_bytes_val;
use crate::bytes::lemma_be_val_bound;
use crate::bytes::lemma_be_val_bytes;
use crate::bytes::lemma_nib_pack;
use crate::bytes::lemma_pow256_units;
use crate::bytes::nib_hi;
use crate::bytes::nib_lo;
use crate::bytes::nib_pack;
use crate::bytes::pow256;
use crate::bytes::read_be;
use crate::bytes::read_u8;
use crate::bytes::read_vec;
use crate::bytes::write_be;
use crate::bytes::write_bytes;
use crate::error::clip32;
use crate::error::err_kind;
use crate::error::too_short;
use crate::error::DecErr;
use crate::error::UdsError;
use crate::payload::Payload;
use vstd::prelude::*;
use vstd::string::StringExecFns;

verus! {

/// Whether a declared field width is one this protocol supports.
pub open spec fn spec_width_ok(w: int) -> bool {
    w == 1 || w == 2 || w == 4
}

/// Reads a big-endian field of a dynamically chosen width; a width outside
/// {1, 2, 4} is rejected, but only after the input is known to hold it.
pub fn read_sized(data: &[u8], pos: &mut usize, width: usize) -> (r: Result<u32, UdsError>)
    requires
        *old(pos) <= data@.len(),
    ensures
        *old(pos) <= *final(pos),
        *final(pos) <= data@.len(),
        match r {
            Ok(v) => spec_width_ok(width as int) && *final(pos) == *old(pos) + width && v == be_val(
                data@.subrange(*old(pos) as int, *old(pos) + width as int),
            ) && (v as nat) < pow256(width as nat),
            Err(e) => {
                &&& *final(pos) == *old(pos)
                &&& err_kind(e) == (if data@.len() - *old(pos) < width {
                    DecErr::Io
                } else {
                    DecErr::Unexpected { value: 0 }
                })
                &&& !(data@.len() - *old(pos) >= width && spec_width_ok(width as int))
            },
        },
{
    if data.len() - *pos < width {
        return Err(UdsError::Io);
    }
    if !(width == 1 || width == 2 || width == 4) {
        return Err(UdsError::UnexpectedPayloadType { value: 0 });
    }
    let v = read_be(data, pos, width);
    proof {
        lemma_be_val_bound(data@.subrange(*old(pos) as int, *old(pos) + width as int));
    }
    Ok(v)
}

/// Writes a big-endian field of a dynamically chosen width; a width outside
/// {1, 2, 4} is rejected before anything is written.
pub fn write_sized(out: &mut Vec<u8>, val: u64, width: usize) -> (r: Result<(), UdsError>)
    ensures
        match r {
            Ok(()) => spec_width_ok(width as int) && final(out)@ == old(out)@ + be_bytes(
                val as nat,
                width as nat,
            ),
            Err(e) => !spec_width_ok(width as int) && final(out)@ == old(out)@ && err_kind(e)
                == DecErr::Encoding,
        },
{
    if !(width == 1 || width == 2 || width == 4) {
        return Err(
            UdsError::EncodingError { msg: String::from_str("bytes should be 1,2 or 4") },
        );
    }
    write_be(out, val, width);
    Ok(())
}

/// Packs two four-bit values into one control byte, truncating each to its
/// nibble.
pub fn pack_nibbles(hi: u8, lo: u8) -> (b: u8)
    ensures
        b == nib_pack(hi, lo),
{
    (hi % 16) * 16 + (lo % 16)
}

/// Request to download a file
#[derive(Clone, Debug, PartialEq)]
pub struct RequestDownloadReq {
    /// Compression method (OEM specific)
    pub compression_method: u8,
    /// Encryption method (OEM specific)
    pub encryption_method: u8,
    /// Size in byte of the `memory_size` field (i.e. u8, u16, u32 ...)
    pub memory_size_bytes: u8,
    /// Size in byte of the `memory_address` field (i.e. u8, u16, u32 ...)
    pub memory_address_bytes: u8,
    /// Memory address to store the file (OEM specific)
    pub memory_address: usize,
    /// Memory size of the file to store
    pub memory_size: usize,
}

/// Response to a [`RequestDownloadReq`]
#[derive(Clone, Debug, PartialEq)]
pub struct RequestDownloadRsp {
    /// Size in byte of the `max_block_size` field (ie. u8, u16, u32 ...)
    pub max_block_size_bytes: u8,
    /// Maximum size of data in [`TransferDataReq::data`]
    pub max_block_size: usize,
}

/// Transfer data, i.e. chunk of the Download or Upload
///
/// The length in `data` is limited by the response in [`RequestDownloadRsp`]
#[derive(Clone, Debug, PartialEq)]
pub struct TransferDataReq {
    /// The sequence block module 256, beginning at 1
    pub block_sequence_counter: u8,
    /// The block content
    pub data: Vec<u8>,
}

/// Transfer data response
#[derive(Clone, Debug, PartialEq)]
pub struct TransferDataRsp {
    /// The sequence block number acknowledge
    pub block_sequence_counter: u8,
}

/// Transfer exit request, last download/upload request message
#[derive(Clone, Debug, PartialEq)]
pub struct TransferExitReq {
    /// Specific data
    pub user_data: Vec<u8>,
}

/// Transfer exit response, last download/upload request message
#[derive(Clone, Debug, PartialEq)]
pub struct TransferExitRsp {
    /// Specific data
    pub user_data: Vec<u8>,
}

/// Mathematical model of [`TransferDataReq`].
#[verifier::ext_equal]
pub struct SpecTransferDataReq {
    /// The sequence block counter
    pub block_sequence_counter: u8,
    /// The block content
    pub data: Seq<u8>,
}

/// Mathematical model of [`TransferExitReq`] and [`TransferExitRsp`].
#[verifier::ext_equal]
pub struct SpecTransferExit {
    /// Specific data
    pub user_data: Seq<u8>,
}

impl View for RequestDownloadReq {
    type V = RequestDownloadReq;

    open spec fn view(&self) -> RequestDownloadReq {
        *self
    }
}

impl View for RequestDownloadRsp {
    type V = RequestDownloadRsp;

    open spec fn view(&self) -> RequestDownloadRsp {
        *self
    }
}

impl View for TransferDataReq {
    type V = SpecTransferDataReq;

    open spec fn view(&self) -> SpecTransferDataReq {
        SpecTransferDataReq {
            block_sequence_counter: self.block_sequence_counter,
            data: self.data@,
        }
    }
}

impl View for TransferDataRsp {
    type V = TransferDataRsp;

    open spec fn view(&self) -> TransferDataRsp {
        *self
    }
}

impl View for TransferExitReq {
    type V = SpecTransferExit;

    open spec fn view(&self) -> SpecTransferExit {
        SpecTransferExit { user_data: self.user_data@ }
    }
}

impl View for TransferExitRsp {
    type V = SpecTransferExit;

    open spec fn view(&self) -> SpecTransferExit {
        SpecTransferExit { user_data: self.user_data@ }
    }
}

impl Default for RequestDownloadReq {
    fn default() -> (r: Self)
        ensures
            r@ == (RequestDownloadReq {
                compression_method: 0,
                encryption_method: 0,
                memory_size_bytes: 0,
                memory_address_bytes: 0,
                memory_address: 0,
                memory_size: 0,
            }),
    {
        RequestDownloadReq {
            compression_method: 0,
            encryption_method: 0,
            memory_size_bytes: 0,
            memory_address_bytes: 0,
            memory_address: 0,
            memory_size: 0,
        }
    }
}

impl Default for RequestDownloadRsp {
    fn default() -> (r: Self)
        ensures
            r@ == (RequestDownloadRsp { max_block_size_bytes: 0, max_block_size: 0 }),
    {
        RequestDownloadRsp { max_block_size_bytes: 0, max_block_size: 0 }
    }
}

impl Default for TransferDataReq {
    fn default() -> (r: Self)
        ensures
            r@ == (SpecTransferDataReq { block_sequence_counter: 0, data: Seq::<u8>::empty() }),
    {
        TransferDataReq { block_sequence_counter: 0, data: Vec::new() }
    }
}

impl Default for TransferDataRsp {
    fn default() -> (r: Self)
        ensures
            r@ == (TransferDataRsp { block_sequence_counter: 0 }),
    {
        TransferDataRsp { block_sequence_counter: 0 }
    }
}

impl Default for TransferExitReq {
    fn default() -> (r: Self)
        ensures
            r@ == (SpecTransferExit { user_data: Seq::<u8>::empty() }),
    {
        TransferExitReq { user_data: Vec::new() }
    }
}

impl Default for TransferExitRsp {
    fn default() -> (r: Self)
        ensures
            r@ == (SpecTransferExit { user_data: Seq::<u8>::empty() }),
    {
        TransferExitRsp { user_data: Vec::new() }
    }
}

impl Payload for RequestDownloadReq {
    open spec fn inv(v: RequestDownloadReq) -> bool {
        &&& v.compression_method < 16
        &&& v.encryption_method < 16
        &&& spec_width_ok(v.memory_address_bytes as int)
        &&& spec_width_ok(v.memory_size_bytes as int)
        &&& (v.memory_address as nat) < pow256(v.memory_address_bytes as nat)
        &&& (v.memory_size as nat) < pow256(v.memory_size_bytes as nat)
    }

    open spec fn enc(v: RequestDownloadReq) -> Seq<u8> {
        seq![
            nib_pack(v.compression_method, v.encryption_method),
            nib_pack(v.memory_size_bytes, v.memory_address_bytes),
        ] + be_bytes(v.memory_address as nat, v.memory_address_bytes as nat) + be_bytes(
            v.memory_size as nat,
            v.memory_size_bytes as nat,
        )
    }

    open spec fn enc_ok(v: RequestDownloadReq) -> bool {
        spec_width_ok(v.memory_address_bytes as int) && spec_width_ok(v.memory_size_bytes as int)
    }

    open spec fn dec(bytes: Seq<u8>, n: nat) -> Result<RequestDownloadReq, DecErr> {
        if n < 2 {
            Err(DecErr::TooShort { value: clip32(n), expected: 2 })
        } else if bytes.len() < 2 {
            Err(DecErr::Io)
        } else {
            let adb = nib_lo(bytes[1]);
            let szb = nib_hi(bytes[1]);
            if bytes.len() < 2 + adb {
                Err(DecErr::Io)
            } else if !spec_width_ok(adb as int) {
                Err(DecErr::Unexpected { value: 0 })
            } else if bytes.len() < 2 + adb + szb {
                Err(DecErr::Io)
            } else if !spec_width_ok(szb as int) {
                Err(DecErr::Unexpected { value: 0 })
            } else if n != 2 + adb + szb {
                Err(DecErr::TooShort { value: clip32(n), expected: clip32((2 + adb + szb) as nat) })
            } else {
                Ok(
                    RequestDownloadReq {
                        compression_method: nib_hi(bytes[0]),
                        encryption_method: nib_lo(bytes[0]),
                        memory_size_bytes: szb,
                        memory_address_bytes: adb,
                        memory_address: be_val(bytes.subrange(2, 2 + adb)) as usize,
                        memory_size: be_val(
                            bytes.subrange(2 + adb, 2 + adb + szb),
                        ) as usize,
                    },
                )
            }
        }
    }

    open spec fn min_len() -> nat {
        2
    }

    proof fn lemma_inv_enc_ok(v: RequestDownloadReq) {
    }

    proof fn lemma_dec_fidelity(bytes: Seq<u8>, n: nat) {
        let v = Self::dec(bytes, n)->Ok_0;
        let adb = nib_lo(bytes[1]);
        let szb = nib_hi(bytes[1]);
        let sa = bytes.subrange(2, 2 + adb);
        let ss = bytes.subrange(2 + adb, 2 + adb + szb);
        lemma_pow256_units();
        lemma_be_val_bound(sa);
        lemma_be_val_bound(ss);
        lemma_be_val_bytes(sa);
        lemma_be_val_bytes(ss);
        assert(nib_pack(nib_hi(bytes[0]), nib_lo(bytes[0])) == bytes[0]);
        assert(nib_pack(nib_hi(bytes[1]), nib_lo(bytes[1])) == bytes[1]);
        assert(Self::enc(v) =~= bytes.take(n as int));
    }

    proof fn lemma_round_trip(v: RequestDownloadReq) {
        let e = Self::enc(v);
        let adb = v.memory_address_bytes;
        let szb = v.memory_size_bytes;
        lemma_pow256_units();
        lemma_be_bytes_len(v.memory_address as nat, adb as nat);
        lemma_be_bytes_len(v.memory_size as nat, szb as nat);
        lemma_be_bytes_val(v.memory_address as nat, adb as nat);
        lemma_be_bytes_val(v.memory_size as nat, szb as nat);
        crate::bytes::lemma_pow256_pos(adb as nat);
        crate::bytes::lemma_pow256_pos(szb as nat);
        vstd::arithmetic::div_mod::lemma_small_mod(v.memory_address as nat, pow256(adb as nat));
        vstd::arithmetic::div_mod::lemma_small_mod(v.memory_size as nat, pow256(szb as nat));
        lemma_nib_pack(v.compression_method, v.encryption_method);
        lemma_nib_pack(szb, adb);
        assert(e.len() == 2 + adb + szb);
        assert(e[0] == nib_pack(v.compression_method, v.encryption_method));
        assert(e[1] == nib_pack(szb, adb));
        assert(nib_lo(e[1]) == adb && nib_hi(e[1]) == szb);
        assert(nib_hi(e[0]) == v.compression_method && nib_lo(e[0]) == v.encryption_method);
        assert(e.subrange(2, 2 + adb as int) =~= be_bytes(v.memory_address as nat, adb as nat));
        assert(e.subrange(2 + adb as int, 2 + adb as int + szb as int) =~= be_bytes(
            v.memory_size as nat,
            szb as nat,
        ));
        assert(be_val(e.subrange(2, 2 + adb as int)) == v.memory_address as nat);
        assert(be_val(e.subrange(2 + adb as int, 2 + adb as int + szb as int)) == v.memory_size
            as nat);
    }

    fn length(&self) -> (n: usize)
        ensures
            n == Self::enc(self@).len(),
    {
        proof {
            lemma_be_bytes_len(self.memory_address as nat, self.memory_address_bytes as nat);
            lemma_be_bytes_len(self.memory_size as nat, self.memory_size_bytes as nat);
        }
        2 + self.memory_address_bytes as usize + self.memory_size_bytes as usize
    }

    fn read_replace(&mut self, data: &[u8], pos: &mut usize, payload_length: usize) -> (r: Result<
        (),
        UdsError,
    >) {
        let ghost start = *pos as int;
        let ghost bytes = data@.skip(start);
        if payload_length < 2 {
            return Err(too_short(payload_length, 2));
        }
        if data.len() - *pos < 2 {
            return Err(UdsError::Io);
        }
        let b0 = read_u8(data, pos);
        let b1 = read_u8(data, pos);
        let adb = b1 % 16;
        let szb = b1 / 16;
        proof {
            assert(bytes[0] == b0 && bytes[1] == b1);
            assert(bytes.len() == data@.len() - start);
        }
        let addr = match read_sized(data, pos, adb as usize) {
            Ok(v) => v,
            Err(e) => {
                proof {
                    assert(data@.len() - (start + 2) < adb <==> bytes.len() < 2 + adb);
                }
                return Err(e);
            },
        };
        let size = match read_sized(data, pos, szb as usize) {
            Ok(v) => v,
            Err(e) => {
                proof {
                    assert(data@.len() - (start + 2 + adb) < szb <==> bytes.len() < 2 + adb + szb);
                }
                return Err(e);
            },
        };
        if payload_length != 2 + adb as usize + szb as usize {
            return Err(too_short(payload_length, 2 + adb as u32 + szb as u32));
        }
        self.compression_method = b0 / 16;
        self.encryption_method = b0 % 16;
        self.memory_size_bytes = szb;
        self.memory_address_bytes = adb;
        self.memory_address = addr as usize;
        self.memory_size = size as usize;
        proof {
            assert(bytes.subrange(2, 2 + adb as int) =~= data@.subrange(
                start + 2,
                start + 2 + adb as int,
            ));
            assert(bytes.subrange(2 + adb as int, 2 + adb as int + szb as int) =~= data@.subrange(
                start + 2 + adb as int,
                start + 2 + adb as int + szb as int,
            ));
        }
        Ok(())
    }

    fn read(data: &[u8], pos: &mut usize, payload_length: usize) -> (r: Result<Self, UdsError>) {
        let mut me = RequestDownloadReq {
            compression_method: 0,
            encryption_method: 0,
            memory_size_bytes: 0,
            memory_address_bytes: 0,
            memory_address: 0,
            memory_size: 0,
        };
        match me.read_replace(data, pos, payload_length) {
            Ok(()) => Ok(me),
            Err(e) => Err(e),
        }
    }

    fn write(&self, out: &mut Vec<u8>) -> (r: Result<(), UdsError>) {
        if !(self.memory_address_bytes == 1 || self.memory_address_bytes == 2
            || self.memory_address_bytes == 4) {
            return Err(
                UdsError::EncodingError { msg: String::from_str("bytes should be 1,2 or 4") },
            );
        }
        if !(self.memory_size_bytes == 1 || self.memory_size_bytes == 2 || self.memory_size_bytes
            == 4) {
            return Err(
                UdsError::EncodingError { msg: String::from_str("bytes should be 1,2 or 4") },
            );
        }
        out.push(pack_nibbles(self.compression_method, self.encryption_method));
        out.push(pack_nibbles(self.memory_size_bytes, self.memory_address_bytes));
        write_be(out, self.memory_address as u64, self.memory_address_bytes as usize);
        write_be(out, self.memory_size as u64, self.memory_size_bytes as usize);
        proof {
            assert(out@ =~= old(out)@ + Self::enc(self@));
        }
        Ok(())
    }
}

impl Payload for RequestDownloadRsp {
    open spec fn inv(v: RequestDownloadRsp) -> bool {
        &&& spec_width_ok(v.max_block_size_bytes as int)
        &&& (v.max_block_size as nat) < pow256(v.max_block_size_bytes as nat)
    }

    open spec fn enc(v: RequestDownloadRsp) -> Seq<u8> {
        seq![nib_pack(v.max_block_size_bytes, 0)] + be_bytes(
            v.max_block_size as nat,
            v.max_block_size_bytes as nat,
        )
    }

    open spec fn enc_ok(v: RequestDownloadRsp) -> bool {
        spec_width_ok(v.max_block_size_bytes as int)
    }

    open spec fn dec(bytes: Seq<u8>, n: nat) -> Result<RequestDownloadRsp, DecErr> {
        if n < 1 {
            Err(DecErr::TooShort { value: clip32(n), expected: 1 })
        } else if bytes.len() < 1 {
            Err(DecErr::Io)
        } else {
            let w = nib_hi(bytes[0]);
            if nib_lo(bytes[0]) != 0 {
                Err(DecErr::Encoding)
            } else if bytes.len() < 1 + w {
                Err(DecErr::Io)
            } else if !spec_width_ok(w as int) {
                Err(DecErr::Unexpected { value: 0 })
            } else if n != 1 + w {
                Err(DecErr::TooShort { value: clip32(n), expected: clip32((1 + w) as nat) })
            } else {
                Ok(
                    RequestDownloadRsp {
                        max_block_size_bytes: w,
                        max_block_size: be_val(bytes.subrange(1, 1 + w)) as usize,
                    },
                )
            }
        }
    }

    open spec fn min_len() -> nat {
        1
    }

    proof fn lemma_inv_enc_ok(v: RequestDownloadRsp) {
    }

    proof fn lemma_dec_fidelity(bytes: Seq<u8>, n: nat) {
        let w = nib_hi(bytes[0]);
        let s = bytes.subrange(1, 1 + w);
        lemma_pow256_units();
        lemma_be_val_bound(s);
        lemma_be_val_bytes(s);
        assert(nib_pack(nib_hi(bytes[0]), 0) == bytes[0]);
        assert(Self::enc(Self::dec(bytes, n)->Ok_0) =~= bytes.take(n as int));
    }

    proof fn lemma_round_trip(v: RequestDownloadRsp) {
        let e = Self::enc(v);
        let w = v.max_block_size_bytes;
        lemma_pow256_units();
        lemma_be_bytes_len(v.max_block_size as nat, w as nat);
        lemma_be_bytes_val(v.max_block_size as nat, w as nat);
        crate::bytes::lemma_pow256_pos(w as nat);
        vstd::arithmetic::div_mod::lemma_small_mod(v.max_block_size as nat, pow256(w as nat));
        lemma_nib_pack(w, 0);
        assert(e.len() == 1 + w);
        assert(e[0] == nib_pack(w, 0));
        assert(nib_hi(e[0]) == w && nib_lo(e[0]) == 0);
        assert(e.subrange(1, 1 + w as int) =~= be_bytes(v.max_block_size as nat, w as nat));
    }

    fn length(&self) -> (n: usize)
        ensures
            n == Self::enc(self@).len(),
    {
        proof {
            lemma_be_bytes_len(self.max_block_size as nat, self.max_block_size_bytes as nat);
        }
        1 + self.max_block_size_bytes as usize
    }

    fn read_replace(&mut self, data: &[u8], pos: &mut usize, payload_length: usize) -> (r: Result<
        (),
        UdsError,
    >) {
        let ghost start = *pos as int;
        let ghost bytes = data@.skip(start);
        if payload_length < 1 {
            return Err(too_short(payload_length, 1));
        }
        if data.len() - *pos < 1 {
            return Err(UdsError::Io);
        }
        let b0 = read_u8(data, pos);
        let w = b0 / 16;
        if b0 % 16 != 0 {
            return Err(
                UdsError::EncodingError {
                    msg: String::from_str("reserved low nibble of the size descriptor is set"),
                },
            );
        }
        let val = match read_sized(data, pos, w as usize) {
            Ok(v) => v,
            Err(e) => {
                proof {
                    assert(data@.len() - (start + 1) < w <==> bytes.len() < 1 + w);
                }
                return Err(e);
            },
        };
        if payload_length != 1 + w as usize {
            return Err(too_short(payload_length, 1 + w as u32));
        }
        self.max_block_size_bytes = w;
        self.max_block_size = val as usize;
        proof {
            assert(bytes.subrange(1, 1 + w as int) =~= data@.subrange(
                start + 1,
                start + 1 + w as int,
            ));
        }
        Ok(())
    }

    fn read(data: &[u8], pos: &mut usize, payload_length: usize) -> (r: Result<Self, UdsError>) {
        let mut me = RequestDownloadRsp { max_block_size_bytes: 0, max_block_size: 0 };
        match me.read_replace(data, pos, payload_length) {
            Ok(()) => Ok(me),
            Err(e) => Err(e),
        }
    }

    fn write(&self, out: &mut Vec<u8>) -> (r: Result<(), UdsError>) {
        if !(self.max_block_size_bytes == 1 || self.max_block_size_bytes == 2
            || self.max_block_size_bytes == 4) {
            return Err(
                UdsError::EncodingError { msg: String::from_str("bytes should be 1,2 or 4") },
            );
        }
        out.push(pack_nibbles(self.max_block_size_bytes, 0));
        write_be(out, self.max_block_size as u64, self.max_block_size_bytes as usize);
        proof {
            assert(out@ =~= old(out)@ + Self::enc(self@));
        }
        Ok(())
    }
}

impl Payload for TransferDataReq {
    open spec fn inv(v: SpecTransferDataReq) -> bool {
        true
    }

    open spec fn enc(v: SpecTransferDataReq) -> Seq<u8> {
        seq![v.block_sequence_counter] + v.data
    }

    open spec fn enc_ok(v: SpecTransferDataReq) -> bool {
        true
    }

    open spec fn dec(bytes: Seq<u8>, n: nat) -> Result<SpecTransferDataReq, DecErr> {
        if n < 1 {
            Err(DecErr::TooShort { value: clip32(n), expected: 1 })
        } else if bytes.len() < n {
            Err(DecErr::Io)
        } else {
            Ok(
                SpecTransferDataReq {
                    block_sequence_counter: bytes[0],
                    data: bytes.subrange(1, n as int),
                },
            )
        }
    }

    open spec fn min_len() -> nat {
        1
    }

    proof fn lemma_inv_enc_ok(v: SpecTransferDataReq) {
    }

    proof fn lemma_dec_fidelity(bytes: Seq<u8>, n: nat) {
        assert(Self::enc(Self::dec(bytes, n)->Ok_0) =~= bytes.take(n as int));
    }

    proof fn lemma_round_trip(v: SpecTransferDataReq) {
        let e = Self::enc(v);
        assert(e.subrange(1, e.len() as int) =~= v.data);
        assert(Self::dec(e, e.len())->Ok_0 =~= v);
    }

    fn length(&self) -> (n: usize)
        ensures
            n == Self::enc(self@).len(),
    {
        1 + self.data.len()
    }

    fn read_replace(&mut self, data: &[u8], pos: &mut usize, payload_length: usize) -> (r: Result<
        (),
        UdsError,
    >) {
        if payload_length < 1 {
            return Err(too_short(payload_length, 1));
        }
        if data.len() - *pos < payload_length {
            return Err(UdsError::Io);
        }
        let ghost start = *pos as int;
        self.block_sequence_counter = read_u8(data, pos);
        self.data = read_vec(data, pos, payload_length - 1);
        proof {
            assert(data@.skip(start).subrange(1, payload_length as int) =~= data@.subrange(
                start + 1,
                start + payload_length,
            ));
        }
        Ok(())
    }

    fn read(data: &[u8], pos: &mut usize, payload_length: usize) -> (r: Result<Self, UdsError>) {
        let mut me = TransferDataReq { block_sequence_counter: 0, data: Vec::new() };
        match me.read_replace(data, pos, payload_length) {
            Ok(()) => Ok(me),
            Err(e) => Err(e),
        }
    }

    fn write(&self, out: &mut Vec<u8>) -> (r: Result<(), UdsError>) {
        out.push(self.block_sequence_counter);
        write_bytes(out, self.data.as_slice());
        proof {
            assert(out@ =~= old(out)@ + Self::enc(self@));
        }
        Ok(())
    }
}

impl Payload for TransferDataRsp {
    open spec fn inv(v: TransferDataRsp) -> bool {
        true
    }

    open spec fn enc(v: TransferDataRsp) -> Seq<u8> {
        seq![v.block_sequence_counter]
    }

    open spec fn enc_ok(v: TransferDataRsp) -> bool {
        true
    }

    open spec fn dec(bytes: Seq<u8>, n: nat) -> Result<TransferDataRsp, DecErr> {
        if n != 1 {
            Err(DecErr::TooShort { value: clip32(n), expected: 1 })
        } else if bytes.len() < 1 {
            Err(DecErr::Io)
        } else {
            Ok(TransferDataRsp { block_sequence_counter: bytes[0] })
        }
    }

    open spec fn min_len() -> nat {
        1
    }

    proof fn lemma_inv_enc_ok(v: TransferDataRsp) {
    }

    proof fn lemma_dec_fidelity(bytes: Seq<u8>, n: nat) {
        assert(Self::enc(Self::dec(bytes, n)->Ok_0) =~= bytes.take(n as int));
    }

    proof fn lemma_round_trip(v: TransferDataRsp) {
    }

    fn length(&self) -> (n: usize)
        ensures
            n == Self::enc(self@).len(),
    {
        1
    }

    fn read_replace(&mut self, data: &[u8], pos: &mut usize, payload_length: usize) -> (r: Result<
        (),
        UdsError,
    >) {
        if payload_length != 1 {
            return Err(too_short(payload_length, 1));
        }
        if data.len() - *pos < 1 {
            return Err(UdsError::Io);
        }
        self.block_sequence_counter = read_u8(data, pos);
        Ok(())
    }

    fn read(data: &[u8], pos: &mut usize, payload_length: usize) -> (r: Result<Self, UdsError>) {
        let mut me = TransferDataRsp { block_sequence_counter: 0 };
        match me.read_replace(data, pos, payload_length) {
            Ok(()) => Ok(me),
            Err(e) => Err(e),
        }
    }

    fn write(&self, out: &mut Vec<u8>) -> (r: Result<(), UdsError>) {
        out.push(self.block_sequence_counter);
        proof {
            assert(out@ =~= old(out)@ + Self::enc(self@));
        }
        Ok(())
    }
}

impl Payload for TransferExitReq {
    open spec fn inv(v: SpecTransferExit) -> bool {
        true
    }

    open spec fn enc(v: SpecTransferExit) -> Seq<u8> {
        v.user_data
    }

    open spec fn enc_ok(v: SpecTransferExit) -> bool {
        true
    }

    open spec fn dec(bytes: Seq<u8>, n: nat) -> Result<SpecTransferExit, DecErr> {
        if bytes.len() < n {
            Err(DecErr::Io)
        } else {
            Ok(SpecTransferExit { user_data: bytes.take(n as int) })
        }
    }

    open spec fn min_len() -> nat {
        0
    }

    proof fn lemma_inv_enc_ok(v: SpecTransferExit) {
    }

    proof fn lemma_dec_fidelity(bytes: Seq<u8>, n: nat) {
    }

    proof fn lemma_round_trip(v: SpecTransferExit) {
        assert(v.user_data.take(v.user_data.len() as int) =~= v.user_data);
        assert(Self::dec(Self::enc(v), Self::enc(v).len())->Ok_0 =~= v);
    }

    fn length(&self) -> (n: usize)
        ensures
            n == Self::enc(self@).len(),
    {
        self.user_data.len()
    }

    fn read_replace(&mut self, data: &[u8], pos: &mut usize, payload_length: usize) -> (r: Result<
        (),
        UdsError,
    >) {
        if data.len() - *pos < payload_length {
            return Err(UdsError::Io);
        }
        let ghost start = *pos as int;
        self.user_data = read_vec(data, pos, payload_length);
        proof {
            assert(data@.skip(start).take(payload_length as int) =~= data@.subrange(
                start,
                start + payload_length,
            ));
        }
        Ok(())
    }

    fn read(data: &[u8], pos: &mut usize, payload_length: usize) -> (r: Result<Self, UdsError>) {
        let mut me = TransferExitReq { user_data: Vec::new() };
        match me.read_replace(data, pos, payload_length) {
            Ok(()) => Ok(me),
            Err(e) => Err(e),
        }
    }

    fn write(&self, out: &mut Vec<u8>) -> (r: Result<(), UdsError>) {
        write_bytes(out, self.user_data.as_slice());
        Ok(())
    }
}

impl Payload for TransferExitRsp {
    open spec fn inv(v: SpecTransferExit) -> bool {
        true
    }

    open spec fn enc(v: SpecTransferExit) -> Seq<u8> {
        v.user_data
    }

    open spec fn enc_ok(v: SpecTransferExit) -> bool {
        true
    }

    open spec fn dec(bytes: Seq<u8>, n: nat) -> Result<SpecTransferExit, DecErr> {
        if bytes.len() < n {
            Err(DecErr::Io)
        } else {
            Ok(SpecTransferExit { user_data: bytes.take(n as int) })
        }
    }

    open spec fn min_len() -> nat {
        0
    }

    proof fn lemma_inv_enc_ok(v: SpecTransferExit) {
    }

    proof fn lemma_dec_fidelity(bytes: Seq<u8>, n: nat) {
    }

    proof fn lemma_round_trip(v: SpecTransferExit) {
        assert(v.user_data.take(v.user_data.len() as int) =~= v.user_data);
        assert(Self::dec(Self::enc(v), Self::enc(v).len())->Ok_0 =~= v);
    }

    fn length(&self) -> (n: usize)
        ensures
            n == Self::enc(self@).len(),
    {
        self.user_data.len()
    }

    fn read_replace(&mut self, data: &[u8], pos: &mut usize, payload_length: usize) -> (r: Result<
        (),
        UdsError,
    >) {
        if data.len() - *pos < payload_length {
            return Err(UdsError::Io);
        }
        let ghost start = *pos as int;
        self.user_data = read_vec(data, pos, payload_length);
        proof {
            assert(data@.skip(start).take(payload_length as int) =~= data@.subrange(
                start,
                start + payload_length,
            ));
        }
        Ok(())
    }

    fn read(data: &[u8], pos: &mut usize, payload_length: usize) -> (r: Result<Self, UdsError>) {
        let mut me = TransferExitRsp { user_data: Vec::new() };
        match me.read_replace(data, pos, payload_length) {
            Ok(()) => Ok(me),
            Err(e) => Err(e),
        }
    }

    fn write(&self, out: &mut Vec<u8>) -> (r: Result<(), UdsError>) {
        write_bytes(out, self.user_data.as_slice());
        Ok(())
    }
}

/// A declared width outside {1, 2, 4} in a RequestDownload response is
/// rejected as `UnexpectedPayloadType`, whenever the input holds the declared
/// field and the reserved low nibble is clear.
pub proof fn lemma_download_rsp_width_rejected(bytes: Seq<u8>, n: nat)
    requires
        n >= 1,
        bytes.len() >= 1,
        nib_lo(bytes[0]) == 0,
        !spec_width_ok(nib_hi(bytes[0]) as int),
        bytes.len() >= 1 + nib_hi(bytes[0]),
    ensures
        <RequestDownloadRsp as Payload>::dec(bytes, n) == Err::<RequestDownloadRsp, DecErr>(
            DecErr::Unexpected { value: 0 },
        ),
{
}

} // verus!
