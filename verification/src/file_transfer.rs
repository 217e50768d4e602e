//! File transfer negotiation messages: a mode-of-operation discriminant that
//! selects which fields follow a UTF-8 path, and variable-width size fields.

use crate::bytes::be_bytes;
use crate::bytes::be_val;
use crate::bytes::lemma_be_bytes_len;
use crate::bytes::lemma_be_bytes_val;
use crate::bytes::lemma_be_val_bound;
use crate::bytes::lemma_be_val_bytes;
use crate::bytes::lemma_nib_pack;
use crate::bytes::lemma_pow256_pos;
use crate::bytes::lemma_pow256_units;
use crate::bytes::nib_hi;
use crate::bytes::nib_lo;
use crate::bytes::nib_pack;
use crate::bytes::pow256;
use crate::bytes::read_be;
use crate::bytes::read_u8;
use crate::bytes::read_vec;
use crate::bytes::write_be;
use crate::bytes::write_bytes;
use crate::error::clip32;
use crate::error::too_short;
use crate::error::DecErr;
use crate::error::UdsError;
use crate::payload::Payload;
use crate::transfers::pack_nibbles;
use crate::transfers::read_sized;
use crate::transfers::spec_width_ok;
use vstd::arithmetic::div_mod::lemma_small_mod;
use vstd::prelude::*;
use vstd::string::StringExecFns;
use vstd::utf8::decode_utf8;
use vstd::utf8::decode_utf8_encode_utf8;
use vstd::utf8::encode_utf8;
use vstd::utf8::encode_utf8_decode_utf8;
use vstd::utf8::encode_utf8_valid_utf8;
use vstd::utf8::valid_utf8;

verus! {

/// Defines the behaviour of a [`RequestFileTransferReq`] operation
#[derive(Clone, Copy, Debug, PartialEq, Eq, Structural)]
pub enum ModeOfOperation {
    /// Reserved for future definition
    Reserved,
    /// Download a file to the server
    AddFile,
    /// Delete a file located in the server
    DeleteFile,
    /// Replace a file located in the server
    ReplaceFile,
    /// Upload a file from the server
    ReadFile,
    /// Read the content of a directory from the server
    ReadDir,
}

impl Default for ModeOfOperation {
    fn default() -> (r: Self)
        ensures
            r == ModeOfOperation::Reserved,
    {
        ModeOfOperation::Reserved
    }
}

/// The wire byte of a mode of operation.
pub open spec fn spec_mode_code(m: ModeOfOperation) -> u8 {
    match m {
        ModeOfOperation::Reserved => 0,
        ModeOfOperation::AddFile => 1,
        ModeOfOperation::DeleteFile => 2,
        ModeOfOperation::ReplaceFile => 3,
        ModeOfOperation::ReadFile => 4,
        ModeOfOperation::ReadDir => 5,
    }
}

/// The mode of operation a wire byte selects; bytes outside the table fall
/// back to `Reserved`, which decoding then rejects.
pub open spec fn spec_mode_of(b: u8) -> ModeOfOperation {
    if b == 1 {
        ModeOfOperation::AddFile
    } else if b == 2 {
        ModeOfOperation::DeleteFile
    } else if b == 3 {
        ModeOfOperation::ReplaceFile
    } else if b == 4 {
        ModeOfOperation::ReadFile
    } else if b == 5 {
        ModeOfOperation::ReadDir
    } else {
        ModeOfOperation::Reserved
    }
}

/// Whether the request layout of this mode carries the compression/encryption
/// control byte.
pub open spec fn spec_mode_has_compress(m: ModeOfOperation) -> bool {
    !(m is DeleteFile) && !(m is ReadDir)
}

/// Whether the request layout of this mode carries the file size fields.
pub open spec fn spec_mode_has_sizes(m: ModeOfOperation) -> bool {
    m is AddFile || m is ReplaceFile
}

impl ModeOfOperation {
    /// The wire byte of this mode of operation.
    pub fn code(&self) -> (b: u8)
        ensures
            b == spec_mode_code(*self),
    {
        match self {
            ModeOfOperation::Reserved => 0,
            ModeOfOperation::AddFile => 1,
            ModeOfOperation::DeleteFile => 2,
            ModeOfOperation::ReplaceFile => 3,
            ModeOfOperation::ReadFile => 4,
            ModeOfOperation::ReadDir => 5,
        }
    }

    /// The mode of operation a wire byte selects.
    pub fn from_code(b: u8) -> (m: ModeOfOperation)
        ensures
            m == spec_mode_of(b),
    {
        match b {
            1 => ModeOfOperation::AddFile,
            2 => ModeOfOperation::DeleteFile,
            3 => ModeOfOperation::ReplaceFile,
            4 => ModeOfOperation::ReadFile,
            5 => ModeOfOperation::ReadDir,
            _ => ModeOfOperation::Reserved,
        }
    }

    /// Whether the request layout of this mode carries the compression byte.
    pub fn has_compress(&self) -> (r: bool)
        ensures
            r == spec_mode_has_compress(*self),
    {
        match self {
            ModeOfOperation::DeleteFile | ModeOfOperation::ReadDir => false,
            _ => true,
        }
    }

    /// Whether the request layout of this mode carries the file size fields.
    pub fn has_sizes(&self) -> (r: bool)
        ensures
            r == spec_mode_has_sizes(*self),
    {
        match self {
            ModeOfOperation::AddFile | ModeOfOperation::ReplaceFile => true,
            _ => false,
        }
    }
}

/// Request to add/delete/replace/read a file or path (server with file system)
#[derive(Clone, Debug, PartialEq)]
pub struct RequestFileTransferReq {
    /// Type of operation to be applied to `path_name`
    pub mode_of_operation: ModeOfOperation,
    /// Location on the server file system
    pub path_name: String,
    /// Compression method (oem specific)
    pub compression_method: u8,
    /// Encryption method (oem specific)
    pub encryption_method: u8,
    /// Size in byte for parameters `file_size_uncompressed` and `file_size_compressed`
    pub file_size_bytes: u8,
    /// Size in byte of the uncompressed file
    pub file_size_uncompressed: usize,
    /// Size in byte of the compressed file (equal to `file_size_uncompressed` if uncompressed)
    pub file_size_compressed: usize,
}

/// Response to a [`RequestFileTransferReq`]
#[derive(Clone, Debug, PartialEq)]
pub struct RequestFileTransferRsp {
    /// Type of operation applied to the file/dir
    pub mode_of_operation: ModeOfOperation,
    /// Size in byte of the `max_block_size` field (ie. u8, u16, u32 ...)
    pub max_block_size_bytes: u8,
    /// Maximum size of data in a following transfer data request
    pub max_block_size: usize,
    /// Compression method (oem specific)
    pub compression_method: u8,
    /// Encryption method (oem specific)
    pub encryption_method: u8,
    /// Size in byte of the parameters `file_dir_size_uncompressed` and `file_size_compressed`
    pub file_dir_data_size_bytes: u16,
    /// Size in byte of the uncompressed file or of the directory information
    pub file_dir_size_uncompressed: usize,
    /// Size in byte of the compressed file
    pub file_size_compressed: usize,
}

/// Mathematical model of [`RequestFileTransferReq`]: the path as a character
/// sequence.
#[verifier::ext_equal]
pub struct SpecRequestFileTransferReq {
    /// Type of operation to be applied to `path_name`
    pub mode_of_operation: ModeOfOperation,
    /// Location on the server file system
    pub path_name: Seq<char>,
    /// Compression method
    pub compression_method: u8,
    /// Encryption method
    pub encryption_method: u8,
    /// Size in byte of the file size fields
    pub file_size_bytes: u8,
    /// Size in byte of the uncompressed file
    pub file_size_uncompressed: usize,
    /// Size in byte of the compressed file
    pub file_size_compressed: usize,
}

impl View for RequestFileTransferReq {
    type V = SpecRequestFileTransferReq;

    open spec fn view(&self) -> SpecRequestFileTransferReq {
        SpecRequestFileTransferReq {
            mode_of_operation: self.mode_of_operation,
            path_name: self.path_name@,
            compression_method: self.compression_method,
            encryption_method: self.encryption_method,
            file_size_bytes: self.file_size_bytes,
            file_size_uncompressed: self.file_size_uncompressed,
            file_size_compressed: self.file_size_compressed,
        }
    }
}

impl View for RequestFileTransferRsp {
    type V = RequestFileTransferRsp;

    open spec fn view(&self) -> RequestFileTransferRsp {
        *self
    }
}

impl Default for RequestFileTransferReq {
    fn default() -> (r: Self)
        ensures
            r@ == (SpecRequestFileTransferReq {
                mode_of_operation: ModeOfOperation::Reserved,
                path_name: Seq::<char>::empty(),
                compression_method: 0,
                encryption_method: 0,
                file_size_bytes: 0,
                file_size_uncompressed: 0,
                file_size_compressed: 0,
            }),
    {
        RequestFileTransferReq {
            mode_of_operation: ModeOfOperation::Reserved,
            path_name: String::new(),
            compression_method: 0,
            encryption_method: 0,
            file_size_bytes: 0,
            file_size_uncompressed: 0,
            file_size_compressed: 0,
        }
    }
}

impl Default for RequestFileTransferRsp {
    fn default() -> (r: Self)
        ensures
            r@ == (RequestFileTransferRsp {
                mode_of_operation: ModeOfOperation::Reserved,
                max_block_size_bytes: 0,
                max_block_size: 0,
                compression_method: 0,
                encryption_method: 0,
                file_dir_data_size_bytes: 0,
                file_dir_size_uncompressed: 0,
                file_size_compressed: 0,
            }),
    {
        RequestFileTransferRsp {
            mode_of_operation: ModeOfOperation::Reserved,
            max_block_size_bytes: 0,
            max_block_size: 0,
            compression_method: 0,
            encryption_method: 0,
            file_dir_data_size_bytes: 0,
            file_dir_size_uncompressed: 0,
            file_size_compressed: 0,
        }
    }
}

/// Relies on `String::from_utf8`: it returns the string decoded from the
/// given bytes exactly when they are valid UTF-8, and rejects them otherwise.
#[verifier::external_body]
fn vec_to_string(v: Vec<u8>) -> (r: Option<String>)
    ensures
        match r {
            Some(s) => valid_utf8(v@) && s@ == decode_utf8(v@),
            None => !valid_utf8(v@),
        },
{
    match String::from_utf8(v) {
        Ok(s) => Some(s),
        Err(_) => None,
    }
}

/// The declared payload length a request of this mode needs before any
/// variable-width field is known.
pub open spec fn spec_rft_req_min(m: ModeOfOperation) -> nat {
    if spec_mode_has_sizes(m) {
        4
    } else {
        3
    }
}

impl Payload for RequestFileTransferReq {
    open spec fn inv(v: SpecRequestFileTransferReq) -> bool {
        let m = v.mode_of_operation;
        &&& !(m is Reserved)
        &&& encode_utf8(v.path_name).len() <= 0xffff
        &&& if spec_mode_has_compress(m) {
            v.compression_method < 16 && v.encryption_method < 16
        } else {
            v.compression_method == 0 && v.encryption_method == 0
        }
        &&& if spec_mode_has_sizes(m) {
            &&& spec_width_ok(v.file_size_bytes as int)
            &&& (v.file_size_uncompressed as nat) < pow256(v.file_size_bytes as nat)
            &&& (v.file_size_compressed as nat) < pow256(v.file_size_bytes as nat)
        } else {
            v.file_size_bytes == 0 && v.file_size_uncompressed == 0 && v.file_size_compressed == 0
        }
    }

    open spec fn enc(v: SpecRequestFileTransferReq) -> Seq<u8> {
        let m = v.mode_of_operation;
        let pb = encode_utf8(v.path_name);
        seq![spec_mode_code(m)] + be_bytes(pb.len(), 2) + pb + (if spec_mode_has_compress(m) {
            seq![nib_pack(v.compression_method, v.encryption_method)]
        } else {
            seq![]
        }) + (if spec_mode_has_sizes(m) {
            seq![v.file_size_bytes] + be_bytes(
                v.file_size_uncompressed as nat,
                v.file_size_bytes as nat,
            ) + be_bytes(v.file_size_compressed as nat, v.file_size_bytes as nat)
        } else {
            seq![]
        })
    }

    open spec fn enc_ok(v: SpecRequestFileTransferReq) -> bool {
        &&& encode_utf8(v.path_name).len() <= 0xffff
        &&& (spec_mode_has_sizes(v.mode_of_operation) ==> spec_width_ok(v.file_size_bytes as int))
    }

    open spec fn dec(bytes: Seq<u8>, n: nat) -> Result<SpecRequestFileTransferReq, DecErr> {
        if bytes.len() < 1 {
            Err(DecErr::Io)
        } else {
            let m = spec_mode_of(bytes[0]);
            if m is Reserved {
                Err(DecErr::Encoding)
            } else if n < spec_rft_req_min(m) {
                Err(DecErr::TooShort { value: clip32(n), expected: clip32(spec_rft_req_min(m)) })
            } else if bytes.len() < 3 {
                Err(DecErr::Io)
            } else {
                let plen = be_val(bytes.subrange(1, 3));
                if bytes.len() < 3 + plen {
                    Err(DecErr::Io)
                } else {
                    let pb = bytes.subrange(3, 3 + plen as int);
                    if !valid_utf8(pb) {
                        Err(DecErr::Encoding)
                    } else {
                        let path = decode_utf8(pb);
                        if spec_mode_has_compress(m) {
                            if bytes.len() < 4 + plen {
                                Err(DecErr::Io)
                            } else {
                                let ce = bytes[3 + plen as int];
                                if spec_mode_has_sizes(m) {
                                    spec_dec_req_sizes(
                                        bytes,
                                        n,
                                        m,
                                        path,
                                        nib_hi(ce),
                                        nib_lo(ce),
                                        (4 + plen) as nat,
                                    )
                                } else if n != 4 + plen {
                                    Err(
                                        DecErr::TooShort {
                                            value: clip32(n),
                                            expected: clip32((4 + plen) as nat),
                                        },
                                    )
                                } else {
                                    Ok(
                                        SpecRequestFileTransferReq {
                                            mode_of_operation: m,
                                            path_name: path,
                                            compression_method: nib_hi(ce),
                                            encryption_method: nib_lo(ce),
                                            file_size_bytes: 0,
                                            file_size_uncompressed: 0,
                                            file_size_compressed: 0,
                                        },
                                    )
                                }
                            }
                        } else if n != 3 + plen {
                            Err(
                                DecErr::TooShort {
                                    value: clip32(n),
                                    expected: clip32((3 + plen) as nat),
                                },
                            )
                        } else {
                            Ok(
                                SpecRequestFileTransferReq {
                                    mode_of_operation: m,
                                    path_name: path,
                                    compression_method: 0,
                                    encryption_method: 0,
                                    file_size_bytes: 0,
                                    file_size_uncompressed: 0,
                                    file_size_compressed: 0,
                                },
                            )
                        }
                    }
                }
            }
        }
    }

    open spec fn min_len() -> nat {
        3
    }

    proof fn lemma_inv_enc_ok(v: SpecRequestFileTransferReq) {
    }

    proof fn lemma_dec_fidelity(bytes: Seq<u8>, n: nat) {
        let m = spec_mode_of(bytes[0]);
        let plen = be_val(bytes.subrange(1, 3));
        let pb = bytes.subrange(3, 3 + plen as int);
        let v = Self::dec(bytes, n)->Ok_0;
        lemma_be_val_bound(bytes.subrange(1, 3));
        lemma_pow256_units();
        lemma_be_val_bytes(bytes.subrange(1, 3));
        decode_utf8_encode_utf8(pb);
        assert(spec_mode_code(m) == bytes[0]);
        if spec_mode_has_compress(m) {
            let ce = bytes[3 + plen as int];
            assert(nib_pack(nib_hi(ce), nib_lo(ce)) == ce);
            if spec_mode_has_sizes(m) {
                let off = (4 + plen) as nat;
                let fsb = bytes[off as int];
                let su = bytes.subrange(off as int + 1, off as int + 1 + fsb);
                let sc = bytes.subrange(off as int + 1 + fsb, off as int + 1 + 2 * fsb);
                lemma_be_val_bound(su);
                lemma_be_val_bound(sc);
                lemma_be_val_bytes(su);
                lemma_be_val_bytes(sc);
                assert(Self::enc(v) =~= bytes.take(n as int));
            } else {
                assert(Self::enc(v) =~= bytes.take(n as int));
            }
        } else {
            assert(Self::enc(v) =~= bytes.take(n as int));
        }
    }

    proof fn lemma_round_trip(v: SpecRequestFileTransferReq) {
        let m = v.mode_of_operation;
        let pb = encode_utf8(v.path_name);
        let e = Self::enc(v);
        lemma_be_bytes_len(pb.len(), 2);
        lemma_be_bytes_val(pb.len(), 2);
        lemma_pow256_units();
        encode_utf8_valid_utf8(v.path_name);
        encode_utf8_decode_utf8(v.path_name);
        assert(e[0] == spec_mode_code(m));
        assert(spec_mode_of(e[0]) == m);
        assert(e.subrange(1, 3) =~= be_bytes(pb.len(), 2));
        assert(be_val(e.subrange(1, 3)) == pb.len());
        assert(e.subrange(3, 3 + pb.len() as int) =~= pb);
        if spec_mode_has_compress(m) {
            lemma_nib_pack(v.compression_method, v.encryption_method);
            assert(e[3 + pb.len() as int] == nib_pack(
                v.compression_method,
                v.encryption_method,
            ));
            if spec_mode_has_sizes(m) {
                let fsb = v.file_size_bytes;
                let off = 4 + pb.len() as int;
                lemma_be_bytes_len(v.file_size_uncompressed as nat, fsb as nat);
                lemma_be_bytes_len(v.file_size_compressed as nat, fsb as nat);
                lemma_be_bytes_val(v.file_size_uncompressed as nat, fsb as nat);
                lemma_be_bytes_val(v.file_size_compressed as nat, fsb as nat);
                lemma_pow256_pos(fsb as nat);
                lemma_small_mod(v.file_size_uncompressed as nat, pow256(fsb as nat));
                lemma_small_mod(v.file_size_compressed as nat, pow256(fsb as nat));
                assert(e[off] == fsb);
                assert(e.subrange(off + 1, off + 1 + fsb as int) =~= be_bytes(
                    v.file_size_uncompressed as nat,
                    fsb as nat,
                ));
                assert(e.subrange(off + 1 + fsb as int, off + 1 + 2 * fsb as int) =~= be_bytes(
                    v.file_size_compressed as nat,
                    fsb as nat,
                ));
                assert(Self::dec(e, e.len())->Ok_0 =~= v);
            } else {
                assert(Self::dec(e, e.len())->Ok_0 =~= v);
            }
        } else {
            assert(Self::dec(e, e.len())->Ok_0 =~= v);
        }
    }

    fn length(&self) -> (n: usize)
        ensures
            n == Self::enc(self@).len(),
    {
        proof {
            lemma_be_bytes_len(encode_utf8(self.path_name@).len(), 2);
            lemma_be_bytes_len(self.file_size_uncompressed as nat, self.file_size_bytes as nat);
            lemma_be_bytes_len(self.file_size_compressed as nat, self.file_size_bytes as nat);
        }
        let plen = self.path_name.as_str().len();
        if self.mode_of_operation.has_sizes() {
            3 + plen + 2 + 2 * (self.file_size_bytes as usize)
        } else if self.mode_of_operation.has_compress() {
            3 + plen + 1
        } else {
            3 + plen
        }
    }

    #[verifier::rlimit(60)]
    fn read_replace(&mut self, data: &[u8], pos: &mut usize, payload_length: usize) -> (r: Result<
        (),
        UdsError,
    >) {
        let ghost start = *pos as int;
        let ghost bytes = data@.skip(start);
        if data.len() - *pos < 1 {
            return Err(UdsError::Io);
        }
        let mb = read_u8(data, pos);
        let m = ModeOfOperation::from_code(mb);
        if m == ModeOfOperation::Reserved {
            return Err(
                UdsError::EncodingError {
                    msg: String::from_str("Unhandled mode of operation: Reserved"),
                },
            );
        }
        let minv: usize = if m.has_sizes() {
            4
        } else {
            3
        };
        if payload_length < minv {
            return Err(too_short(payload_length, minv as u32));
        }
        if data.len() - *pos < 2 {
            return Err(UdsError::Io);
        }
        let plen = read_be(data, pos, 2) as usize;
        proof {
            assert(bytes.subrange(1, 3) =~= data@.subrange(start + 1, start + 3));
            lemma_be_val_bound(bytes.subrange(1, 3));
            lemma_pow256_units();
        }
        if data.len() - *pos < plen {
            return Err(UdsError::Io);
        }
        let pvec = read_vec(data, pos, plen);
        proof {
            assert(bytes.subrange(3, 3 + plen as int) =~= data@.subrange(
                start + 3,
                start + 3 + plen as int,
            ));
        }
        let path = match vec_to_string(pvec) {
            Some(s) => s,
            None => {
                return Err(
                    UdsError::EncodingError {
                        msg: String::from_str("File of Path name is not a valid UTF-8 string"),
                    },
                );
            },
        };
        if m.has_compress() {
            if data.len() - *pos < 1 {
                return Err(UdsError::Io);
            }
            let ce = read_u8(data, pos);
            let comp = ce / 16;
            let encr = ce % 16;
            if m.has_sizes() {
                if data.len() - *pos < 1 {
                    return Err(UdsError::Io);
                }
                let fsb = read_u8(data, pos);
                let ghost off = (4 + plen) as nat;
                let unc = match read_sized(data, pos, fsb as usize) {
                    Ok(x) => x,
                    Err(e) => {
                        proof {
                            assert(data@.len() - (start + 5 + plen) < fsb <==> bytes.len() < off + 1
                                + fsb);
                        }
                        return Err(e);
                    },
                };
                proof {
                    assert(bytes.subrange(off as int + 1, off as int + 1 + fsb as int)
                        =~= data@.subrange(
                        start + off as int + 1,
                        start + off as int + 1 + fsb as int,
                    ));
                }
                let cmp = match read_sized(data, pos, fsb as usize) {
                    Ok(x) => x,
                    Err(e) => {
                        proof {
                            assert(data@.len() - (start + 5 + plen + fsb) < fsb <==> bytes.len()
                                < off + 1 + 2 * fsb);
                        }
                        return Err(e);
                    },
                };
                proof {
                    assert(bytes.subrange(off as int + 1 + fsb as int, off as int + 1 + 2
                        * fsb as int) =~= data@.subrange(
                        start + off as int + 1 + fsb as int,
                        start + off as int + 1 + 2 * fsb as int,
                    ));
                }
                if payload_length != 5 + plen + 2 * (fsb as usize) {
                    return Err(too_short(payload_length, (5 + plen + 2 * (fsb as usize)) as u32));
                }
                self.mode_of_operation = m;
                self.path_name = path;
                self.compression_method = comp;
                self.encryption_method = encr;
                self.file_size_bytes = fsb;
                self.file_size_uncompressed = unc as usize;
                self.file_size_compressed = cmp as usize;
                proof {
                    assert(Self::dec(bytes, payload_length as nat) == Ok::<Self::V, DecErr>(
                        self@,
                    ));
                }
                Ok(())
            } else {
                if payload_length != 4 + plen {
                    return Err(too_short(payload_length, (4 + plen) as u32));
                }
                self.mode_of_operation = m;
                self.path_name = path;
                self.compression_method = comp;
                self.encryption_method = encr;
                self.file_size_bytes = 0;
                self.file_size_uncompressed = 0;
                self.file_size_compressed = 0;
                Ok(())
            }
        } else {
            if payload_length != 3 + plen {
                return Err(too_short(payload_length, (3 + plen) as u32));
            }
            self.mode_of_operation = m;
            self.path_name = path;
            self.compression_method = 0;
            self.encryption_method = 0;
            self.file_size_bytes = 0;
            self.file_size_uncompressed = 0;
            self.file_size_compressed = 0;
            Ok(())
        }
    }

    fn read(data: &[u8], pos: &mut usize, payload_length: usize) -> (r: Result<Self, UdsError>) {
        let mut me = RequestFileTransferReq {
            mode_of_operation: ModeOfOperation::Reserved,
            path_name: String::new(),
            compression_method: 0,
            encryption_method: 0,
            file_size_bytes: 0,
            file_size_uncompressed: 0,
            file_size_compressed: 0,
        };
        match me.read_replace(data, pos, payload_length) {
            Ok(()) => Ok(me),
            Err(e) => Err(e),
        }
    }

    fn write(&self, out: &mut Vec<u8>) -> (r: Result<(), UdsError>) {
        let pb: &[u8] = self.path_name.as_str().as_bytes();
        if pb.len() > 0xffff {
            return Err(
                UdsError::EncodingError {
                    msg: String::from_str("File of Path name is bigger than 65536 bytes"),
                },
            );
        }
        if self.mode_of_operation.has_sizes() && !(self.file_size_bytes == 1
            || self.file_size_bytes == 2 || self.file_size_bytes == 4) {
            return Err(
                UdsError::EncodingError { msg: String::from_str("bytes should be 1,2 or 4") },
            );
        }
        out.push(self.mode_of_operation.code());
        write_be(out, pb.len() as u64, 2);
        write_bytes(out, pb);
        if self.mode_of_operation.has_compress() {
            out.push(pack_nibbles(self.compression_method, self.encryption_method));
        }
        if self.mode_of_operation.has_sizes() {
            out.push(self.file_size_bytes);
            write_be(out, self.file_size_uncompressed as u64, self.file_size_bytes as usize);
            write_be(out, self.file_size_compressed as u64, self.file_size_bytes as usize);
        }
        proof {
            assert(out@ =~= old(out)@ + Self::enc(self@));
        }
        Ok(())
    }
}

/// The declared payload length a response of this mode needs before any
/// variable-width field is known.
pub open spec fn spec_rft_rsp_min(m: ModeOfOperation) -> nat {
    if m is DeleteFile {
        1
    } else if m is ReadFile || m is ReadDir {
        5
    } else {
        3
    }
}

impl Payload for RequestFileTransferRsp {
    open spec fn inv(v: RequestFileTransferRsp) -> bool {
        let m = v.mode_of_operation;
        &&& !(m is Reserved)
        &&& if m is DeleteFile {
            &&& v.max_block_size_bytes == 0
            &&& v.max_block_size == 0
            &&& v.compression_method == 0
            &&& v.encryption_method == 0
        } else {
            &&& spec_width_ok(v.max_block_size_bytes as int)
            &&& (v.max_block_size as nat) < pow256(v.max_block_size_bytes as nat)
            &&& v.compression_method < 16
            &&& v.encryption_method < 16
        }
        &&& if m is ReadDir {
            &&& spec_width_ok(v.file_dir_data_size_bytes as int)
            &&& (v.file_dir_size_uncompressed as nat) < pow256(v.file_dir_data_size_bytes as nat)
            &&& v.file_size_compressed == 0
        } else if m is ReadFile {
            &&& spec_width_ok(v.file_dir_data_size_bytes as int)
            &&& (v.file_dir_size_uncompressed as nat) < pow256(v.file_dir_data_size_bytes as nat)
            &&& (v.file_size_compressed as nat) < pow256(v.file_dir_data_size_bytes as nat)
        } else {
            &&& v.file_dir_data_size_bytes == 0
            &&& v.file_dir_size_uncompressed == 0
            &&& v.file_size_compressed == 0
        }
    }

    open spec fn enc(v: RequestFileTransferRsp) -> Seq<u8> {
        let m = v.mode_of_operation;
        seq![spec_mode_code(m)] + (if m is DeleteFile {
            seq![]
        } else {
            seq![v.max_block_size_bytes] + be_bytes(
                v.max_block_size as nat,
                v.max_block_size_bytes as nat,
            ) + seq![nib_pack(v.compression_method, v.encryption_method)]
        }) + (if m is ReadDir {
            be_bytes(v.file_dir_data_size_bytes as nat, 2) + be_bytes(
                v.file_dir_size_uncompressed as nat,
                v.file_dir_data_size_bytes as nat,
            )
        } else if m is ReadFile {
            be_bytes(v.file_dir_data_size_bytes as nat, 2) + be_bytes(
                v.file_dir_size_uncompressed as nat,
                v.file_dir_data_size_bytes as nat,
            ) + be_bytes(v.file_size_compressed as nat, v.file_dir_data_size_bytes as nat)
        } else {
            seq![]
        })
    }

    open spec fn enc_ok(v: RequestFileTransferRsp) -> bool {
        let m = v.mode_of_operation;
        m is DeleteFile || {
            &&& spec_width_ok(v.max_block_size_bytes as int)
            &&& ((m is ReadDir || m is ReadFile) ==> spec_width_ok(
                v.file_dir_data_size_bytes as int,
            ))
        }
    }

    open spec fn dec(bytes: Seq<u8>, n: nat) -> Result<RequestFileTransferRsp, DecErr> {
        if bytes.len() < 1 {
            Err(DecErr::Io)
        } else {
            let m = spec_mode_of(bytes[0]);
            if m is Reserved {
                Err(DecErr::Encoding)
            } else if n < spec_rft_rsp_min(m) {
                Err(DecErr::TooShort { value: clip32(n), expected: clip32(spec_rft_rsp_min(m)) })
            } else if m is DeleteFile {
                if n != 1 {
                    Err(DecErr::TooShort { value: clip32(n), expected: 1 })
                } else {
                    Ok(
                        RequestFileTransferRsp {
                            mode_of_operation: m,
                            max_block_size_bytes: 0,
                            max_block_size: 0,
                            compression_method: 0,
                            encryption_method: 0,
                            file_dir_data_size_bytes: 0,
                            file_dir_size_uncompressed: 0,
                            file_size_compressed: 0,
                        },
                    )
                }
            } else if bytes.len() < 2 {
                Err(DecErr::Io)
            } else {
                let mbs = bytes[1];
                if bytes.len() < 2 + mbs {
                    Err(DecErr::Io)
                } else if !spec_width_ok(mbs as int) {
                    Err(DecErr::Unexpected { value: 0 })
                } else {
                    let mval = be_val(bytes.subrange(2, 2 + mbs));
                    if bytes.len() < 3 + mbs {
                        Err(DecErr::Io)
                    } else {
                        let ce = bytes[2 + mbs as int];
                        spec_dec_rsp_tail(bytes, n, m, mbs, mval, nib_hi(ce), nib_lo(ce), (3
                            + mbs) as nat)
                    }
                }
            }
        }
    }

    open spec fn min_len() -> nat {
        1
    }

    proof fn lemma_inv_enc_ok(v: RequestFileTransferRsp) {
    }

    proof fn lemma_dec_fidelity(bytes: Seq<u8>, n: nat) {
        let m = spec_mode_of(bytes[0]);
        let v = Self::dec(bytes, n)->Ok_0;
        assert(spec_mode_code(m) == bytes[0]);
        if m is DeleteFile {
            assert(Self::enc(v) =~= bytes.take(n as int));
        } else {
            let mbs = bytes[1];
            let sm = bytes.subrange(2, 2 + mbs);
            lemma_be_val_bound(sm);
            lemma_pow256_units();
            lemma_be_val_bytes(sm);
            let ce = bytes[2 + mbs as int];
            assert(nib_pack(nib_hi(ce), nib_lo(ce)) == ce);
            let off = (3 + mbs) as nat;
            if m is ReadDir || m is ReadFile {
                let ssb = bytes.subrange(off as int, off as int + 2);
                let sb = be_val(ssb);
                lemma_be_val_bound(ssb);
                lemma_be_val_bytes(ssb);
                let su = bytes.subrange(off as int + 2, off as int + 2 + sb as int);
                lemma_be_val_bound(su);
                lemma_be_val_bytes(su);
                if m is ReadFile {
                    let sc = bytes.subrange(
                        off as int + 2 + sb as int,
                        off as int + 2 + 2 * sb as int,
                    );
                    lemma_be_val_bound(sc);
                    lemma_be_val_bytes(sc);
                    assert(Self::enc(v) =~= bytes.take(n as int));
                } else {
                    assert(Self::enc(v) =~= bytes.take(n as int));
                }
            } else {
                assert(Self::enc(v) =~= bytes.take(n as int));
            }
        }
    }

    #[verifier::rlimit(60)]
    proof fn lemma_round_trip(v: RequestFileTransferRsp) {
        let m = v.mode_of_operation;
        let e = Self::enc(v);
        assert(e[0] == spec_mode_code(m));
        assert(spec_mode_of(e[0]) == m);
        if m is DeleteFile {
            assert(Self::dec(e, e.len())->Ok_0 =~= v);
        } else {
            let mbs = v.max_block_size_bytes;
            lemma_be_bytes_len(v.max_block_size as nat, mbs as nat);
            lemma_be_bytes_val(v.max_block_size as nat, mbs as nat);
            lemma_pow256_pos(mbs as nat);
            lemma_small_mod(v.max_block_size as nat, pow256(mbs as nat));
            lemma_nib_pack(v.compression_method, v.encryption_method);
            assert(e[1] == mbs);
            assert(e.subrange(2, 2 + mbs as int) =~= be_bytes(v.max_block_size as nat, mbs as nat));
            assert(e[2 + mbs as int] == nib_pack(v.compression_method, v.encryption_method));
            let off = 3 + mbs as int;
            if m is ReadDir || m is ReadFile {
                let sb = v.file_dir_data_size_bytes;
                lemma_be_bytes_len(sb as nat, 2);
                lemma_be_bytes_val(sb as nat, 2);
                lemma_pow256_units();
                lemma_be_bytes_len(v.file_dir_size_uncompressed as nat, sb as nat);
                lemma_be_bytes_val(v.file_dir_size_uncompressed as nat, sb as nat);
                lemma_pow256_pos(sb as nat);
                lemma_small_mod(v.file_dir_size_uncompressed as nat, pow256(sb as nat));
                assert(e.subrange(off, off + 2) =~= be_bytes(sb as nat, 2));
                assert(e.subrange(off + 2, off + 2 + sb as int) =~= be_bytes(
                    v.file_dir_size_uncompressed as nat,
                    sb as nat,
                ));
                if m is ReadFile {
                    lemma_be_bytes_len(v.file_size_compressed as nat, sb as nat);
                    lemma_be_bytes_val(v.file_size_compressed as nat, sb as nat);
                    lemma_small_mod(v.file_size_compressed as nat, pow256(sb as nat));
                    assert(e.subrange(off + 2 + sb as int, off + 2 + 2 * sb as int) =~= be_bytes(
                        v.file_size_compressed as nat,
                        sb as nat,
                    ));
                    assert(Self::dec(e, e.len())->Ok_0 =~= v);
                } else {
                    assert(Self::dec(e, e.len())->Ok_0 =~= v);
                }
            } else {
                assert(Self::dec(e, e.len())->Ok_0 =~= v);
            }
        }
    }

    fn length(&self) -> (n: usize)
        ensures
            n == Self::enc(self@).len(),
    {
        proof {
            lemma_be_bytes_len(self.max_block_size as nat, self.max_block_size_bytes as nat);
            lemma_be_bytes_len(self.file_dir_data_size_bytes as nat, 2);
            lemma_be_bytes_len(
                self.file_dir_size_uncompressed as nat,
                self.file_dir_data_size_bytes as nat,
            );
            lemma_be_bytes_len(
                self.file_size_compressed as nat,
                self.file_dir_data_size_bytes as nat,
            );
        }
        match self.mode_of_operation {
            ModeOfOperation::DeleteFile => 1,
            ModeOfOperation::ReadDir => 3 + self.max_block_size_bytes as usize + 2
                + self.file_dir_data_size_bytes as usize,
            ModeOfOperation::ReadFile => 3 + self.max_block_size_bytes as usize + 2 + 2 * (
            self.file_dir_data_size_bytes as usize),
            _ => 3 + self.max_block_size_bytes as usize,
        }
    }

    fn read_replace(&mut self, data: &[u8], pos: &mut usize, payload_length: usize) -> (r: Result<
        (),
        UdsError,
    >) {
        let ghost start = *pos as int;
        let ghost bytes = data@.skip(start);
        if data.len() - *pos < 1 {
            return Err(UdsError::Io);
        }
        let mb = read_u8(data, pos);
        let m = ModeOfOperation::from_code(mb);
        if m == ModeOfOperation::Reserved {
            return Err(
                UdsError::EncodingError {
                    msg: String::from_str("Unhandled mode of operation: Reserved"),
                },
            );
        }
        let minv: usize = match m {
            ModeOfOperation::DeleteFile => 1,
            ModeOfOperation::ReadFile | ModeOfOperation::ReadDir => 5,
            _ => 3,
        };
        if payload_length < minv {
            return Err(too_short(payload_length, minv as u32));
        }
        if m == ModeOfOperation::DeleteFile {
            if payload_length != 1 {
                return Err(too_short(payload_length, 1));
            }
            self.mode_of_operation = m;
            self.max_block_size_bytes = 0;
            self.max_block_size = 0;
            self.compression_method = 0;
            self.encryption_method = 0;
            self.file_dir_data_size_bytes = 0;
            self.file_dir_size_uncompressed = 0;
            self.file_size_compressed = 0;
            return Ok(());
        }
        if data.len() - *pos < 1 {
            return Err(UdsError::Io);
        }
        let mbs = read_u8(data, pos);
        let mval = match read_sized(data, pos, mbs as usize) {
            Ok(x) => x,
            Err(e) => {
                proof {
                    assert(data@.len() - (start + 2) < mbs <==> bytes.len() < 2 + mbs);
                }
                return Err(e);
            },
        };
        proof {
            assert(bytes.subrange(2, 2 + mbs as int) =~= data@.subrange(
                start + 2,
                start + 2 + mbs as int,
            ));
        }
        if data.len() - *pos < 1 {
            return Err(UdsError::Io);
        }
        let ce = read_u8(data, pos);
        let comp = ce / 16;
        let encr = ce % 16;
        let ghost off = (3 + mbs) as nat;
        match m {
            ModeOfOperation::ReadDir | ModeOfOperation::ReadFile => {
                if data.len() - *pos < 2 {
                    return Err(UdsError::Io);
                }
                let sb = read_be(data, pos, 2) as u16;
                proof {
                    assert(bytes.subrange(off as int, off as int + 2) =~= data@.subrange(
                        start + off as int,
                        start + off as int + 2,
                    ));
                    lemma_be_val_bound(bytes.subrange(off as int, off as int + 2));
                    lemma_pow256_units();
                }
                let unc = match read_sized(data, pos, sb as usize) {
                    Ok(x) => x,
                    Err(e) => {
                        proof {
                            assert(data@.len() - (start + off + 2) < sb <==> bytes.len() < off + 2
                                + sb);
                        }
                        return Err(e);
                    },
                };
                proof {
                    assert(bytes.subrange(off as int + 2, off as int + 2 + sb as int) =~= data@.subrange(
                        start + off as int + 2,
                        start + off as int + 2 + sb as int,
                    ));
                }
                if m == ModeOfOperation::ReadDir {
                    if payload_length != 3 + mbs as usize + 2 + sb as usize {
                        return Err(
                            too_short(payload_length, (3 + mbs as usize + 2 + sb as usize) as u32),
                        );
                    }
                    self.mode_of_operation = m;
                    self.max_block_size_bytes = mbs;
                    self.max_block_size = mval as usize;
                    self.compression_method = comp;
                    self.encryption_method = encr;
                    self.file_dir_data_size_bytes = sb;
                    self.file_dir_size_uncompressed = unc as usize;
                    self.file_size_compressed = 0;
                    Ok(())
                } else {
                    let cmp = match read_sized(data, pos, sb as usize) {
                        Ok(x) => x,
                        Err(e) => {
                            proof {
                                assert(data@.len() - (start + off + 2 + sb) < sb <==> bytes.len()
                                    < off + 2 + 2 * sb);
                            }
                            return Err(e);
                        },
                    };
                    proof {
                        assert(bytes.subrange(
                            off as int + 2 + sb as int,
                            off as int + 2 + 2 * sb as int,
                        ) =~= data@.subrange(
                            start + off as int + 2 + sb as int,
                            start + off as int + 2 + 2 * sb as int,
                        ));
                    }
                    if payload_length != 3 + mbs as usize + 2 + 2 * (sb as usize) {
                        return Err(
                            too_short(
                                payload_length,
                                (3 + mbs as usize + 2 + 2 * (sb as usize)) as u32,
                            ),
                        );
                    }
                    self.mode_of_operation = m;
                    self.max_block_size_bytes = mbs;
                    self.max_block_size = mval as usize;
                    self.compression_method = comp;
                    self.encryption_method = encr;
                    self.file_dir_data_size_bytes = sb;
                    self.file_dir_size_uncompressed = unc as usize;
                    self.file_size_compressed = cmp as usize;
                    Ok(())
                }
            },
            _ => {
                if payload_length != 3 + mbs as usize {
                    return Err(too_short(payload_length, (3 + mbs as usize) as u32));
                }
                self.mode_of_operation = m;
                self.max_block_size_bytes = mbs;
                self.max_block_size = mval as usize;
                self.compression_method = comp;
                self.encryption_method = encr;
                self.file_dir_data_size_bytes = 0;
                self.file_dir_size_uncompressed = 0;
                self.file_size_compressed = 0;
                Ok(())
            },
        }
    }

    fn read(data: &[u8], pos: &mut usize, payload_length: usize) -> (r: Result<Self, UdsError>) {
        let mut me = RequestFileTransferRsp {
            mode_of_operation: ModeOfOperation::Reserved,
            max_block_size_bytes: 0,
            max_block_size: 0,
            compression_method: 0,
            encryption_method: 0,
            file_dir_data_size_bytes: 0,
            file_dir_size_uncompressed: 0,
            file_size_compressed: 0,
        };
        match me.read_replace(data, pos, payload_length) {
            Ok(()) => Ok(me),
            Err(e) => Err(e),
        }
    }

    #[verifier::rlimit(100)]
    #[verifier::spinoff_prover]
    fn write(&self, out: &mut Vec<u8>) -> (r: Result<(), UdsError>) {
        let m = self.mode_of_operation;
        if m != ModeOfOperation::DeleteFile {
            if !(self.max_block_size_bytes == 1 || self.max_block_size_bytes == 2
                || self.max_block_size_bytes == 4) {
                return Err(
                    UdsError::EncodingError { msg: String::from_str("bytes should be 1,2 or 4") },
                );
            }
            if (m == ModeOfOperation::ReadDir || m == ModeOfOperation::ReadFile) && !(
            self.file_dir_data_size_bytes == 1 || self.file_dir_data_size_bytes == 2
                || self.file_dir_data_size_bytes == 4) {
                return Err(
                    UdsError::EncodingError { msg: String::from_str("bytes should be 1,2 or 4") },
                );
            }
        }
        out.push(self.mode_of_operation.code());
        if m != ModeOfOperation::DeleteFile {
            out.push(self.max_block_size_bytes);
            write_be(out, self.max_block_size as u64, self.max_block_size_bytes as usize);
            out.push(pack_nibbles(self.compression_method, self.encryption_method));
            if m == ModeOfOperation::ReadDir || m == ModeOfOperation::ReadFile {
                write_be(out, self.file_dir_data_size_bytes as u64, 2);
                write_be(
                    out,
                    self.file_dir_size_uncompressed as u64,
                    self.file_dir_data_size_bytes as usize,
                );
                if m == ModeOfOperation::ReadFile {
                    write_be(
                        out,
                        self.file_size_compressed as u64,
                        self.file_dir_data_size_bytes as usize,
                    );
                }
            }
        }
        proof {
            assert(out@ =~= old(out)@ + Self::enc(self@));
        }
        Ok(())
    }
}

/// The tail of a file-transfer response decode once the mode, block size, and
/// compression byte are read: the data-size descriptor and the size fields it
/// selects, starting at `off`.
pub open spec fn spec_dec_rsp_tail(
    bytes: Seq<u8>,
    n: nat,
    m: ModeOfOperation,
    mbs: u8,
    mval: nat,
    comp: u8,
    encr: u8,
    off: nat,
) -> Result<RequestFileTransferRsp, DecErr> {
    if m is ReadDir || m is ReadFile {
        if bytes.len() < off + 2 {
            Err(DecErr::Io)
        } else {
            let sb = be_val(bytes.subrange(off as int, off as int + 2));
            if bytes.len() < off + 2 + sb {
                Err(DecErr::Io)
            } else if !spec_width_ok(sb as int) {
                Err(DecErr::Unexpected { value: 0 })
            } else {
                let unc = be_val(bytes.subrange(off as int + 2, off as int + 2 + sb as int));
                if m is ReadDir {
                    if n != off + 2 + sb {
                        Err(
                            DecErr::TooShort {
                                value: clip32(n),
                                expected: clip32((off + 2 + sb) as nat),
                            },
                        )
                    } else {
                        Ok(
                            RequestFileTransferRsp {
                                mode_of_operation: m,
                                max_block_size_bytes: mbs,
                                max_block_size: mval as usize,
                                compression_method: comp,
                                encryption_method: encr,
                                file_dir_data_size_bytes: sb as u16,
                                file_dir_size_uncompressed: unc as usize,
                                file_size_compressed: 0,
                            },
                        )
                    }
                } else {
                    if bytes.len() < off + 2 + 2 * sb {
                        Err(DecErr::Io)
                    } else {
                        let cmp = be_val(
                            bytes.subrange(off as int + 2 + sb as int, off as int + 2 + 2 * sb as int),
                        );
                        if n != off + 2 + 2 * sb {
                            Err(
                                DecErr::TooShort {
                                    value: clip32(n),
                                    expected: clip32((off + 2 + 2 * sb) as nat),
                                },
                            )
                        } else {
                            Ok(
                                RequestFileTransferRsp {
                                    mode_of_operation: m,
                                    max_block_size_bytes: mbs,
                                    max_block_size: mval as usize,
                                    compression_method: comp,
                                    encryption_method: encr,
                                    file_dir_data_size_bytes: sb as u16,
                                    file_dir_size_uncompressed: unc as usize,
                                    file_size_compressed: cmp as usize,
                                },
                            )
                        }
                    }
                }
            }
        }
    } else {
        if n != off {
            Err(DecErr::TooShort { value: clip32(n), expected: clip32(off) })
        } else {
            Ok(
                RequestFileTransferRsp {
                    mode_of_operation: m,
                    max_block_size_bytes: mbs,
                    max_block_size: mval as usize,
                    compression_method: comp,
                    encryption_method: encr,
                    file_dir_data_size_bytes: 0,
                    file_dir_size_uncompressed: 0,
                    file_size_compressed: 0,
                },
            )
        }
    }
}

/// The tail of a file-transfer request decode once the mode, path, and
/// compression byte are read: the size-descriptor byte and the two file size
/// fields, starting at `off`.
pub open spec fn spec_dec_req_sizes(
    bytes: Seq<u8>,
    n: nat,
    m: ModeOfOperation,
    path: Seq<char>,
    comp: u8,
    encr: u8,
    off: nat,
) -> Result<SpecRequestFileTransferReq, DecErr> {
    if bytes.len() < off + 1 {
        Err(DecErr::Io)
    } else {
        let fsb = bytes[off as int];
        if bytes.len() < off + 1 + fsb {
            Err(DecErr::Io)
        } else if !spec_width_ok(fsb as int) {
            Err(DecErr::Unexpected { value: 0 })
        } else if bytes.len() < off + 1 + 2 * fsb {
            Err(DecErr::Io)
        } else if n != off + 1 + 2 * fsb {
            Err(DecErr::TooShort { value: clip32(n), expected: clip32((off + 1 + 2 * fsb) as nat) })
        } else {
            Ok(
                SpecRequestFileTransferReq {
                    mode_of_operation: m,
                    path_name: path,
                    compression_method: comp,
                    encryption_method: encr,
                    file_size_bytes: fsb,
                    file_size_uncompressed: be_val(
                        bytes.subrange(off as int + 1, off as int + 1 + fsb),
                    ) as usize,
                    file_size_compressed: be_val(
                        bytes.subrange(off as int + 1 + fsb, off as int + 1 + 2 * fsb),
                    ) as usize,
                },
            )
        }
    }
}

} // verus!
