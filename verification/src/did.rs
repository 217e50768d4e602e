//! Read/Write DID (Diagnostic Identifier) messages: a 16-bit identifier,
//! optionally followed by the identifier's value as trailing bytes.

use crate::bytes::be_bytes;
use crate::bytes::be_val;
use crate::bytes::lemma_be_bytes_len;
use crate::bytes::lemma_be_bytes_val;
use crate::bytes::lemma_be_val_bound;
use crate::bytes::lemma_be_val_bytes;
use crate::bytes::lemma_pow256_units;
use crate::bytes::read_be;
use crate::bytes::read_vec;
use crate::bytes::write_be;
use crate::bytes::write_bytes;
use crate::error::clip32;
use crate::error::DecErr;
use crate::error::UdsError;
use crate::payload::Payload;
use vstd::prelude::*;

verus! {

/// Read DID request
#[derive(Clone, Debug, PartialEq)]
pub struct ReadDIDReq {
    /// Diagnostic Identifier
    pub did: u16,
}

/// Read DID response
#[derive(Clone, Debug, PartialEq)]
pub struct ReadDIDRsp {
    /// Diagnostic Identifier
    pub did: u16,
    /// Diagnostic Identifier value
    pub user_data: Vec<u8>,
}

/// Write DID request
#[derive(Clone, Debug, PartialEq)]
pub struct WriteDIDReq {
    /// Diagnostic Identifier
    pub did: u16,
    /// Diagnostic Identifier value
    pub user_data: Vec<u8>,
}

/// Write DID response
#[derive(Clone, Debug, PartialEq)]
pub struct WriteDIDRsp {
    /// Diagnostic Identifier
    pub did: u16,
}

/// Mathematical model of [`ReadDIDRsp`] and [`WriteDIDReq`]: the identifier
/// with its value as a byte sequence.
#[verifier::ext_equal]
pub struct SpecDidWithData {
    /// Diagnostic Identifier
    pub did: u16,
    /// Diagnostic Identifier value
    pub user_data: Seq<u8>,
}

impl View for ReadDIDReq {
    type V = ReadDIDReq;

    open spec fn view(&self) -> ReadDIDReq {
        *self
    }
}

impl View for WriteDIDRsp {
    type V = WriteDIDRsp;

    open spec fn view(&self) -> WriteDIDRsp {
        *self
    }
}

impl View for ReadDIDRsp {
    type V = SpecDidWithData;

    open spec fn view(&self) -> SpecDidWithData {
        SpecDidWithData { did: self.did, user_data: self.user_data@ }
    }
}

impl View for WriteDIDReq {
    type V = SpecDidWithData;

    open spec fn view(&self) -> SpecDidWithData {
        SpecDidWithData { did: self.did, user_data: self.user_data@ }
    }
}

impl Default for ReadDIDReq {
    fn default() -> (r: Self)
        ensures
            r@ == (ReadDIDReq { did: 0 }),
    {
        ReadDIDReq { did: 0 }
    }
}

impl Default for WriteDIDRsp {
    fn default() -> (r: Self)
        ensures
            r@ == (WriteDIDRsp { did: 0 }),
    {
        WriteDIDRsp { did: 0 }
    }
}

impl Default for ReadDIDRsp {
    fn default() -> (r: Self)
        ensures
            r@ == (SpecDidWithData { did: 0, user_data: Seq::<u8>::empty() }),
    {
        ReadDIDRsp { did: 0, user_data: Vec::new() }
    }
}

impl Default for WriteDIDReq {
    fn default() -> (r: Self)
        ensures
            r@ == (SpecDidWithData { did: 0, user_data: Seq::<u8>::empty() }),
    {
        WriteDIDReq { did: 0, user_data: Vec::new() }
    }
}

/// The outcome of decoding a bare 16-bit identifier whose payload length must
/// be exactly 2.
pub open spec fn spec_dec_did_only(bytes: Seq<u8>, n: nat) -> Result<u16, DecErr> {
    if n != 2 {
        Err(DecErr::TooShort { value: clip32(n), expected: 2 })
    } else if bytes.len() < 2 {
        Err(DecErr::Io)
    } else {
        Ok(be_val(bytes.subrange(0, 2)) as u16)
    }
}

/// The outcome of decoding an identifier followed by `n - 2` trailing bytes.
pub open spec fn spec_dec_did_with_data(bytes: Seq<u8>, n: nat) -> Result<SpecDidWithData, DecErr> {
    if n < 2 {
        Err(DecErr::TooShort { value: clip32(n), expected: 2 })
    } else if bytes.len() < n {
        Err(DecErr::Io)
    } else {
        Ok(
            SpecDidWithData {
                did: be_val(bytes.subrange(0, 2)) as u16,
                user_data: bytes.subrange(2, n as int),
            },
        )
    }
}

/// Fidelity and round trip of the bare-identifier layout, shared by
/// [`ReadDIDReq`] and [`WriteDIDRsp`].
pub proof fn lemma_did_only_fidelity(bytes: Seq<u8>, n: nat)
    requires
        spec_dec_did_only(bytes, n) is Ok,
    ensures
        n == 2 && n <= bytes.len(),
        be_bytes(spec_dec_did_only(bytes, n)->Ok_0 as nat, 2) == bytes.take(n as int),
{
    let s = bytes.subrange(0, 2);
    lemma_be_val_bound(s);
    lemma_pow256_units();
    lemma_be_val_bytes(s);
    assert(bytes.take(2) =~= s);
}

/// Round trip of the bare-identifier layout.
pub proof fn lemma_did_only_round_trip(did: u16)
    ensures
        be_bytes(did as nat, 2).len() == 2,
        spec_dec_did_only(be_bytes(did as nat, 2), 2) == Ok::<u16, DecErr>(did),
{
    lemma_be_bytes_len(did as nat, 2);
    lemma_be_bytes_val(did as nat, 2);
    lemma_pow256_units();
    assert(be_bytes(did as nat, 2).subrange(0, 2) =~= be_bytes(did as nat, 2));
}

/// Reads the two identifier bytes; shared by all four codecs.
fn read_did_field(data: &[u8], pos: &mut usize) -> (did: u16)
    requires
        *old(pos) + 2 <= data@.len(),
    ensures
        did == be_val(data@.subrange(*old(pos) as int, *old(pos) + 2)) as u16,
        be_val(data@.subrange(*old(pos) as int, *old(pos) + 2)) < 0x1_0000,
        *final(pos) == *old(pos) + 2,
{
    let v = read_be(data, pos, 2);
    proof {
        lemma_be_val_bound(data@.subrange(*old(pos) as int, *old(pos) + 2));
        lemma_pow256_units();
    }
    v as u16
}

impl Payload for ReadDIDReq {
    open spec fn inv(v: ReadDIDReq) -> bool {
        true
    }

    open spec fn enc(v: ReadDIDReq) -> Seq<u8> {
        be_bytes(v.did as nat, 2)
    }

    open spec fn enc_ok(v: ReadDIDReq) -> bool {
        true
    }

    open spec fn dec(bytes: Seq<u8>, n: nat) -> Result<ReadDIDReq, DecErr> {
        match spec_dec_did_only(bytes, n) {
            Ok(did) => Ok(ReadDIDReq { did }),
            Err(e) => Err(e),
        }
    }

    open spec fn min_len() -> nat {
        2
    }

    proof fn lemma_inv_enc_ok(v: ReadDIDReq) {
    }

    proof fn lemma_dec_fidelity(bytes: Seq<u8>, n: nat) {
        lemma_did_only_fidelity(bytes, n);
    }

    proof fn lemma_round_trip(v: ReadDIDReq) {
        lemma_did_only_round_trip(v.did);
    }

    fn length(&self) -> (n: usize)
        ensures
            n == Self::enc(self@).len(),
    {
        proof {
            lemma_be_bytes_len(self.did as nat, 2);
        }
        2
    }

    fn read_replace(&mut self, data: &[u8], pos: &mut usize, payload_length: usize) -> (r: Result<
        (),
        UdsError,
    >) {
        if payload_length != 2 {
            return Err(crate::error::too_short(payload_length, 2));
        }
        if data.len() - *pos < 2 {
            return Err(UdsError::Io);
        }
        let ghost start = *pos as int;
        let did = read_did_field(data, pos);
        self.did = did;
        proof {
            assert(data@.skip(start).subrange(0, 2) =~= data@.subrange(start, start + 2));
        }
        Ok(())
    }

    fn read(data: &[u8], pos: &mut usize, payload_length: usize) -> (r: Result<Self, UdsError>) {
        let mut me = ReadDIDReq { did: 0 };
        match me.read_replace(data, pos, payload_length) {
            Ok(()) => Ok(me),
            Err(e) => Err(e),
        }
    }

    fn write(&self, out: &mut Vec<u8>) -> (r: Result<(), UdsError>) {
        write_be(out, self.did as u64, 2);
        Ok(())
    }
}

impl Payload for WriteDIDRsp {
    open spec fn inv(v: WriteDIDRsp) -> bool {
        true
    }

    open spec fn enc(v: WriteDIDRsp) -> Seq<u8> {
        be_bytes(v.did as nat, 2)
    }

    open spec fn enc_ok(v: WriteDIDRsp) -> bool {
        true
    }

    open spec fn dec(bytes: Seq<u8>, n: nat) -> Result<WriteDIDRsp, DecErr> {
        match spec_dec_did_only(bytes, n) {
            Ok(did) => Ok(WriteDIDRsp { did }),
            Err(e) => Err(e),
        }
    }

    open spec fn min_len() -> nat {
        2
    }

    proof fn lemma_inv_enc_ok(v: WriteDIDRsp) {
    }

    proof fn lemma_dec_fidelity(bytes: Seq<u8>, n: nat) {
        lemma_did_only_fidelity(bytes, n);
    }

    proof fn lemma_round_trip(v: WriteDIDRsp) {
        lemma_did_only_round_trip(v.did);
    }

    fn length(&self) -> (n: usize)
        ensures
            n == Self::enc(self@).len(),
    {
        proof {
            lemma_be_bytes_len(self.did as nat, 2);
        }
        2
    }

    fn read_replace(&mut self, data: &[u8], pos: &mut usize, payload_length: usize) -> (r: Result<
        (),
        UdsError,
    >) {
        if payload_length != 2 {
            return Err(crate::error::too_short(payload_length, 2));
        }
        if data.len() - *pos < 2 {
            return Err(UdsError::Io);
        }
        let ghost start = *pos as int;
        let did = read_did_field(data, pos);
        self.did = did;
        proof {
            assert(data@.skip(start).subrange(0, 2) =~= data@.subrange(start, start + 2));
        }
        Ok(())
    }

    fn read(data: &[u8], pos: &mut usize, payload_length: usize) -> (r: Result<Self, UdsError>) {
        let mut me = WriteDIDRsp { did: 0 };
        match me.read_replace(data, pos, payload_length) {
            Ok(()) => Ok(me),
            Err(e) => Err(e),
        }
    }

    fn write(&self, out: &mut Vec<u8>) -> (r: Result<(), UdsError>) {
        write_be(out, self.did as u64, 2);
        Ok(())
    }
}

/// Encoding shared by [`ReadDIDRsp`] and [`WriteDIDReq`].
pub open spec fn spec_enc_did_with_data(v: SpecDidWithData) -> Seq<u8> {
    be_bytes(v.did as nat, 2) + v.user_data
}

/// Fidelity of the identifier-with-data layout.
pub proof fn lemma_did_with_data_fidelity(bytes: Seq<u8>, n: nat)
    requires
        spec_dec_did_with_data(bytes, n) is Ok,
    ensures
        2 <= n && n <= bytes.len(),
        spec_enc_did_with_data(spec_dec_did_with_data(bytes, n)->Ok_0) == bytes.take(n as int),
{
    let s = bytes.subrange(0, 2);
    lemma_be_val_bound(s);
    lemma_pow256_units();
    lemma_be_val_bytes(s);
    assert(s + bytes.subrange(2, n as int) =~= bytes.take(n as int));
}

/// Round trip of the identifier-with-data layout.
pub proof fn lemma_did_with_data_round_trip(v: SpecDidWithData)
    ensures
        spec_enc_did_with_data(v).len() == 2 + v.user_data.len(),
        spec_dec_did_with_data(spec_enc_did_with_data(v), spec_enc_did_with_data(v).len()) == Ok::<
            SpecDidWithData,
            DecErr,
        >(v),
{
    let e = spec_enc_did_with_data(v);
    lemma_be_bytes_len(v.did as nat, 2);
    lemma_be_bytes_val(v.did as nat, 2);
    lemma_pow256_units();
    assert(e.subrange(0, 2) =~= be_bytes(v.did as nat, 2));
    assert(e.subrange(2, e.len() as int) =~= v.user_data);
    assert(spec_dec_did_with_data(e, e.len())->Ok_0 =~= v);
}

impl Payload for ReadDIDRsp {
    open spec fn inv(v: SpecDidWithData) -> bool {
        true
    }

    open spec fn enc(v: SpecDidWithData) -> Seq<u8> {
        spec_enc_did_with_data(v)
    }

    open spec fn enc_ok(v: SpecDidWithData) -> bool {
        true
    }

    open spec fn dec(bytes: Seq<u8>, n: nat) -> Result<SpecDidWithData, DecErr> {
        spec_dec_did_with_data(bytes, n)
    }

    open spec fn min_len() -> nat {
        2
    }

    proof fn lemma_inv_enc_ok(v: SpecDidWithData) {
    }

    proof fn lemma_dec_fidelity(bytes: Seq<u8>, n: nat) {
        lemma_did_with_data_fidelity(bytes, n);
    }

    proof fn lemma_round_trip(v: SpecDidWithData) {
        lemma_did_with_data_round_trip(v);
    }

    fn length(&self) -> (n: usize)
        ensures
            n == Self::enc(self@).len(),
    {
        proof {
            lemma_be_bytes_len(self.did as nat, 2);
        }
        2 + self.user_data.len()
    }

    fn read_replace(&mut self, data: &[u8], pos: &mut usize, payload_length: usize) -> (r: Result<
        (),
        UdsError,
    >) {
        if payload_length < 2 {
            return Err(crate::error::too_short(payload_length, 2));
        }
        if data.len() - *pos < payload_length {
            return Err(UdsError::Io);
        }
        let ghost start = *pos as int;
        let did = read_did_field(data, pos);
        self.did = did;
        self.user_data = read_vec(data, pos, payload_length - 2);
        proof {
            assert(data@.skip(start).subrange(0, 2) =~= data@.subrange(start, start + 2));
            assert(data@.skip(start).subrange(2, payload_length as int) =~= data@.subrange(
                start + 2,
                start + payload_length,
            ));
        }
        Ok(())
    }

    fn read(data: &[u8], pos: &mut usize, payload_length: usize) -> (r: Result<Self, UdsError>) {
        let mut me = ReadDIDRsp { did: 0, user_data: Vec::new() };
        match me.read_replace(data, pos, payload_length) {
            Ok(()) => Ok(me),
            Err(e) => Err(e),
        }
    }

    fn write(&self, out: &mut Vec<u8>) -> (r: Result<(), UdsError>) {
        write_be(out, self.did as u64, 2);
        write_bytes(out, self.user_data.as_slice());
        Ok(())
    }
}

impl Payload for WriteDIDReq {
    open spec fn inv(v: SpecDidWithData) -> bool {
        true
    }

    open spec fn enc(v: SpecDidWithData) -> Seq<u8> {
        spec_enc_did_with_data(v)
    }

    open spec fn enc_ok(v: SpecDidWithData) -> bool {
        true
    }

    open spec fn dec(bytes: Seq<u8>, n: nat) -> Result<SpecDidWithData, DecErr> {
        spec_dec_did_with_data(bytes, n)
    }

    open spec fn min_len() -> nat {
        2
    }

    proof fn lemma_inv_enc_ok(v: SpecDidWithData) {
    }

    proof fn lemma_dec_fidelity(bytes: Seq<u8>, n: nat) {
        lemma_did_with_data_fidelity(bytes, n);
    }

    proof fn lemma_round_trip(v: SpecDidWithData) {
        lemma_did_with_data_round_trip(v);
    }

    fn length(&self) -> (n: usize)
        ensures
            n == Self::enc(self@).len(),
    {
        proof {
            lemma_be_bytes_len(self.did as nat, 2);
        }
        2 + self.user_data.len()
    }

    fn read_replace(&mut self, data: &[u8], pos: &mut usize, payload_length: usize) -> (r: Result<
        (),
        UdsError,
    >) {
        if payload_length < 2 {
            return Err(crate::error::too_short(payload_length, 2));
        }
        if data.len() - *pos < payload_length {
            return Err(UdsError::Io);
        }
        let ghost start = *pos as int;
        let did = read_did_field(data, pos);
        self.did = did;
        self.user_data = read_vec(data, pos, payload_length - 2);
        proof {
            assert(data@.skip(start).subrange(0, 2) =~= data@.subrange(start, start + 2));
            assert(data@.skip(start).subrange(2, payload_length as int) =~= data@.subrange(
                start + 2,
                start + payload_length,
            ));
        }
        Ok(())
    }

    fn read(data: &[u8], pos: &mut usize, payload_length: usize) -> (r: Result<Self, UdsError>) {
        let mut me = WriteDIDReq { did: 0, user_data: Vec::new() };
        match me.read_replace(data, pos, payload_length) {
            Ok(()) => Ok(me),
            Err(e) => Err(e),
        }
    }

    fn write(&self, out: &mut Vec<u8>) -> (r: Result<(), UdsError>) {
        write_be(out, self.did as u64, 2);
        write_bytes(out, self.user_data.as_slice());
        Ok(())
    }
}

} // verus!
