//! The raw fallback message: an undifferentiated byte sequence whose first
//! byte is the original SID, kept verbatim for SIDs this crate does not map.

use crate::bytes::read_vec;
use crate::bytes::write_bytes;
use crate::error::DecErr;
use crate::error::UdsError;
use crate::payload::Payload;
use vstd::prelude::*;

verus! {

/// Unknown or unhandled UDS message
#[derive(Clone, Debug, PartialEq)]
pub struct RawUds {
    /// Byte array of the message
    pub data: Vec<u8>,
}

/// Mathematical model of [`RawUds`].
#[verifier::ext_equal]
pub struct SpecRawUds {
    /// Byte sequence of the message
    pub data: Seq<u8>,
}

impl View for RawUds {
    type V = SpecRawUds;

    open spec fn view(&self) -> SpecRawUds {
        SpecRawUds { data: self.data@ }
    }
}

impl Default for RawUds {
    fn default() -> (r: Self)
        ensures
            r@ == (SpecRawUds { data: Seq::<u8>::empty() }),
    {
        RawUds { data: Vec::new() }
    }
}

impl Payload for RawUds {
    open spec fn inv(v: SpecRawUds) -> bool {
        true
    }

    open spec fn enc(v: SpecRawUds) -> Seq<u8> {
        v.data
    }

    open spec fn enc_ok(v: SpecRawUds) -> bool {
        true
    }

    open spec fn dec(bytes: Seq<u8>, n: nat) -> Result<SpecRawUds, DecErr> {
        if bytes.len() < n {
            Err(DecErr::Io)
        } else {
            Ok(SpecRawUds { data: bytes.take(n as int) })
        }
    }

    open spec fn min_len() -> nat {
        0
    }

    proof fn lemma_inv_enc_ok(v: SpecRawUds) {
    }

    proof fn lemma_dec_fidelity(bytes: Seq<u8>, n: nat) {
    }

    proof fn lemma_round_trip(v: SpecRawUds) {
        assert(v.data.take(v.data.len() as int) =~= v.data);
        assert(Self::dec(Self::enc(v), Self::enc(v).len())->Ok_0 =~= v);
    }

    fn length(&self) -> (n: usize)
        ensures
            n == Self::enc(self@).len(),
    {
        self.data.len()
    }

    fn read_replace(&mut self, data: &[u8], pos: &mut usize, payload_length: usize) -> (r: Result<
        (),
        UdsError,
    >) {
        if data.len() - *pos < payload_length {
            return Err(UdsError::Io);
        }
        let ghost start = *pos as int;
        self.data = read_vec(data, pos, payload_length);
        proof {
            assert(data@.skip(start).take(payload_length as int) =~= data@.subrange(
                start,
                start + payload_length,
            ));
        }
        Ok(())
    }

    fn read(data: &[u8], pos: &mut usize, payload_length: usize) -> (r: Result<Self, UdsError>) {
        let mut me = RawUds { data: Vec::new() };
        match me.read_replace(data, pos, payload_length) {
            Ok(()) => Ok(me),
            Err(e) => Err(e),
        }
    }

    fn write(&self, out: &mut Vec<u8>) -> (r: Result<(), UdsError>) {
        write_bytes(out, self.data.as_slice());
        Ok(())
    }
}

} // verus!
