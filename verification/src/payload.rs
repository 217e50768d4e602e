//! The contract every per-message payload codec meets.

use crate::error::err_kind;
use crate::error::DecErr;
use crate::error::UdsError;
use vstd::prelude::*;

verus! {

/// One payload codec per message type: length computation, in-place decoding
/// from a byte cursor, and encoding into a byte vector.
///
/// Every codec is specified against three mathematical functions over the
/// type's view: `enc` (the exact wire bytes), `dec` (the exact outcome of
/// decoding `n` declared bytes from the available input), and `inv` (the
/// values decoding can produce).  The proof obligations tie them together:
/// whatever decodes re-encodes to exactly the bytes consumed, and whatever a
/// valid value encodes to decodes back to that value.
pub trait Payload: View + Sized {
    /// Valid values: exactly those whose encoding decodes back to themselves,
    /// and the only values decoding can produce.
    spec fn inv(v: Self::V) -> bool;

    /// The wire bytes of a value (the payload only, without the SID byte).
    spec fn enc(v: Self::V) -> Seq<u8>;

    /// Whether encoding the value succeeds.
    spec fn enc_ok(v: Self::V) -> bool;

    /// The outcome of decoding a declared payload of `n` bytes when `bytes`
    /// are available.
    spec fn dec(bytes: Seq<u8>, n: nat) -> Result<Self::V, DecErr>;

    /// No declared payload length below this can decode successfully.
    spec fn min_len() -> nat;

    /// Every valid value can be encoded.
    proof fn lemma_inv_enc_ok(v: Self::V)
        requires
            Self::inv(v),
        ensures
            Self::enc_ok(v),
    ;

    /// Wire-level round-trip fidelity: a decoded value is valid, consumed
    /// exactly the `n` declared bytes, and re-encodes to exactly those bytes.
    proof fn lemma_dec_fidelity(bytes: Seq<u8>, n: nat)
        requires
            Self::dec(bytes, n) is Ok,
        ensures
            n <= bytes.len(),
            n >= Self::min_len(),
            Self::inv(Self::dec(bytes, n)->Ok_0),
            Self::enc(Self::dec(bytes, n)->Ok_0) == bytes.take(n as int),
    ;

    /// Value-level round trip: decoding the encoding of a valid value gives
    /// the value back.
    proof fn lemma_round_trip(v: Self::V)
        requires
            Self::inv(v),
        ensures
            Self::dec(Self::enc(v), Self::enc(v).len()) == Ok::<Self::V, DecErr>(v),
    ;

    /// The number of bytes `write` emits.
    fn length(&self) -> (n: usize)
        requires
            Self::inv(self@),
            Self::enc(self@).len() <= usize::MAX,
        ensures
            n == Self::enc(self@).len(),
    ;

    /// Decodes a declared payload of `payload_length` bytes from the cursor,
    /// replacing `self`; consumes exactly `payload_length` bytes on success.
    fn read_replace(&mut self, data: &[u8], pos: &mut usize, payload_length: usize) -> (r: Result<
        (),
        UdsError,
    >)
        requires
            *old(pos) <= data@.len(),
        ensures
            *old(pos) <= *final(pos),
            *final(pos) <= data@.len(),
            match r {
                Ok(()) => {
                    &&& Self::dec(data@.skip(*old(pos) as int), payload_length as nat)
                        == Ok::<Self::V, DecErr>(final(self)@)
                    &&& *final(pos) == *old(pos) + payload_length
                },
                Err(e) => Self::dec(data@.skip(*old(pos) as int), payload_length as nat)
                    == Err::<Self::V, DecErr>(err_kind(e)),
            },
    ;

    /// Decodes a declared payload of `payload_length` bytes into a fresh
    /// value.
    fn read(data: &[u8], pos: &mut usize, payload_length: usize) -> (r: Result<Self, UdsError>)
        requires
            *old(pos) <= data@.len(),
        ensures
            *old(pos) <= *final(pos),
            *final(pos) <= data@.len(),
            match r {
                Ok(p) => {
                    &&& Self::dec(data@.skip(*old(pos) as int), payload_length as nat)
                        == Ok::<Self::V, DecErr>(p@)
                    &&& *final(pos) == *old(pos) + payload_length
                },
                Err(e) => Self::dec(data@.skip(*old(pos) as int), payload_length as nat)
                    == Err::<Self::V, DecErr>(err_kind(e)),
            },
    ;

    /// Appends the encoding of `self`; on failure the output is unchanged.
    fn write(&self, out: &mut Vec<u8>) -> (r: Result<(), UdsError>)
        ensures
            match r {
                Ok(()) => Self::enc_ok(self@) && final(out)@ == old(out)@ + Self::enc(self@),
                Err(e) => !Self::enc_ok(self@) && final(out)@ == old(out)@ && err_kind(e)
                    == DecErr::Encoding,
            },
    ;
}

/// Decodes a payload into a default-initialized value and returns it.
pub fn default_read<P: Payload + Default>(
    data: &[u8],
    pos: &mut usize,
    payload_length: usize,
) -> (r: Result<P, UdsError>)
    requires
        *old(pos) <= data@.len(),
    ensures
        *old(pos) <= *final(pos),
        *final(pos) <= data@.len(),
        match r {
            Ok(p) => {
                &&& P::dec(data@.skip(*old(pos) as int), payload_length as nat) == Ok::<
                    P::V,
                    DecErr,
                >(p@)
                &&& *final(pos) == *old(pos) + payload_length
            },
            Err(e) => P::dec(data@.skip(*old(pos) as int), payload_length as nat) == Err::<
                P::V,
                DecErr,
            >(err_kind(e)),
        },
{
    let mut me = P::default();
    match me.read_replace(data, pos, payload_length) {
        Ok(()) => Ok(me),
        Err(e) => Err(e),
    }
}

} // verus!
