//! Big-endian integers, nibble-packed control bytes, and the cursor
//! primitives every payload codec reads and writes through.

use vstd::prelude::*;
use vstd::slice::slice_to_vec;

verus! {

/// 256 to the power `w`: the number of values a big-endian field of `w`
/// bytes can hold.
pub open spec fn pow256(w: nat) -> nat
    decreases w,
{
    if w == 0 {
        1
    } else {
        256 * pow256((w - 1) as nat)
    }
}

/// The value of a big-endian byte sequence.
pub open spec fn be_val(s: Seq<u8>) -> nat
    decreases s.len(),
{
    if s.len() == 0 {
        0
    } else {
        (be_val(s.drop_last()) * 256 + s.last()) as nat
    }
}

/// The `w`-byte big-endian encoding of `v % pow256(w)`.
pub open spec fn be_bytes(v: nat, w: nat) -> Seq<u8>
    decreases w,
{
    if w == 0 {
        seq![]
    } else {
        be_bytes(v / 256, (w - 1) as nat).push((v % 256) as u8)
    }
}

pub proof fn lemma_be_bytes_len(v: nat, w: nat)
    ensures
        be_bytes(v, w).len() == w,
    decreases w,
{
    if w > 0 {
        lemma_be_bytes_len(v / 256, (w - 1) as nat);
    }
}

pub proof fn lemma_be_val_bound(s: Seq<u8>)
    ensures
        be_val(s) < pow256(s.len()),
    decreases s.len(),
{
    if s.len() > 0 {
        lemma_be_val_bound(s.drop_last());
    }
}

/// Decoding the encoding of `v` gives `v` back, modulo the field's capacity.
pub proof fn lemma_be_bytes_val(v: nat, w: nat)
    ensures
        be_val(be_bytes(v, w)) == v % pow256(w),
    decreases w,
{
    if w == 0 {
        assert(v % 1 == 0);
    } else {
        let w1 = (w - 1) as nat;
        lemma_be_bytes_val(v / 256, w1);
        let s = be_bytes(v / 256, w1);
        assert(be_bytes(v, w).drop_last() =~= s);
        assert(be_val(be_bytes(v, w)) == ((v / 256) % pow256(w1)) * 256 + v % 256);
        assert(pow256(w1) > 0) by {
            lemma_pow256_pos(w1);
        }
        vstd::arithmetic::div_mod::lemma_mod_breakdown(v as int, 256, pow256(w1) as int);
        assert(((v / 256) % pow256(w1)) * 256 + v % 256 == v % (256 * pow256(w1)));
    }
}

/// The field capacities of the four supported widths.
pub proof fn lemma_pow256_units()
    ensures
        pow256(0) == 1,
        pow256(1) == 256,
        pow256(2) == 0x1_0000,
        pow256(3) == 0x100_0000,
        pow256(4) == 0x1_0000_0000,
{
    assert(pow256(0) == 1);
    assert(pow256(1) == 256);
    assert(pow256(2) == 0x1_0000);
    assert(pow256(3) == 0x100_0000);
    assert(pow256(4) == 0x1_0000_0000);
}

pub proof fn lemma_pow256_pos(w: nat)
    ensures
        pow256(w) >= 1,
    decreases w,
{
    if w > 0 {
        lemma_pow256_pos((w - 1) as nat);
    }
}

/// Encoding the value of a byte sequence gives the sequence back.
pub proof fn lemma_be_val_bytes(s: Seq<u8>)
    ensures
        be_bytes(be_val(s), s.len()) == s,
    decreases s.len(),
{
    if s.len() == 0 {
        assert(be_bytes(be_val(s), 0) =~= s);
    } else {
        let d = s.drop_last();
        let v = be_val(s);
        assert(v == be_val(d) * 256 + s.last());
        assert(v / 256 == be_val(d) && v % 256 == s.last()) by (nonlinear_arith)
            requires v == be_val(d) * 256 + s.last(), s.last() < 256,
        ;
        lemma_be_val_bytes(d);
        assert(be_bytes(v, s.len()) =~= s);
    }
}

/// The high nibble of a control byte.
pub open spec fn nib_hi(b: u8) -> u8 {
    b / 16
}

/// The low nibble of a control byte.
pub open spec fn nib_lo(b: u8) -> u8 {
    b % 16
}

/// Two independent four-bit values packed into one byte; values wider than a
/// nibble are truncated, as the executable shift-and-mask packing truncates
/// them.
pub open spec fn nib_pack(hi: u8, lo: u8) -> u8 {
    ((hi % 16) * 16 + (lo % 16)) as u8
}

pub proof fn lemma_nib_pack(hi: u8, lo: u8)
    ensures
        nib_hi(nib_pack(hi, lo)) == hi % 16,
        nib_lo(nib_pack(hi, lo)) == lo % 16,
{
    assert(((hi % 16) * 16 + (lo % 16)) / 16 == hi % 16 && ((hi % 16) * 16 + (lo % 16)) % 16 == lo
        % 16) by (nonlinear_arith);
}

/// Reads one byte and advances the cursor.
pub fn read_u8(data: &[u8], pos: &mut usize) -> (b: u8)
    requires
        *old(pos) < data@.len(),
    ensures
        b == data@[*old(pos) as int],
        *final(pos) == *old(pos) + 1,
{
    let b = data[*pos];
    *pos = *pos + 1;
    b
}

/// Reads a big-endian unsigned integer of `width` bytes.
pub fn read_be(data: &[u8], pos: &mut usize, width: usize) -> (v: u32)
    requires
        width <= 4,
        *old(pos) + width <= data@.len(),
    ensures
        v == be_val(data@.subrange(*old(pos) as int, *old(pos) + width as int)),
        *final(pos) == *old(pos) + width,
{
    let ghost start = *pos as int;
    let mut v: u32 = 0;
    let mut i: usize = 0;
    proof {
        assert(data@.subrange(start, start) =~= Seq::<u8>::empty());
    }
    while i < width
        invariant
            i <= width,
            width <= 4,
            *pos == start + i,
            start + width <= data@.len(),
            start >= 0,
            v == be_val(data@.subrange(start, start + i as int)),
            v < pow256(i as nat),
        decreases width - i,
    {
        let b = data[*pos];
        proof {
            let s = data@.subrange(start, start + i as int);
            let s2 = data@.subrange(start, start + i + 1);
            assert(s2.drop_last() =~= s);
            assert(s2.last() == b);
            lemma_pow256_units();
        }
        v = v * 256 + (b as u32);
        *pos = *pos + 1;
        i = i + 1;
    }
    v
}

/// Appends the `width`-byte big-endian encoding of `v`, truncated to the
/// field's capacity.
pub fn write_be(out: &mut Vec<u8>, v: u64, width: usize)
    requires
        width <= 4,
    ensures
        final(out)@ == old(out)@ + be_bytes(v as nat, width as nat),
    decreases width,
{
    if width == 0 {
        proof {
            assert(out@ =~= old(out)@ + be_bytes(v as nat, 0));
        }
        return ;
    }
    write_be(out, v / 256, width - 1);
    out.push((v % 256) as u8);
    proof {
        assert(out@ =~= old(out)@ + be_bytes(v as nat, width as nat));
    }
}

/// Copies `count` bytes out of the input and advances the cursor.
pub fn read_vec(data: &[u8], pos: &mut usize, count: usize) -> (v: Vec<u8>)
    requires
        *old(pos) + count <= data@.len(),
    ensures
        v@ == data@.subrange(*old(pos) as int, *old(pos) + count as int),
        *final(pos) == *old(pos) + count,
{
    let total = data.len();
    let s: &[u8] = &data[*pos..*pos + count];
    let v = slice_to_vec(s);
    *pos = *pos + count;
    v
}

/// Appends a whole byte slice to the output.
pub fn write_bytes(out: &mut Vec<u8>, v: &[u8])
    ensures
        final(out)@ == old(out)@ + v@,
{
    let mut tmp = slice_to_vec(v);
    out.append(&mut tmp);
}

} // verus!
