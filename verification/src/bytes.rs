//! Little-endian integer encoding, as the Steam wire format uses it.
//!
//! The encodings are stated as spec functions here and produced and read by
//! `byteorder`'s `LittleEndian` routines.

use vstd::prelude::*;
use byteorder::{ByteOrder, LittleEndian};

verus! {

/// `256` raised to the power `n`.
pub open spec fn pow256(n: nat) -> nat
    decreases n,
{
    if n == 0 { 1 } else { 256 * pow256((n - 1) as nat) }
}

/// The value of a little-endian byte string.
pub open spec fn le_value(b: Seq<u8>) -> nat
    decreases b.len(),
{
    if b.len() == 0 { 0 } else { b[0] as nat + 256 * le_value(b.drop_first()) }
}

/// The `n` low bytes of `v`, least significant first.
pub open spec fn le_bytes(v: nat, n: nat) -> Seq<u8>
    decreases n,
{
    if n == 0 { Seq::empty() } else { seq![(v % 256) as u8] + le_bytes(v / 256, (n - 1) as nat) }
}

/// The two's-complement bit pattern of a 32-bit signed value.
pub open spec fn i32_bits(v: i32) -> nat {
    if v >= 0 { v as nat } else { (v + 0x1_0000_0000) as nat }
}

/// The 32-bit signed value of a bit pattern below `2^32`.
pub open spec fn i32_from_bits(x: nat) -> i32 {
    if x < 0x8000_0000 { x as i32 } else { (x - 0x1_0000_0000) as i32 }
}

/// The powers of 256 for the field widths in use.
pub proof fn lemma_pow256_values()
    ensures
        pow256(1) == 0x100,
        pow256(2) == 0x1_0000,
        pow256(4) == 0x1_0000_0000,
        pow256(8) == 0x1_0000_0000_0000_0000,
{
    reveal_with_fuel(pow256, 9);
}

/// `le_bytes` has the requested length.
pub proof fn lemma_le_bytes_len(v: nat, n: nat)
    ensures
        le_bytes(v, n).len() == n,
    decreases n,
{
    if n > 0 {
        lemma_le_bytes_len(v / 256, (n - 1) as nat);
    }
}

/// Reading back `n` bytes written from a value below `256^n` gives the value.
pub proof fn lemma_le_value_of_bytes(v: nat, n: nat)
    requires
        v < pow256(n),
    ensures
        le_value(le_bytes(v, n)) == v,
    decreases n,
{
    lemma_le_bytes_len(v, n);
    if n > 0 {
        let p = pow256((n - 1) as nat);
        assert(v / 256 < p) by (nonlinear_arith)
            requires
                v < 256 * p,
        ;
        lemma_le_value_of_bytes(v / 256, (n - 1) as nat);
        let b = le_bytes(v, n);
        assert(b.drop_first() =~= le_bytes(v / 256, (n - 1) as nat));
        assert(v == v % 256 + 256 * (v / 256)) by (nonlinear_arith);
    }
}

/// The value of a byte string is below `256^len`.
pub proof fn lemma_le_value_bound(b: Seq<u8>)
    ensures
        le_value(b) < pow256(b.len()),
    decreases b.len(),
{
    if b.len() > 0 {
        lemma_le_value_bound(b.drop_first());
        let x = le_value(b.drop_first());
        let p = pow256((b.len() - 1) as nat);
        let b0 = b[0] as nat;
        assert(b0 + 256 * x < 256 * p) by (nonlinear_arith)
            requires
                x < p,
                b0 < 256,
        ;
    }
}

/// Writing back the value of a byte string gives the byte string.
pub proof fn lemma_le_bytes_of_value(b: Seq<u8>)
    ensures
        le_bytes(le_value(b), b.len()) == b,
    decreases b.len(),
{
    if b.len() > 0 {
        let rest = b.drop_first();
        lemma_le_bytes_of_value(rest);
        let x = le_value(rest);
        let b0 = b[0] as nat;
        let v = le_value(b);
        assert(v % 256 == b0 && v / 256 == x) by (nonlinear_arith)
            requires
                v == b0 + 256 * x,
                b0 < 256,
        ;
        assert(le_bytes(v, b.len()) =~= seq![(v % 256) as u8] + le_bytes(x, rest.len()));
        assert(le_bytes(v, b.len()) =~= b);
    }
}

/// The bit pattern of a signed value gives the value back.
pub proof fn lemma_i32_bits_roundtrip(v: i32)
    ensures
        i32_bits(v) < 0x1_0000_0000,
        i32_from_bits(i32_bits(v)) == v,
{
}

/// The bit pattern of the signed value of `x` is `x`.
pub proof fn lemma_i32_from_bits_roundtrip(x: nat)
    requires
        x < 0x1_0000_0000,
    ensures
        i32_bits(i32_from_bits(x)) == x,
{
}

/// Reads the little-endian `u16` at `pos` (`LittleEndian::read_u16`).
#[verifier::external_body]
pub(crate) fn read_u16_le(data: &[u8], pos: usize) -> (v: u16)
    requires
        pos + 2 <= data@.len(),
    ensures
        v as nat == le_value(data@.subrange(pos as int, pos + 2)),
{
    LittleEndian::read_u16(&data[pos..])
}

/// Reads the little-endian `u32` at `pos` (`LittleEndian::read_u32`).
#[verifier::external_body]
pub(crate) fn read_u32_le(data: &[u8], pos: usize) -> (v: u32)
    requires
        pos + 4 <= data@.len(),
    ensures
        v as nat == le_value(data@.subrange(pos as int, pos + 4)),
{
    LittleEndian::read_u32(&data[pos..])
}

/// Reads the little-endian `u64` at `pos` (`LittleEndian::read_u64`).
#[verifier::external_body]
pub(crate) fn read_u64_le(data: &[u8], pos: usize) -> (v: u64)
    requires
        pos + 8 <= data@.len(),
    ensures
        v as nat == le_value(data@.subrange(pos as int, pos + 8)),
{
    LittleEndian::read_u64(&data[pos..])
}

/// Reads the little-endian two's-complement `i32` at `pos`
/// (`LittleEndian::read_i32`).
#[verifier::external_body]
pub(crate) fn read_i32_le(data: &[u8], pos: usize) -> (v: i32)
    requires
        pos + 4 <= data@.len(),
    ensures
        v == i32_from_bits(le_value(data@.subrange(pos as int, pos + 4))),
{
    LittleEndian::read_i32(&data[pos..])
}

/// The two little-endian bytes of `n` (`LittleEndian::write_u16`).
#[verifier::external_body]
pub(crate) fn u16_le_bytes(n: u16) -> (b: Vec<u8>)
    ensures
        b@ == le_bytes(n as nat, 2),
{
    let mut b = vec![0u8; 2];
    LittleEndian::write_u16(&mut b, n);
    b
}

/// The four little-endian bytes of `n` (`LittleEndian::write_u32`).
#[verifier::external_body]
pub(crate) fn u32_le_bytes(n: u32) -> (b: Vec<u8>)
    ensures
        b@ == le_bytes(n as nat, 4),
{
    let mut b = vec![0u8; 4];
    LittleEndian::write_u32(&mut b, n);
    b
}

/// The eight little-endian bytes of `n` (`LittleEndian::write_u64`).
#[verifier::external_body]
pub(crate) fn u64_le_bytes(n: u64) -> (b: Vec<u8>)
    ensures
        b@ == le_bytes(n as nat, 8),
{
    let mut b = vec![0u8; 8];
    LittleEndian::write_u64(&mut b, n);
    b
}

/// The four little-endian two's-complement bytes of `n`
/// (`LittleEndian::write_i32`).
#[verifier::external_body]
pub(crate) fn i32_le_bytes(n: i32) -> (b: Vec<u8>)
    ensures
        b@ == le_bytes(i32_bits(n), 4),
{
    let mut b = vec![0u8; 4];
    LittleEndian::write_i32(&mut b, n);
    b
}

/// Appends `tail` to `buf`.
pub fn append_bytes(buf: &mut Vec<u8>, tail: &[u8])
    ensures
        final(buf)@ == old(buf)@ + tail@,
{
    let mut i: usize = 0;
    while i < tail.len()
        invariant
            i <= tail@.len(),
            buf@ == old(buf)@ + tail@.subrange(0, i as int),
        decreases tail@.len() - i,
    {
        buf.push(tail[i]);
        i = i + 1;
        assert(buf@ =~= old(buf)@ + tail@.subrange(0, i as int));
    }
    assert(tail@.subrange(0, i as int) =~= tail@);
}

} // verus!
