//! Little-endian field access on the byte buffers that carry the grams.
//!
//! Every gram travels as a fixed-size header of little-endian integers at
//! fixed offsets. This module gives the mathematical reading of such a field
//! (`u32_at`, `u64_at`), the bytes that a write leaves behind (`splice`,
//! `u32_bytes`), and the executable readers and writers proved against them.
use vstd::arithmetic::div_mod::{lemma_fundamental_div_mod, lemma_fundamental_div_mod_converse};
use vstd::prelude::*;

verus! {

/// The unsigned integer whose little-endian bytes are `b0 b1 b2 b3`.
pub open spec fn u32_le(b0: u8, b1: u8, b2: u8, b3: u8) -> u32 {
    (b0 as int + 256 * (b1 as int) + 65536 * (b2 as int) + 16777216 * (b3 as int)) as u32
}

/// The `u32` stored little-endian at `off` in `s`.
pub open spec fn u32_at(s: Seq<u8>, off: int) -> u32 {
    u32_le(s[off], s[off + 1], s[off + 2], s[off + 3])
}

/// The `u64` stored little-endian at `off` in `s`.
pub open spec fn u64_at(s: Seq<u8>, off: int) -> u64 {
    (u32_at(s, off) as int + 4294967296 * (u32_at(s, off + 4) as int)) as u64
}

/// The four little-endian bytes of `v`.
pub open spec fn u32_bytes(v: u32) -> Seq<u8> {
    seq![
        (v % 256) as u8,
        ((v / 256) % 256) as u8,
        ((v / 65536) % 256) as u8,
        (v / 16777216) as u8,
    ]
}

/// `s` with the bytes from `off` on replaced by `t` (its length is kept).
pub open spec fn splice(s: Seq<u8>, off: int, t: Seq<u8>) -> Seq<u8> {
    Seq::new(s.len(), |i: int| if off <= i < off + t.len() { t[i - off] } else { s[i] })
}

/// The range `[off, off + width)` lies inside a buffer of length `len`.
pub open spec fn fits(len: int, off: int, width: int) -> bool {
    0 <= off && off + width <= len
}

pub proof fn lemma_u32_bytes_roundtrip(v: u32)
    ensures
        u32_le(u32_bytes(v)[0], u32_bytes(v)[1], u32_bytes(v)[2], u32_bytes(v)[3]) == v,
{
    let b0 = v % 256;
    let b1 = (v / 256) % 256;
    let b2 = (v / 65536) % 256;
    let b3 = v / 16777216;
    assert(b0 + 256 * b1 + 65536 * b2 + 16777216 * b3 == v) by (nonlinear_arith)
        requires
            b0 == v % 256,
            b1 == (v / 256) % 256,
            b2 == (v / 65536) % 256,
            b3 == v / 16777216,
    ;
}

/// Reading back four bytes gives the bytes: a `u32` field determines its bytes.
pub proof fn lemma_u32_at_bytes(s: Seq<u8>, off: int)
    requires
        fits(s.len() as int, off, 4),
    ensures
        u32_bytes(u32_at(s, off)) == s.subrange(off, off + 4),
{
    let b0 = s[off] as int;
    let b1 = s[off + 1] as int;
    let b2 = s[off + 2] as int;
    let b3 = s[off + 3] as int;
    let x = b0 + 256 * b1 + 65536 * b2 + 16777216 * b3;
    assert(0 <= b0 < 256 && 0 <= b1 < 256 && 0 <= b2 < 256 && 0 <= b3 < 256);
    assert(x % 256 == b0 && (x / 256) % 256 == b1 && (x / 65536) % 256 == b2 && x / 16777216
        == b3) by (nonlinear_arith)
        requires
            0 <= b0 < 256,
            0 <= b1 < 256,
            0 <= b2 < 256,
            0 <= b3 < 256,
            x == b0 + 256 * b1 + 65536 * b2 + 16777216 * b3,
    ;
    assert(u32_bytes(u32_at(s, off)) =~= s.subrange(off, off + 4));
}

/// Two buffers that agree on the `u32` at `off` agree on its four bytes.
pub proof fn lemma_u32_at_injective(s: Seq<u8>, t: Seq<u8>, off: int)
    requires
        fits(s.len() as int, off, 4),
        fits(t.len() as int, off, 4),
        u32_at(s, off) == u32_at(t, off),
    ensures
        s[off] == t[off],
        s[off + 1] == t[off + 1],
        s[off + 2] == t[off + 2],
        s[off + 3] == t[off + 3],
        forall|i: int| off <= i < off + 4 ==> s[i] == t[i],
{
    lemma_u32_at_bytes(s, off);
    lemma_u32_at_bytes(t, off);
    assert(s.subrange(off, off + 4)[0] == t.subrange(off, off + 4)[0]);
    assert(s.subrange(off, off + 4)[1] == t.subrange(off, off + 4)[1]);
    assert(s.subrange(off, off + 4)[2] == t.subrange(off, off + 4)[2]);
    assert(s.subrange(off, off + 4)[3] == t.subrange(off, off + 4)[3]);
}

/// Two buffers that agree on the `u64` at `off` agree on its eight bytes.
pub proof fn lemma_u64_at_injective(s: Seq<u8>, t: Seq<u8>, off: int)
    requires
        fits(s.len() as int, off, 8),
        fits(t.len() as int, off, 8),
        u64_at(s, off) == u64_at(t, off),
    ensures
        forall|i: int| off <= i < off + 8 ==> s[i] == t[i],
{
    let a0 = u32_at(s, off) as int;
    let a1 = u32_at(s, off + 4) as int;
    let c0 = u32_at(t, off) as int;
    let c1 = u32_at(t, off + 4) as int;
    assert(a0 == c0 && a1 == c1) by (nonlinear_arith)
        requires
            0 <= a0 < 4294967296,
            0 <= a1 < 4294967296,
            0 <= c0 < 4294967296,
            0 <= c1 < 4294967296,
            a0 + 4294967296 * a1 == c0 + 4294967296 * c1,
    ;
    lemma_u32_at_injective(s, t, off);
    lemma_u32_at_injective(s, t, off + 4);
}

/// The bytes of a sequence of `u32` words, each little-endian, one after another.
pub open spec fn words_to_bytes(w: Seq<u32>) -> Seq<u8> {
    Seq::new(4 * w.len(), |i: int| u32_bytes(w[i / 4])[i % 4])
}

/// The first `n` little-endian `u32` words of `b`.
pub open spec fn bytes_to_words(b: Seq<u8>, n: nat) -> Seq<u32> {
    Seq::new(n, |k: int| u32_at(b, 4 * k))
}

/// Word `k` of `w` reads back from its bytes.
pub proof fn lemma_words_to_bytes_at(w: Seq<u32>, k: int)
    requires
        0 <= k < w.len(),
    ensures
        u32_at(words_to_bytes(w), 4 * k) == w[k],
{
    let b = words_to_bytes(w);
    assert forall|j: int| 0 <= j < 4 implies (#[trigger] ((4 * k + j) / 4)) == k && (4 * k + j) % 4
        == j by {
        lemma_fundamental_div_mod_converse(4 * k + j, 4, k, j);
    }
    assert(b[4 * k] == u32_bytes(w[k])[0]) by {
        assert((4 * k + 0) / 4 == k);
    }
    assert(b[4 * k + 1] == u32_bytes(w[k])[1]);
    assert(b[4 * k + 2] == u32_bytes(w[k])[2]);
    assert(b[4 * k + 3] == u32_bytes(w[k])[3]);
    lemma_u32_bytes_roundtrip(w[k]);
}

/// A buffer of `4 * n` bytes is the bytes of its `n` words.
pub proof fn lemma_bytes_words_roundtrip(b: Seq<u8>, n: nat)
    requires
        b.len() == 4 * n,
    ensures
        words_to_bytes(bytes_to_words(b, n)) == b,
{
    let w = bytes_to_words(b, n);
    let c = words_to_bytes(w);
    assert forall|i: int| 0 <= i < b.len() implies c[i] == b[i] by {
        let q = i / 4;
        let r = i % 4;
        lemma_fundamental_div_mod(i, 4);
        assert(0 <= q < n && 0 <= r < 4 && i == 4 * q + r);
        lemma_u32_at_bytes(b, 4 * q);
        assert(u32_bytes(u32_at(b, 4 * q))[r] == b.subrange(4 * q, 4 * q + 4)[r]);
    }
    assert(c =~= b);
}

/// The `u32` read at `off` from a buffer of at least `off + 4` bytes.
pub fn read_u32(buf: &[u8], off: usize) -> (v: u32)
    requires
        fits(buf@.len() as int, off as int, 4),
    ensures
        v == u32_at(buf@, off as int),
{
    let b0 = buf[off] as u32;
    let b1 = buf[off + 1] as u32;
    let b2 = buf[off + 2] as u32;
    let b3 = buf[off + 3] as u32;
    b0 + 256 * b1 + 65536 * b2 + 16777216 * b3
}

/// The `u64` read at `off` from a buffer of at least `off + 8` bytes.
pub fn read_u64(buf: &[u8], off: usize) -> (v: u64)
    requires
        fits(buf@.len() as int, off as int, 8),
    ensures
        v == u64_at(buf@, off as int),
{
    assert(buf@.len() == buf.len());
    let lo = read_u32(buf, off) as u64;
    let hi = read_u32(buf, off + 4) as u64;
    lo + 4294967296 * hi
}

/// `after` differs from `before` (of the same length) at most in `[off, off + width)`;
/// so every `u32` and `u64` field outside that range reads the same.
pub open spec fn same_outside(before: Seq<u8>, after: Seq<u8>, off: int, width: int) -> bool {
    &&& after.len() == before.len()
    &&& forall|i: int|
        0 <= i < before.len() && !(off <= i < off + width) ==> #[trigger] after[i] == before[i]
    &&& forall|o: int|
        fits(before.len() as int, o, 4) && (o + 4 <= off || off + width <= o) ==> #[trigger] u32_at(
            after,
            o,
        ) == u32_at(before, o)
    &&& forall|o: int|
        fits(before.len() as int, o, 8) && (o + 8 <= off || off + width <= o) ==> #[trigger] u64_at(
            after,
            o,
        ) == u64_at(before, o)
}

/// Writes `v` little-endian at `off`; nothing else in `buf` changes.
pub fn write_u32(buf: &mut [u8], off: usize, v: u32)
    requires
        fits(old(buf)@.len() as int, off as int, 4),
    ensures
        final(buf)@ == splice(old(buf)@, off as int, u32_bytes(v)),
        u32_at(final(buf)@, off as int) == v,
        same_outside(old(buf)@, final(buf)@, off as int, 4),
{
    buf[off] = (v % 256) as u8;
    buf[off + 1] = ((v / 256) % 256) as u8;
    buf[off + 2] = ((v / 65536) % 256) as u8;
    buf[off + 3] = (v / 16777216) as u8;
    assert(buf@ =~= splice(old(buf)@, off as int, u32_bytes(v)));
    proof {
        lemma_u32_bytes_roundtrip(v);
    }
}

/// Writes `v` little-endian at `off`; nothing else in `buf` changes.
pub fn write_u64(buf: &mut [u8], off: usize, v: u64)
    requires
        fits(old(buf)@.len() as int, off as int, 8),
    ensures
        u64_at(final(buf)@, off as int) == v,
        same_outside(old(buf)@, final(buf)@, off as int, 8),
{
    assert(buf@.len() == buf.len());
    let lo = (v % 4294967296) as u32;
    let hi = (v / 4294967296) as u32;
    write_u32(buf, off, lo);
    write_u32(buf, off + 4, hi);
    assert(u32_at(buf@, off as int) == lo);
    assert(lo + 4294967296 * hi == v) by (nonlinear_arith)
        requires
            lo == v % 4294967296,
            hi == v / 4294967296,
    ;
}

} // verus!
