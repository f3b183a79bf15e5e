//! Little-endian byte/word arithmetic.
//!
//! A machine word of the tracee is eight bytes, least significant first.
//! [`le_word`] is the mathematical value of a little-endian byte string;
//! everything the engine does to raw memory (packing, unpacking, patching a
//! breakpoint byte, splicing partial words) is specified against it.

use vstd::prelude::*;

verus! {

/// Bytes in one machine word of the tracee (x86-64).
pub const WORD_BYTES: usize = 8;

/// The value of a little-endian byte string: `s[0] + 256*s[1] + ...`.
pub open spec fn le_word(s: Seq<u8>) -> int
    decreases s.len(),
{
    if s.len() == 0 {
        0
    } else {
        s[0] + 256 * le_word(s.skip(1))
    }
}

/// `256^n`, the number of values of an `n`-byte string.
pub open spec fn pow256(n: nat) -> int
    decreases n,
{
    if n == 0 {
        1
    } else {
        256 * pow256((n - 1) as nat)
    }
}

/// The value of a byte string is below `256^len`.
pub proof fn lemma_le_word_bound(s: Seq<u8>)
    ensures
        0 <= le_word(s) < pow256(s.len()),
    decreases s.len(),
{
    if s.len() == 0 {
    } else {
        lemma_le_word_bound(s.skip(1));
        assert(le_word(s) == s[0] + 256 * le_word(s.skip(1)));
        assert(256 * le_word(s.skip(1)) <= 256 * (pow256(s.skip(1).len()) - 1))
            by (nonlinear_arith)
            requires
                le_word(s.skip(1)) <= pow256(s.skip(1).len()) - 1,
        ;
    }
}

/// The eight bytes of a machine word, least significant first.
pub open spec fn u64_le_bytes(w: u64) -> Seq<u8> {
    seq![
        (w & 0xff) as u8,
        ((w >> 8) & 0xff) as u8,
        ((w >> 16) & 0xff) as u8,
        ((w >> 24) & 0xff) as u8,
        ((w >> 32) & 0xff) as u8,
        ((w >> 40) & 0xff) as u8,
        ((w >> 48) & 0xff) as u8,
        ((w >> 56) & 0xff) as u8,
    ]
}

/// Packs up to eight little-endian bytes into a machine word, zero-extended.
pub fn bytes_to_u64(b: &[u8]) -> (r: u64)
    requires
        b@.len() <= 8,
    ensures
        r == le_word(b@),
{
    proof {
        lemma_le_word_bound(b@);
        lemma_pow256_monotone(b@.len(), 8);
    }
    let mut w: u64 = 0;
    let mut i: usize = b.len();
    while i > 0
        invariant
            i <= b@.len() <= 8,
            w == le_word(b@.skip(i as int)),
            le_word(b@.skip(i as int)) < pow256((b@.len() - i) as nat),
        decreases i,
    {
        i = i - 1;
        proof {
            assert(b@.skip(i as int)[0] == b@[i as int]);
            assert(b@.skip(i as int).skip(1) =~= b@.skip(i as int + 1));
            lemma_le_word_bound(b@.skip(i as int));
            lemma_pow256_monotone((b@.len() - i) as nat, 8);
            assert(le_word(b@.skip(i as int)) < pow256(8));
            lemma_pow256_8();
        }
        w = w * 256 + (b[i] as u64);
    }
    proof {
        assert(b@.skip(0) =~= b@);
    }
    w
}

/// `256^8` spelled out, the number of values of a machine word.
pub proof fn lemma_pow256_8()
    ensures
        pow256(8) == 0x1_0000_0000_0000_0000,
{
    reveal_with_fuel(pow256, 9);
}

/// `256^n` is positive.
pub proof fn lemma_pow256_pos(n: nat)
    ensures
        pow256(n) >= 1,
    decreases n,
{
    if n > 0 {
        lemma_pow256_pos((n - 1) as nat);
        assert(256 * pow256((n - 1) as nat) >= pow256((n - 1) as nat)) by (nonlinear_arith)
            requires
                pow256((n - 1) as nat) >= 1,
        ;
    }
}

/// `256^m <= 256^n` for `m <= n`.
pub proof fn lemma_pow256_monotone(m: nat, n: nat)
    requires
        m <= n,
    ensures
        pow256(m) <= pow256(n),
        pow256(m) >= 1,
    decreases n,
{
    lemma_pow256_pos(m);
    if m < n && n > 0 {
        lemma_pow256_monotone(m, (n - 1) as nat);
        assert(pow256((n - 1) as nat) <= 256 * pow256((n - 1) as nat)) by (nonlinear_arith)
            requires
                pow256((n - 1) as nat) >= 1,
        ;
    }
}

/// Unpacks a machine word into its eight little-endian bytes.
pub fn u64_to_le_bytes(w: u64) -> (r: Vec<u8>)
    ensures
        r@ == u64_le_bytes(w),
{
    let mut out: Vec<u8> = Vec::new();
    out.push((w & 0xff) as u8);
    out.push(((w >> 8) & 0xff) as u8);
    out.push(((w >> 16) & 0xff) as u8);
    out.push(((w >> 24) & 0xff) as u8);
    out.push(((w >> 32) & 0xff) as u8);
    out.push(((w >> 40) & 0xff) as u8);
    out.push(((w >> 48) & 0xff) as u8);
    out.push(((w >> 56) & 0xff) as u8);
    proof {
        assert(out@ =~= u64_le_bytes(w));
    }
    out
}

/// The lowest byte of a word.
pub open spec fn spec_low_byte(w: u64) -> u8 {
    (w & 0xff) as u8
}

/// The word with its lowest byte replaced by `b`.
pub open spec fn spec_with_low_byte(w: u64, b: u8) -> u64 {
    (w & 0xffff_ffff_ffff_ff00) | (b as u64)
}

/// The lowest byte of a word.
pub fn low_byte(w: u64) -> (r: u8)
    ensures
        r == spec_low_byte(w),
{
    (w & 0xff) as u8
}

/// The word with its lowest byte replaced by `b`.
pub fn with_low_byte(w: u64, b: u8) -> (r: u64)
    ensures
        r == spec_with_low_byte(w, b),
{
    (w & 0xffff_ffff_ffff_ff00) | (b as u64)
}

/// Patching a byte into a word only changes the lowest byte, the patched
/// byte reads back, and restoring the saved original byte restores the
/// word exactly.
pub proof fn lemma_low_byte_roundtrip(w: u64, b: u8)
    ensures
        spec_low_byte(spec_with_low_byte(w, b)) == b,
        spec_with_low_byte(spec_with_low_byte(w, b), spec_low_byte(w)) == w,
        u64_le_bytes(spec_with_low_byte(w, b)) =~= u64_le_bytes(w).update(0, b),
{
    assert(((((w & 0xffff_ffff_ffff_ff00) | (b as u64)) & 0xff) as u8) == b) by (bit_vector);
    assert(((((w & 0xffff_ffff_ffff_ff00) | (b as u64)) & 0xffff_ffff_ffff_ff00) | (((w
        & 0xff) as u8) as u64)) == w) by (bit_vector);
    let p = spec_with_low_byte(w, b);
    assert({
        &&& ((p >> 8) & 0xff) == ((w >> 8) & 0xff)
        &&& ((p >> 16) & 0xff) == ((w >> 16) & 0xff)
        &&& ((p >> 24) & 0xff) == ((w >> 24) & 0xff)
        &&& ((p >> 32) & 0xff) == ((w >> 32) & 0xff)
        &&& ((p >> 40) & 0xff) == ((w >> 40) & 0xff)
        &&& ((p >> 48) & 0xff) == ((w >> 48) & 0xff)
        &&& ((p >> 56) & 0xff) == ((w >> 56) & 0xff)
    }) by (bit_vector)
        requires
            p == ((w & 0xffff_ffff_ffff_ff00) | (b as u64)),
    ;
}

/// The byte string `bs` with `src` written at position `at`: bytes outside
/// `[at, at + src.len())` keep their old value.
pub open spec fn spec_splice(bs: Seq<u8>, at: int, src: Seq<u8>) -> Seq<u8>
    recommends
        0 <= at,
        at + src.len() <= bs.len(),
{
    bs.take(at) + src + bs.skip(at + src.len())
}

/// Splicing keeps the length and changes exactly the written range.
pub proof fn lemma_splice_bytes(bs: Seq<u8>, at: int, src: Seq<u8>)
    requires
        0 <= at,
        at + src.len() <= bs.len(),
    ensures
        spec_splice(bs, at, src).len() == bs.len(),
        forall|k: int| 0 <= k < bs.len() && !(at <= k < at + src.len())
            ==> spec_splice(bs, at, src)[k] == bs[k],
        forall|k: int| at <= k < at + src.len()
            ==> spec_splice(bs, at, src)[k] == src[k - at],
{
}

} // verus!
