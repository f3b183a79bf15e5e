//! Word-granular memory access with byte-exact splicing.
//!
//! The tracing interface moves whole aligned machine words. Reading or
//! writing an arbitrary byte range therefore works word by word, and a
//! write whose range starts or ends inside a word must read, splice and
//! write back that word. [`splice_into_word`] carries the byte-exact
//! contract: the spliced word holds the new bytes in the written range and
//! the old bytes everywhere else.

use vstd::prelude::*;

use crate::addr::Addr;
use crate::bytes::{
    le_word, u64_le_bytes, u64_to_le_bytes, bytes_to_u64, spec_splice, lemma_le_word_bound,
    lemma_pow256_8, WORD_BYTES,
};
use crate::errors::DebuggerError;
use crate::tracee::Tracee;

verus! {

/// Unpacking the value of an eight-byte string yields the string itself.
pub proof fn lemma_le_word_inverse(s: Seq<u8>)
    requires
        s.len() == 8,
    ensures
        u64_le_bytes(le_word(s) as u64) =~= s,
{
    reveal_with_fuel(le_word, 9);
    lemma_le_word_bound(s);
    lemma_pow256_8();
    let b0 = s[0];
    let b1 = s[1];
    let b2 = s[2];
    let b3 = s[3];
    let b4 = s[4];
    let b5 = s[5];
    let b6 = s[6];
    let b7 = s[7];
    assert(s.skip(1) =~= seq![b1, b2, b3, b4, b5, b6, b7]);
    assert(s.skip(1).skip(1) =~= seq![b2, b3, b4, b5, b6, b7]);
    assert(s.skip(1).skip(1).skip(1) =~= seq![b3, b4, b5, b6, b7]);
    assert(s.skip(1).skip(1).skip(1).skip(1) =~= seq![b4, b5, b6, b7]);
    assert(s.skip(1).skip(1).skip(1).skip(1).skip(1) =~= seq![b5, b6, b7]);
    assert(s.skip(1).skip(1).skip(1).skip(1).skip(1).skip(1) =~= seq![b6, b7]);
    assert(s.skip(1).skip(1).skip(1).skip(1).skip(1).skip(1).skip(1) =~= seq![b7]);
    assert(le_word(s) == b0 + 256 * (b1 + 256 * (b2 + 256 * (b3 + 256 * (b4 + 256 * (b5 + 256
        * (b6 + 256 * (b7 as int))))))));
    let w = le_word(s) as u64;
    assert({
        &&& ((w & 0xff) as u8) == b0
        &&& (((w >> 8) & 0xff) as u8) == b1
        &&& (((w >> 16) & 0xff) as u8) == b2
        &&& (((w >> 24) & 0xff) as u8) == b3
        &&& (((w >> 32) & 0xff) as u8) == b4
        &&& (((w >> 40) & 0xff) as u8) == b5
        &&& (((w >> 48) & 0xff) as u8) == b6
        &&& (((w >> 56) & 0xff) as u8) == b7
    }) by (bit_vector)
        requires
            w == (b0 + 256 * (b1 + 256 * (b2 + 256 * (b3 + 256 * (b4 + 256 * (b5 + 256 * (b6
                + 256 * (b7 as int)))))))) as u64,
    ;
}

/// The word `w` with the bytes `src[src_lo..src_hi]` written at byte
/// position `at`: inside `[at, at + src_hi - src_lo)` the word holds the
/// new bytes, outside it keeps its old ones.
pub fn splice_into_word(w: u64, at: usize, src: &[u8], src_lo: usize, src_hi: usize) -> (r: u64)
    requires
        src_lo <= src_hi <= src@.len(),
        at + (src_hi - src_lo) <= 8,
    ensures
        u64_le_bytes(r) == spec_splice(u64_le_bytes(w), at as int, src@.subrange(src_lo as int, src_hi as int)),
{
    let mut bs = u64_to_le_bytes(w);
    let mut i: usize = 0;
    let count = src_hi - src_lo;
    while i < count
        invariant
            i <= count,
            count == src_hi - src_lo,
            src_lo <= src_hi <= src@.len(),
            at + count <= 8,
            bs@.len() == 8,
            forall|k: int| 0 <= k < 8 && !(at <= k < at + i)
                ==> bs@[k] == u64_le_bytes(w)[k],
            forall|k: int| at <= k < at + i ==> bs@[k] == src@[src_lo + (k - at)],
        decreases count - i,
    {
        bs.set(at + i, src[src_lo + i]);
        i = i + 1;
    }
    proof {
        assert(bs@ =~= spec_splice(u64_le_bytes(w), at as int, src@.subrange(src_lo as int,
            src_hi as int)));
        lemma_le_word_bound(bs@);
        lemma_pow256_8();
        lemma_le_word_inverse(bs@);
    }
    let r = bytes_to_u64(bs.as_slice());
    proof {
        assert(u64_le_bytes(r) =~= bs@);
    }
    r
}

/// Reads `buf.len()` bytes of tracee memory starting at `addr` into `buf`,
/// word by word; partial words at either end are masked out. On success
/// the whole buffer was filled.
pub fn mem_read<T: Tracee>(buf: &mut Vec<u8>, t: &mut T, pid: i32, addr: Addr) -> (r: Result<
    usize,
    DebuggerError,
>)
    requires
        addr@ + old(buf)@.len() <= u64::MAX,
    ensures
        final(buf)@.len() == old(buf)@.len(),
        r matches Ok(n) ==> n == old(buf)@.len(),
{
    let len = buf.len();
    let mut filled: usize = 0;
    while filled < len
        invariant
            filled <= len,
            buf@.len() == len,
            len == old(buf)@.len(),
            addr@ + len <= u64::MAX,
        decreases len - filled,
    {
        let cur: u64 = addr.value() + (filled as u64);
        let word_base: u64 = cur & !7u64;
        proof {
            assert(cur & !7u64 <= cur && cur - (cur & !7u64) < 8) by (bit_vector);
        }
        let off: usize = (cur - word_base) as usize;
        let w = t.peek_word(pid, Addr::new(word_base))?;
        let wb = u64_to_le_bytes(w);
        let mut take: usize = WORD_BYTES - off;
        if take > len - filled {
            take = len - filled;
        }
        let mut j: usize = 0;
        while j < take
            invariant
                j <= take,
                off + take <= 8,
                filled + take <= len,
                buf@.len() == len,
                wb@.len() == 8,
            decreases take - j,
        {
            buf.set(filled + j, wb[off + j]);
            j = j + 1;
        }
        filled = filled + take;
    }
    Ok(len)
}

/// Writes `buf` into tracee memory starting at `addr`, word by word. A
/// word only partially covered by the write is read first and spliced, so
/// its bytes outside the written range keep their old values. On success
/// the whole buffer was written.
pub fn mem_write<T: Tracee>(buf: &Vec<u8>, t: &mut T, pid: i32, addr: Addr) -> (r: Result<
    usize,
    DebuggerError,
>)
    requires
        addr@ + buf@.len() <= u64::MAX,
    ensures
        r matches Ok(n) ==> n == buf@.len(),
{
    let len = buf.len();
    let mut written: usize = 0;
    while written < len
        invariant
            written <= len,
            buf@.len() == len,
            addr@ + len <= u64::MAX,
        decreases len - written,
    {
        let cur: u64 = addr.value() + (written as u64);
        let word_base: u64 = cur & !7u64;
        proof {
            assert(cur & !7u64 <= cur && cur - (cur & !7u64) < 8) by (bit_vector);
        }
        let off: usize = (cur - word_base) as usize;
        let mut take: usize = WORD_BYTES - off;
        if take > len - written {
            take = len - written;
        }
        let word: u64;
        if off == 0 && take == WORD_BYTES {
            // a fully covered word needs no read back
            proof {
                lemma_le_word_bound(buf@.subrange(written as int, written as int + 8));
                lemma_pow256_8();
            }
            word = bytes_to_u64(&buf.as_slice()[written..written + 8]);
        } else {
            let old_word = t.peek_word(pid, Addr::new(word_base))?;
            word = splice_into_word(old_word, off, buf.as_slice(), written, written + take);
        }
        t.poke_word(pid, Addr::new(word_base), word)?;
        written = written + take;
    }
    Ok(len)
}

/// Reads the aligned machine word at `addr`.
pub fn mem_read_word<T: Tracee>(t: &mut T, pid: i32, addr: Addr) -> Result<u64, DebuggerError> {
    t.peek_word(pid, addr)
}

/// Writes the aligned machine word at `addr`.
pub fn mem_write_word<T: Tracee>(t: &mut T, pid: i32, addr: Addr, word: u64) -> Result<
    (),
    DebuggerError,
> {
    t.poke_word(pid, addr, word)
}

} // verus!
