//! Little-endian `u32` words: the layout of the counts files, and of the
//! 32-bit values in the grid formats.

use vstd::prelude::*;
use vstd::bytes::{
    lemma_auto_spec_u32_to_from_le_bytes, spec_u32_from_le_bytes, spec_u32_to_le_bytes,
    u32_from_le_bytes, u32_to_le_bytes,
};
use vstd::slice::slice_subrange;

verus! {

/// The words stored little-endian in `b` (whose length is a multiple of 4).
pub open spec fn le_words(b: Seq<u8>) -> Seq<u32> {
    Seq::new(b.len() / 4, |i: int| spec_u32_from_le_bytes(b.subrange(4 * i, 4 * i + 4)))
}

/// `w` stored little-endian, four bytes per word.
pub open spec fn le_bytes(w: Seq<u32>) -> Seq<u8> {
    Seq::new(4 * w.len(), |k: int| spec_u32_to_le_bytes(w[k / 4])[k % 4])
}

/// The little-endian word at byte offset `off`.
pub fn read_u32_le(b: &[u8], off: usize) -> (r: u32)
    requires
        off + 4 <= b@.len(),
    ensures
        r == spec_u32_from_le_bytes(b@.subrange(off as int, off + 4)),
{
    let _len = b.len();
    u32_from_le_bytes(slice_subrange(b, off, off + 4))
}

/// Words stored little-endian in `bytes`, from byte offset `off`, `n` of them.
pub fn read_u32_le_words(bytes: &[u8], off: usize, n: usize) -> (r: Vec<u32>)
    requires
        off + 4 * n <= bytes@.len(),
    ensures
        r@ == le_words(bytes@.subrange(off as int, off + 4 * n)),
{
    let ghost b = bytes@.subrange(off as int, off + 4 * n);
    let blen = bytes.len();
    let mut r: Vec<u32> = Vec::new();
    for i in 0..n
        invariant
            blen == bytes@.len(),
            off + 4 * n <= bytes@.len(),
            b == bytes@.subrange(off as int, off + 4 * n),
            r@.len() == i,
            forall|j: int| 0 <= j < i ==> #[trigger] r@[j] == le_words(b)[j],
    {
        let w = read_u32_le(bytes, off + 4 * i);
        assert(bytes@.subrange(off + 4 * i, off + 4 * i + 4) =~= b.subrange(
            4 * i as int,
            4 * i + 4,
        ));
        r.push(w);
    }
    assert(r@ =~= le_words(b));
    r
}

/// Decodes a counts file of little-endian `u32` values; `None` when its
/// length is not a multiple of 4.
pub fn decode_u32_le(bytes: &[u8]) -> (r: Option<Vec<u32>>)
    ensures
        bytes@.len() % 4 != 0 ==> r is None,
        bytes@.len() % 4 == 0 ==> (r matches Some(w) && w@ == le_words(bytes@)),
{
    let len = bytes.len();
    if len % 4 != 0 {
        return None;
    }
    let r = read_u32_le_words(bytes, 0, len / 4);
    assert(bytes@.subrange(0, 4 * (len / 4) as int) =~= bytes@);
    Some(r)
}

/// Appends the words of `w` little-endian to `out`.
pub fn push_u32_le_words(out: &mut Vec<u8>, w: &[u32])
    ensures
        final(out)@ == old(out)@ + le_bytes(w@),
{
    proof {
        lemma_auto_spec_u32_to_from_le_bytes();
    }
    let ghost start = out@;
    for i in 0..w.len()
        invariant
            out@ =~= start + le_bytes(w@.take(i as int)),
            forall|x: u32| #[trigger] spec_u32_to_le_bytes(x).len() == 4,
    {
        let b = u32_to_le_bytes(w[i]);
        let ghost before = out@;
        out.extend_from_slice(b.as_slice());
        assert(le_bytes(w@.take(i + 1)) =~= le_bytes(w@.take(i as int)) + spec_u32_to_le_bytes(
            w@[i as int],
        ));
    }
    assert(w@.take(w@.len() as int) =~= w@);
}

/// Encodes values as a counts file: little-endian `u32`, four bytes each.
pub fn encode_u32_le(w: &[u32]) -> (r: Vec<u8>)
    ensures
        r@ == le_bytes(w@),
{
    let mut out: Vec<u8> = Vec::new();
    push_u32_le_words(&mut out, w);
    assert(out@ =~= le_bytes(w@));
    out
}

/// Law: decoding what was encoded gives the values back.
pub proof fn law_counts_roundtrip(w: Seq<u32>)
    ensures
        le_bytes(w).len() % 4 == 0,
        le_words(le_bytes(w)) == w,
{
    lemma_auto_spec_u32_to_from_le_bytes();
    let b = le_bytes(w);
    assert(b.len() == 4 * w.len());
    assert forall|i: int| 0 <= i < w.len() implies #[trigger] le_words(b)[i] == w[i] by {
        assert(b.subrange(4 * i, 4 * i + 4) =~= spec_u32_to_le_bytes(w[i]));
    }
    assert(le_words(b) =~= w);
}

/// Law: encoding what was decoded gives the bytes back.
pub proof fn law_counts_bytes_roundtrip(b: Seq<u8>)
    requires
        b.len() % 4 == 0,
    ensures
        le_bytes(le_words(b)) == b,
{
    lemma_auto_spec_u32_to_from_le_bytes();
    let w = le_words(b);
    assert forall|k: int| 0 <= k < b.len() implies #[trigger] le_bytes(w)[k] == b[k] by {
        let i = k / 4;
        assert(b.subrange(4 * i, 4 * i + 4).len() == 4);
        assert(spec_u32_to_le_bytes(w[i]) == b.subrange(4 * i, 4 * i + 4));
    }
    assert(le_bytes(w) =~= b);
}

} // verus!

verus! {

/// Sum of the values.
pub open spec fn total_of(s: Seq<u32>) -> int
    decreases s.len(),
{
    if s.len() == 0 {
        0
    } else {
        total_of(s.drop_last()) + s.last()
    }
}

/// Largest value (0 for no values).
pub open spec fn max_of(s: Seq<u32>) -> u32
    decreases s.len(),
{
    if s.len() == 0 {
        0
    } else if s.last() > max_of(s.drop_last()) {
        s.last()
    } else {
        max_of(s.drop_last())
    }
}

/// Number of non-zero values.
pub open spec fn nonzero_of(s: Seq<u32>) -> int
    decreases s.len(),
{
    if s.len() == 0 {
        0
    } else {
        nonzero_of(s.drop_last()) + if s.last() > 0 {
            1int
        } else {
            0int
        }
    }
}

proof fn lemma_total_bound(s: Seq<u32>)
    ensures
        0 <= total_of(s) <= s.len() * (u32::MAX as int),
        0 <= nonzero_of(s) <= s.len(),
    decreases s.len(),
{
    if s.len() > 0 {
        lemma_total_bound(s.drop_last());
    }
}

proof fn lemma_total_prefix(s: Seq<u32>, i: int)
    requires
        0 <= i <= s.len(),
    ensures
        total_of(s.take(i)) <= total_of(s),
    decreases s.len(),
{
    if i < s.len() {
        assert(s.drop_last().take(i) =~= s.take(i));
        lemma_total_prefix(s.drop_last(), i);
    } else {
        assert(s.take(i) =~= s);
    }
}

/// Integer statistics of raw detector counts.
#[derive(Debug, Clone, Copy, PartialEq, Eq)]
pub struct RawStats {
    /// Total hits.
    pub total: u64,
    /// Largest count in one pixel.
    pub max: u32,
    /// Pixels with at least one hit.
    pub nonzero: u64,
}

/// Total, largest and non-zero counts of raw detector counts.
pub fn raw_stats(counts: &[u32]) -> (r: RawStats)
    requires
        total_of(counts@) <= u64::MAX,
    ensures
        r.total == total_of(counts@),
        r.max == max_of(counts@),
        r.nonzero == nonzero_of(counts@),
{
    let mut total: u64 = 0;
    let mut max: u32 = 0;
    let mut nonzero: u64 = 0;
    let n = counts.len();
    for i in 0..n
        invariant
            n == counts@.len(),
            total_of(counts@) <= u64::MAX,
            total == total_of(counts@.take(i as int)),
            max == max_of(counts@.take(i as int)),
            nonzero == nonzero_of(counts@.take(i as int)),
    {
        let c = counts[i];
        let ghost t = counts@.take(i + 1);
        assert(t.drop_last() =~= counts@.take(i as int));
        proof {
            lemma_total_prefix(counts@, i + 1);
            lemma_total_bound(counts@.take(i as int));
        }
        total = total + c as u64;
        if c > max {
            max = c;
        }
        if c > 0 {
            nonzero = nonzero + 1;
        }
    }
    assert(counts@.take(n as int) =~= counts@);
    RawStats { total, max, nonzero }
}

} // verus!
