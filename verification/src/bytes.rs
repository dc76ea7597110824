//! Byte-level helpers shared by the codec and the crypto glue:
//! little-endian integer encodings, byte reversal (the SGX wire format is
//! little-endian while the curve library speaks big-endian), comparison and
//! concatenation of byte vectors.

use vstd::prelude::*;

verus! {

/// Little-endian two-byte encoding of `x`.
pub open spec fn spec_u16_le(x: u16) -> Seq<u8> {
    seq![(x & 0xff) as u8, ((x >> 8) & 0xff) as u8]
}

/// The `u16` read little-endian from two bytes.
pub open spec fn spec_u16_of_le(lo: u8, hi: u8) -> u16 {
    (lo as u16 | ((hi as u16) << 8)) as u16
}

/// Little-endian four-byte encoding of `x`.
pub open spec fn spec_u32_le(x: u32) -> Seq<u8> {
    seq![
        (x & 0xff) as u8,
        ((x >> 8) & 0xff) as u8,
        ((x >> 16) & 0xff) as u8,
        ((x >> 24) & 0xff) as u8,
    ]
}

/// The `u32` read little-endian from four bytes.
pub open spec fn spec_u32_of_le(b0: u8, b1: u8, b2: u8, b3: u8) -> u32 {
    (b0 as u32 | ((b1 as u32) << 8) | ((b2 as u32) << 16) | ((b3 as u32) << 24)) as u32
}

/// Little-endian eight-byte encoding of `x`.
pub open spec fn spec_u64_le(x: u64) -> Seq<u8> {
    seq![
        (x & 0xff) as u8,
        ((x >> 8) & 0xff) as u8,
        ((x >> 16) & 0xff) as u8,
        ((x >> 24) & 0xff) as u8,
        ((x >> 32) & 0xff) as u8,
        ((x >> 40) & 0xff) as u8,
        ((x >> 48) & 0xff) as u8,
        ((x >> 56) & 0xff) as u8,
    ]
}

/// The `u64` read little-endian from eight bytes.
pub open spec fn spec_u64_of_le(s: Seq<u8>) -> u64
    recommends
        s.len() == 8,
{
    (s[0] as u64 | ((s[1] as u64) << 8) | ((s[2] as u64) << 16) | ((s[3] as u64) << 24)
        | ((s[4] as u64) << 32) | ((s[5] as u64) << 40) | ((s[6] as u64) << 48)
        | ((s[7] as u64) << 56)) as u64
}

/// Reading back a little-endian `u16` encoding yields the value encoded.
pub proof fn lemma_u16_le_roundtrip(x: u16)
    ensures
        spec_u16_of_le(spec_u16_le(x)[0], spec_u16_le(x)[1]) == x,
{
    assert(((x & 0xff) as u8 as u16 | ((((x >> 8) & 0xff) as u8 as u16) << 8)) == x)
        by (bit_vector);
}

/// Reading back a little-endian `u32` encoding yields the value encoded.
pub proof fn lemma_u32_le_roundtrip(x: u32)
    ensures
        spec_u32_of_le(
            spec_u32_le(x)[0],
            spec_u32_le(x)[1],
            spec_u32_le(x)[2],
            spec_u32_le(x)[3],
        ) == x,
{
    assert(((x & 0xff) as u8 as u32 | ((((x >> 8) & 0xff) as u8 as u32) << 8)
        | ((((x >> 16) & 0xff) as u8 as u32) << 16)
        | ((((x >> 24) & 0xff) as u8 as u32) << 24)) == x) by (bit_vector);
}

/// Reading back a little-endian `u64` encoding yields the value encoded.
pub proof fn lemma_u64_le_roundtrip(x: u64)
    ensures
        spec_u64_of_le(spec_u64_le(x)) == x,
{
    assert(((x & 0xff) as u8 as u64 | ((((x >> 8) & 0xff) as u8 as u64) << 8)
        | ((((x >> 16) & 0xff) as u8 as u64) << 16)
        | ((((x >> 24) & 0xff) as u8 as u64) << 24)
        | ((((x >> 32) & 0xff) as u8 as u64) << 32)
        | ((((x >> 40) & 0xff) as u8 as u64) << 40)
        | ((((x >> 48) & 0xff) as u8 as u64) << 48)
        | ((((x >> 56) & 0xff) as u8 as u64) << 56)) == x) by (bit_vector);
}

/// `s` reversed.
pub open spec fn spec_rev(s: Seq<u8>) -> Seq<u8> {
    s.reverse()
}

/// Reverse a byte vector (big-endian <-> little-endian field elements).
pub fn rev_bytes(s: &Vec<u8>) -> (r: Vec<u8>)
    ensures
        r@ == spec_rev(s@),
{
    let mut r: Vec<u8> = Vec::new();
    let mut i: usize = s.len();
    while i > 0
        invariant
            i <= s.len(),
            r@.len() == s@.len() - i,
            forall|k: int| 0 <= k < r@.len() ==> r@[k] == s@[s@.len() - 1 - k],
        decreases i,
    {
        i = i - 1;
        r.push(s[i]);
    }
    assert(r@ =~= spec_rev(s@));
    r
}

/// Append `src` to `dst`.
pub fn append_bytes(dst: &mut Vec<u8>, src: &Vec<u8>)
    ensures
        final(dst)@ == old(dst)@ + src@,
{
    let mut i: usize = 0;
    while i < src.len()
        invariant
            i <= src.len(),
            dst@ == old(dst)@ + src@.subrange(0, i as int),
        decreases src.len() - i,
    {
        dst.push(src[i]);
        i = i + 1;
        assert(old(dst)@ + src@.subrange(0, i - 1) + seq![src@[i - 1]]
            =~= old(dst)@ + src@.subrange(0, i as int));
    }
    assert(dst@ =~= old(dst)@ + src@);
}

/// Byte-for-byte equality of two vectors.
pub fn bytes_eq(a: &Vec<u8>, b: &Vec<u8>) -> (r: bool)
    ensures
        r == (a@ == b@),
{
    if a.len() != b.len() {
        assert(a@ != b@) by {
            assert(a@.len() != b@.len());
        }
        return false;
    }
    let mut i: usize = 0;
    while i < a.len()
        invariant
            i <= a.len(),
            a@.len() == b@.len(),
            forall|k: int| 0 <= k < i ==> a@[k] == b@[k],
        decreases a.len() - i,
    {
        if a[i] != b[i] {
            return false;
        }
        i = i + 1;
    }
    assert(a@ =~= b@);
    true
}

/// Copy the bytes of `s` in `[lo, hi)` into a fresh vector.
pub fn sub_bytes(s: &Vec<u8>, lo: usize, hi: usize) -> (r: Vec<u8>)
    requires
        lo <= hi <= s@.len(),
    ensures
        r@ == s@.subrange(lo as int, hi as int),
{
    let mut r: Vec<u8> = Vec::new();
    let mut i: usize = lo;
    while i < hi
        invariant
            lo <= i <= hi <= s@.len(),
            r@ == s@.subrange(lo as int, i as int),
        decreases hi - i,
    {
        r.push(s[i]);
        i = i + 1;
        assert(s@.subrange(lo as int, i - 1) + seq![s@[i - 1]]
            =~= s@.subrange(lo as int, i as int));
    }
    r
}

} // verus!
