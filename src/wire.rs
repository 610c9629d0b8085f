//! Fixed-width unsigned integers in network byte order (most significant
//! byte first), the only byte order of the wire format.
use vstd::prelude::*;

verus! {

/// The two bytes of `v`, most significant first.
pub open spec fn be16(v: u16) -> Seq<u8> {
    seq![(v / 0x100) as u8, (v % 0x100) as u8]
}

/// The four bytes of `v`, most significant first.
pub open spec fn be32(v: u32) -> Seq<u8> {
    be16((v / 0x1_0000) as u16) + be16((v % 0x1_0000) as u16)
}

/// The eight bytes of `v`, most significant first.
pub open spec fn be64(v: u64) -> Seq<u8> {
    be32((v / 0x1_0000_0000) as u32) + be32((v % 0x1_0000_0000) as u32)
}

/// The 16-bit value stored at offset `i` of `s`.
pub open spec fn u16_at(s: Seq<u8>, i: int) -> u16 {
    (s[i] as int * 0x100 + s[i + 1] as int) as u16
}

/// The 32-bit value stored at offset `i` of `s`.
pub open spec fn u32_at(s: Seq<u8>, i: int) -> u32 {
    (u16_at(s, i) as int * 0x1_0000 + u16_at(s, i + 2) as int) as u32
}

/// The 64-bit value stored at offset `i` of `s`.
pub open spec fn u64_at(s: Seq<u8>, i: int) -> u64 {
    (u32_at(s, i) as int * 0x1_0000_0000 + u32_at(s, i + 4) as int) as u64
}

/// `s` holds `t` from offset `i` on.
pub open spec fn holds_at(s: Seq<u8>, i: int, t: Seq<u8>) -> bool {
    0 <= i && i + t.len() <= s.len() && s.subrange(i, i + t.len()) == t
}

/// A part of a part of `s` is a part of `s`.
pub proof fn lemma_holds_at_part(s: Seq<u8>, i: int, t: Seq<u8>, k: int, m: int)
    requires
        holds_at(s, i, t),
        0 <= k,
        0 <= m,
        k + m <= t.len(),
    ensures
        holds_at(s, i + k, t.subrange(k, k + m)),
{
    assert(s.subrange(i + k, i + k + m) =~= t.subrange(k, k + m)) by {
        assert forall|j: int| 0 <= j < m implies #[trigger] s.subrange(i + k, i + k + m)[j]
            == t.subrange(k, k + m)[j] by {
            assert(s.subrange(i, i + t.len())[k + j] == s[i + k + j]);
        }
    }
}

/// A part of `s` that is a concatenation holds both pieces.
pub proof fn lemma_holds_at_split(s: Seq<u8>, i: int, a: Seq<u8>, b: Seq<u8>)
    requires
        holds_at(s, i, a + b),
    ensures
        holds_at(s, i, a),
        holds_at(s, i + a.len(), b),
{
    lemma_holds_at_part(s, i, a + b, 0, a.len() as int);
    lemma_holds_at_part(s, i, a + b, a.len() as int, b.len() as int);
    assert((a + b).subrange(0, a.len() as int) =~= a);
    assert((a + b).subrange(a.len() as int, a.len() + b.len() as int) =~= b);
}

/// `s` holds itself from offset 0 on.
pub proof fn lemma_holds_at_whole(s: Seq<u8>)
    ensures
        holds_at(s, 0, s),
{
    assert(s.subrange(0, s.len() as int) =~= s);
}

pub proof fn lemma_u16_at(s: Seq<u8>, i: int, v: u16)
    requires
        holds_at(s, i, be16(v)),
    ensures
        u16_at(s, i) == v,
{
    assert(s[i] == s.subrange(i, i + 2)[0]);
    assert(s[i + 1] == s.subrange(i, i + 2)[1]);
}

pub proof fn lemma_u32_at(s: Seq<u8>, i: int, v: u32)
    requires
        holds_at(s, i, be32(v)),
    ensures
        u32_at(s, i) == v,
{
    let hi = (v / 0x1_0000) as u16;
    let lo = (v % 0x1_0000) as u16;
    lemma_holds_at_part(s, i, be32(v), 0, 2);
    lemma_holds_at_part(s, i, be32(v), 2, 2);
    assert(be32(v).subrange(0, 2) =~= be16(hi));
    assert(be32(v).subrange(2, 4) =~= be16(lo));
    lemma_u16_at(s, i, hi);
    lemma_u16_at(s, i + 2, lo);
}

pub proof fn lemma_u64_at(s: Seq<u8>, i: int, v: u64)
    requires
        holds_at(s, i, be64(v)),
    ensures
        u64_at(s, i) == v,
{
    let hi = (v / 0x1_0000_0000) as u32;
    let lo = (v % 0x1_0000_0000) as u32;
    lemma_holds_at_part(s, i, be64(v), 0, 4);
    lemma_holds_at_part(s, i, be64(v), 4, 4);
    assert(be64(v).subrange(0, 4) =~= be32(hi));
    assert(be64(v).subrange(4, 8) =~= be32(lo));
    lemma_u32_at(s, i, hi);
    lemma_u32_at(s, i + 4, lo);
}

/// Adjacent parts of `s` join into one part.
pub proof fn lemma_subrange_concat(s: Seq<u8>, a: int, b: int, c: int)
    requires
        0 <= a <= b <= c <= s.len(),
    ensures
        s.subrange(a, b) + s.subrange(b, c) == s.subrange(a, c),
{
    assert(s.subrange(a, b) + s.subrange(b, c) =~= s.subrange(a, c));
}

/// The bytes of the 16-bit value at offset `i` of `s` are the bytes there.
pub proof fn lemma_be16_of_u16_at(s: Seq<u8>, i: int)
    requires
        0 <= i,
        i + 2 <= s.len(),
    ensures
        be16(u16_at(s, i)) == s.subrange(i, i + 2),
{
    let v = u16_at(s, i);
    assert(v == s[i] as int * 0x100 + s[i + 1] as int);
    assert(v / 0x100 == s[i]);
    assert(v % 0x100 == s[i + 1]);
    assert(be16(v) =~= s.subrange(i, i + 2));
}

/// The bytes of the 32-bit value at offset `i` of `s` are the bytes there.
pub proof fn lemma_be32_of_u32_at(s: Seq<u8>, i: int)
    requires
        0 <= i,
        i + 4 <= s.len(),
    ensures
        be32(u32_at(s, i)) == s.subrange(i, i + 4),
{
    let v = u32_at(s, i);
    let hi = u16_at(s, i);
    let lo = u16_at(s, i + 2);
    assert(v == hi as int * 0x1_0000 + lo as int);
    assert(v / 0x1_0000 == hi);
    assert(v % 0x1_0000 == lo);
    lemma_be16_of_u16_at(s, i);
    lemma_be16_of_u16_at(s, i + 2);
    assert(be32(v) =~= s.subrange(i, i + 4));
}

/// The bytes of the 64-bit value at offset `i` of `s` are the bytes there.
pub proof fn lemma_be64_of_u64_at(s: Seq<u8>, i: int)
    requires
        0 <= i,
        i + 8 <= s.len(),
    ensures
        be64(u64_at(s, i)) == s.subrange(i, i + 8),
{
    let v = u64_at(s, i);
    let hi = u32_at(s, i);
    let lo = u32_at(s, i + 4);
    assert(v == hi as int * 0x1_0000_0000 + lo as int);
    assert(v / 0x1_0000_0000 == hi);
    assert(v % 0x1_0000_0000 == lo);
    lemma_be32_of_u32_at(s, i);
    lemma_be32_of_u32_at(s, i + 4);
    assert(be64(v) =~= s.subrange(i, i + 8));
}

/// Appends one byte.
pub(crate) fn put_u8(out: &mut Vec<u8>, v: u8)
    ensures
        final(out)@ == old(out)@ + seq![v],
{
    out.push(v);
    assert(out@ =~= old(out)@ + seq![v]);
}

/// Appends a 16-bit value, most significant byte first.
pub(crate) fn put_u16(out: &mut Vec<u8>, v: u16)
    ensures
        final(out)@ == old(out)@ + be16(v),
{
    out.push((v / 0x100) as u8);
    out.push((v % 0x100) as u8);
    assert(out@ =~= old(out)@ + be16(v));
}

/// Appends a 32-bit value, most significant byte first.
pub(crate) fn put_u32(out: &mut Vec<u8>, v: u32)
    ensures
        final(out)@ == old(out)@ + be32(v),
{
    put_u16(out, (v / 0x1_0000) as u16);
    put_u16(out, (v % 0x1_0000) as u16);
    assert(out@ =~= old(out)@ + be32(v));
}

/// Appends a 64-bit value, most significant byte first.
pub(crate) fn put_u64(out: &mut Vec<u8>, v: u64)
    ensures
        final(out)@ == old(out)@ + be64(v),
{
    put_u32(out, (v / 0x1_0000_0000) as u32);
    put_u32(out, (v % 0x1_0000_0000) as u32);
    assert(out@ =~= old(out)@ + be64(v));
}

/// Reads the 16-bit value at offset `pos`.
pub(crate) fn get_u16(buf: &[u8], pos: usize) -> (r: u16)
    requires
        pos + 2 <= buf@.len(),
    ensures
        r == u16_at(buf@, pos as int),
{
    (buf[pos] as u16) * 0x100 + buf[pos + 1] as u16
}

/// Reads the 32-bit value at offset `pos`.
pub(crate) fn get_u32(buf: &[u8], pos: usize) -> (r: u32)
    requires
        pos + 4 <= buf@.len(),
    ensures
        r == u32_at(buf@, pos as int),
{
    // A slice's length is a usize, so the offsets below cannot overflow.
    let _len = buf.len();
    let hi = get_u16(buf, pos);
    let lo = get_u16(buf, pos + 2);
    (hi as u32) * 0x1_0000 + lo as u32
}

/// Reads the 64-bit value at offset `pos`.
pub(crate) fn get_u64(buf: &[u8], pos: usize) -> (r: u64)
    requires
        pos + 8 <= buf@.len(),
    ensures
        r == u64_at(buf@, pos as int),
{
    // A slice's length is a usize, so the offsets below cannot overflow.
    let _len = buf.len();
    let hi = get_u32(buf, pos);
    let lo = get_u32(buf, pos + 4);
    (hi as u64) * 0x1_0000_0000 + lo as u64
}

} // verus!
