//! Little-endian encoding of fixed-width integers.
//!
//! Every record that crosses a socket is laid out field by field, least
//! significant byte first. The spec functions here say what those bytes are
//! in plain arithmetic; the executable functions compute them.

use vstd::prelude::*;

verus! {

/// The two bytes of `x`, least significant first.
pub open spec fn u16_le(x: u16) -> Seq<u8> {
    seq![(x % 0x100) as u8, (x / 0x100) as u8]
}

/// The four bytes of `x`, least significant first.
pub open spec fn u32_le(x: u32) -> Seq<u8> {
    seq![
        (x % 0x100) as u8,
        ((x / 0x100) % 0x100) as u8,
        ((x / 0x1_0000) % 0x100) as u8,
        (x / 0x100_0000) as u8,
    ]
}

/// The eight bytes of `x`, least significant first.
pub open spec fn u64_le(x: u64) -> Seq<u8> {
    u32_le((x % 0x1_0000_0000) as u32) + u32_le((x / 0x1_0000_0000) as u32)
}

/// The two's-complement bit pattern of `x`, read as an unsigned number.
pub open spec fn i32_bits(x: i32) -> u32 {
    if x >= 0 {
        x as u32
    } else {
        (x + 0x1_0000_0000) as u32
    }
}

/// The two's-complement bit pattern of `x`, read as an unsigned number.
pub open spec fn i64_bits(x: i64) -> u64 {
    if x >= 0 {
        x as u64
    } else {
        (x + 0x1_0000_0000_0000_0000) as u64
    }
}

/// The signed number whose two's-complement bit pattern is `u`.
pub open spec fn i32_of_bits(u: u32) -> i32 {
    if u < 0x8000_0000 {
        u as i32
    } else {
        (u - 0x1_0000_0000) as i32
    }
}

/// The signed number whose two's-complement bit pattern is `u`.
pub open spec fn i64_of_bits(u: u64) -> i64 {
    if u < 0x8000_0000_0000_0000 {
        u as i64
    } else {
        (u - 0x1_0000_0000_0000_0000) as i64
    }
}

/// The four bytes of `x` in two's complement, least significant first.
pub open spec fn i32_le(x: i32) -> Seq<u8> {
    u32_le(i32_bits(x))
}

/// The eight bytes of `x` in two's complement, least significant first.
pub open spec fn i64_le(x: i64) -> Seq<u8> {
    u64_le(i64_bits(x))
}

/// The number that the first two bytes of `s` encode.
pub open spec fn u16_of_le(s: Seq<u8>) -> u16 {
    (s[0] + s[1] * 0x100) as u16
}

/// The number that the first four bytes of `s` encode.
pub open spec fn u32_of_le(s: Seq<u8>) -> u32 {
    (s[0] + s[1] * 0x100 + s[2] * 0x1_0000 + s[3] * 0x100_0000) as u32
}

/// The number that the first eight bytes of `s` encode.
pub open spec fn u64_of_le(s: Seq<u8>) -> u64 {
    (u32_of_le(s.subrange(0, 4)) + u32_of_le(s.subrange(4, 8)) * 0x1_0000_0000) as u64
}

/// The signed number that the first four bytes of `s` encode.
pub open spec fn i32_of_le(s: Seq<u8>) -> i32 {
    i32_of_bits(u32_of_le(s))
}

/// The signed number that the first eight bytes of `s` encode.
pub open spec fn i64_of_le(s: Seq<u8>) -> i64 {
    i64_of_bits(u64_of_le(s))
}

/// `n` zero bytes.
pub open spec fn zero_bytes(n: nat) -> Seq<u8> {
    Seq::new(n, |i: int| 0u8)
}

/// `s` with the bytes from `at` on replaced by `patch`.
pub open spec fn splice(s: Seq<u8>, at: int, patch: Seq<u8>) -> Seq<u8> {
    s.subrange(0, at) + patch + s.subrange(at + patch.len(), s.len() as int)
}

/// Four bytes, put together and taken apart again, are the same four bytes.
proof fn lemma_compose4(b0: u8, b1: u8, b2: u8, b3: u8)
    ensures
        ({
            let x = b0 as u32 + b1 as u32 * 0x100 + b2 as u32 * 0x1_0000 + b3 as u32 * 0x100_0000;
            &&& x <= 0xffff_ffff
            &&& x % 0x100 == b0
            &&& (x / 0x100) % 0x100 == b1
            &&& (x / 0x1_0000) % 0x100 == b2
            &&& x / 0x100_0000 == b3
        }),
{
    assert({
        let x = (b0 as u32 + b1 as u32 * 0x100 + b2 as u32 * 0x1_0000 + b3 as u32 * 0x100_0000);
        &&& x <= 0xffff_ffff
        &&& x % 0x100 == b0
        &&& (x / 0x100) % 0x100 == b1
        &&& (x / 0x1_0000) % 0x100 == b2
        &&& x / 0x100_0000 == b3
    }) by (bit_vector);
}

/// A number is the sum of its four bytes, each at its place.
proof fn lemma_split4(x: u32)
    ensures
        x == x % 0x100 + ((x / 0x100) % 0x100) * 0x100 + ((x / 0x1_0000) % 0x100) * 0x1_0000 + (x
            / 0x100_0000) * 0x100_0000,
        x / 0x100_0000 < 0x100,
{
    assert(x == x % 0x100 + ((x / 0x100) % 0x100) * 0x100 + ((x / 0x1_0000) % 0x100) * 0x1_0000 + (x
        / 0x100_0000) * 0x100_0000 && x / 0x100_0000 < 0x100) by (bit_vector);
}

/// A number is the sum of its two halves, and each half fits in 32 bits.
proof fn lemma_split8(x: u64)
    ensures
        x == x % 0x1_0000_0000 + (x / 0x1_0000_0000) * 0x1_0000_0000,
        x / 0x1_0000_0000 <= 0xffff_ffff,
{
}

proof fn lemma_u32_decode_encode(b: u32)
    ensures
        u32_le(b).len() == 4,
        u32_of_le(u32_le(b)) == b,
{
    lemma_split4(b);
}

proof fn lemma_u64_decode_encode(c: u64)
    ensures
        u64_le(c).len() == 8,
        u64_of_le(u64_le(c)) == c,
{
    let lo = (c % 0x1_0000_0000) as u32;
    let hi = (c / 0x1_0000_0000) as u32;
    lemma_split8(c);
    assert(u64_le(c).subrange(0, 4) =~= u32_le(lo));
    assert(u64_le(c).subrange(4, 8) =~= u32_le(hi));
    lemma_u32_decode_encode(lo);
    lemma_u32_decode_encode(hi);
}

/// Decoding undoes encoding, for each width.
pub proof fn lemma_decode_encode(a: u16, b: u32, c: u64, d: i32, e: i64)
    ensures
        u16_le(a).len() == 2,
        u32_le(b).len() == 4,
        u64_le(c).len() == 8,
        i32_le(d).len() == 4,
        i64_le(e).len() == 8,
        u16_of_le(u16_le(a)) == a,
        u32_of_le(u32_le(b)) == b,
        u64_of_le(u64_le(c)) == c,
        i32_of_le(i32_le(d)) == d,
        i64_of_le(i64_le(e)) == e,
{
    lemma_u32_decode_encode(b);
    lemma_u32_decode_encode(i32_bits(d));
    lemma_u64_decode_encode(c);
    lemma_u64_decode_encode(i64_bits(e));
}

proof fn lemma_compose2(b0: u8, b1: u8)
    ensures
        ({
            let x = b0 as u16 + b1 as u16 * 0x100;
            &&& x <= 0xffff
            &&& x % 0x100 == b0
            &&& x / 0x100 == b1
        }),
{
    assert({
        let x = (b0 as u16 + b1 as u16 * 0x100);
        &&& x <= 0xffff
        &&& x % 0x100 == b0
        &&& x / 0x100 == b1
    }) by (bit_vector);
}

proof fn lemma_compose8(lo: u32, hi: u32)
    ensures
        ({
            let x = lo as u64 + hi as u64 * 0x1_0000_0000;
            &&& x <= 0xffff_ffff_ffff_ffff
            &&& x % 0x1_0000_0000 == lo
            &&& x / 0x1_0000_0000 == hi
        }),
{
    assert({
        let x = (lo as u64 + hi as u64 * 0x1_0000_0000);
        &&& x <= 0xffff_ffff_ffff_ffff
        &&& x % 0x1_0000_0000 == lo
        &&& x / 0x1_0000_0000 == hi
    }) by (bit_vector);
}

proof fn lemma_u16_encode_decode(s: Seq<u8>)
    requires
        s.len() == 2,
    ensures
        u16_le(u16_of_le(s)) == s,
{
    lemma_compose2(s[0], s[1]);
    assert(u16_le(u16_of_le(s)) =~= s);
}

proof fn lemma_u32_encode_decode(s: Seq<u8>)
    requires
        s.len() == 4,
    ensures
        u32_le(u32_of_le(s)) == s,
{
    lemma_compose4(s[0], s[1], s[2], s[3]);
    assert(u32_le(u32_of_le(s)) =~= s);
}

proof fn lemma_u64_encode_decode(s: Seq<u8>)
    requires
        s.len() == 8,
    ensures
        u64_le(u64_of_le(s)) == s,
{
    let lo = s.subrange(0, 4);
    let hi = s.subrange(4, 8);
    lemma_u32_encode_decode(lo);
    lemma_u32_encode_decode(hi);
    lemma_compose8(u32_of_le(lo), u32_of_le(hi));
    let x = u64_of_le(s);
    assert(u64_le(x) == u32_le(u32_of_le(lo)) + u32_le(u32_of_le(hi)));
    assert(lo + hi =~= s);
}

/// Encoding undoes decoding: a byte string of the right length is the
/// encoding of the number it decodes to.
pub proof fn lemma_encode_decode(s: Seq<u8>)
    ensures
        s.len() == 2 ==> u16_le(u16_of_le(s)) == s,
        s.len() == 4 ==> u32_le(u32_of_le(s)) == s && i32_le(i32_of_le(s)) == s,
        s.len() == 8 ==> u64_le(u64_of_le(s)) == s && i64_le(i64_of_le(s)) == s,
{
    if s.len() == 2 {
        lemma_u16_encode_decode(s);
    }
    if s.len() == 4 {
        lemma_u32_encode_decode(s);
        assert(i32_bits(i32_of_bits(u32_of_le(s))) == u32_of_le(s));
    }
    if s.len() == 8 {
        lemma_u64_encode_decode(s);
        assert(i64_bits(i64_of_bits(u64_of_le(s))) == u64_of_le(s));
    }
}

/// A field that is appended to a record lies behind it, and leaves what is
/// in the record where it was.
pub proof fn lemma_append_field(record: Seq<u8>, field: Seq<u8>)
    ensures
        (record + field).len() == record.len() + field.len(),
        (record + field).subrange(record.len() as int, (record.len() + field.len()) as int)
            == field,
        (record + field).subrange(0, record.len() as int) == record,
        forall|i: int, j: int|
            0 <= i <= j <= record.len() ==> #[trigger] (record + field).subrange(i, j)
                == record.subrange(i, j),
{
    assert((record + field).subrange(record.len() as int, (record.len() + field.len()) as int)
        =~= field);
    assert((record + field).subrange(0, record.len() as int) =~= record);
    assert forall|i: int, j: int| 0 <= i <= j <= record.len() implies #[trigger] (record
        + field).subrange(i, j) == record.subrange(i, j) by {
        assert((record + field).subrange(i, j) =~= record.subrange(i, j));
    }
}

/// The bytes of `x`, least significant first.
pub fn u16_to_le(x: u16) -> (b: [u8; 2])
    ensures
        b@ == u16_le(x),
{
    [(x % 0x100) as u8, (x / 0x100) as u8]
}

/// The bytes of `x`, least significant first.
pub fn u32_to_le(x: u32) -> (b: [u8; 4])
    ensures
        b@ == u32_le(x),
{
    [
        (x % 0x100) as u8,
        ((x / 0x100) % 0x100) as u8,
        ((x / 0x1_0000) % 0x100) as u8,
        (x / 0x100_0000) as u8,
    ]
}

/// The bytes of `x`, least significant first.
pub fn u64_to_le(x: u64) -> (b: [u8; 8])
    ensures
        b@ == u64_le(x),
{
    let lo = u32_to_le((x % 0x1_0000_0000) as u32);
    let hi = u32_to_le((x / 0x1_0000_0000) as u32);
    [lo[0], lo[1], lo[2], lo[3], hi[0], hi[1], hi[2], hi[3]]
}

/// The bit pattern of `x` as an unsigned number.
pub fn i32_to_bits(x: i32) -> (u: u32)
    ensures
        u == i32_bits(x),
{
    if x >= 0 {
        x as u32
    } else {
        (x as i64 + 0x1_0000_0000) as u32
    }
}

/// The bit pattern of `x` as an unsigned number.
pub fn i64_to_bits(x: i64) -> (u: u64)
    ensures
        u == i64_bits(x),
{
    if x >= 0 {
        x as u64
    } else {
        (x as i128 + 0x1_0000_0000_0000_0000) as u64
    }
}

/// The signed number with the bit pattern `u`.
pub fn i32_from_bits(u: u32) -> (x: i32)
    ensures
        x == i32_of_bits(u),
{
    if u < 0x8000_0000 {
        u as i32
    } else {
        (u as i64 - 0x1_0000_0000) as i32
    }
}

/// The signed number with the bit pattern `u`.
pub fn i64_from_bits(u: u64) -> (x: i64)
    ensures
        x == i64_of_bits(u),
{
    if u < 0x8000_0000_0000_0000 {
        u as i64
    } else {
        (u as i128 - 0x1_0000_0000_0000_0000) as i64
    }
}

/// The bytes of `x` in two's complement, least significant first.
pub fn i32_to_le(x: i32) -> (b: [u8; 4])
    ensures
        b@ == i32_le(x),
{
    u32_to_le(i32_to_bits(x))
}

/// The bytes of `x` in two's complement, least significant first.
pub fn i64_to_le(x: i64) -> (b: [u8; 8])
    ensures
        b@ == i64_le(x),
{
    u64_to_le(i64_to_bits(x))
}

/// Reads the two bytes of `buf` that start at `at`.
pub fn read_u16_le(buf: &[u8], at: usize) -> (x: u16)
    requires
        at + 2 <= buf.len(),
    ensures
        x == u16_of_le(buf@.subrange(at as int, at + 2)),
{
    buf[at] as u16 + buf[at + 1] as u16 * 0x100
}

/// Reads the four bytes of `buf` that start at `at`.
pub fn read_u32_le(buf: &[u8], at: usize) -> (x: u32)
    requires
        at + 4 <= buf.len(),
    ensures
        x == u32_of_le(buf@.subrange(at as int, at + 4)),
{
    buf[at] as u32 + buf[at + 1] as u32 * 0x100 + buf[at + 2] as u32 * 0x1_0000 + buf[at + 3] as u32
        * 0x100_0000
}

/// Reads the eight bytes of `buf` that start at `at`.
pub fn read_u64_le(buf: &[u8], at: usize) -> (x: u64)
    requires
        at + 8 <= buf.len(),
    ensures
        x == u64_of_le(buf@.subrange(at as int, at + 8)),
{
    let lo = read_u32_le(buf, at);
    let hi = read_u32_le(buf, at + 4);
    proof {
        let s = buf@.subrange(at as int, at + 8);
        assert(s.subrange(0, 4) =~= buf@.subrange(at as int, at + 4));
        assert(s.subrange(4, 8) =~= buf@.subrange(at + 4, at + 8));
    }
    lo as u64 + hi as u64 * 0x1_0000_0000
}

/// Reads the four bytes of `buf` that start at `at` as a signed number.
pub fn read_i32_le(buf: &[u8], at: usize) -> (x: i32)
    requires
        at + 4 <= buf.len(),
    ensures
        x == i32_of_le(buf@.subrange(at as int, at + 4)),
{
    i32_from_bits(read_u32_le(buf, at))
}

/// Reads the eight bytes of `buf` that start at `at` as a signed number.
pub fn read_i64_le(buf: &[u8], at: usize) -> (x: i64)
    requires
        at + 8 <= buf.len(),
    ensures
        x == i64_of_le(buf@.subrange(at as int, at + 8)),
{
    i64_from_bits(read_u64_le(buf, at))
}

/// Overwrites the bytes of `buf` from `at` on with `src`.
pub fn put_bytes<const N: usize>(buf: &mut [u8; N], at: usize, src: &[u8])
    requires
        at + src.len() <= N,
    ensures
        final(buf)@ == splice(old(buf)@, at as int, src@),
{
    let ghost before = buf@;
    let mut i: usize = 0;
    while i < src.len()
        invariant
            i <= src.len(),
            at + src.len() <= N,
            buf@.len() == N,
            before.len() == N,
            forall|k: int| 0 <= k < N && !(at <= k < at + i) ==> buf@[k] == before[k],
            forall|k: int| 0 <= k < i ==> buf@[at + k] == src@[k],
        decreases src.len() - i,
    {
        buf[at + i] = src[i];
        i += 1;
    }
    assert(buf@ =~= splice(before, at as int, src@));
}

/// Appends `src` to `out`.
pub fn append_bytes(out: &mut Vec<u8>, src: &[u8])
    ensures
        final(out)@ == old(out)@ + src@,
{
    let ghost before = out@;
    let mut i: usize = 0;
    while i < src.len()
        invariant
            i <= src.len(),
            out@ == before + src@.subrange(0, i as int),
        decreases src.len() - i,
    {
        out.push(src[i]);
        i += 1;
        assert(out@ =~= before + src@.subrange(0, i as int));
    }
    assert(src@.subrange(0, src.len() as int) =~= src@);
}

} // verus!
