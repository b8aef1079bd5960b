//! Little-endian integers in byte buffers.
//!
//! The records exchanged with the kernel are plain C structures. Their
//! fields are laid down here one by one, least significant byte first, with
//! negative numbers in two's complement.

use vstd::prelude::*;

verus! {

/// The two bytes of `x`, least significant first.
pub open spec fn u16_le(x: u16) -> Seq<u8> {
    seq![(x % 256) as u8, (x / 256) as u8]
}

/// The four bytes of `x`, least significant first.
pub open spec fn u32_le(x: u32) -> Seq<u8> {
    seq![
        (x % 256) as u8,
        (x / 0x100 % 256) as u8,
        (x / 0x1_0000 % 256) as u8,
        (x / 0x100_0000) as u8,
    ]
}

/// The eight bytes of `x`, least significant first.
pub open spec fn u64_le(x: u64) -> Seq<u8> {
    u32_le((x % 0x1_0000_0000) as u32) + u32_le((x / 0x1_0000_0000) as u32)
}

/// The unsigned number with the bit pattern of `v`.
pub open spec fn i16_bits(v: i16) -> u16 {
    if v >= 0 {
        v as u16
    } else {
        (v + 0x1_0000) as u16
    }
}

/// The unsigned number with the bit pattern of `v`.
pub open spec fn i32_bits(v: i32) -> u32 {
    if v >= 0 {
        v as u32
    } else {
        (v + 0x1_0000_0000) as u32
    }
}

/// The unsigned number with the bit pattern of `v`.
pub open spec fn i64_bits(v: i64) -> u64 {
    if v >= 0 {
        v as u64
    } else {
        (v + 0x1_0000_0000_0000_0000) as u64
    }
}

/// The four bytes of `v` in two's complement, least significant first.
pub open spec fn i32_le(v: i32) -> Seq<u8> {
    u32_le(i32_bits(v))
}

/// The eight bytes of `v` in two's complement, least significant first.
pub open spec fn i64_le(v: i64) -> Seq<u8> {
    u64_le(i64_bits(v))
}

/// The number whose two bytes stand at `at` in `s`.
pub open spec fn u16_at(s: Seq<u8>, at: int) -> u16 {
    (s[at] + 0x100 * s[at + 1]) as u16
}

/// The number whose four bytes stand at `at` in `s`.
pub open spec fn u32_at(s: Seq<u8>, at: int) -> u32 {
    (s[at] + 0x100 * s[at + 1] + 0x1_0000 * s[at + 2] + 0x100_0000 * s[at + 3]) as u32
}

/// The number whose eight bytes stand at `at` in `s`.
pub open spec fn u64_at(s: Seq<u8>, at: int) -> u64 {
    (u32_at(s, at) + 0x1_0000_0000 * u32_at(s, at + 4)) as u64
}

/// The signed number with the bit pattern of `u`.
pub open spec fn bits_i16(u: u16) -> i16 {
    if u < 0x8000 {
        u as i16
    } else {
        (u - 0x1_0000) as i16
    }
}

/// The signed number with the bit pattern of `u`.
pub open spec fn bits_i32(u: u32) -> i32 {
    if u < 0x8000_0000 {
        u as i32
    } else {
        (u - 0x1_0000_0000) as i32
    }
}

/// The signed number with the bit pattern of `u`.
pub open spec fn bits_i64(u: u64) -> i64 {
    if u < 0x8000_0000_0000_0000 {
        u as i64
    } else {
        (u - 0x1_0000_0000_0000_0000) as i64
    }
}

/// The signed number whose two bytes stand at `at` in `s`.
pub open spec fn i16_at(s: Seq<u8>, at: int) -> i16 {
    bits_i16(u16_at(s, at))
}

/// The signed number whose four bytes stand at `at` in `s`.
pub open spec fn i32_at(s: Seq<u8>, at: int) -> i32 {
    bits_i32(u32_at(s, at))
}

/// The signed number whose eight bytes stand at `at` in `s`.
pub open spec fn i64_at(s: Seq<u8>, at: int) -> i64 {
    bits_i64(u64_at(s, at))
}

/// `n` zero bytes.
pub open spec fn zeros(n: nat) -> Seq<u8> {
    Seq::new(n, |i: int| 0u8)
}

/// Reading back what `u16_le` wrote gives the number that was written.
pub proof fn lemma_u16_round_trip(x: u16, before: Seq<u8>, after: Seq<u8>)
    ensures
        u16_at(before + u16_le(x) + after, before.len() as int) == x,
{
    let s = before + u16_le(x) + after;
    let at = before.len() as int;
    assert(s[at] == u16_le(x)[0]);
    assert(s[at + 1] == u16_le(x)[1]);
}

/// Reading back what `u32_le` wrote gives the number that was written.
pub proof fn lemma_u32_round_trip(x: u32, before: Seq<u8>, after: Seq<u8>)
    ensures
        u32_at(before + u32_le(x) + after, before.len() as int) == x,
{
    let s = before + u32_le(x) + after;
    let at = before.len() as int;
    assert(s[at] == u32_le(x)[0]);
    assert(s[at + 1] == u32_le(x)[1]);
    assert(s[at + 2] == u32_le(x)[2]);
    assert(s[at + 3] == u32_le(x)[3]);
}

/// Reading back what `u64_le` wrote gives the number that was written.
pub proof fn lemma_u64_round_trip(x: u64, before: Seq<u8>, after: Seq<u8>)
    ensures
        u64_at(before + u64_le(x) + after, before.len() as int) == x,
{
    let low = (x % 0x1_0000_0000) as u32;
    let high = (x / 0x1_0000_0000) as u32;
    let s = before + u64_le(x) + after;
    let at = before.len() as int;
    assert(s =~= before + u32_le(low) + (u32_le(high) + after));
    lemma_u32_round_trip(low, before, u32_le(high) + after);
    assert(s =~= (before + u32_le(low)) + u32_le(high) + after);
    lemma_u32_round_trip(high, before + u32_le(low), after);
}

/// What is read inside a buffer does not change when bytes are appended:
/// this holds of a read of `width` bytes or fewer that ends inside `s`.
pub proof fn lemma_read_in_prefix(s: Seq<u8>, t: Seq<u8>, at: int, width: int)
    requires
        0 <= at,
        at + width <= s.len(),
    ensures
        width >= 2 ==> u16_at(s + t, at) == u16_at(s, at),
        width >= 4 ==> u32_at(s + t, at) == u32_at(s, at),
        width >= 8 ==> u64_at(s + t, at) == u64_at(s, at),
{
    assert forall|i: int| 0 <= i < s.len() implies (s + t)[i] == s[i] by {}
}

/// A number that was appended is read back at the place where it begins.
pub proof fn lemma_read_appended(s: Seq<u8>, a: u16, b: u32, c: u64)
    ensures
        u16_at(s + u16_le(a), s.len() as int) == a,
        u32_at(s + u32_le(b), s.len() as int) == b,
        u64_at(s + u64_le(c), s.len() as int) == c,
        (s + u16_le(a)).len() == s.len() + 2,
        (s + u32_le(b)).len() == s.len() + 4,
        (s + u64_le(c)).len() == s.len() + 8,
{
    let none = Seq::<u8>::empty();
    assert(s + u16_le(a) =~= s + u16_le(a) + none);
    lemma_u16_round_trip(a, s, none);
    assert(s + u32_le(b) =~= s + u32_le(b) + none);
    lemma_u32_round_trip(b, s, none);
    assert(s + u64_le(c) =~= s + u64_le(c) + none);
    lemma_u64_round_trip(c, s, none);
}

/// The bit pattern of a signed number names that number.
pub proof fn lemma_bits_round_trip(a: i16, b: i32, c: i64)
    ensures
        bits_i16(i16_bits(a)) == a,
        bits_i32(i32_bits(b)) == b,
        bits_i64(i64_bits(c)) == c,
{
}

/// Appends the two bytes of `x`.
pub fn put_u16(buf: &mut Vec<u8>, x: u16)
    ensures
        final(buf)@ == old(buf)@ + u16_le(x),
{
    buf.push((x % 256) as u8);
    buf.push((x / 256) as u8);
    assert(buf@ =~= old(buf)@ + u16_le(x));
}

/// Appends the four bytes of `x`.
pub fn put_u32(buf: &mut Vec<u8>, x: u32)
    ensures
        final(buf)@ == old(buf)@ + u32_le(x),
{
    buf.push((x % 256) as u8);
    buf.push((x / 0x100 % 256) as u8);
    buf.push((x / 0x1_0000 % 256) as u8);
    buf.push((x / 0x100_0000) as u8);
    assert(buf@ =~= old(buf)@ + u32_le(x));
}

/// Appends the eight bytes of `x`.
pub fn put_u64(buf: &mut Vec<u8>, x: u64)
    ensures
        final(buf)@ == old(buf)@ + u64_le(x),
{
    put_u32(buf, (x % 0x1_0000_0000) as u32);
    put_u32(buf, (x / 0x1_0000_0000) as u32);
    assert(buf@ =~= old(buf)@ + u64_le(x));
}

/// Gives the unsigned number with the bit pattern of `v`.
pub fn bits_of_i32(v: i32) -> (bits: u32)
    ensures
        bits == i32_bits(v),
{
    if v >= 0 {
        v as u32
    } else {
        (v as i64 + 0x1_0000_0000) as u32
    }
}

/// Appends the four bytes of `v` in two's complement.
pub fn put_i32(buf: &mut Vec<u8>, v: i32)
    ensures
        final(buf)@ == old(buf)@ + i32_le(v),
{
    put_u32(buf, bits_of_i32(v));
}

/// Appends the eight bytes of `v` in two's complement.
pub fn put_i64(buf: &mut Vec<u8>, v: i64)
    ensures
        final(buf)@ == old(buf)@ + i64_le(v),
{
    let bits: u64 = if v >= 0 {
        v as u64
    } else {
        (v as i128 + 0x1_0000_0000_0000_0000) as u64
    };
    put_u64(buf, bits);
}

/// Appends `n` zero bytes.
pub fn put_zeros(buf: &mut Vec<u8>, n: usize)
    ensures
        final(buf)@ == old(buf)@ + zeros(n as nat),
{
    let mut i: usize = 0;
    while i < n
        invariant
            i <= n,
            buf@ == old(buf)@ + zeros(i as nat),
        decreases n - i,
    {
        buf.push(0u8);
        i += 1;
        assert(buf@ =~= old(buf)@ + zeros(i as nat));
    }
}

/// Appends the bytes of `src`.
pub fn put_bytes(buf: &mut Vec<u8>, src: &[u8])
    ensures
        final(buf)@ == old(buf)@ + src@,
{
    let mut i: usize = 0;
    while i < src.len()
        invariant
            i <= src@.len(),
            buf@ == old(buf)@ + src@.subrange(0, i as int),
        decreases src@.len() - i,
    {
        buf.push(src[i]);
        i += 1;
        assert(buf@ =~= old(buf)@ + src@.subrange(0, i as int));
    }
    assert(src@.subrange(0, src@.len() as int) =~= src@);
}

/// Appends the bytes of `src` from index `from` up to, not including, `to`.
pub fn put_range(buf: &mut Vec<u8>, src: &[u8], from: usize, to: usize)
    requires
        from <= to <= src@.len(),
    ensures
        final(buf)@ == old(buf)@ + src@.subrange(from as int, to as int),
{
    let mut i: usize = from;
    while i < to
        invariant
            from <= i <= to <= src@.len(),
            buf@ == old(buf)@ + src@.subrange(from as int, i as int),
        decreases to - i,
    {
        buf.push(src[i]);
        i += 1;
        assert(buf@ =~= old(buf)@ + src@.subrange(from as int, i as int));
    }
}

/// Reads the number whose two bytes stand at `at`.
pub fn get_u16(bytes: &[u8], at: usize) -> (x: u16)
    requires
        at + 2 <= bytes@.len(),
    ensures
        x == u16_at(bytes@, at as int),
{
    bytes[at] as u16 + 0x100 * (bytes[at + 1] as u16)
}

/// Reads the number whose four bytes stand at `at`.
pub fn get_u32(bytes: &[u8], at: usize) -> (x: u32)
    requires
        at + 4 <= bytes@.len(),
    ensures
        x == u32_at(bytes@, at as int),
{
    bytes[at] as u32 + 0x100 * (bytes[at + 1] as u32) + 0x1_0000 * (bytes[at + 2] as u32)
        + 0x100_0000 * (bytes[at + 3] as u32)
}

/// Reads the number whose eight bytes stand at `at`.
pub fn get_u64(bytes: &[u8], at: usize) -> (x: u64)
    requires
        at + 8 <= bytes@.len(),
    ensures
        x == u64_at(bytes@, at as int),
{
    assert(bytes@.len() == bytes.len());
    let low: u32 = get_u32(bytes, at);
    let high: u32 = get_u32(bytes, at + 4);
    low as u64 + 0x1_0000_0000 * (high as u64)
}

/// Reads the signed number whose two bytes stand at `at`.
pub fn get_i16(bytes: &[u8], at: usize) -> (v: i16)
    requires
        at + 2 <= bytes@.len(),
    ensures
        v == i16_at(bytes@, at as int),
{
    let u: u16 = get_u16(bytes, at);
    if u < 0x8000 {
        u as i16
    } else {
        (u as i32 - 0x1_0000) as i16
    }
}

/// Reads the signed number whose four bytes stand at `at`.
pub fn get_i32(bytes: &[u8], at: usize) -> (v: i32)
    requires
        at + 4 <= bytes@.len(),
    ensures
        v == i32_at(bytes@, at as int),
{
    let u: u32 = get_u32(bytes, at);
    if u < 0x8000_0000 {
        u as i32
    } else {
        (u as i64 - 0x1_0000_0000) as i32
    }
}

/// Reads the signed number whose eight bytes stand at `at`.
pub fn get_i64(bytes: &[u8], at: usize) -> (v: i64)
    requires
        at + 8 <= bytes@.len(),
    ensures
        v == i64_at(bytes@, at as int),
{
    let u: u64 = get_u64(bytes, at);
    if u < 0x8000_0000_0000_0000 {
        u as i64
    } else {
        (u as i128 - 0x1_0000_0000_0000_0000) as i64
    }
}

} // verus!
