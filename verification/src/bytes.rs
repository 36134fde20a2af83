//! Fixed-width integers as bytes, and copies into byte buffers.

use vstd::prelude::*;

verus! {

/// The two bytes of `x`, low byte first.
pub open spec fn u16_le(x: u16) -> Seq<u8> {
    seq![(x % 256) as u8, (x / 256) as u8]
}

/// The two bytes of `x`, high byte first.
pub open spec fn u16_be(x: u16) -> Seq<u8> {
    seq![(x / 256) as u8, (x % 256) as u8]
}

/// The four bytes of `x`, low byte first.
pub open spec fn u32_le(x: u32) -> Seq<u8> {
    seq![
        (x % 256) as u8,
        (x / 256 % 256) as u8,
        (x / 65536 % 256) as u8,
        (x / 16777216) as u8,
    ]
}

/// The four bytes of `x`, high byte first.
pub open spec fn u32_be(x: u32) -> Seq<u8> {
    seq![
        (x / 16777216) as u8,
        (x / 65536 % 256) as u8,
        (x / 256 % 256) as u8,
        (x % 256) as u8,
    ]
}

/// The number whose low byte is `lo` and whose high byte is `hi`.
pub open spec fn u16_of(lo: u8, hi: u8) -> u16 {
    (lo + 256 * hi) as u16
}

/// The number whose bytes are `b0` to `b3`, `b0` lowest.
pub open spec fn u32_of(b0: u8, b1: u8, b2: u8, b3: u8) -> u32 {
    (b0 + 256 * b1 + 65536 * b2 + 16777216 * b3) as u32
}

/// The two's complement bits of `x`.
pub open spec fn i16_bits(x: i16) -> u16 {
    (x as int % 0x1_0000) as u16
}

/// The number whose two's complement bits are `bits`.
pub open spec fn i16_of(bits: u16) -> i16 {
    if bits < 0x8000 {
        bits as i16
    } else {
        (bits - 0x1_0000) as i16
    }
}

/// `dst` with the bytes from `at` on replaced by `src`.
pub open spec fn overwrite(dst: Seq<u8>, at: int, src: Seq<u8>) -> Seq<u8> {
    Seq::new(
        dst.len(),
        |i: int|
            if at <= i < at + src.len() {
                src[i - at]
            } else {
                dst[i]
            },
    )
}

/// Reading back the bytes of a 16-bit number gives the number.
pub proof fn u16_round_trip(x: u16)
    ensures
        u16_of(u16_le(x)[0], u16_le(x)[1]) == x,
        u16_of(u16_be(x)[1], u16_be(x)[0]) == x,
{
}

/// Reading back the bytes of a 32-bit number gives the number.
pub proof fn u32_round_trip(x: u32)
    ensures
        u32_of(u32_le(x)[0], u32_le(x)[1], u32_le(x)[2], u32_le(x)[3]) == x,
        u32_of(u32_be(x)[3], u32_be(x)[2], u32_be(x)[1], u32_be(x)[0]) == x,
{
}

/// Reading back the bits of a signed number gives the number.
pub proof fn i16_round_trip(x: i16)
    ensures
        i16_of(i16_bits(x)) == x,
{
}

/// The two's complement bits of `x`.
pub fn i16_to_bits(x: i16) -> (r: u16)
    ensures
        r == i16_bits(x),
{
    if x >= 0 {
        x as u16
    } else {
        (x as i32 + 0x1_0000) as u16
    }
}

/// The number whose two's complement bits are `bits`.
pub fn i16_from_bits(bits: u16) -> (r: i16)
    ensures
        r == i16_of(bits),
{
    if bits < 0x8000 {
        bits as i16
    } else {
        (bits as i32 - 0x1_0000) as i16
    }
}

/// The low byte of `x`.
pub fn lo8(x: u16) -> (r: u8)
    ensures
        r == u16_le(x)[0],
{
    (x % 256) as u8
}

/// The high byte of `x`.
pub fn hi8(x: u16) -> (r: u8)
    ensures
        r == u16_le(x)[1],
{
    (x / 256) as u8
}

/// The bytes of `x`, low byte first.
pub fn u32_to_le(x: u32) -> (r: [u8; 4])
    ensures
        r@ == u32_le(x),
{
    [(x % 256) as u8, (x / 256 % 256) as u8, (x / 65536 % 256) as u8, (x / 16777216) as u8]
}

/// The number whose low byte is `lo` and whose high byte is `hi`.
pub fn u16_from(lo: u8, hi: u8) -> (r: u16)
    ensures
        r == u16_of(lo, hi),
{
    lo as u16 + 256 * hi as u16
}

/// The number whose bytes are `b0` to `b3`, `b0` lowest.
pub fn u32_from(b0: u8, b1: u8, b2: u8, b3: u8) -> (r: u32)
    ensures
        r == u32_of(b0, b1, b2, b3),
{
    b0 as u32 + 256 * b1 as u32 + 65536 * b2 as u32 + 16777216 * b3 as u32
}

/// Copy `src` into `dst`, starting at index `at`.
pub fn copy_into(dst: &mut [u8], at: usize, src: &[u8])
    requires
        at + src@.len() <= old(dst)@.len(),
    ensures
        final(dst)@ == overwrite(old(dst)@, at as int, src@),
{
    let end: usize = dst.len();
    let mut i: usize = 0;
    while i < src.len()
        invariant
            i <= src@.len(),
            at + src@.len() <= dst@.len(),
            end == dst@.len(),
            dst@ == overwrite(old(dst)@, at as int, src@.subrange(0, i as int)),
        decreases src@.len() - i,
    {
        dst[at + i] = src[i];
        i += 1;
        assert(dst@ =~= overwrite(old(dst)@, at as int, src@.subrange(0, i as int)));
    }
    assert(src@.subrange(0, src@.len() as int) =~= src@);
}

/// Append the bytes of `src` to `out`.
pub fn append(out: &mut Vec<u8>, src: &[u8])
    ensures
        final(out)@ == old(out)@ + src@,
{
    let mut i: usize = 0;
    while i < src.len()
        invariant
            i <= src@.len(),
            out@ == old(out)@ + src@.subrange(0, i as int),
        decreases src@.len() - i,
    {
        out.push(src[i]);
        i += 1;
        assert(out@ =~= old(out)@ + src@.subrange(0, i as int));
    }
    assert(src@.subrange(0, src@.len() as int) =~= src@);
}

} // verus!
