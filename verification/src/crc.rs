//! The cyclic redundancy checks of the wire formats: eight bits wide shifting
//! left, sixteen and thirty-two bits wide shifting right.

use vstd::prelude::*;

verus! {

/// One shift of a left-shifting 8-bit register with polynomial `poly`.
pub open spec fn crc8_bit(poly: u8, c: u8) -> u8 {
    if c & 0x80 != 0 {
        (c << 1) ^ poly
    } else {
        c << 1
    }
}

/// `n` shifts of the 8-bit register.
pub open spec fn crc8_bits(poly: u8, c: u8, n: nat) -> u8
    decreases n,
{
    if n == 0 {
        c
    } else {
        crc8_bit(poly, crc8_bits(poly, c, (n - 1) as nat))
    }
}

/// The 8-bit register after the bytes of `data`, from `init`.
pub open spec fn crc8_of(poly: u8, init: u8, data: Seq<u8>) -> u8
    decreases data.len(),
{
    if data.len() == 0 {
        init
    } else {
        crc8_bits(poly, crc8_of(poly, init, data.drop_last()) ^ data.last(), 8)
    }
}

/// One shift of a right-shifting 16-bit register with polynomial `poly`.
pub open spec fn crc16_bit(poly: u16, c: u16) -> u16 {
    if c & 1 != 0 {
        (c >> 1) ^ poly
    } else {
        c >> 1
    }
}

/// `n` shifts of the 16-bit register.
pub open spec fn crc16_bits(poly: u16, c: u16, n: nat) -> u16
    decreases n,
{
    if n == 0 {
        c
    } else {
        crc16_bit(poly, crc16_bits(poly, c, (n - 1) as nat))
    }
}

/// The 16-bit register after the bytes of `data`, from `init`.
pub open spec fn crc16_of(poly: u16, init: u16, data: Seq<u8>) -> u16
    decreases data.len(),
{
    if data.len() == 0 {
        init
    } else {
        crc16_bits(poly, crc16_of(poly, init, data.drop_last()) ^ (data.last() as u16), 8)
    }
}

/// One shift of a right-shifting 32-bit register with polynomial `poly`.
pub open spec fn crc32_bit(poly: u32, c: u32) -> u32 {
    if c & 1 != 0 {
        (c >> 1) ^ poly
    } else {
        c >> 1
    }
}

/// `n` shifts of the 32-bit register.
pub open spec fn crc32_bits(poly: u32, c: u32, n: nat) -> u32
    decreases n,
{
    if n == 0 {
        c
    } else {
        crc32_bit(poly, crc32_bits(poly, c, (n - 1) as nat))
    }
}

/// The 32-bit register after the bytes of `data`, from `init`.
pub open spec fn crc32_of(poly: u32, init: u32, data: Seq<u8>) -> u32
    decreases data.len(),
{
    if data.len() == 0 {
        init
    } else {
        crc32_bits(poly, crc32_of(poly, init, data.drop_last()) ^ (data.last() as u32), 8)
    }
}

/// The CRC-32 of firmware images (IEEE 802.3, polynomial 0xEDB88320).
pub open spec fn image_crc(data: Seq<u8>) -> u32 {
    !crc32_of(0xEDB8_8320, 0xFFFF_FFFF, data)
}

/// Run the 8-bit register over `data`.
pub fn crc8_run(poly: u8, init: u8, data: &[u8]) -> (r: u8)
    ensures
        r == crc8_of(poly, init, data@),
{
    let mut crc: u8 = init;
    let mut i: usize = 0;
    while i < data.len()
        invariant
            i <= data@.len(),
            crc == crc8_of(poly, init, data@.subrange(0, i as int)),
        decreases data@.len() - i,
    {
        let ghost before = crc;
        let byte: u8 = data[i];
        crc = crc ^ byte;
        let mut k: u8 = 0;
        while k < 8
            invariant
                k <= 8,
                crc == crc8_bits(poly, before ^ byte, k as nat),
            decreases 8 - k,
        {
            if crc & 0x80 != 0 {
                crc = (crc << 1) ^ poly;
            } else {
                crc = crc << 1;
            }
            k += 1;
        }
        i += 1;
        assert(data@.subrange(0, i as int).drop_last() =~= data@.subrange(0, i - 1));
    }
    assert(data@.subrange(0, data@.len() as int) =~= data@);
    crc
}

/// Run the 16-bit register over `data`.
pub fn crc16_run(poly: u16, init: u16, data: &[u8]) -> (r: u16)
    ensures
        r == crc16_of(poly, init, data@),
{
    let mut crc: u16 = init;
    let mut i: usize = 0;
    while i < data.len()
        invariant
            i <= data@.len(),
            crc == crc16_of(poly, init, data@.subrange(0, i as int)),
        decreases data@.len() - i,
    {
        let ghost before = crc;
        let byte: u8 = data[i];
        crc = crc ^ (byte as u16);
        let mut k: u8 = 0;
        while k < 8
            invariant
                k <= 8,
                crc == crc16_bits(poly, before ^ (byte as u16), k as nat),
            decreases 8 - k,
        {
            if crc & 1 != 0 {
                crc = (crc >> 1) ^ poly;
            } else {
                crc = crc >> 1;
            }
            k += 1;
        }
        i += 1;
        assert(data@.subrange(0, i as int).drop_last() =~= data@.subrange(0, i - 1));
    }
    assert(data@.subrange(0, data@.len() as int) =~= data@);
    crc
}

/// Run the 32-bit register over `data`.
pub fn crc32_run(poly: u32, init: u32, data: &[u8]) -> (r: u32)
    ensures
        r == crc32_of(poly, init, data@),
{
    let mut crc: u32 = init;
    let mut i: usize = 0;
    while i < data.len()
        invariant
            i <= data@.len(),
            crc == crc32_of(poly, init, data@.subrange(0, i as int)),
        decreases data@.len() - i,
    {
        let ghost before = crc;
        let byte: u8 = data[i];
        crc = crc ^ (byte as u32);
        let mut k: u8 = 0;
        while k < 8
            invariant
                k <= 8,
                crc == crc32_bits(poly, before ^ (byte as u32), k as nat),
            decreases 8 - k,
        {
            if crc & 1 != 0 {
                crc = (crc >> 1) ^ poly;
            } else {
                crc = crc >> 1;
            }
            k += 1;
        }
        i += 1;
        assert(data@.subrange(0, i as int).drop_last() =~= data@.subrange(0, i - 1));
    }
    assert(data@.subrange(0, data@.len() as int) =~= data@);
    crc
}

proof fn crc8_bits_injective(poly: u8, a: u8, b: u8, n: nat)
    requires
        poly & 1 == 1,
        a != b,
    ensures
        crc8_bits(poly, a, n) != crc8_bits(poly, b, n),
    decreases n,
{
    if n > 0 {
        crc8_bits_injective(poly, a, b, (n - 1) as nat);
        let x: u8 = crc8_bits(poly, a, (n - 1) as nat);
        let y: u8 = crc8_bits(poly, b, (n - 1) as nat);
        assert(crc8_bit(poly, x) != crc8_bit(poly, y)) by (bit_vector)
            requires
                poly & 1 == 1,
                x != y,
        ;
    }
}

proof fn crc16_bits_injective(poly: u16, a: u16, b: u16, n: nat)
    requires
        poly & 0x8000 == 0x8000,
        a != b,
    ensures
        crc16_bits(poly, a, n) != crc16_bits(poly, b, n),
    decreases n,
{
    if n > 0 {
        crc16_bits_injective(poly, a, b, (n - 1) as nat);
        let x: u16 = crc16_bits(poly, a, (n - 1) as nat);
        let y: u16 = crc16_bits(poly, b, (n - 1) as nat);
        assert(crc16_bit(poly, x) != crc16_bit(poly, y)) by (bit_vector)
            requires
                poly & 0x8000 == 0x8000,
                x != y,
        ;
    }
}

proof fn crc32_bits_injective(poly: u32, a: u32, b: u32, n: nat)
    requires
        poly & 0x8000_0000 == 0x8000_0000,
        a != b,
    ensures
        crc32_bits(poly, a, n) != crc32_bits(poly, b, n),
    decreases n,
{
    if n > 0 {
        crc32_bits_injective(poly, a, b, (n - 1) as nat);
        let x: u32 = crc32_bits(poly, a, (n - 1) as nat);
        let y: u32 = crc32_bits(poly, b, (n - 1) as nat);
        assert(crc32_bit(poly, x) != crc32_bit(poly, y)) by (bit_vector)
            requires
                poly & 0x8000_0000 == 0x8000_0000,
                x != y,
        ;
    }
}

/// Two messages of one length that differ in exactly one byte have different
/// 8-bit checks, for every polynomial with its constant term.
pub proof fn crc8_detects_one_byte(poly: u8, init: u8, a: Seq<u8>, b: Seq<u8>, at: int)
    requires
        poly & 1 == 1,
        a.len() == b.len(),
        0 <= at < a.len(),
        a[at] != b[at],
        forall|i: int| 0 <= i < a.len() && i != at ==> a[i] == b[i],
    ensures
        crc8_of(poly, init, a) != crc8_of(poly, init, b),
    decreases a.len(),
{
    let x: u8 = crc8_of(poly, init, a.drop_last());
    let y: u8 = crc8_of(poly, init, b.drop_last());
    let p: u8 = a.last();
    let q: u8 = b.last();
    if at == a.len() - 1 {
        assert(a.drop_last() =~= b.drop_last());
        assert(x ^ p != x ^ q) by (bit_vector)
            requires
                p != q,
        ;
        crc8_bits_injective(poly, x ^ p, x ^ q, 8);
    } else {
        crc8_detects_one_byte(poly, init, a.drop_last(), b.drop_last(), at);
        assert(x ^ p != y ^ p) by (bit_vector)
            requires
                x != y,
        ;
        crc8_bits_injective(poly, x ^ p, y ^ p, 8);
    }
}

/// Two messages of one length that differ in exactly one byte have different
/// 16-bit checks.
pub proof fn crc16_detects_one_byte(poly: u16, init: u16, a: Seq<u8>, b: Seq<u8>, at: int)
    requires
        poly & 0x8000 == 0x8000,
        a.len() == b.len(),
        0 <= at < a.len(),
        a[at] != b[at],
        forall|i: int| 0 <= i < a.len() && i != at ==> a[i] == b[i],
    ensures
        crc16_of(poly, init, a) != crc16_of(poly, init, b),
    decreases a.len(),
{
    let x: u16 = crc16_of(poly, init, a.drop_last());
    let y: u16 = crc16_of(poly, init, b.drop_last());
    let p: u16 = a.last() as u16;
    let q: u16 = b.last() as u16;
    if at == a.len() - 1 {
        assert(a.drop_last() =~= b.drop_last());
        assert(x ^ p != x ^ q) by (bit_vector)
            requires
                p != q,
        ;
        crc16_bits_injective(poly, x ^ p, x ^ q, 8);
    } else {
        crc16_detects_one_byte(poly, init, a.drop_last(), b.drop_last(), at);
        assert(x ^ p != y ^ p) by (bit_vector)
            requires
                x != y,
        ;
        crc16_bits_injective(poly, x ^ p, y ^ p, 8);
    }
}

/// Two images of one size that differ in exactly one byte have different
/// 32-bit checks.
pub proof fn image_crc_detects_one_byte(a: Seq<u8>, b: Seq<u8>, at: int)
    requires
        a.len() == b.len(),
        0 <= at < a.len(),
        a[at] != b[at],
        forall|i: int| 0 <= i < a.len() && i != at ==> a[i] == b[i],
    ensures
        image_crc(a) != image_crc(b),
{
    crc32_detects_one_byte(0xEDB8_8320, 0xFFFF_FFFF, a, b, at);
    let x: u32 = crc32_of(0xEDB8_8320, 0xFFFF_FFFF, a);
    let y: u32 = crc32_of(0xEDB8_8320, 0xFFFF_FFFF, b);
    assert(!x != !y) by (bit_vector)
        requires
            x != y,
    ;
}

proof fn crc32_detects_one_byte(poly: u32, init: u32, a: Seq<u8>, b: Seq<u8>, at: int)
    requires
        poly == 0xEDB8_8320,
        a.len() == b.len(),
        0 <= at < a.len(),
        a[at] != b[at],
        forall|i: int| 0 <= i < a.len() && i != at ==> a[i] == b[i],
    ensures
        crc32_of(poly, init, a) != crc32_of(poly, init, b),
    decreases a.len(),
{
    assert(poly & 0x8000_0000 == 0x8000_0000) by (bit_vector)
        requires
            poly == 0xEDB8_8320,
    ;
    let x: u32 = crc32_of(poly, init, a.drop_last());
    let y: u32 = crc32_of(poly, init, b.drop_last());
    let p: u32 = a.last() as u32;
    let q: u32 = b.last() as u32;
    if at == a.len() - 1 {
        assert(a.drop_last() =~= b.drop_last());
        assert(x ^ p != x ^ q) by (bit_vector)
            requires
                p != q,
        ;
        crc32_bits_injective(poly, x ^ p, x ^ q, 8);
    } else {
        crc32_detects_one_byte(poly, init, a.drop_last(), b.drop_last(), at);
        assert(x ^ p != y ^ p) by (bit_vector)
            requires
                x != y,
        ;
        crc32_bits_injective(poly, x ^ p, y ^ p, 8);
    }
}

} // verus!
