//! Text as bytes: decimal numbers, literals, and lines cut to a buffer.

use vstd::prelude::*;
use vstd::string::StringSliceAdditionalSpecFns;
use vstd::utf8::{partial_valid_utf8, partial_valid_utf8_extend_ascii_block, valid_utf8};
use crate::bytes::{append, copy_into, overwrite};

verus! {

/// The bytes of a literal.
pub open spec fn lit(s: &str) -> Seq<u8> {
    s.spec_bytes()
}

/// The bytes of an ASCII literal are the codes of its characters.
pub proof fn lit_codes(s: &str)
    requires
        vstd::string::is_ascii(s),
    ensures
        lit(s) == Seq::new(s@.len(), |i: int| s@[i] as u8),
{
    vstd::string::is_ascii_spec_bytes(s);
}

/// `n` in decimal.
pub open spec fn dec(n: nat) -> Seq<u8>
    decreases n,
{
    if n < 10 {
        seq![(48 + n) as u8]
    } else {
        dec(n / 10).push((48 + n % 10) as u8)
    }
}

/// `n` in decimal, with at least two digits.
pub open spec fn dec2(n: nat) -> Seq<u8> {
    if n < 10 {
        seq![48u8] + dec(n)
    } else {
        dec(n)
    }
}

/// `n` in decimal, with a minus sign where it is negative.
pub open spec fn dec_signed(n: int) -> Seq<u8> {
    if n < 0 {
        seq![45u8] + dec((-n) as nat)
    } else {
        dec(n as nat)
    }
}

/// What of `text` fits into `cap` bytes.
pub open spec fn cut(text: Seq<u8>, cap: int) -> Seq<u8> {
    if text.len() <= cap {
        text
    } else {
        text.subrange(0, cap)
    }
}

/// The bytes of a literal.
pub fn lit_vec(s: &str) -> (r: Vec<u8>)
    ensures
        r@ == lit(s),
{
    let mut out: Vec<u8> = Vec::new();
    push_lit(&mut out, s);
    assert(out@ =~= lit(s));
    out
}

/// `n` in decimal.
pub fn dec_vec(n: u32) -> (r: Vec<u8>)
    ensures
        r@ == dec(n as nat),
{
    let mut out: Vec<u8> = Vec::new();
    push_dec(&mut out, n);
    assert(out@ =~= dec(n as nat));
    out
}

/// Append `n` in decimal.
pub fn push_dec(out: &mut Vec<u8>, n: u32)
    ensures
        final(out)@ == old(out)@ + dec(n as nat),
    decreases n,
{
    if n >= 10 {
        push_dec(out, n / 10);
    }
    out.push(48 + (n % 10) as u8);
    assert(out@ =~= old(out)@ + dec(n as nat));
}

/// Append `n` in decimal, with at least two digits.
pub fn push_dec2(out: &mut Vec<u8>, n: u32)
    ensures
        final(out)@ == old(out)@ + dec2(n as nat),
{
    if n < 10 {
        out.push(48);
    }
    push_dec(out, n);
    assert(out@ =~= old(out)@ + dec2(n as nat));
}

/// Append `n` in decimal, with a minus sign where it is negative.
pub fn push_signed(out: &mut Vec<u8>, n: i32)
    ensures
        final(out)@ == old(out)@ + dec_signed(n as int),
{
    if n < 0 {
        out.push(45);
        push_dec(out, magnitude(n));
    } else {
        push_dec(out, n as u32);
    }
    assert(out@ =~= old(out)@ + dec_signed(n as int));
}

/// The magnitude of `n`.
pub fn magnitude(n: i32) -> (r: u32)
    ensures
        r == if n < 0 {
            -n
        } else {
            n as int
        },
{
    if n < 0 {
        (-(n as i64)) as u32
    } else {
        n as u32
    }
}

/// Append a literal.
pub fn push_lit(out: &mut Vec<u8>, s: &str)
    ensures
        final(out)@ == old(out)@ + lit(s),
{
    append(out, s.as_bytes());
}

/// Copy `text` into `buf`, returning the written prefix (truncation-safe:
/// overflow drops the tail).
pub fn fmt_line<'a>(buf: &'a mut [u8], text: &[u8]) -> (r: &'a [u8])
    ensures
        r@ == cut(text@, old(buf)@.len() as int),
        final(buf)@ == overwrite(old(buf)@, 0, r@),
{
    let n: usize = if text.len() <= buf.len() {
        text.len()
    } else {
        buf.len()
    };
    copy_into(buf, 0, &text[0..n]);
    let filled: &'a [u8] = buf;
    let r: &'a [u8] = &filled[0..n];
    assert(r@ =~= cut(text@, old(buf)@.len() as int));
    r
}

/// What of `pieces` is written after `text` into `cap` bytes: whole pieces, up
/// to the first that does not fit.
pub open spec fn fit(text: Seq<u8>, pieces: Seq<Seq<u8>>, cap: int) -> Seq<u8>
    decreases pieces.len(),
{
    if pieces.len() == 0 || text.len() + pieces[0].len() > cap {
        text
    } else {
        fit(text + pieces[0], pieces.skip(1), cap)
    }
}

/// Copy the first of `pieces` that fit into `buf`, whole, returning them
/// (truncation-safe).
pub fn fmt_into<'a>(buf: &'a mut [u8; 32], pieces: &Vec<Vec<u8>>) -> (r: &'a str)
    requires
        forall|i: int| 0 <= i < pieces@.len() ==> is_ascii_text(#[trigger] pieces@[i]@),
    ensures
        r.spec_bytes() == fit(Seq::empty(), piece_views(pieces@), 32),
        final(buf)@ == overwrite(old(buf)@, 0, r.spec_bytes()),
{
    let mut len: usize = 0;
    let mut i: usize = 0;
    let ghost views = piece_views(pieces@);
    assert(buf@.subrange(0, 0) =~= Seq::<u8>::empty());
    assert(buf@ =~= overwrite(old(buf)@, 0, buf@.subrange(0, 0)));
    assert(views.skip(0) =~= views);
    while i < pieces.len() && pieces[i].len() <= 32 - len
        invariant
            i <= pieces@.len(),
            len <= 32,
            buf@.len() == 32,
            views == piece_views(pieces@),
            forall|j: int| 0 <= j < pieces@.len() ==> is_ascii_text(#[trigger] pieces@[j]@),
            is_ascii_text(buf@.subrange(0, len as int)),
            buf@ == overwrite(old(buf)@, 0, buf@.subrange(0, len as int)),
            fit(buf@.subrange(0, len as int), views.skip(i as int), 32) == fit(
                Seq::empty(),
                views,
                32,
            ),
        ensures
            is_ascii_text(buf@.subrange(0, len as int)),
            buf@ == overwrite(old(buf)@, 0, buf@.subrange(0, len as int)),
            len <= 32,
            buf@.subrange(0, len as int) == fit(Seq::empty(), views, 32),
        decreases pieces@.len() - i,
    {
        let ghost before = buf@.subrange(0, len as int);
        copy_into(buf, len, &pieces[i]);
        len = len + pieces[i].len();
        assert(buf@.subrange(0, len as int) =~= before + views[i as int]);
        assert(buf@ =~= overwrite(old(buf)@, 0, buf@.subrange(0, len as int)));
        assert(views.skip(i as int).skip(1) =~= views.skip(i + 1));
        i += 1;
    }
    let filled: &'a [u8] = buf;
    proof {
        ascii_is_utf8(filled@.subrange(0, len as int));
    }
    match str_from_utf8(&filled[0..len]) {
        Some(s) => s,
        None => "",
    }
}

/// The bytes of each piece.
pub open spec fn piece_views(pieces: Seq<Vec<u8>>) -> Seq<Seq<u8>> {
    Seq::new(pieces.len(), |i: int| pieces[i]@)
}

/// Pieces that fit together are all written.
pub proof fn fit_all(text: Seq<u8>, pieces: Seq<Seq<u8>>, cap: int)
    requires
        text.len() + joined(pieces).len() <= cap,
    ensures
        fit(text, pieces, cap) == text + joined(pieces),
    decreases pieces.len(),
{
    if pieces.len() == 0 {
        assert(text + joined(pieces) =~= text);
    } else {
        fit_all(text + pieces[0], pieces.skip(1), cap);
        assert((text + pieces[0]) + joined(pieces.skip(1)) =~= text + joined(pieces));
    }
}

/// What is written never takes more room than there is, and starts with what
/// was there.
pub proof fn fit_fits(text: Seq<u8>, pieces: Seq<Seq<u8>>, cap: int)
    requires
        text.len() <= cap,
    ensures
        text.len() <= fit(text, pieces, cap).len() <= cap,
        fit(text, pieces, cap).subrange(0, text.len() as int) == text,
    decreases pieces.len(),
{
    if pieces.len() == 0 || text.len() + pieces[0].len() > cap {
        assert(text.subrange(0, text.len() as int) =~= text);
    } else {
        fit_fits(text + pieces[0], pieces.skip(1), cap);
        let r = fit(text, pieces, cap);
        assert(r.subrange(0, text.len() as int) =~= r.subrange(
            0,
            (text + pieces[0]).len() as int,
        ).subrange(0, text.len() as int));
        assert((text + pieces[0]).subrange(0, text.len() as int) =~= text);
    }
}

/// The pieces, one after the other.
pub open spec fn joined(pieces: Seq<Seq<u8>>) -> Seq<u8>
    decreases pieces.len(),
{
    if pieces.len() == 0 {
        Seq::empty()
    } else {
        pieces[0] + joined(pieces.skip(1))
    }
}

/// Calls `core::str::from_utf8`: the text whose bytes are `bytes`, exactly if
/// they are valid UTF-8.
#[verifier::external_body]
pub(crate) fn str_from_utf8(bytes: &[u8]) -> (r: Option<&str>)
    ensures
        r is Some == valid_utf8(bytes@),
        r matches Some(s) ==> s.spec_bytes() == bytes@,
{
    core::str::from_utf8(bytes).ok()
}

/// Every byte is an ASCII character.
pub open spec fn is_ascii_text(bytes: Seq<u8>) -> bool {
    forall|i: int| 0 <= i < bytes.len() ==> #[trigger] bytes[i] < 128
}

/// ASCII text is valid UTF-8.
pub proof fn ascii_is_utf8(bytes: Seq<u8>)
    requires
        is_ascii_text(bytes),
    ensures
        valid_utf8(bytes),
{
    assert(bytes.subrange(0, 0) =~= Seq::<u8>::empty());
    assert(partial_valid_utf8(bytes, 0));
    partial_valid_utf8_extend_ascii_block(bytes, 0, bytes.len() as int);
    assert(bytes.subrange(0, bytes.len() as int) =~= bytes);
}

/// The number of decimal digits of a number below a power of ten.
pub proof fn dec_len(n: nat)
    ensures
        1 <= dec(n).len(),
        n < 10 ==> dec(n).len() == 1,
        n < 100 ==> dec(n).len() <= 2,
        n < 1000 ==> dec(n).len() <= 3,
        n < 10000 ==> dec(n).len() <= 4,
        n < 100000 ==> dec(n).len() <= 5,
        n < 1000000 ==> dec(n).len() <= 6,
        n < 0x1_0000_0000 ==> dec(n).len() <= 10,
{
    reveal_with_fuel(dec, 11);
}

/// Decimal numbers are ASCII text.
pub proof fn dec_is_ascii(n: nat)
    ensures
        is_ascii_text(dec(n)),
        is_ascii_text(dec2(n)),
{
    dec_round_trip(n);
}

/// The value that a run of decimal digits writes down.
pub open spec fn dec_value(digits: Seq<u8>) -> nat
    decreases digits.len(),
{
    if digits.len() == 0 {
        0
    } else {
        dec_value(digits.drop_last()) * 10 + (digits.last() - 48) as nat
    }
}

/// A number written in decimal reads back as the number.
pub proof fn dec_round_trip(n: nat)
    ensures
        dec_value(dec(n)) == n,
        forall|i: int| 0 <= i < dec(n).len() ==> 48 <= #[trigger] dec(n)[i] <= 57,
    decreases n,
{
    if n >= 10 {
        dec_round_trip(n / 10);
        assert(dec(n).drop_last() =~= dec(n / 10));
    } else {
        assert(dec(n).drop_last() =~= Seq::<u8>::empty());
        assert(dec_value(Seq::<u8>::empty()) == 0);
    }
}

} // verus!
