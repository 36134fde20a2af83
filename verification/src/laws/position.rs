//! Laws of the GPS receiver: what a sentence says is what is kept.

use vstd::prelude::*;
use crate::gpslog::gps::{
    checks_out, digits_of, field, fields, find, find_finds, gps_byte, gps_poll, gps_unheard,
    is_coord, is_digit, is_gga, is_rmc, small_number, with_sentence, xor_of, GpsPoll, GpsView,
    UartRead,
};
use crate::text::{dec, dec_round_trip};

verus! {

/// Some parts, with commas between them.
pub open spec fn with_commas(parts: Seq<Seq<u8>>) -> Seq<u8>
    decreases parts.len(),
{
    if parts.len() == 0 {
        Seq::empty()
    } else if parts.len() == 1 {
        parts[0]
    } else {
        parts[0] + seq![44u8] + with_commas(parts.skip(1))
    }
}

/// No part holds a comma or a star.
pub open spec fn plain(parts: Seq<Seq<u8>>) -> bool {
    forall|i: int, j: int|
        0 <= i < parts.len() && 0 <= j < parts[i].len() ==> #[trigger] parts[i][j] != 44
            && parts[i][j] != 42
}

/// A sentence of these parts, with its checksum behind a star.
pub open spec fn sentence(parts: Seq<Seq<u8>>, check: Seq<u8>) -> Seq<u8> {
    with_commas(parts) + seq![42u8] + check
}

proof fn find_at(s: Seq<u8>, b: u8, k: int)
    requires
        0 <= k <= s.len(),
        k < s.len() ==> s[k] == b,
        forall|i: int| 0 <= i < k ==> s[i] != b,
    ensures
        find(s, b) == k,
{
    find_finds(s, b);
}

proof fn plain_has_no_star(parts: Seq<Seq<u8>>)
    requires
        plain(parts),
    ensures
        forall|i: int| 0 <= i < with_commas(parts).len() ==> with_commas(parts)[i] != 42,
    decreases parts.len(),
{
    if parts.len() == 1 {
        assert forall|i: int| 0 <= i < parts[0].len() implies parts[0][i] != 42 by {
            assert(parts[0][i] != 44);
        }
    } else if parts.len() > 1 {
        let rest = parts.skip(1);
        assert forall|i: int, j: int| 0 <= i < rest.len() && 0 <= j < rest[i].len() implies
            #[trigger] rest[i][j] != 44 && rest[i][j] != 42 by {
            assert(parts[i + 1][j] != 44);
        }
        plain_has_no_star(rest);
        let all = with_commas(parts);
        assert forall|i: int| 0 <= i < all.len() implies all[i] != 42 by {
            if i < parts[0].len() {
                assert(parts[0][i] != 44);
            } else if i > parts[0].len() {
                assert(all[i] == with_commas(rest)[i - parts[0].len() - 1]);
            }
        }
    }
}

proof fn parts_split(parts: Seq<Seq<u8>>)
    requires
        plain(parts),
        parts.len() > 0,
    ensures
        fields(with_commas(parts)) == parts,
    decreases parts.len(),
{
    let all = with_commas(parts);
    assert forall|i: int| 0 <= i < parts[0].len() implies all[i] != 44 by {
        assert(parts[0][i] != 44);
    }
    if parts.len() == 1 {
        find_at(all, 44, all.len() as int);
        assert(fields(all) =~= parts);
    } else {
        let rest = parts.skip(1);
        let c = parts[0].len() as int;
        assert forall|i: int, j: int| 0 <= i < rest.len() && 0 <= j < rest[i].len() implies
            #[trigger] rest[i][j] != 44 && rest[i][j] != 42 by {
            assert(parts[i + 1][j] != 44);
        }
        parts_split(rest);
        find_at(all, 44, c);
        assert(all.subrange(0, c) =~= parts[0]);
        assert(all.skip(c + 1) =~= with_commas(rest));
        assert(fields(all) =~= parts);
    }
}

/// The fields of a sentence are the parts that it was made of, whatever its
/// checksum; past the last there is nothing.
pub proof fn fields_are_the_parts(parts: Seq<Seq<u8>>, check: Seq<u8>, n: int)
    requires
        plain(parts),
        parts.len() > 0,
        n >= 0,
    ensures
        n < parts.len() ==> field(sentence(parts, check), n) == parts[n],
        n >= parts.len() ==> field(sentence(parts, check), n).len() == 0,
{
    let body = with_commas(parts);
    let line = sentence(parts, check);
    plain_has_no_star(parts);
    assert forall|i: int| 0 <= i < body.len() implies line[i] != 42 by {
        assert(line[i] == body[i]);
    }
    find_at(line, 42, body.len() as int);
    assert(line.subrange(0, body.len() as int) =~= body);
    parts_split(parts);
}

/// Digits, three or more of them, a point, and digits.
pub open spec fn is_angle(text: Seq<u8>, whole: Seq<u8>, places: Seq<u8>) -> bool {
    &&& text == whole + seq![46u8] + places
    &&& whole.len() >= 3
    &&& forall|i: int| 0 <= i < whole.len() ==> 48 <= #[trigger] whole[i] <= 57
    &&& forall|i: int| 0 <= i < places.len() ==> 48 <= #[trigger] places[i] <= 57
}

/// A coordinate is readable where it has at least a digit of degrees and two of
/// minutes before its point, and digits after it; not with fewer, not without a
/// point, and not with a letter or a sign in it.
pub proof fn readable_coordinates(text: Seq<u8>, whole: Seq<u8>, places: Seq<u8>, at: int)
    ensures
        is_angle(text, whole, places) ==> is_coord(text),
        text.len() <= 3 ==> !is_coord(text),
        0 <= at < text.len() && !(48 <= text[at] <= 57) && text[at] != 46 ==> !is_coord(text),
        (forall|i: int| 0 <= i < text.len() ==> text[i] != 46) ==> !is_coord(text),
        0 <= at < text.len() && at < 3 && text[at] == 46 ==> !is_coord(text),
{
    find_finds(text, 46);
    if is_angle(text, whole, places) {
        let k = whole.len() as int;
        assert forall|i: int| 0 <= i < k implies text[i] != 46 by {
            assert(text[i] == whole[i]);
        }
        find_at(text, 46, k);
        assert forall|i: int| 0 <= i < text.len() && i != k implies is_digit(#[trigger] text[i]) by {
            if i < k {
                assert(text[i] == whole[i]);
            } else {
                assert(text[i] == places[i - k - 1]);
            }
        }
    }
    if 0 <= at < text.len() && !(48 <= text[at] <= 57) && text[at] != 46 {
        assert(!is_digit(text[at]));
    }
}

/// South and west are negative.
pub open spec fn southwest(hemi: Seq<u8>) -> bool {
    hemi.len() > 0 && (hemi[0] == 83 || hemi[0] == 87)
}

/// An RMC sentence of these parts: after an active one with readable
/// coordinates the position is the one that it writes down, the latitude from
/// parts 3 and 4 and the longitude from parts 5 and 6; after an inactive one
/// there is none. Satellites and fix quality are not its business.
pub proof fn rmc_gives_its_position(g: GpsView, parts: Seq<Seq<u8>>, check: Seq<u8>)
    requires
        plain(parts),
        parts.len() > 6,
        !is_gga(sentence(parts, check)),
    ensures
        ({
            let after = with_sentence(g, sentence(parts, check));
            let active = parts[2].len() > 0 && parts[2][0] == 65;
            &&& active && is_coord(parts[3]) && is_coord(parts[5]) ==> {
                &&& after.has_pos
                &&& after.lat.text == parts[3]
                &&& after.lat.negative == southwest(parts[4])
                &&& after.lon.text == parts[5]
                &&& after.lon.negative == southwest(parts[6])
            }
            &&& active && !(is_coord(parts[3]) && is_coord(parts[5])) ==> after == g
            &&& !active ==> !after.has_pos && after.lat == g.lat && after.lon == g.lon
            &&& after.sats == g.sats
            &&& after.fix_quality == g.fix_quality
            &&& after.partial == g.partial
        }),
{
    fields_are_the_parts(parts, check, 2);
    fields_are_the_parts(parts, check, 3);
    fields_are_the_parts(parts, check, 4);
    fields_are_the_parts(parts, check, 5);
    fields_are_the_parts(parts, check, 6);
}

/// A GGA sentence of these parts: the fix quality from part 6, the satellites
/// from part 7, and where there is a fix with readable coordinates the position
/// that it writes down, the latitude from parts 2 and 3 and the longitude from
/// parts 4 and 5; without a fix there is none.
pub proof fn gga_gives_its_fix(g: GpsView, parts: Seq<Seq<u8>>, check: Seq<u8>)
    requires
        plain(parts),
        parts.len() > 7,
        is_gga(sentence(parts, check)),
    ensures
        ({
            let after = with_sentence(g, sentence(parts, check));
            let fixed = small_number(parts[6]) > 0;
            &&& after.fix_quality == small_number(parts[6])
            &&& after.sats == small_number(parts[7])
            &&& fixed && is_coord(parts[2]) && is_coord(parts[4]) ==> {
                &&& after.has_pos
                &&& after.lat.text == parts[2]
                &&& after.lat.negative == southwest(parts[3])
                &&& after.lon.text == parts[4]
                &&& after.lon.negative == southwest(parts[5])
            }
            &&& fixed && !(is_coord(parts[2]) && is_coord(parts[4])) ==> after.has_pos == g.has_pos
                && after.lat == g.lat && after.lon == g.lon
            &&& !fixed ==> !after.has_pos && after.lat == g.lat && after.lon == g.lon
            &&& after.partial == g.partial
        }),
{
    fields_are_the_parts(parts, check, 2);
    fields_are_the_parts(parts, check, 3);
    fields_are_the_parts(parts, check, 4);
    fields_are_the_parts(parts, check, 5);
    fields_are_the_parts(parts, check, 6);
    fields_are_the_parts(parts, check, 7);
}

/// An RMC and a GGA sentence that write down the same readable coordinates give
/// the same position.
pub proof fn both_sentences_agree(
    g: GpsView,
    h: GpsView,
    rmc: Seq<Seq<u8>>,
    gga: Seq<Seq<u8>>,
    check: Seq<u8>,
    other: Seq<u8>,
)
    requires
        plain(rmc),
        plain(gga),
        rmc.len() > 6,
        gga.len() > 7,
        !is_gga(sentence(rmc, check)),
        is_gga(sentence(gga, other)),
        rmc[2].len() > 0 && rmc[2][0] == 65,
        small_number(gga[6]) > 0,
        rmc[3] == gga[2] && rmc[4] == gga[3] && rmc[5] == gga[4] && rmc[6] == gga[5],
        is_coord(rmc[3]) && is_coord(rmc[5]),
    ensures
        ({
            let a = with_sentence(g, sentence(rmc, check));
            let b = with_sentence(h, sentence(gga, other));
            a.has_pos && b.has_pos && a.lat == b.lat && a.lon == b.lon
        }),
{
    rmc_gives_its_position(g, rmc, check);
    gga_gives_its_fix(h, gga, other);
}

/// The type of a sentence is in its fourth to sixth characters, whoever talks.
pub proof fn sentence_types(line: Seq<u8>)
    requires
        line.len() >= 6,
    ensures
        line.subrange(3, 6) == seq![71u8, 71u8, 65u8] <==> is_gga(line),
        line.subrange(3, 6) == seq![82u8, 77u8, 67u8] <==> is_rmc(line),
        !(is_gga(line) && is_rmc(line)),
{
    if is_gga(line) {
        assert(line.subrange(3, 6) =~= seq![71u8, 71u8, 65u8]);
    }
    if is_rmc(line) {
        assert(line.subrange(3, 6) =~= seq![82u8, 77u8, 67u8]);
    }
    let t = line.subrange(3, 6);
    assert(t[0] == line[3] && t[1] == line[4] && t[2] == line[5]);
}

/// All of a text of digits are its digits.
proof fn digits_are_all(text: Seq<u8>)
    requires
        forall|i: int| 0 <= i < text.len() ==> 48 <= #[trigger] text[i] <= 57,
    ensures
        digits_of(text) == text,
    decreases text.len(),
{
    if text.len() > 0 {
        digits_are_all(text.drop_last());
        assert(text.drop_last().push(text.last()) =~= text);
    } else {
        assert(digits_of(text) =~= text);
    }
}

/// A count in a field is read as the number that it is, up to what a byte holds;
/// an empty field counts nothing.
pub proof fn counts_are_read(n: nat)
    ensures
        n <= 255 ==> small_number(dec(n)) == n,
        n > 255 ==> small_number(dec(n)) == 255,
        small_number(Seq::empty()) == 0,
{
    dec_round_trip(n);
    digits_are_all(dec(n));
    digits_are_all(Seq::empty());
}

/// The hex digit of a value, in capitals or not.
pub open spec fn hex_digit(v: int, capital: bool) -> u8 {
    if v < 10 {
        (48 + v) as u8
    } else if capital {
        (55 + v) as u8
    } else {
        (87 + v) as u8
    }
}

/// A sentence that carries the exclusive or of what stands between "$" and "*",
/// in two hex digits of either case, checks out; with any other value it does
/// not.
pub proof fn checksum_is_the_exclusive_or(body: Seq<u8>, sum: u8, capital: bool)
    requires
        body.len() >= 5,
    ensures
        checks_out(
            seq![36u8] + body + seq![
                42u8,
                hex_digit(sum as int / 16, capital),
                hex_digit(sum as int % 16, capital),
            ],
        ) == (sum == xor_of(body)),
{
    let line = seq![36u8] + body + seq![
        42u8,
        hex_digit(sum as int / 16, capital),
        hex_digit(sum as int % 16, capital),
    ];
    let star = line.len() - 3;
    assert(line.subrange(1, star) =~= body);
}

/// The exclusive or of nothing is zero, one more byte flips its bits, and a byte
/// that comes twice leaves no trace.
pub proof fn exclusive_or_of_bytes(s: Seq<u8>, b: u8)
    ensures
        xor_of(Seq::empty()) == 0,
        xor_of(s.push(b)) == xor_of(s) ^ b,
        xor_of(s.push(b).push(b)) == xor_of(s),
{
    assert(s.push(b).drop_last() =~= s);
    assert(s.push(b).push(b).drop_last() =~= s.push(b));
    let x = xor_of(s);
    assert((x ^ b) ^ b == x) by (bit_vector);
    assert(xor_of(s.push(b)) == x ^ b);
    assert(xor_of(s.push(b).push(b)) == xor_of(s.push(b)) ^ b);
}

/// A line may end with either of its two end bytes, which do the same.
pub proof fn either_end_will_do(g: GpsView)
    ensures
        gps_byte(g, 10) == gps_byte(g, 13),
{
}

/// What comes before a "$" is passed over; one starts a sentence anew wherever
/// it comes; a sentence of more than 82 characters is dropped; and so is what was
/// received of one when bytes are lost. None of this touches the fix.
pub proof fn noise_is_passed_over(g: GpsView, byte: u8, budget: int)
    requires
        byte != 36,
    ensures
        g.partial is None ==> gps_byte(g, byte) == (g, None::<Seq<u8>>),
        gps_byte(g, 36).0 == (GpsView { partial: Some(seq![36u8]), ..g }),
        g.partial matches Some(line) ==> line.len() >= 82 && byte != 13 && byte != 10 ==> gps_byte(
            g,
            byte,
        ) == (GpsView { partial: None, ..g }, None::<Seq<u8>>),
        gps_poll(g, budget, UartRead::Error).0 == (GpsView { partial: None, ..g }),
        gps_poll(g, budget, UartRead::WouldBlock) == (
            g,
            GpsPoll::Nothing { clear_errors: false },
            None::<Seq<u8>>,
        ),
{
}

/// A poll reads on as long as it may and no sentence is whole, and clears the
/// UART's errors where there were any; a whole sentence ends it, and is handed out
/// where it is text.
pub proof fn poll_reads_on(g: GpsView, byte: u8, budget: int)
    ensures
        ({
            let lost = gps_poll(g, budget, UartRead::Error);
            let read = gps_poll(g, budget, UartRead::Byte(byte));
            let after = gps_byte(g, byte);
            &&& lost.1 == if budget > 1 {
                GpsPoll::Read { clear_errors: true }
            } else {
                GpsPoll::Nothing { clear_errors: true }
            }
            &&& lost.2 is None
            &&& read.0 == after.0 && read.2 == after.1
            &&& after.1 matches Some(line) ==> read.1 == if vstd::utf8::valid_utf8(line) {
                GpsPoll::Line
            } else {
                GpsPoll::Nothing { clear_errors: false }
            }
            &&& after.1 is None ==> read.1 == if budget > 1 {
                GpsPoll::Read { clear_errors: false }
            } else {
                GpsPoll::Nothing { clear_errors: false }
            }
        }),
{
}

/// A sentence is collected byte by byte, up to 82 of them, from its dollar sign
/// on.
pub proof fn sentence_is_collected(g: GpsView, line: Seq<u8>, byte: u8)
    requires
        g.partial == Some(line),
        line.len() < 82,
        byte != 36,
        byte != 13,
        byte != 10,
    ensures
        gps_byte(g, byte) == (
            GpsView { partial: Some(line.push(byte)), ..g },
            None::<Seq<u8>>,
        ),
{
}

/// A receiver that has heard nothing claims nothing: no fix, no satellites, no
/// position, and no sentence begun.
pub proof fn nothing_heard_is_nothing_known()
    ensures
        ({
            let g = gps_unheard();
            &&& g.partial is None
            &&& g.fix_quality == 0 && g.sats == 0 && !g.has_pos
            &&& g.lat == g.lon
            &&& g.lat.text.len() == 0 && !g.lat.negative
        }),
{
}

} // verus!
