//! NMEA receiver: assembles lines, validates checksums and keeps a little fix
//! state for status reporting.

use vstd::prelude::*;
use vstd::string::StringSliceAdditionalSpecFns;
use vstd::utf8::valid_utf8;
use crate::bytes::{append, overwrite};
use crate::text::{
    ascii_is_utf8, dec, dec2, dec_is_ascii, dec_len, dec_signed, dec_value, fmt_line,
    is_ascii_text, lit, lit_codes, push_dec, push_dec2, push_lit, push_signed, str_from_utf8,
};

verus! {

/// Longest NMEA sentence: 82 characters including "$" and CRLF.
pub const NMEA_MAX: usize = 82;

/// Bytes drained from the UART per poll. A fix at the 1 Hz default emits a few
/// hundred bytes a second, so the main loop's polling never approaches this in
/// normal use; the cap exists for the opposite case, where no module is
/// attached and the floating RX pin streams noise that never completes a
/// sentence. Bounding the drain keeps that from monopolizing the loop and
/// starving the radio receive, so a node with no GPS still hears the network.
pub const DRAIN_BUDGET: usize = 512;

/// The index of the first `b` in `s`, or the length of `s`.
pub open spec fn find(s: Seq<u8>, b: u8) -> int
    decreases s.len(),
{
    if s.len() == 0 || s[0] == b {
        0
    } else {
        1 + find(s.skip(1), b)
    }
}

/// The comma-separated parts of `s`.
pub open spec fn fields(s: Seq<u8>) -> Seq<Seq<u8>>
    decreases s.len(),
{
    let c = find(s, 44);
    if 0 <= c < s.len() {
        seq![s.subrange(0, c)] + fields(s.skip(c + 1))
    } else {
        seq![s]
    }
}

/// The `n`th of some fields, or nothing where there is none.
pub open spec fn pick(f: Seq<Seq<u8>>, n: int) -> Seq<u8> {
    if 0 <= n < f.len() {
        f[n]
    } else {
        Seq::empty()
    }
}

/// The `n`th comma-separated field of what stands before the checksum.
pub open spec fn field(line: Seq<u8>, n: int) -> Seq<u8> {
    pick(fields(line.subrange(0, find(line, 42))), n)
}

/// An ASCII digit.
pub open spec fn is_digit(b: u8) -> bool {
    48 <= b <= 57
}

/// The digits among some bytes.
pub open spec fn digits_of(s: Seq<u8>) -> Seq<u8>
    decreases s.len(),
{
    if s.len() == 0 {
        Seq::empty()
    } else if is_digit(s.last()) {
        digits_of(s.drop_last()).push(s.last())
    } else {
        digits_of(s.drop_last())
    }
}

/// The number that the digits of a field write down, as far as a byte holds it.
pub open spec fn small_number(s: Seq<u8>) -> u8 {
    let v = dec_value(digits_of(s));
    if v <= 255 {
        v as u8
    } else {
        255
    }
}

/// A coordinate as NMEA writes it: `ddmm.mmmm` or `dddmm.mmmm`, at least one
/// digit of degrees and two of whole minutes before the first point, and after
/// it digits (and points, which a receiver passes over).
pub open spec fn is_coord(s: Seq<u8>) -> bool {
    let dot = find(s, 46);
    &&& 3 <= dot < s.len()
    &&& forall|i: int| 0 <= i < s.len() && i != dot ==> is_digit(#[trigger] s[i]) || (i > dot
        && s[i] == 46)
}

/// A coordinate, as the contracts speak of it.
pub struct CoordView {
    /// The field that gave it.
    pub text: Seq<u8>,
    /// South or west.
    pub negative: bool,
}

/// The coordinate that a field and its hemisphere field give, if they give one.
pub open spec fn coord_of(text: Seq<u8>, hemi: Seq<u8>) -> Option<CoordView> {
    if is_coord(text) {
        Some(
            CoordView {
                text,
                negative: hemi.len() > 0 && (hemi[0] == 83 || hemi[0] == 87),
            },
        )
    } else {
        None
    }
}

/// The value of a hex digit, if it is one.
pub open spec fn hex_value(c: u8) -> Option<u8> {
    if 48 <= c <= 57 {
        Some((c - 48) as u8)
    } else if 65 <= c <= 70 {
        Some((c - 65 + 10) as u8)
    } else if 97 <= c <= 102 {
        Some((c - 97 + 10) as u8)
    } else {
        None
    }
}

/// The bytes of `s`, all combined by exclusive or.
pub open spec fn xor_of(s: Seq<u8>) -> u8
    decreases s.len(),
{
    if s.len() == 0 {
        0
    } else {
        xor_of(s.drop_last()) ^ s.last()
    }
}

/// "$xxYYY*hh" or longer, with the right checksum.
pub open spec fn checks_out(line: Seq<u8>) -> bool {
    let star = line.len() - 3;
    &&& line.len() >= 9
    &&& line[star] == 42
    &&& match (hex_value(line[star + 1]), hex_value(line[star + 2])) {
        (Some(hi), Some(lo)) => xor_of(line.subrange(1, star)) == hi * 16 + lo,
        _ => false,
    }
}

/// The sentence is a fix sentence (GGA), from any talker.
pub open spec fn is_gga(line: Seq<u8>) -> bool {
    line[3] == 71 && line[4] == 71 && line[5] == 65
}

/// The sentence is a position and velocity sentence (RMC), from any talker.
pub open spec fn is_rmc(line: Seq<u8>) -> bool {
    line[3] == 82 && line[4] == 77 && line[5] == 67
}

/// A sentence that is kept.
pub open spec fn is_kept(line: Seq<u8>) -> bool {
    checks_out(line) && (is_gga(line) || is_rmc(line))
}

/// The receiver, as the contracts speak of it.
pub struct GpsView {
    /// The sentence being received, from its "$" on, if there is one.
    pub partial: Option<Seq<u8>>,
    pub fix_quality: u8,
    pub sats: u8,
    pub lat: CoordView,
    pub lon: CoordView,
    pub has_pos: bool,
}

/// A receiver that has heard nothing: no fix, no satellites, and no position but
/// blank coordinates.
pub open spec fn gps_unheard() -> GpsView {
    let blank = CoordView { text: Seq::empty(), negative: false };
    GpsView { partial: None, fix_quality: 0, sats: 0, lat: blank, lon: blank, has_pos: false }
}

/// A new position, where both coordinates are given; else none where the
/// sentence says that there is no fix, else the old one.
pub open spec fn with_position(
    g: GpsView,
    lat: Option<CoordView>,
    lon: Option<CoordView>,
    fixed: bool,
) -> GpsView {
    match (lat, lon) {
        (Some(lat), Some(lon)) => if fixed {
            GpsView { lat, lon, has_pos: true, ..g }
        } else {
            GpsView { has_pos: false, ..g }
        },
        _ => if fixed {
            g
        } else {
            GpsView { has_pos: false, ..g }
        },
    }
}

/// The fix state after a kept sentence.
pub open spec fn with_sentence(g: GpsView, line: Seq<u8>) -> GpsView {
    if is_gga(line) {
        let fix_quality = small_number(field(line, 6));
        with_position(
            GpsView { fix_quality, sats: small_number(field(line, 7)), ..g },
            coord_of(field(line, 2), field(line, 3)),
            coord_of(field(line, 4), field(line, 5)),
            fix_quality > 0,
        )
    } else {
        with_position(
            g,
            coord_of(field(line, 3), field(line, 4)),
            coord_of(field(line, 5), field(line, 6)),
            field(line, 2).len() > 0 && field(line, 2)[0] == 65,
        )
    }
}

/// A byte arrives: the receiver after it, and the kept sentence that it ends,
/// if it ends one.
pub open spec fn gps_byte(g: GpsView, byte: u8) -> (GpsView, Option<Seq<u8>>) {
    if byte == 36 {
        (GpsView { partial: Some(seq![36u8]), ..g }, None)
    } else if byte == 13 || byte == 10 {
        match g.partial {
            Some(line) => if is_kept(line) {
                (GpsView { partial: None, ..with_sentence(g, line) }, Some(line))
            } else {
                (GpsView { partial: None, ..g }, None)
            },
            None => (g, None),
        }
    } else {
        match g.partial {
            Some(line) => if line.len() < NMEA_MAX {
                (GpsView { partial: Some(line.push(byte)), ..g }, None)
            } else {
                // Overlong garbage: resync on the next '$'.
                (GpsView { partial: None, ..g }, None)
            },
            None => (g, None),
        }
    }
}

/// What a read of the UART gave.
#[derive(Clone, Copy)]
pub enum UartRead {
    Byte(u8),
    /// Nothing is there.
    WouldBlock,
    /// Bytes were lost.
    Error,
}

/// How a poll goes on.
#[derive(Debug, Clone, Copy, PartialEq, Eq, Structural)]
pub enum GpsPoll {
    /// Read the UART again, after clearing its error flags where asked.
    Read { clear_errors: bool },
    /// There is a sentence: see [`Gps::line`].
    Line,
    /// There is no sentence this time; clear error flags where asked.
    Nothing { clear_errors: bool },
}

/// A read of the UART, with `budget` reads left in this poll, itself included.
pub open spec fn gps_poll(g: GpsView, budget: int, read: UartRead) -> (
    GpsView,
    GpsPoll,
    Option<Seq<u8>>,
) {
    match read {
        UartRead::WouldBlock => (g, GpsPoll::Nothing { clear_errors: false }, None),
        UartRead::Error => (
            GpsView { partial: None, ..g },
            if budget > 1 {
                GpsPoll::Read { clear_errors: true }
            } else {
                GpsPoll::Nothing { clear_errors: true }
            },
            None,
        ),
        UartRead::Byte(byte) => {
            let after = gps_byte(g, byte);
            (
                after.0,
                match after.1 {
                    Some(line) => if valid_utf8(line) {
                        GpsPoll::Line
                    } else {
                        GpsPoll::Nothing { clear_errors: false }
                    },
                    None => if budget > 1 {
                        GpsPoll::Read { clear_errors: false }
                    } else {
                        GpsPoll::Nothing { clear_errors: false }
                    },
                },
                after.1,
            )
        },
    }
}

/// A coordinate of the last position.
pub struct Coord {
    /// The field that gave it, `ddmm.mmmm` or `dddmm.mmmm`.
    pub text: Vec<u8>,
    /// South or west.
    pub negative: bool,
}

impl Coord {
    /// The coordinate as the contracts speak of it.
    pub open spec fn view(self) -> CoordView {
        CoordView { text: self.text@, negative: self.negative }
    }
}

/// NMEA receiver.
pub struct Gps {
    /// The sentence being received is in the first bytes of this.
    pub line: [u8; NMEA_MAX],
    /// So many of them.
    pub len: usize,
    /// Whether a sentence is being received.
    pub in_line: bool,
    /// GGA fix quality (0 = none, 1 = GPS, 2 = DGPS, ...).
    pub fix_quality: u8,
    /// GGA satellites in use.
    pub sats: u8,
    /// Latest latitude.
    pub lat: Coord,
    /// Latest longitude.
    pub lon: Coord,
    /// Whether `lat`/`lon` hold a currently valid fix.
    pub has_pos: bool,
}

/// The status line for the display.
pub open spec fn status_text(sats: u8, rssi: i16, since_rx: Option<u32>) -> Seq<u8> {
    match since_rx {
        Some(ms) => dec2(sats as nat) + lit(" ") + dec_signed(rssi as int) + lit("dBm ") + dec(
            (ms / 1000 / 60) as nat,
        ) + lit("m") + dec2((ms / 1000 % 60) as nat) + lit("s"),
        None => dec2(sats as nat) + lit(" no rx"),
    }
}

impl Gps {
    /// Every receiver that `new` and the other methods give.
    pub open spec fn wf(self) -> bool {
        self.len <= NMEA_MAX && (self.in_line ==> self.len >= 1)
    }

    /// The receiver as the contracts speak of it.
    pub open spec fn view(self) -> GpsView {
        GpsView {
            partial: if self.in_line {
                Some(self.text())
            } else {
                None
            },
            fix_quality: self.fix_quality,
            sats: self.sats,
            lat: self.lat@,
            lon: self.lon@,
            has_pos: self.has_pos,
        }
    }

    /// What the line buffer holds.
    pub open spec fn text(self) -> Seq<u8> {
        self.line@.subrange(0, self.len as int)
    }

    /// A receiver that has heard nothing.
    pub fn new() -> (r: Gps)
        ensures
            r.wf(),
            r@ == gps_unheard(),
    {
        let r = Gps {
            line: [0u8; NMEA_MAX],
            len: 0,
            in_line: false,
            fix_quality: 0,
            sats: 0,
            lat: Coord { text: Vec::new(), negative: false },
            lon: Coord { text: Vec::new(), negative: false },
            has_pos: false,
        };
        assert(r@.lat.text =~= Seq::<u8>::empty());
        assert(r@.lon.text =~= Seq::<u8>::empty());
        r
    }

    /// One step of a poll: take what a read of the UART gave, with `budget`
    /// reads left in this poll, itself included. A poll starts with
    /// [`DRAIN_BUDGET`] reads and ends at the first complete, checksum-valid
    /// RMC or GGA sentence (without CRLF); any further pending bytes stay in
    /// the UART for the next poll.
    pub fn poll_line(&mut self, read: UartRead, budget: usize) -> (r: GpsPoll)
        requires
            old(self).wf(),
            budget >= 1,
        ensures
            final(self).wf(),
            final(self)@ == gps_poll(old(self)@, budget as int, read).0,
            r == gps_poll(old(self)@, budget as int, read).1,
            r is Line ==> gps_poll(old(self)@, budget as int, read).2 == Some(final(self).text())
                && valid_utf8(final(self).text()) && final(self).text().len() <= NMEA_MAX,
    {
        let byte: u8 = match read {
            UartRead::Byte(b) => b,
            UartRead::WouldBlock => return GpsPoll::Nothing { clear_errors: false },
            UartRead::Error => {
                // Lost bytes: drop the partial line and resync.
                self.in_line = false;
                self.len = 0;
                return if budget > 1 {
                    GpsPoll::Read { clear_errors: true }
                } else {
                    GpsPoll::Nothing { clear_errors: true }
                };
            },
        };
        if byte == 36 {
            self.line[0] = 36;
            self.len = 1;
            self.in_line = true;
            assert(self.text() =~= seq![36u8]);
        } else if byte == 13 || byte == 10 {
            if self.in_line && self.complete_line() {
                self.in_line = false;
                return match str_from_utf8(&self.line[0..self.len]) {
                    Some(_) => GpsPoll::Line,
                    None => GpsPoll::Nothing { clear_errors: false },
                };
            }
            self.in_line = false;
            self.len = 0;
        } else if self.in_line {
            if self.len < NMEA_MAX {
                self.line[self.len] = byte;
                self.len = self.len + 1;
                assert(self.text() =~= old(self).text().push(byte));
            } else {
                // Overlong garbage: resync on the next '$'.
                self.in_line = false;
                self.len = 0;
            }
        }
        if budget > 1 {
            GpsPoll::Read { clear_errors: false }
        } else {
            GpsPoll::Nothing { clear_errors: false }
        }
    }

    /// The sentence that [`GpsPoll::Line`] speaks of.
    pub fn line(&self) -> (r: &[u8])
        requires
            self.wf(),
        ensures
            r@ == self.text(),
    {
        &self.line[0..self.len]
    }

    /// Validate and filter the assembled sentence; updates fix state.
    fn complete_line(&mut self) -> (r: bool)
        requires
            old(self).wf(),
            old(self)@.partial is Some,
        ensures
            final(self).wf(),
            final(self).text() == old(self).text(),
            r == is_kept(old(self).text()),
            r ==> final(self)@ == with_sentence(old(self)@, old(self).text()),
            !r ==> final(self)@ == old(self)@,
    {
        // "$xxYYY*hh" is the shortest sentence of interest.
        if self.len < 9 {
            return false;
        }
        let star: usize = self.len - 3;
        assert(forall|i: int| 0 <= i < self.len ==> self.text()[i] == self.line@[i]);
        if self.line[star] != 42 {
            return false;
        }
        let mut sum: u8 = 0;
        let mut i: usize = 1;
        while i < star
            invariant
                1 <= i <= star,
                star < NMEA_MAX,
                sum == xor_of(self.line@.subrange(1, i as int)),
            decreases star - i,
        {
            sum = sum ^ self.line[i];
            i += 1;
            assert(self.line@.subrange(1, i as int).drop_last() =~= self.line@.subrange(
                1,
                i - 1,
            ));
        }
        assert(self.line@.subrange(1, star as int) =~= self.text().subrange(1, star as int));
        let hi: u8 = match hex(self.line[star + 1]) {
            Some(v) => v,
            None => return false,
        };
        let lo: u8 = match hex(self.line[star + 2]) {
            Some(v) => v,
            None => return false,
        };
        if sum != hi * 16 + lo {
            return false;
        }
        // Keep position/velocity sentences from any talker (GP/GN/...).

        if self.line[3] == 71 && self.line[4] == 71 && self.line[5] == 65 {
            self.update_fix();
            true
        } else if self.line[3] == 82 && self.line[4] == 77 && self.line[5] == 67 {
            self.update_rmc();
            true
        } else {
            false
        }
    }

    /// Pull fix quality, satellite count and position out of a validated
    /// GGA sentence: field 2/3 latitude, field 4/5 longitude, field 6
    /// quality, field 7 satellites in use.
    fn update_fix(&mut self)
        requires
            old(self).wf(),
            is_gga(old(self).text()),
        ensures
            final(self).wf(),
            final(self).text() == old(self).text(),
            final(self)@ == with_sentence(old(self)@, old(self).text()),
    {
        let line: &[u8] = &self.line[0..self.len];
        let quality: u8 = parse_u8_field(nth_field(line, 6));
        let sats: u8 = parse_u8_field(nth_field(line, 7));
        let lat: Option<Coord> = parse_coord(nth_field(line, 2), nth_field(line, 3));
        let lon: Option<Coord> = parse_coord(nth_field(line, 4), nth_field(line, 5));
        self.fix_quality = quality;
        self.sats = sats;
        // A quality-0 GGA reports no fix; drop any stale position.
        self.set_position(lat, lon, quality > 0);
    }

    /// Pull position out of a validated RMC sentence: field 2 is the
    /// A/V status, field 3/4 latitude, field 5/6 longitude. RMC carries
    /// no satellite count, so `sats`/`fix_quality` are left to GGA.
    fn update_rmc(&mut self)
        requires
            old(self).wf(),
            is_rmc(old(self).text()),
        ensures
            final(self).wf(),
            final(self).text() == old(self).text(),
            final(self)@ == with_sentence(old(self)@, old(self).text()),
    {
        let line: &[u8] = &self.line[0..self.len];
        let status: &[u8] = nth_field(line, 2);
        let active: bool = status.len() > 0 && status[0] == 65;
        let lat: Option<Coord> = parse_coord(nth_field(line, 3), nth_field(line, 4));
        let lon: Option<Coord> = parse_coord(nth_field(line, 5), nth_field(line, 6));
        self.set_position(lat, lon, active);
    }

    fn set_position(&mut self, lat: Option<Coord>, lon: Option<Coord>, fixed: bool)
        requires
            old(self).wf(),
        ensures
            final(self).wf(),
            final(self).text() == old(self).text(),
            final(self)@ == with_position(old(self)@, coord_view(lat), coord_view(lon), fixed),
    {
        if !fixed {
            self.has_pos = false;
            return ;
        }
        match (lat, lon) {
            (Some(lat), Some(lon)) => {
                self.lat = lat;
                self.lon = lon;
                self.has_pos = true;
            },
            _ => {},
        }
    }

    /// One-line status for the display combining the satellite count,
    /// the RSSI of the last received radio packet, and how long ago that
    /// packet arrived, e.g. "08 -95dBm 1m23s". `since_rx` is the elapsed
    /// milliseconds since the last packet, or `None` when nothing has been
    /// heard yet (rendered "08 no rx").
    pub fn fmt_status_line<'a>(
        &self,
        buf: &'a mut [u8; 24],
        rssi: i16,
        since_rx: Option<u32>,
    ) -> (r: &'a str)
        ensures
            r.spec_bytes() == status_text(self@.sats, rssi, since_rx),
            final(buf)@ == overwrite(old(buf)@, 0, r.spec_bytes()),
    {
        let mut text: Vec<u8> = Vec::new();
        push_dec2(&mut text, self.sats as u32);
        match since_rx {
            Some(ms) => {
                let secs: u32 = ms / 1000;
                push_lit(&mut text, " ");
                push_signed(&mut text, rssi as i32);
                push_lit(&mut text, "dBm ");
                push_dec(&mut text, secs / 60);
                push_lit(&mut text, "m");
                push_dec2(&mut text, secs % 60);
                push_lit(&mut text, "s");
            },
            None => {
                push_lit(&mut text, " no rx");
            },
        }
        assert(text@ =~= status_text(self@.sats, rssi, since_rx));
        proof {
            status_fits(self@.sats, rssi, since_rx);
            ascii_is_utf8(text@);
        }
        let line: &'a [u8] = fmt_line(buf, &text);
        match str_from_utf8(line) {
            Some(s) => s,
            None => "",
        }
    }
}

/// The coordinate as the contracts speak of it.
pub open spec fn coord_view(c: Option<Coord>) -> Option<CoordView> {
    match c {
        Some(c) => Some(c@),
        None => None,
    }
}

/// A status line is ASCII text and always fits the display's 24 columns.
pub proof fn status_fits(sats: u8, rssi: i16, since_rx: Option<u32>)
    ensures
        status_text(sats, rssi, since_rx).len() <= 24,
        is_ascii_text(status_text(sats, rssi, since_rx)),
{
    reveal_strlit(" ");
    lit_codes(" ");
    reveal_strlit("dBm ");
    lit_codes("dBm ");
    reveal_strlit("m");
    lit_codes("m");
    reveal_strlit("s");
    lit_codes("s");
    reveal_strlit(" no rx");
    lit_codes(" no rx");
    assert(lit(" ") =~= seq![32u8]);
    assert(lit("dBm ") =~= seq![100u8, 66u8, 109u8, 32u8]);
    assert(lit("m") =~= seq![109u8]);
    assert(lit("s") =~= seq![115u8]);
    assert(lit(" no rx") =~= seq![32u8, 110u8, 111u8, 32u8, 114u8, 120u8]);
    dec_len(sats as nat);
    dec_is_ascii(sats as nat);
    let mag = if rssi < 0 {
        -(rssi as int)
    } else {
        rssi as int
    };
    dec_len(mag as nat);
    dec_is_ascii(mag as nat);
    match since_rx {
        Some(ms) => {
            dec_len((ms / 1000 / 60) as nat);
            dec_is_ascii((ms / 1000 / 60) as nat);
            dec_len((ms / 1000 % 60) as nat);
            dec_is_ascii((ms / 1000 % 60) as nat);
        },
        None => {},
    }
}

fn hex(c: u8) -> (r: Option<u8>)
    ensures
        r == hex_value(c),
        r matches Some(v) ==> v < 16,
{
    if 48 <= c && c <= 57 {
        Some(c - 48)
    } else if 65 <= c && c <= 70 {
        Some(c - 65 + 10)
    } else if 97 <= c && c <= 102 {
        Some(c - 97 + 10)
    } else {
        None
    }
}

/// What `find` finds.
pub proof fn find_finds(s: Seq<u8>, b: u8)
    ensures
        0 <= find(s, b) <= s.len(),
        find(s, b) < s.len() ==> s[find(s, b)] == b,
        forall|i: int| 0 <= i < find(s, b) ==> s[i] != b,
    decreases s.len(),
{
    if s.len() > 0 && s[0] != b {
        find_finds(s.skip(1), b);
        assert forall|i: int| 0 <= i < find(s, b) implies s[i] != b by {
            if i > 0 {
                assert(s[i] == s.skip(1)[i - 1]);
            }
        }
    }
}

proof fn find_is(s: Seq<u8>, b: u8, k: int)
    requires
        0 <= k <= s.len(),
        k < s.len() ==> s[k] == b,
        forall|i: int| 0 <= i < k ==> s[i] != b,
    ensures
        find(s, b) == k,
{
    find_finds(s, b);
}

/// The `n`th comma-separated field of an NMEA sentence (field 0 is the
/// `$xxYYY` id). Any trailing `*hh` checksum is stripped from the last
/// field. Returns an empty slice when the field is absent.
fn nth_field(line: &[u8], n: usize) -> (r: &[u8])
    ensures
        r@ == field(line@, n as int),
{
    let ghost body = line@.subrange(0, find(line@, 42));
    proof {
        find_finds(line@, 42);
        assert(body.skip(0) =~= body);
    }
    let mut idx: usize = 0;
    let mut start: usize = 0;
    let mut i: usize = 0;
    while i < line.len() && line[i] != 42
        invariant
            body == line@.subrange(0, find(line@, 42)),
            0 <= find(line@, 42) <= line@.len(),
            find(line@, 42) < line@.len() ==> line@[find(line@, 42)] == 42,
            forall|j: int| 0 <= j < find(line@, 42) ==> line@[j] != 42,
            start <= i <= find(line@, 42),
            idx <= i,
            idx <= n,
            forall|j: int| start <= j < i ==> line@[j] != 44,
            pick(fields(body), n as int) == pick(fields(body.skip(start as int)), n - idx),
        decreases line@.len() - i,
    {
        if line[i] == 44 {
            proof {
                let rest = body.skip(start as int);
                assert(forall|j: int| 0 <= j < i - start ==> rest[j] == line@[start + j]);
                find_is(rest, 44, i - start);
                assert(rest.subrange(0, i - start) =~= line@.subrange(start as int, i as int));
                assert(rest.skip(i - start + 1) =~= body.skip(i + 1));
            }
            if idx == n {
                return &line[start..i];
            }
            idx += 1;
            start = i + 1;
        }
        i += 1;
    }
    proof {
        assert(i == find(line@, 42));
        let rest = body.skip(start as int);
        assert(forall|j: int| 0 <= j < rest.len() ==> rest[j] == line@[start + j]);
        find_is(rest, 44, rest.len() as int);
        assert(rest =~= line@.subrange(start as int, i as int));
    }
    if idx == n {
        &line[start..i]
    } else {
        &line[i..i]
    }
}

/// Parse a run of ASCII digits, ignoring any other bytes.
fn parse_u8_field(field: &[u8]) -> (r: u8)
    ensures
        r == small_number(field@),
{
    let mut v: u8 = 0;
    let mut i: usize = 0;
    while i < field.len()
        invariant
            i <= field@.len(),
            v == small_number(field@.subrange(0, i as int)),
        decreases field@.len() - i,
    {
        let b: u8 = field[i];
        let ghost before = digits_of(field@.subrange(0, i as int));
        if 48 <= b && b <= 57 {
            let wide: u16 = v as u16 * 10 + (b - 48) as u16;
            v = if wide <= 255 {
                wide as u8
            } else {
                255
            };
        }
        i += 1;
        proof {
            let part = field@.subrange(0, i as int);
            assert(part.drop_last() =~= field@.subrange(0, i - 1));
            assert(before.push(b).drop_last() =~= before);
        }
    }
    assert(field@.subrange(0, field@.len() as int) =~= field@);
    v
}

/// An NMEA `ddmm.mmmm` (lat) or `dddmm.mmmm` (lon) coordinate with its N/S/E/W
/// hemisphere field, if it is one.
fn parse_coord(field: &[u8], hemi: &[u8]) -> (r: Option<Coord>)
    ensures
        coord_view(r) == coord_of(field@, hemi@),
{
    proof {
        find_finds(field@, 46);
    }
    let mut dot: usize = 0;
    while dot < field.len() && field[dot] != 46
        invariant
            dot <= field@.len(),
            forall|j: int| 0 <= j < dot ==> field@[j] != 46,
        decreases field@.len() - dot,
    {
        dot += 1;
    }
    proof {
        find_is(field@, 46, dot as int);
    }
    // Need at least one degree digit plus the two whole-minute digits.
    if dot == field.len() || dot < 3 {
        return None;
    }
    let mut i: usize = 0;
    while i < field.len()
        invariant
            i <= field@.len(),
            dot == find(field@, 46),
            forall|j: int|
                0 <= j < i && j != dot ==> is_digit(#[trigger] field@[j]) || (j > dot && field@[j]
                    == 46),
        decreases field@.len() - i,
    {
        let b: u8 = field[i];
        let digit: bool = 48 <= b && b <= 57;
        if i != dot && !digit && !(i > dot && b == 46) {
            assert(!is_coord(field@)) by {
                assert(!is_digit(field@[i as int]));
            }
            return None;
        }
        i += 1;
    }
    let mut text: Vec<u8> = Vec::new();
    append(&mut text, field);
    assert(text@ =~= field@);
    let negative: bool = hemi.len() > 0 && (hemi[0] == 83 || hemi[0] == 87);
    Some(Coord { text, negative })
}

/// A run of received bytes: the receiver after them, and the kept sentences
/// that they end, in order.
pub open spec fn gps_bytes(g: GpsView, bytes: Seq<u8>) -> (GpsView, Seq<Seq<u8>>)
    decreases bytes.len(),
{
    if bytes.len() == 0 {
        (g, Seq::empty())
    } else {
        let before = gps_bytes(g, bytes.drop_last());
        let after = gps_byte(before.0, bytes.last());
        (
            after.0,
            match after.1 {
                Some(line) => before.1.push(line),
                None => before.1,
            },
        )
    }
}

proof fn sentence_so_far(g: GpsView, line: Seq<u8>, n: int)
    requires
        1 <= n <= line.len() <= NMEA_MAX,
        line[0] == 36,
        forall|i: int|
            1 <= i < line.len() ==> #[trigger] line[i] != 36 && line[i] != 13 && line[i] != 10,
    ensures
        gps_bytes(g, line.subrange(0, n)) == (
            GpsView { partial: Some(line.subrange(0, n)), ..g },
            Seq::<Seq<u8>>::empty(),
        ),
    decreases n,
{
    let part = line.subrange(0, n);
    assert(part.drop_last() =~= line.subrange(0, n - 1));
    if n == 1 {
        assert(part.drop_last() =~= Seq::<u8>::empty());
        assert(gps_bytes(g, part.drop_last()) == (g, Seq::<Seq<u8>>::empty()));
        assert(part =~= seq![36u8]);
    } else {
        sentence_so_far(g, line, n - 1);
        assert(line.subrange(0, n - 1).push(line[n - 1]) =~= part);
    }
}

/// A sentence that checks out is reported with the carriage return that ends
/// it, and updates the fix state; one that does not is dropped and changes
/// nothing. Whatever was received before it plays no part.
pub proof fn sentence_is_heard(g: GpsView, line: Seq<u8>)
    requires
        1 <= line.len() <= NMEA_MAX,
        line[0] == 36,
        forall|i: int|
            1 <= i < line.len() ==> #[trigger] line[i] != 36 && line[i] != 13 && line[i] != 10,
    ensures
        is_kept(line) ==> gps_bytes(g, line.push(13)) == (
            GpsView { partial: None, ..with_sentence(g, line) },
            seq![line],
        ),
        !is_kept(line) ==> gps_bytes(g, line.push(13)) == (
            GpsView { partial: None, ..g },
            Seq::<Seq<u8>>::empty(),
        ),
{
    sentence_so_far(g, line, line.len() as int);
    assert(line.subrange(0, line.len() as int) =~= line);
    assert(line.push(13).drop_last() =~= line);
    assert(Seq::<Seq<u8>>::empty().push(line) =~= seq![line]);
}

proof fn xor_differs(a: Seq<u8>, b: Seq<u8>, at: int)
    requires
        a.len() == b.len(),
        0 <= at < a.len(),
        a[at] != b[at],
        forall|i: int| 0 <= i < a.len() && i != at ==> a[i] == b[i],
    ensures
        xor_of(a) != xor_of(b),
    decreases a.len(),
{
    let x = xor_of(a.drop_last());
    let y = xor_of(b.drop_last());
    let p = a.last();
    let q = b.last();
    if at == a.len() - 1 {
        assert(a.drop_last() =~= b.drop_last());
    } else {
        xor_differs(a.drop_last(), b.drop_last(), at);
    }
    assert(x ^ p != y ^ q) by (bit_vector)
        requires
            (x == y && p != q) || (x != y && p == q),
    ;
}

/// A sentence with one wrong byte between "$" and "*" does not check out.
pub proof fn damaged_sentence_is_dropped(line: Seq<u8>, at: int, byte: u8)
    requires
        checks_out(line),
        1 <= at < line.len() - 3,
        byte != line[at],
    ensures
        !checks_out(line.update(at, byte)),
{
    let star = line.len() - 3;
    let bad = line.update(at, byte);
    xor_differs(line.subrange(1, star), bad.subrange(1, star), at - 1);
}

/// A sentence that reports no fix clears the position, and one that reports a
/// fix but no readable position keeps it.
pub proof fn lost_fix_drops_position(g: GpsView, line: Seq<u8>)
    requires
        is_kept(line),
    ensures
        is_gga(line) && small_number(field(line, 6)) == 0 ==> !with_sentence(g, line).has_pos,
        is_gga(line) && small_number(field(line, 6)) > 0 && !is_coord(field(line, 2)) ==> {
            &&& with_sentence(g, line).has_pos == g.has_pos
            &&& with_sentence(g, line).lat == g.lat
            &&& with_sentence(g, line).lon == g.lon
        },
{
}

} // verus!
