//! Laws of the settings, of text, of the clock and of chance.

use vstd::prelude::*;
use crate::board::charge::AVG_SAMPLES;
use crate::board::sd::READY_TIMEOUT_MS;
use crate::board::{PWM_HZ, PWM_STEPS};
use crate::config::{
    boost_of, number_of, preset_of, RadioPreset, BROADCAST_LIFETIME, DEFAULT_ADDRESS,
    DEFAULT_FIRMWARE_VERSION,
};
use crate::mesh::{mesh_error, MeshError};
use crate::node::{RF_FREQ, WATCHDOG_MS};
use crate::platform::{in_span, seed, xorshift32, BOARD_SYSCLK_HZ, SYSCLK_HZ};
use crate::text::{
    cut, dec, dec2, dec_len, dec_round_trip, dec_signed, dec_value, fit, joined, lit, lit_codes,
};

verus! {

/// Each preset is selected by its own word and by no other text, `fast` also by
/// saying nothing.
pub proof fn presets_have_their_words(s: Seq<u8>)
    ensures
        preset_of(None) == Some(RadioPreset::Fast),
        preset_of(Some(s)) == Some(RadioPreset::Fast) <==> s == seq![102u8, 97u8, 115u8, 116u8],
        preset_of(Some(s)) == Some(RadioPreset::Long) <==> s == seq![108u8, 111u8, 110u8, 103u8],
        preset_of(Some(s)) == Some(RadioPreset::Max) <==> s == seq![109u8, 97u8, 120u8],
        preset_of(Some(s)) == Some(RadioPreset::Extreme) <==> s == seq![
            101u8,
            120u8,
            116u8,
            114u8,
            101u8,
            109u8,
            101u8,
        ],
{
    reveal_strlit("fast");
    reveal_strlit("long");
    reveal_strlit("max");
    reveal_strlit("extreme");
    lit_codes("fast");
    lit_codes("long");
    lit_codes("max");
    lit_codes("extreme");
    let fast = seq![102u8, 97u8, 115u8, 116u8];
    let long = seq![108u8, 111u8, 110u8, 103u8];
    let max = seq![109u8, 97u8, 120u8];
    let extreme = seq![101u8, 120u8, 116u8, 114u8, 101u8, 109u8, 101u8];
    assert(lit("fast") =~= fast);
    assert(lit("long") =~= long);
    assert(lit("max") =~= max);
    assert(lit("extreme") =~= extreme);
    assert(fast[0] != long[0]);
    assert(max.len() == 3 && extreme.len() == 7 && fast.len() == 4 && long.len() == 4);
}

/// Boosted gain is asked for by `1` alone, and refused by `0` or by saying
/// nothing.
pub proof fn boost_has_its_words(s: Seq<u8>)
    ensures
        boost_of(None) == Some(false),
        boost_of(Some(s)) == Some(true) <==> s == seq![49u8],
        boost_of(Some(s)) == Some(false) <==> s == seq![48u8],
{
    reveal_strlit("0");
    reveal_strlit("1");
    lit_codes("0");
    lit_codes("1");
    assert(lit("0") =~= seq![48u8]);
    assert(lit("1") =~= seq![49u8]);
    assert(seq![48u8][0] != seq![49u8][0]);
}

/// A number is read back from its digits up to the limit and not beyond, and a
/// text with anything but digits, or with none, is no number.
pub proof fn numbers_are_read_back(n: nat, max: nat, text: Seq<u8>, i: int)
    ensures
        number_of(dec(n), max) == if n <= max {
            Some(n)
        } else {
            None
        },
        number_of(Seq::empty(), max) is None,
        0 <= i < text.len() && !(48 <= text[i] <= 57) ==> number_of(text, max) is None,
{
    dec_round_trip(n);
    dec_len(n);
}

/// The decimal digits of a number: they make it up, there is no needless zero in
/// front but for the second digit where two are asked for, and a minus sign
/// stands in front of the negative ones and of no others.
pub proof fn decimals_are_canonical(n: nat, x: int)
    ensures
        dec_value(dec(n)) == n,
        n >= 10 ==> dec(n)[0] != 48,
        n < 10 ==> dec(n) == seq![(48 + n) as u8],
        n >= 10 ==> dec2(n) == dec(n),
        n < 10 ==> dec2(n) == seq![48u8, (48 + n) as u8],
        x >= 0 ==> dec_signed(x) == dec(x as nat),
        x < 0 ==> dec_signed(x) == seq![45u8] + dec((-x) as nat),
    decreases n,
{
    dec_round_trip(n);
    if n >= 10 {
        decimals_are_canonical(n / 10, x);
        dec_len(n / 10);
    }
}

/// A text that fits is kept whole, and of one that does not as much is kept as
/// fits.
pub proof fn cut_keeps_the_start(text: Seq<u8>, cap: nat, i: int)
    ensures
        text.len() <= cap ==> cut(text, cap as int) == text,
        text.len() > cap ==> cut(text, cap as int).len() == cap,
        0 <= i < cut(text, cap as int).len() ==> cut(text, cap as int)[i] == text[i],
{
}

/// Of some pieces the first ones are kept, whole, up to the first that would not
/// fit; there is one, or all are kept.
pub proof fn whole_pieces_are_kept(text: Seq<u8>, pieces: Seq<Seq<u8>>, cap: int) -> (n: int)
    ensures
        0 <= n <= pieces.len(),
        fit(text, pieces, cap) == text + joined(pieces.take(n)),
        n < pieces.len() ==> text.len() + joined(pieces.take(n)).len() + pieces[n].len() > cap,
        text.len() <= cap ==> fit(text, pieces, cap).len() <= cap,
    decreases pieces.len(),
{
    if pieces.len() == 0 || text.len() + pieces[0].len() > cap {
        assert(text + joined(pieces.take(0)) =~= text);
        0
    } else {
        let rest = pieces.skip(1);
        let m = whole_pieces_are_kept(text + pieces[0], rest, cap);
        assert(pieces.take(m + 1).skip(1) =~= rest.take(m));
        assert(pieces.take(m + 1)[0] == pieces[0]);
        assert((text + pieces[0]) + joined(rest.take(m)) =~= text + joined(pieces.take(m + 1)));
        m + 1
    }
}

/// The clocks: the charger board's runs four times as fast as the default one,
/// and one of its PWM periods takes all of the timer's steps; a millisecond is a
/// thousandth of a second of either.
pub proof fn clocks_go_together()
    ensures
        BOARD_SYSCLK_HZ == 4 * SYSCLK_HZ,
        PWM_HZ * PWM_STEPS == BOARD_SYSCLK_HZ,
        SYSCLK_HZ == 1000 * 4000,
{
}

/// What a node takes for granted: a channel in the middle of its band, both
/// serial lines at the rate that their devices start with, a watchdog that
/// outlasts every wait that does not feed it, four sweeps to an average, and one
/// hop, version one and address one where nothing is said.
pub proof fn defaults_of_a_node()
    ensures
        2 * RF_FREQ == 902000000 + 928000000,
        crate::gpslog::BAUD == 9600 && crate::rs422::BAUD == 9600,
        WATCHDOG_MS == 5 * READY_TIMEOUT_MS,
        AVG_SAMPLES == 4,
        BROADCAST_LIFETIME == 1,
        DEFAULT_FIRMWARE_VERSION == 1,
        DEFAULT_ADDRESS == 1,
{
}

/// The router's codes: zero is success, one to four have an error each, and any
/// other is a message that could not be delivered.
pub proof fn router_codes_are_told_apart(a: u8, b: u8)
    ensures
        mesh_error(a) is None <==> a == 0,
        mesh_error(a) == Some(MeshError::InvalidLength) <==> a == 1,
        mesh_error(a) == Some(MeshError::NoRoute) <==> a == 2,
        mesh_error(a) == Some(MeshError::Timeout) <==> a == 3,
        mesh_error(a) == Some(MeshError::NoReply) <==> a == 4,
        mesh_error(a) == Some(MeshError::UnableToDeliver) <==> a >= 5,
        mesh_error(a) == mesh_error(b) <==> a == b || (a >= 5 && b >= 5),
{
}

/// The generator's step can be undone, so that no two states lead to the same
/// one: the shifts by 5, 17 and 13 are taken back in turn.
pub proof fn generator_can_be_run_back(s: u32)
    ensures
        ({
            let y = xorshift32(s);
            let c = y ^ (y << 5) ^ (y << 10) ^ (y << 15) ^ (y << 20) ^ (y << 25) ^ (y << 30);
            let a = c ^ (c >> 17);
            a ^ (a << 13) ^ (a << 26) == s
        }),
{
    assert({
        let a0 = s ^ (s << 13);
        let b0 = a0 ^ (a0 >> 17);
        let y = b0 ^ (b0 << 5);
        let c = y ^ (y << 5) ^ (y << 10) ^ (y << 15) ^ (y << 20) ^ (y << 25) ^ (y << 30);
        let a = c ^ (c >> 17);
        a ^ (a << 13) ^ (a << 26) == s
    }) by (bit_vector);
}

/// A generator goes on from its state and takes no notice of the counter then; a
/// fresh one starts from the counter, or from one where that is zero.
pub proof fn generator_is_seeded_once(state: u32, a: u32, b: u32)
    ensures
        state != 0 ==> seed(state, a) == state && seed(state, a) == seed(state, b),
        a != 0 ==> seed(0, a) == a,
        seed(0, 0) == 1,
{
}

/// A random number is the low end plus what the state leaves over from the
/// width, the state taken as a distance from zero on a clock of 32 bits.
pub proof fn random_numbers_follow_the_state(s: u32, min: i32, max: i32)
    ensures
        max <= min ==> in_span(s, min, max) == min,
        min < max ==> {
            let r = in_span(s, min, max);
            let mag = if s <= 0x8000_0000 {
                s as int
            } else {
                0x1_0000_0000 - s
            };
            &&& min <= r < max
            &&& (mag - (r - min)) % (max - min) == 0
        },
{
    if min < max {
        let span = max - min;
        let mag = if s <= 0x8000_0000 {
            s as int
        } else {
            0x1_0000_0000 - s
        };
        let left = mag % span;
        vstd::arithmetic::div_mod::lemma_mod_bound(mag, span);
        vstd::arithmetic::div_mod::lemma_fundamental_div_mod(mag, span);
        vstd::arithmetic::div_mod::lemma_mod_multiples_basic(mag / span, span);
        assert(mag - left == (mag / span) * span) by (nonlinear_arith)
            requires
                mag == span * (mag / span) + left,
        ;
    }
}

} // verus!
