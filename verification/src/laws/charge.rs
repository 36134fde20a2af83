//! Laws of the charger: hill climbing, limits, and what its readings mean.

use vstd::prelude::*;
use crate::board::activity::Activity;
use crate::board::{
    buck_after, counts_of, ibat_of, ibat_sum, led_after, leds_after, limited, mppt_after,
    permille_of, rail_mv, reading_pieces, state_letter, status_pieces, vbat_of, vbat_sum, vin_of,
    vin_sum, Buck, ChargeState, Led, Leds, MpptView, Sweep, Telemetry,
};
use crate::text::{dec, joined, lit, lit_codes};

verus! {

/// The input is a volt or more above the battery.
pub open spec fn lit_enough(t: Telemetry) -> bool {
    t.vin_mv >= t.vbat_mv + 1000
}

/// The battery is at 4.2 V and 1 A or below.
pub open spec fn within_limits(t: Telemetry) -> bool {
    t.vbat_mv <= 4200 && t.ibat_ma <= 1000
}

/// Output power (mW).
pub open spec fn output_mw(t: Telemetry) -> int {
    t.vbat_mv * t.ibat_ma / 1000
}

/// Output power within the limits is at most 4.2 W.
proof fn power_is_bounded(t: Telemetry)
    requires
        within_limits(t),
    ensures
        0 <= output_mw(t) <= 4200,
{
    assert(0 <= t.vbat_mv * t.ibat_ma <= 4200000) by (nonlinear_arith)
        requires
            0 <= t.vbat_mv <= 4200,
            0 <= t.ibat_ma <= 1000,
    ;
}

/// After a step over a limit, which takes 26 permille off the duty, the first
/// step back within the limits takes another 13 off, whatever the power is then
/// or was before: tracking resumes downhill.
pub proof fn tracking_resumes_downhill(m: MpptView, t: Telemetry, u: Telemetry)
    requires
        m.state != ChargeState::Idle,
        m.duty_pm <= 950,
        lit_enough(t),
        !within_limits(t),
        lit_enough(u),
        within_limits(u),
    ensures
        ({
            let limited = mppt_after(m, t);
            let resumed = mppt_after(limited, u);
            &&& limited.state == ChargeState::Limiting
            &&& limited.last_power_mw == 0
            &&& limited.duty_pm == if m.duty_pm > 26 {
                m.duty_pm - 26
            } else {
                0
            }
            &&& resumed.state == ChargeState::Tracking
            &&& resumed.duty_pm == if m.duty_pm > 39 {
                m.duty_pm - 39
            } else {
                0
            }
        }),
{
    power_is_bounded(u);
}

/// However long a limit lasts, each step under it takes off 26 permille.
pub proof fn limiting_goes_on(m: MpptView, t: Telemetry, u: Telemetry)
    requires
        m.state != ChargeState::Idle,
        m.duty_pm <= 950,
        lit_enough(t),
        !within_limits(t),
        lit_enough(u),
        !within_limits(u),
    ensures
        mppt_after(mppt_after(m, t), u).duty_pm == if m.duty_pm > 52 {
            m.duty_pm - 52
        } else {
            0
        },
        mppt_after(mppt_after(m, t), u).state == ChargeState::Limiting,
{
}

/// Perturb and observe: of two steps in a row away from the ends of the range,
/// the second moves the duty on by the same 13 permille if the power did not
/// drop by more than 40 mW between them, and back by them if it did.
pub proof fn tracking_climbs_on_power(m: MpptView, t: Telemetry, u: Telemetry)
    requires
        m.state != ChargeState::Idle,
        26 <= m.duty_pm <= 923,
        lit_enough(t),
        within_limits(t),
        lit_enough(u),
        within_limits(u),
    ensures
        ({
            let once = mppt_after(m, t);
            let twice = mppt_after(once, u);
            let moved = once.duty_pm - m.duty_pm;
            &&& moved == 13 || moved == -13
            &&& twice.duty_pm - once.duty_pm == if output_mw(u) + 40 < output_mw(t) {
                -moved
            } else {
                moved
            }
            &&& once.state == ChargeState::Tracking
            &&& twice.state == ChargeState::Tracking
        }),
{
    power_is_bounded(t);
    power_is_bounded(u);
}

/// Tracking turns at the ends of the range: a step that reaches the ceiling, or
/// zero, is followed by one away from it, if the power did not drop.
pub proof fn tracking_turns_at_the_ends(m: MpptView, t: Telemetry, u: Telemetry)
    requires
        m.state != ChargeState::Idle,
        m.duty_pm <= 950,
        lit_enough(t),
        within_limits(t),
        lit_enough(u),
        within_limits(u),
        output_mw(u) + 40 >= output_mw(t),
    ensures
        ({
            let once = mppt_after(m, t);
            let twice = mppt_after(once, u);
            &&& once.duty_pm <= 950
            &&& once.duty_pm == 950 ==> twice.duty_pm == 937
            &&& once.duty_pm == 0 ==> twice.duty_pm == 13
        }),
{
    power_is_bounded(t);
    power_is_bounded(u);
}

/// When the sun comes back, by a volt and a half over the battery, an idle
/// charger starts at 13 permille, and goes on up with the next step whatever the
/// power is. With less sun it stays as it is.
pub proof fn start_is_soft(m: MpptView, t: Telemetry, u: Telemetry)
    requires
        m.state == ChargeState::Idle,
        lit_enough(t),
        lit_enough(u),
        within_limits(u),
    ensures
        t.vin_mv >= t.vbat_mv + 1500 ==> {
            &&& mppt_after(m, t).state == ChargeState::Tracking
            &&& mppt_after(m, t).duty_pm == 13
            &&& mppt_after(mppt_after(m, t), u).duty_pm == 26
        },
        t.vin_mv < t.vbat_mv + 1500 ==> mppt_after(m, t) == m,
{
    power_is_bounded(u);
}

/// Without enough input the charger switches off and forgets what it knew: it
/// then does what any other charger in the dark does, and starts anew.
pub proof fn dark_stops_and_forgets(m: MpptView, n: MpptView, t: Telemetry, u: Telemetry)
    requires
        t.vin_mv < t.vbat_mv + 1000,
        u.vin_mv >= u.vbat_mv + 1500,
    ensures
        mppt_after(m, t).state == ChargeState::Idle,
        mppt_after(m, t).duty_pm == 0,
        mppt_after(m, t) == mppt_after(n, t),
        mppt_after(mppt_after(m, t), u).duty_pm == 13,
{
}

/// What the rail is: the reference, read against it, gives its calibrated value
/// at 3.3 V.
pub proof fn rail_follows_the_reference(vref_cal: u16, vref: u16)
    requires
        vref > 0,
    ensures
        rail_mv(vref_cal, vref) * vref <= 3300 * vref_cal < (rail_mv(vref_cal, vref) + 1) * vref,
{
    let rail = rail_mv(vref_cal, vref);
    let d = vref as int;
    let n = 3300 * vref_cal;
    vstd::arithmetic::div_mod::lemma_fundamental_div_mod(n, d);
    vstd::arithmetic::div_mod::lemma_mod_bound(n, d);
    assert(rail * d <= n < (rail + 1) * d) by (nonlinear_arith)
        requires
            n == d * (n / d) + n % d,
            0 <= n % d < d,
            rail == n / d,
    ;
}

/// What readings mean: full scale is the rail at the pin; the input divider
/// makes 23 thirds of that, the battery divider twice, and the shunt 20 mA of
/// each millivolt; each up to what rounding down at the pin loses.
pub proof fn readings_in_physical_units(vref_cal: u16, s: Sweep)
    ensures
        ({
            let rail = rail_mv(vref_cal, s.vref);
            &&& 12285 * vin_of(vref_cal, s) <= 23 * (s.vin * rail) < 12285 * (vin_of(
                vref_cal,
                s,
            ) + 9)
            &&& 4095 * vbat_of(vref_cal, s) <= 2 * (s.vout * rail) < 4095 * (vbat_of(vref_cal, s)
                + 2)
            &&& 4095 * ibat_of(vref_cal, s) <= 20 * (s.ishunt * rail) < 4095 * (ibat_of(
                vref_cal,
                s,
            ) + 20)
        }),
{
    let rail = rail_mv(vref_cal, s.vref);
    scaled(s.vin * rail);
    scaled(s.vout * rail);
    scaled(s.ishunt * rail);
}

/// What rounding loses between a pin and the quantity behind it.
proof fn scaled(p: int)
    ensures
        12285 * (p / 4095 * 23 / 3) <= 23 * p < 12285 * (p / 4095 * 23 / 3 + 9),
        4095 * (p / 4095 * 2) <= 2 * p < 4095 * (p / 4095 * 2 + 2),
        4095 * (p / 4095 * 20) <= 20 * p < 4095 * (p / 4095 * 20 + 20),
{
    let q = p / 4095;
    let v = q * 23 / 3;
    assert(4095 * q <= p <= 4095 * q + 4094);
    assert(3 * v <= 23 * q <= 3 * v + 2);
    assert(12285 * v <= 94185 * q <= 12285 * v + 8190);
    assert(94185 * q <= 23 * p <= 94185 * q + 94162);
}

/// Each channel reads its own pin.
pub proof fn channels_are_apart(vref_cal: u16, a: Sweep, b: Sweep)
    requires
        a.vref == b.vref,
    ensures
        a.vin == b.vin ==> vin_of(vref_cal, a) == vin_of(vref_cal, b),
        a.vout == b.vout ==> vbat_of(vref_cal, a) == vbat_of(vref_cal, b),
        a.ishunt == b.ishunt ==> ibat_of(vref_cal, a) == ibat_of(vref_cal, b),
{
}

/// The sum over equal sweeps is that many times one of them, so their average is
/// that one.
pub proof fn equal_sweeps_average_to_one(vref_cal: u16, s: Sweep, n: nat)
    ensures
        vin_sum(vref_cal, Seq::new(n, |i: int| s)) == n * vin_of(vref_cal, s),
        vbat_sum(vref_cal, Seq::new(n, |i: int| s)) == n * vbat_of(vref_cal, s),
        ibat_sum(vref_cal, Seq::new(n, |i: int| s)) == n * ibat_of(vref_cal, s),
    decreases n,
{
    let all = Seq::new(n, |i: int| s);
    if n > 0 {
        let less = (n - 1) as nat;
        equal_sweeps_average_to_one(vref_cal, s, less);
        assert(all.drop_last() =~= Seq::new(less, |i: int| s));
        let (a, b, c) = (vin_of(vref_cal, s), vbat_of(vref_cal, s), ibat_of(vref_cal, s));
        assert(n * a == less * a + a && n * b == less * b + b && n * c == less * c + c)
            by (nonlinear_arith)
            requires
                n == less + 1,
        ;
    } else {
        let (a, b, c) = (vin_of(vref_cal, s), vbat_of(vref_cal, s), ibat_of(vref_cal, s));
        assert(0 * a == 0 && 0 * b == 0 && 0 * c == 0) by (nonlinear_arith);
    }
}

/// A duty up to the ceiling is kept, and one above it becomes the ceiling.
pub proof fn duty_is_held(permille: u32)
    ensures
        permille <= 950 ==> limited(permille) == permille,
        permille > 950 ==> limited(permille) == 950,
{
}

/// A duty cycle goes to a timer of 160 counts, rounded down, and what is read
/// back is that.
pub proof fn duty_goes_to_the_timer(permille: u32)
    ensures
        permille <= 950 ==> 1000 * counts_of(permille) <= 160 * permille < 1000 * counts_of(
            permille,
        ) + 1000,
        permille > 950 ==> counts_of(permille) == counts_of(950),
        ({
            let counts = counts_of(permille) as u16;
            &&& counts < 160
            &&& 160 * permille_of(counts) <= 1000 * counts < 160 * permille_of(counts) + 160
        }),
{
}

/// The buck is driven at the controller's duty, and let be only by a charger
/// that goes on waiting for sun.
pub proof fn buck_follows_the_controller(m: MpptView, t: Telemetry, buck: Buck)
    requires
        m.duty_pm <= 950,
        t.vbat_mv <= 1000000,
    ensures
        ({
            let after = buck_after(m, t, buck);
            let waits = m.state == ChargeState::Idle && t.vbat_mv + 1000 <= t.vin_mv < t.vbat_mv
                + 1500;
            &&& waits ==> after == buck
            &&& !waits ==> after.ccr == counts_of(mppt_after(m, t).duty_pm)
            &&& t.vin_mv < t.vbat_mv + 1000 ==> after.ccr == 0
        }),
{
    duty_goes_to_the_timer(mppt_after(m, t).duty_pm);
}

/// An LED that an event lights stays lit for 30 ms and no longer, and another
/// event in between starts them anew.
pub proof fn lights_last_thirty_ms(l: Led, now_ms: u32, elapsed: u32)
    ensures
        ({
            let on = led_after(l, true, now_ms);
            let at = ((now_ms + elapsed) % 0x1_0000_0000) as u32;
            &&& on.lit
            &&& led_after(on, false, at).lit == (elapsed < 30)
            &&& led_after(on, true, at).lit && led_after(on, true, at).on_at == at
        }),
{
}

/// Each LED has its own event: a transmission lights the one and leaves the other
/// as it would be, and so does a reception.
pub proof fn lights_have_their_own_events(l: Leds, now_ms: u32)
    ensures
        ({
            let sent = leds_after(l, Activity { tx: true, rx: false }, now_ms);
            let heard = leds_after(l, Activity { tx: false, rx: true }, now_ms);
            let quiet = leds_after(l, Activity { tx: false, rx: false }, now_ms);
            &&& sent.tx.lit && sent.tx.on_at == now_ms && sent.rx == quiet.rx
            &&& heard.rx.lit && heard.rx.on_at == now_ms && heard.tx == quiet.tx
            &&& !l.tx.lit ==> !quiet.tx.lit
            &&& !l.rx.lit ==> !quiet.rx.lit
        }),
{
}

/// A dark LED stays dark until something happens.
pub proof fn dark_led_stays_dark(l: Led, now_ms: u32)
    requires
        !l.lit,
    ensures
        !led_after(l, false, now_ms).lit,
{
}

/// The broadcast names the input, the battery and the current, in this order and
/// by these letters, and the status adds the duty and the state's own letter.
pub proof fn telemetry_is_labelled(t: Telemetry, duty_pm: u32, state: ChargeState)
    ensures
        joined(reading_pieces(t)) == lit("V=") + dec(t.vin_mv as nat) + lit(" B=") + dec(
            t.vbat_mv as nat,
        ) + lit(" I=") + dec(t.ibat_ma as nat),
        joined(status_pieces(t, duty_pm, state)) == joined(reading_pieces(t)) + lit(" D=") + dec(
            duty_pm as nat,
        ) + lit(" ") + seq![
            match state {
                ChargeState::Idle => 105u8,
                ChargeState::Tracking => 116u8,
                ChargeState::Limiting => 108u8,
            },
        ],
{
    reveal_strlit("i");
    lit_codes("i");
    reveal_strlit("t");
    lit_codes("t");
    reveal_strlit("l");
    lit_codes("l");
    let none = Seq::<Seq<u8>>::empty();
    let v = none.push(lit("V=")).push(dec(t.vin_mv as nat));
    let b = v.push(lit(" B=")).push(dec(t.vbat_mv as nat));
    let r = b.push(lit(" I=")).push(dec(t.ibat_ma as nat));
    let d = r.push(lit(" D=")).push(dec(duty_pm as nat));
    let letter = state_letter(state);
    let s = d.push(lit(" ")).push(letter);
    joined_push(none, lit("V="));
    joined_push(none.push(lit("V=")), dec(t.vin_mv as nat));
    joined_push(v, lit(" B="));
    joined_push(v.push(lit(" B=")), dec(t.vbat_mv as nat));
    joined_push(b, lit(" I="));
    joined_push(b.push(lit(" I=")), dec(t.ibat_ma as nat));
    joined_push(r, lit(" D="));
    joined_push(r.push(lit(" D=")), dec(duty_pm as nat));
    joined_push(d, lit(" "));
    joined_push(d.push(lit(" ")), letter);
    assert(reading_pieces(t) =~= r);
    assert(status_pieces(t, duty_pm, state) =~= s);
    assert(joined(none) + lit("V=") =~= lit("V="));
    assert(letter =~= seq![
        match state {
            ChargeState::Idle => 105u8,
            ChargeState::Tracking => 116u8,
            ChargeState::Limiting => 108u8,
        },
    ]);
}

/// One more piece stands behind the others.
proof fn joined_push(pieces: Seq<Seq<u8>>, last: Seq<u8>)
    ensures
        joined(pieces.push(last)) == joined(pieces) + last,
    decreases pieces.len(),
{
    let all = pieces.push(last);
    if pieces.len() == 0 {
        assert(all.skip(1) =~= Seq::<Seq<u8>>::empty());
        assert(joined(all.skip(1)) =~= Seq::<u8>::empty());
        assert(joined(all) =~= joined(pieces) + last);
    } else {
        joined_push(pieces.skip(1), last);
        assert(all.skip(1) =~= pieces.skip(1).push(last));
        assert(joined(all) =~= joined(pieces) + last);
    }
}

} // verus!
