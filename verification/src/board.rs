//! The MPPT buck NiMH charger board: measurements, charge control, activity
//! LEDs and the SD card.
//!
//! The LM5109B LI input is grounded: the buck is non-synchronous with an
//! SS56 freewheel diode, so only the high-side PWM is driven.

pub mod activity;
pub mod charge;
pub mod sd;
pub mod sd_bring_up;

use vstd::prelude::*;
use vstd::string::StringSliceAdditionalSpecFns;
use crate::bytes::overwrite;
use crate::text::{
    dec, dec_is_ascii, dec_len, dec_vec, fit, fit_all, fmt_into, is_ascii_text, joined, lit,
    lit_codes, lit_vec, piece_views,
};
use activity::{take_rx, take_tx, Activity};
use sd::{SdCard, SdState, SdView};

verus! {

/// One sensor sweep, in physical units.
#[derive(Debug, Clone, Copy)]
pub struct Telemetry {
    /// Solar input voltage (mV).
    pub vin_mv: u32,
    /// Battery voltage (mV).
    pub vbat_mv: u32,
    /// Battery charge current (mA), measured across the low-side shunt.
    pub ibat_ma: u32,
}

impl Default for Telemetry {
    fn default() -> (r: Telemetry)
        ensures
            r == (Telemetry { vin_mv: 0, vbat_mv: 0, ibat_ma: 0 }),
    {
        Telemetry { vin_mv: 0, vbat_mv: 0, ibat_ma: 0 }
    }
}

/// The pieces of `V=<vin> B=<vbat> I=<ibat>`.
pub open spec fn reading_pieces(t: Telemetry) -> Seq<Seq<u8>> {
    seq![
        lit("V="),
        dec(t.vin_mv as nat),
        lit(" B="),
        dec(t.vbat_mv as nat),
        lit(" I="),
        dec(t.ibat_ma as nat),
    ]
}

/// The letter of a charger state.
pub open spec fn state_letter(state: ChargeState) -> Seq<u8> {
    match state {
        ChargeState::Idle => lit("i"),
        ChargeState::Tracking => lit("t"),
        ChargeState::Limiting => lit("l"),
    }
}

/// The pieces of `V=<vin> B=<vbat> I=<ibat> D=<duty permille> <state letter>`.
pub open spec fn status_pieces(t: Telemetry, duty_pm: u32, state: ChargeState) -> Seq<Seq<u8>> {
    reading_pieces(t) + seq![lit(" D="), dec(duty_pm as nat), lit(" "), state_letter(state)]
}

/// The literals of a telemetry text.
proof fn telemetry_literals()
    ensures
        lit("V=") == seq![86u8, 61u8],
        lit(" B=") == seq![32u8, 66u8, 61u8],
        lit(" I=") == seq![32u8, 73u8, 61u8],
        lit(" D=") == seq![32u8, 68u8, 61u8],
        lit(" ") == seq![32u8],
        lit("i") == seq![105u8],
        lit("t") == seq![116u8],
        lit("l") == seq![108u8],
{
    reveal_strlit("V=");
    lit_codes("V=");
    assert(lit("V=") =~= seq![86u8, 61u8]);
    reveal_strlit(" B=");
    lit_codes(" B=");
    assert(lit(" B=") =~= seq![32u8, 66u8, 61u8]);
    reveal_strlit(" I=");
    lit_codes(" I=");
    assert(lit(" I=") =~= seq![32u8, 73u8, 61u8]);
    reveal_strlit(" D=");
    lit_codes(" D=");
    assert(lit(" D=") =~= seq![32u8, 68u8, 61u8]);
    reveal_strlit(" ");
    lit_codes(" ");
    assert(lit(" ") =~= seq![32u8]);
    reveal_strlit("i");
    lit_codes("i");
    assert(lit("i") =~= seq![105u8]);
    reveal_strlit("t");
    lit_codes("t");
    assert(lit("t") =~= seq![116u8]);
    reveal_strlit("l");
    lit_codes("l");
    assert(lit("l") =~= seq![108u8]);
}

impl Telemetry {
    /// Format as `V=<vin> B=<vbat> I=<ibat>` into `buf`, returning the
    /// written prefix. Fits a 32-byte mesh payload.
    pub fn format_into<'a>(&self, buf: &'a mut [u8; 32]) -> (r: &'a str)
        ensures
            r.spec_bytes() == fit(Seq::empty(), reading_pieces(*self), 32),
            final(buf)@ == overwrite(old(buf)@, 0, r.spec_bytes()),
    {
        let pieces: Vec<Vec<u8>> = self.pieces();
        fmt_into(buf, &pieces)
    }

    fn pieces(&self) -> (r: Vec<Vec<u8>>)
        ensures
            piece_views(r@) == reading_pieces(*self),
            forall|i: int| 0 <= i < r@.len() ==> is_ascii_text(#[trigger] r@[i]@),
    {
        proof {
            telemetry_literals();
            dec_is_ascii(self.vin_mv as nat);
            dec_is_ascii(self.vbat_mv as nat);
            dec_is_ascii(self.ibat_ma as nat);
        }
        let mut r: Vec<Vec<u8>> = Vec::new();
        r.push(lit_vec("V="));
        r.push(dec_vec(self.vin_mv));
        r.push(lit_vec(" B="));
        r.push(dec_vec(self.vbat_mv));
        r.push(lit_vec(" I="));
        r.push(dec_vec(self.ibat_ma));
        assert(piece_views(r@) =~= reading_pieces(*self));
        r
    }

    /// Like [`format_into`](Self::format_into) with the charger status
    /// appended: `... D=<duty permille> <state letter>`.
    pub fn format_status<'a>(
        &self,
        duty_pm: u32,
        state: ChargeState,
        buf: &'a mut [u8; 32],
    ) -> (r: &'a str)
        ensures
            r.spec_bytes() == fit(Seq::empty(), status_pieces(*self, duty_pm, state), 32),
            final(buf)@ == overwrite(old(buf)@, 0, r.spec_bytes()),
    {
        proof {
            telemetry_literals();
            dec_is_ascii(duty_pm as nat);
        }
        let letter: Vec<u8> = match state {
            ChargeState::Idle => lit_vec("i"),
            ChargeState::Tracking => lit_vec("t"),
            ChargeState::Limiting => lit_vec("l"),
        };
        let mut pieces: Vec<Vec<u8>> = self.pieces();
        let ghost head = pieces@;
        pieces.push(lit_vec(" D="));
        pieces.push(dec_vec(duty_pm));
        pieces.push(lit_vec(" "));
        pieces.push(letter);
        assert(forall|i: int| 0 <= i < head.len() ==> pieces@[i] == head[i]);
        assert(piece_views(head).len() == 6);
        assert forall|i: int| 0 <= i < 10 implies piece_views(pieces@)[i] == status_pieces(
            *self,
            duty_pm,
            state,
        )[i] by {
            if i < 6 {
                assert(piece_views(head)[i] == reading_pieces(*self)[i]);
            }
        }
        assert(piece_views(pieces@) =~= status_pieces(*self, duty_pm, state));
        fmt_into(buf, &pieces)
    }
}

/// Readings and status are never cut where they can arise: voltages below 100 V,
/// a current below 100 A and any duty that the controller commands fit the mesh
/// payload whole.
pub proof fn telemetry_fits(t: Telemetry, duty_pm: u32, state: ChargeState)
    requires
        t.vin_mv < 100000,
        t.vbat_mv < 100000,
        t.ibat_ma < 100000,
        duty_pm <= 950,
    ensures
        joined(reading_pieces(t)).len() <= 32,
        fit(Seq::empty(), reading_pieces(t), 32) == joined(reading_pieces(t)),
        joined(status_pieces(t, duty_pm, state)).len() <= 32,
        fit(Seq::empty(), status_pieces(t, duty_pm, state), 32) == joined(
            status_pieces(t, duty_pm, state),
        ),
{
    telemetry_literals();
    dec_len(t.vin_mv as nat);
    dec_len(t.vbat_mv as nat);
    dec_len(t.ibat_ma as nat);
    dec_len(duty_pm as nat);
    reveal_with_fuel(joined, 11);
    let r = reading_pieces(t);
    let s = status_pieces(t, duty_pm, state);
    assert(forall|i: int, k: int| #![auto] 0 <= k && 0 <= i < s.len() - k ==> s.skip(k)[i] == s[i + k]);
    assert(forall|i: int, k: int| #![auto] 0 <= k && 0 <= i < r.len() - k ==> r.skip(k)[i] == r[i + k]);
    fit_all(Seq::empty(), r, 32);
    fit_all(Seq::empty(), s, 32);
    assert(Seq::<u8>::empty() + joined(r) =~= joined(r));
    assert(Seq::<u8>::empty() + joined(s) =~= joined(s));
}

/// Raw readings of the three channels and the internal reference, 12 bits each.
#[derive(Clone, Copy)]
pub struct Sweep {
    pub vref: u16,
    pub vin: u16,
    pub vout: u16,
    pub ishunt: u16,
}

/// The 3V3 rail (mV), from the reading of the internal reference and its factory
/// calibration, which is taken at 3.3 V.
pub open spec fn rail_mv(vref_cal: u16, vref: u16) -> int {
    3300 * vref_cal / (if vref == 0 {
        1
    } else {
        vref as int
    })
}

/// The voltage at a pin (mV).
pub open spec fn pin_mv(raw: u16, rail: int) -> int {
    raw * rail / 4095
}

/// The sweep in physical units: 10k over 1.5k at the input, 10k over 10k at the
/// battery, and a shunt of 50 mOhm.
pub open spec fn vin_of(vref_cal: u16, s: Sweep) -> int {
    pin_mv(s.vin, rail_mv(vref_cal, s.vref)) * 23 / 3
}

pub open spec fn vbat_of(vref_cal: u16, s: Sweep) -> int {
    pin_mv(s.vout, rail_mv(vref_cal, s.vref)) * 2
}

pub open spec fn ibat_of(vref_cal: u16, s: Sweep) -> int {
    pin_mv(s.ishunt, rail_mv(vref_cal, s.vref)) * 20
}

/// No product on the way from raw readings to physical units exceeds 32 bits.
pub open spec fn convertible(vref_cal: u16, s: Sweep) -> bool {
    let rail = rail_mv(vref_cal, s.vref);
    &&& s.vin * rail <= u32::MAX
    &&& s.vout * rail <= u32::MAX
    &&& s.ishunt * rail <= u32::MAX
    &&& pin_mv(s.vin, rail) * 23 <= u32::MAX
    &&& pin_mv(s.vout, rail) * 2 <= u32::MAX
    &&& pin_mv(s.ishunt, rail) * 20 <= u32::MAX
}

/// Sums of the channels of some sweeps, in physical units.
pub open spec fn vin_sum(vref_cal: u16, s: Seq<Sweep>) -> int
    decreases s.len(),
{
    if s.len() == 0 {
        0
    } else {
        vin_sum(vref_cal, s.drop_last()) + vin_of(vref_cal, s.last())
    }
}

pub open spec fn vbat_sum(vref_cal: u16, s: Seq<Sweep>) -> int
    decreases s.len(),
{
    if s.len() == 0 {
        0
    } else {
        vbat_sum(vref_cal, s.drop_last()) + vbat_of(vref_cal, s.last())
    }
}

pub open spec fn ibat_sum(vref_cal: u16, s: Seq<Sweep>) -> int
    decreases s.len(),
{
    if s.len() == 0 {
        0
    } else {
        ibat_sum(vref_cal, s.drop_last()) + ibat_of(vref_cal, s.last())
    }
}

/// Twelve-bit readings on a rail of up to a thousand volts are convertible, and
/// so is any number of sweeps up to a hundred.
pub proof fn plausible_sweeps_convert(vref_cal: u16, s: Sweep)
    requires
        s.vin <= 4095,
        s.vout <= 4095,
        s.ishunt <= 4095,
        rail_mv(vref_cal, s.vref) <= 1000000,
    ensures
        convertible(vref_cal, s),
        vin_of(vref_cal, s) <= 7666667,
        vbat_of(vref_cal, s) <= 2000000,
        ibat_of(vref_cal, s) <= 20000000,
{
    let rail = rail_mv(vref_cal, s.vref);
    rail_is_nonnegative(vref_cal, s.vref);
    assert(0 <= s.vin * rail <= 4095000000) by (nonlinear_arith)
        requires
            0 <= s.vin <= 4095,
            0 <= rail <= 1000000,
    ;
    assert(0 <= s.vout * rail <= 4095000000) by (nonlinear_arith)
        requires
            0 <= s.vout <= 4095,
            0 <= rail <= 1000000,
    ;
    assert(0 <= s.ishunt * rail <= 4095000000) by (nonlinear_arith)
        requires
            0 <= s.ishunt <= 4095,
            0 <= rail <= 1000000,
    ;
}

proof fn rail_is_nonnegative(vref_cal: u16, vref: u16)
    ensures
        0 <= rail_mv(vref_cal, vref) <= 3300 * vref_cal,
{
    let d = if vref == 0 {
        1
    } else {
        vref as int
    };
    assert(0 <= 3300 * vref_cal / d <= 3300 * vref_cal) by (nonlinear_arith)
        requires
            d >= 1,
            vref_cal >= 0,
    ;
}

/// ADC readings of the input divider, battery divider and current shunt.
pub struct Senses {
    /// Factory calibration of the internal reference.
    pub vref_cal: u16,
}

impl Senses {
    /// Measurements on a chip with this reference calibration.
    pub fn new(vref_cal: u16) -> (r: Senses)
        ensures
            r.vref_cal == vref_cal,
    {
        Senses { vref_cal }
    }

    /// Average the sweeps of all channels.
    pub fn read_avg(&self, sweeps: &[Sweep]) -> (r: Telemetry)
        requires
            sweeps@.len() >= 1,
            sweeps@.len() <= u32::MAX,
            forall|i: int|
                0 <= i < sweeps@.len() ==> convertible(self.vref_cal, #[trigger] sweeps@[i]),
            vin_sum(self.vref_cal, sweeps@) <= u32::MAX,
            vbat_sum(self.vref_cal, sweeps@) <= u32::MAX,
            ibat_sum(self.vref_cal, sweeps@) <= u32::MAX,
        ensures
            r.vin_mv == vin_sum(self.vref_cal, sweeps@) / sweeps@.len() as int,
            r.vbat_mv == vbat_sum(self.vref_cal, sweeps@) / sweeps@.len() as int,
            r.ibat_ma == ibat_sum(self.vref_cal, sweeps@) / sweeps@.len() as int,
    {
        let mut acc: Telemetry = Telemetry { vin_mv: 0, vbat_mv: 0, ibat_ma: 0 };
        let mut i: usize = 0;
        while i < sweeps.len()
            invariant
                i <= sweeps@.len(),
                forall|j: int|
                    0 <= j < sweeps@.len() ==> convertible(self.vref_cal, #[trigger] sweeps@[j]),
                vin_sum(self.vref_cal, sweeps@) <= u32::MAX,
                vbat_sum(self.vref_cal, sweeps@) <= u32::MAX,
                ibat_sum(self.vref_cal, sweeps@) <= u32::MAX,
                acc.vin_mv == vin_sum(self.vref_cal, sweeps@.subrange(0, i as int)),
                acc.vbat_mv == vbat_sum(self.vref_cal, sweeps@.subrange(0, i as int)),
                acc.ibat_ma == ibat_sum(self.vref_cal, sweeps@.subrange(0, i as int)),
            decreases sweeps@.len() - i,
        {
            let t: Telemetry = self.read(&sweeps[i]);
            proof {
                let part = sweeps@.subrange(0, i + 1);
                assert(part.drop_last() =~= sweeps@.subrange(0, i as int));
                sums_grow(self.vref_cal, sweeps@, i + 1);
            }
            acc.vin_mv = acc.vin_mv + t.vin_mv;
            acc.vbat_mv = acc.vbat_mv + t.vbat_mv;
            acc.ibat_ma = acc.ibat_ma + t.ibat_ma;
            i += 1;
        }
        assert(sweeps@.subrange(0, sweeps@.len() as int) =~= sweeps@);
        let n: u32 = sweeps.len() as u32;
        Telemetry { vin_mv: acc.vin_mv / n, vbat_mv: acc.vbat_mv / n, ibat_ma: acc.ibat_ma / n }
    }

    /// Convert one sweep of all channels to physical units.
    pub fn read(&self, s: &Sweep) -> (r: Telemetry)
        requires
            convertible(self.vref_cal, *s),
        ensures
            r.vin_mv == vin_of(self.vref_cal, *s),
            r.vbat_mv == vbat_of(self.vref_cal, *s),
            r.ibat_ma == ibat_of(self.vref_cal, *s),
    {
        // Correct for the actual 3V3 rail using the factory-calibrated
        // internal reference.
        let vref: u32 = if s.vref == 0 {
            1
        } else {
            s.vref as u32
        };
        proof {
            rail_is_nonnegative(self.vref_cal, s.vref);
            let rail = rail_mv(self.vref_cal, s.vref);
            assert(0 <= s.vin * rail && 0 <= s.vout * rail && 0 <= s.ishunt * rail)
                by (nonlinear_arith)
                requires
                    0 <= rail,
                    0 <= s.vin,
                    0 <= s.vout,
                    0 <= s.ishunt,
            ;
        }
        let rail: u32 = 3300 * self.vref_cal as u32 / vref;
        let vin_pin: u32 = s.vin as u32 * rail / 4095;
        let vout_pin: u32 = s.vout as u32 * rail / 4095;
        let shunt_pin: u32 = s.ishunt as u32 * rail / 4095;
        Telemetry {
            // 10k over 1.5k: Vin = Vpin * 11.5k / 1.5k
            vin_mv: vin_pin * 23 / 3,
            // 10k over 10k
            vbat_mv: vout_pin * 2,
            // 50 mOhm shunt: 1 mV = 20 mA
            ibat_ma: shunt_pin * 20,
        }
    }
}

/// Every sweep adds to the sums, so no sum of the first few exceeds the whole.
proof fn sums_grow(vref_cal: u16, s: Seq<Sweep>, n: int)
    requires
        0 <= n <= s.len(),
        forall|i: int| 0 <= i < s.len() ==> convertible(vref_cal, #[trigger] s[i]),
    ensures
        0 <= vin_sum(vref_cal, s.subrange(0, n)) <= vin_sum(vref_cal, s),
        0 <= vbat_sum(vref_cal, s.subrange(0, n)) <= vbat_sum(vref_cal, s),
        0 <= ibat_sum(vref_cal, s.subrange(0, n)) <= ibat_sum(vref_cal, s),
    decreases s.len(),
{
    if s.len() > 0 {
        let last = s.last();
        let rail = rail_mv(vref_cal, last.vref);
        rail_is_nonnegative(vref_cal, last.vref);
        assert(0 <= last.vin * rail && 0 <= last.vout * rail && 0 <= last.ishunt * rail)
            by (nonlinear_arith)
            requires
                0 <= rail,
                0 <= last.vin,
                0 <= last.vout,
                0 <= last.ishunt,
        ;
        sums_grow(
            vref_cal,
            s.drop_last(),
            if n == s.len() {
                n - 1
            } else {
                n
            },
        );
        if n == s.len() {
            assert(s.subrange(0, n) =~= s);
            assert(s.drop_last().subrange(0, n - 1) =~= s.drop_last());
        } else {
            assert(s.drop_last().subrange(0, n) =~= s.subrange(0, n));
        }
    } else {
        assert(s.subrange(0, n) =~= s);
    }
}

/// Switching frequency of the buck (matches the SPICE-validated design point).
pub const PWM_HZ: u32 = 100000;

/// Counts of the PWM timer per period: 160 duty steps at 16 MHz.
pub const PWM_STEPS: u32 = 160;

/// Duty ceiling: the LM5109B bootstrap capacitor only recharges while
/// the switch node is low, so never run flat-out.
pub const MAX_DUTY_PERMILLE: u32 = 950;

/// A duty cycle, held to the ceiling.
pub open spec fn limited(permille: u32) -> u32 {
    if permille <= MAX_DUTY_PERMILLE {
        permille
    } else {
        MAX_DUTY_PERMILLE
    }
}

/// The timer counts of a duty cycle.
pub open spec fn counts_of(permille: u32) -> int {
    PWM_STEPS * limited(permille) / 1000
}

/// The duty cycle of some timer counts.
pub open spec fn permille_of(counts: u16) -> int {
    counts * 1000 / PWM_STEPS as int
}

/// Buck converter PWM output: the value of the timer's compare register.
pub struct Buck {
    pub ccr: u16,
}

impl Buck {
    /// A buck that is switched off.
    pub fn new() -> (r: Buck)
        ensures
            r.ccr == 0,
    {
        Buck { ccr: 0 }
    }

    /// Set the duty cycle in permille (0..=950). 0 turns the switch off.
    pub fn set_duty_permille(&mut self, permille: u32)
        ensures
            final(self).ccr == counts_of(permille),
    {
        let pm: u32 = if permille <= MAX_DUTY_PERMILLE {
            permille
        } else {
            MAX_DUTY_PERMILLE
        };
        self.ccr = (PWM_STEPS * pm / 1000) as u16;
    }

    /// Current duty cycle in permille.
    pub fn duty_permille(&self) -> (r: u32)
        ensures
            r == permille_of(self.ccr),
    {
        self.ccr as u32 * 1000 / PWM_STEPS
    }

    /// Force the switch off (duty 0).
    pub fn off(&mut self)
        ensures
            final(self).ccr == 0,
    {
        self.set_duty_permille(0);
    }
}

/// The switch is off for some of every period, whatever duty is asked for, and
/// what the timer makes of a duty is off by less than two of its counts.
pub proof fn duty_is_bounded(permille: u32)
    ensures
        ({
            let ccr = PWM_STEPS * limited(permille) / 1000;
            let back = ccr * 1000 / PWM_STEPS as int;
            &&& ccr < PWM_STEPS
            &&& back <= limited(permille) < back + 8
        }),
{
}

/// LED pulse length. Long enough to see, short enough that back-to-back
/// packets read as flicker rather than a solid light.
pub const LED_PULSE_MS: u32 = 30;

/// One LED: whether it is lit, and since when.
#[derive(Clone, Copy)]
pub struct Led {
    pub on_at: u32,
    pub lit: bool,
}

/// An LED after a look at `now_ms`, with or without an event since the last.
pub open spec fn led_after(l: Led, event: bool, now_ms: u32) -> Led {
    if event {
        Led { on_at: now_ms, lit: true }
    } else if l.lit && (now_ms - l.on_at) % 0x1_0000_0000 >= LED_PULSE_MS {
        Led { lit: false, ..l }
    } else {
        l
    }
}

/// Radio activity LEDs: one pulses on transmit, one on receive.
pub struct Leds {
    pub tx: Led,
    pub rx: Led,
}

/// Both LEDs after a look at `now_ms` at what the radio has done since the last.
pub open spec fn leds_after(l: Leds, a: Activity, now_ms: u32) -> Leds {
    Leds { tx: led_after(l.tx, a.tx, now_ms), rx: led_after(l.rx, a.rx, now_ms) }
}

impl Leds {
    /// Both LEDs off.
    pub fn new() -> (r: Leds)
        ensures
            r.tx == (Led { on_at: 0, lit: false }),
            r.rx == (Led { on_at: 0, lit: false }),
    {
        Leds { tx: Led { on_at: 0, lit: false }, rx: Led { on_at: 0, lit: false } }
    }

    /// Start pending pulses and retire expired ones. Call every main
    /// loop iteration; an event while lit extends the pulse.
    pub fn update(&mut self, activity: &mut Activity, now_ms: u32)
        ensures
            *final(self) == leds_after(*old(self), *old(activity), now_ms),
            !final(activity).tx,
            !final(activity).rx,
    {
        if take_tx(activity) {
            self.tx = Led { on_at: now_ms, lit: true };
        } else if self.tx.lit && now_ms.wrapping_sub(self.tx.on_at) >= LED_PULSE_MS {
            self.tx.lit = false;
        }
        if take_rx(activity) {
            self.rx = Led { on_at: now_ms, lit: true };
        } else if self.rx.lit && now_ms.wrapping_sub(self.rx.on_at) >= LED_PULSE_MS {
            self.rx.lit = false;
        }
    }
}

/// An event lights its LED for the length of a pulse: looks before its end
/// leave it lit, and the first look after its end turns it off. Another event
/// starts the pulse anew.
pub proof fn pulse_has_its_length(l: Led, now_ms: u32, elapsed: u32)
    ensures
        ({
            let on = led_after(l, true, now_ms);
            let at = ((now_ms + elapsed) % 0x1_0000_0000) as u32;
            &&& on.lit
            &&& led_after(on, false, at).lit == (elapsed < LED_PULSE_MS)
            &&& led_after(on, true, at) == (Led { on_at: at, lit: true })
        }),
{
}

/// Charger state, one letter in the telemetry broadcast.
#[derive(Debug, Clone, Copy, PartialEq, Eq, Structural)]
pub enum ChargeState {
    /// Input too low to charge; PWM off, waiting for sun.
    Idle,
    /// Perturb & observe hill climbing on output power.
    Tracking,
    /// Battery voltage or current ceiling reached; duty backing off.
    Limiting,
}

/// The controller, as the contracts speak of it.
pub struct MpptView {
    pub state: ChargeState,
    pub duty_pm: u32,
    pub dir_up: bool,
    pub last_power_mw: u32,
}

/// `a - b`, or zero.
pub open spec fn minus(a: u32, b: u32) -> u32 {
    if a >= b {
        (a - b) as u32
    } else {
        0
    }
}

/// The input is too low to buck into the battery.
pub open spec fn too_dark(t: Telemetry) -> bool {
    t.vin_mv < t.vbat_mv + charge::VIN_MARGIN_MV
}

/// The battery is at its voltage or current ceiling.
pub open spec fn over_limit(t: Telemetry) -> bool {
    t.vbat_mv > charge::VBAT_MAX_MV || t.ibat_ma > charge::IBAT_MAX_MA
}

/// One controller step.
pub open spec fn mppt_after(m: MpptView, t: Telemetry) -> MpptView {
    if too_dark(t) {
        MpptView { state: ChargeState::Idle, duty_pm: 0, dir_up: true, last_power_mw: 0 }
    } else if m.state == ChargeState::Idle {
        // Hysteresis on the way out so a marginal panel does not flap.
        if t.vin_mv < t.vbat_mv + charge::VIN_MARGIN_MV + charge::VIN_HYST_MV {
            m
        } else {
            // Sun is back: soft-start from the bottom.
            MpptView {
                state: ChargeState::Tracking,
                duty_pm: charge::DUTY_STEP_PM,
                dir_up: true,
                last_power_mw: 0,
            }
        }
    } else if over_limit(t) {
        // Resume tracking downhill so the limit is not hit again on the very
        // next perturbation.
        MpptView {
            state: ChargeState::Limiting,
            duty_pm: minus(m.duty_pm, charge::LIMIT_STEP_PM),
            dir_up: false,
            last_power_mw: 0,
        }
    } else {
        let power_mw = (t.vbat_mv * t.ibat_ma / 1000) as u32;
        // Reverse direction when power dropped.
        let up = if power_mw + charge::POWER_HYST_MW < m.last_power_mw {
            !m.dir_up
        } else {
            m.dir_up
        };
        let duty = if up {
            (m.duty_pm + charge::DUTY_STEP_PM) as u32
        } else {
            minus(m.duty_pm, charge::DUTY_STEP_PM)
        };
        MpptView {
            state: ChargeState::Tracking,
            duty_pm: limited(duty),
            // Bounce off the rails instead of sticking to them.
            dir_up: if duty == 0 {
                true
            } else if duty >= MAX_DUTY_PERMILLE {
                false
            } else {
                up
            },
            last_power_mw: power_mw,
        }
    }
}

/// Perturb & observe MPPT with output voltage/current limiting.
///
/// The board senses the battery side of the buck, so the controller
/// climbs on *output* power (`vbat * ibat`). Converter efficiency is
/// flat across the operating range, so the output maximum coincides
/// with the panel's maximum power point.
pub struct Mppt {
    state: ChargeState,
    duty_pm: u32,
    dir_up: bool,
    last_power_mw: u32,
}

/// The buck after a step of the controller: an idle charger that stays so
/// without being turned off leaves it as it is.
pub open spec fn buck_after(m: MpptView, t: Telemetry, buck: Buck) -> Buck {
    let n = mppt_after(m, t);
    if m.state == ChargeState::Idle && n.state == ChargeState::Idle && !too_dark(t) {
        buck
    } else {
        Buck { ccr: counts_of(n.duty_pm) as u16 }
    }
}

impl Default for Mppt {
    fn default() -> (r: Mppt)
        ensures
            r.wf(),
            r@ == (MpptView {
                state: ChargeState::Idle,
                duty_pm: 0,
                dir_up: true,
                last_power_mw: 0,
            }),
    {
        Mppt::new()
    }
}

impl Mppt {
    /// Every controller that `new` and `step` give: the duty is held to the
    /// ceiling, and an idle charger does not switch.
    pub closed spec fn wf(self) -> bool {
        &&& self.duty_pm <= MAX_DUTY_PERMILLE
        &&& self.state == ChargeState::Idle ==> self.duty_pm == 0
    }

    /// The controller as the contracts speak of it.
    pub closed spec fn view(self) -> MpptView {
        MpptView {
            state: self.state,
            duty_pm: self.duty_pm,
            dir_up: self.dir_up,
            last_power_mw: self.last_power_mw,
        }
    }

    /// What `wf` says, for callers.
    pub proof fn bounds(self)
        requires
            self.wf(),
        ensures
            self@.duty_pm <= MAX_DUTY_PERMILLE,
            self@.state == ChargeState::Idle ==> self@.duty_pm == 0,
    {
    }

    /// A charger that waits for sun.
    pub fn new() -> (r: Mppt)
        ensures
            r.wf(),
            r@ == (MpptView {
                state: ChargeState::Idle,
                duty_pm: 0,
                dir_up: true,
                last_power_mw: 0,
            }),
    {
        Mppt { state: ChargeState::Idle, duty_pm: 0, dir_up: true, last_power_mw: 0 }
    }

    /// The charger's state.
    pub fn state(&self) -> (r: ChargeState)
        ensures
            r == self@.state,
    {
        self.state
    }

    /// Commanded duty (permille). Tracked here because the timer
    /// quantizes to ~6 permille and would round-trip lossily.
    pub fn duty_permille(&self) -> (r: u32)
        ensures
            r == self@.duty_pm,
    {
        self.duty_pm
    }

    fn apply(&mut self, buck: &mut Buck, duty_pm: u32)
        ensures
            final(self)@ == (MpptView { duty_pm: limited(duty_pm), ..old(self)@ }),
            final(buck).ccr == counts_of(duty_pm),
    {
        self.duty_pm = if duty_pm <= MAX_DUTY_PERMILLE {
            duty_pm
        } else {
            MAX_DUTY_PERMILLE
        };
        buck.set_duty_permille(self.duty_pm);
    }

    /// Run one controller step. Call every [`charge::MPPT_PERIOD_MS`]
    /// with a fresh (averaged) telemetry reading.
    pub fn step(&mut self, t: &Telemetry, buck: &mut Buck)
        requires
            old(self).wf(),
            t.vbat_mv + charge::VIN_MARGIN_MV + charge::VIN_HYST_MV <= u32::MAX,
        ensures
            final(self).wf(),
            final(self)@ == mppt_after(old(self)@, *t),
            *final(buck) == buck_after(old(self)@, *t, *old(buck)),
    {
        // Not enough input to buck into the battery: park. Hysteresis on
        // the way out so a marginal panel does not flap.
        let vin_floor: u32 = t.vbat_mv + charge::VIN_MARGIN_MV;
        if t.vin_mv < vin_floor {
            self.state = ChargeState::Idle;
            self.dir_up = true;
            self.last_power_mw = 0;
            self.apply(buck, 0);
            return ;
        }
        if self.state == ChargeState::Idle {
            if t.vin_mv < vin_floor + charge::VIN_HYST_MV {
                return ;
            }
            // Sun is back: soft-start from the bottom.

            self.state = ChargeState::Tracking;
            self.dir_up = true;
            self.last_power_mw = 0;
            self.apply(buck, charge::DUTY_STEP_PM);
            return ;
        }
        // Battery protection overrides tracking.

        if t.vbat_mv > charge::VBAT_MAX_MV || t.ibat_ma > charge::IBAT_MAX_MA {
            self.state = ChargeState::Limiting;
            // Resume tracking downhill so the limit is not hit again
            // on the very next perturbation.
            self.dir_up = false;
            self.last_power_mw = 0;
            let duty: u32 = self.duty_pm.saturating_sub(charge::LIMIT_STEP_PM);
            self.apply(buck, duty);
            return ;
        }
        // Perturb & observe: reverse direction when power dropped.

        self.state = ChargeState::Tracking;
        assert(t.vbat_mv * t.ibat_ma <= 4200000) by (nonlinear_arith)
            requires
                0 <= t.vbat_mv <= 4200,
                0 <= t.ibat_ma <= 1000,
        ;
        let power_mw: u32 = t.vbat_mv * t.ibat_ma / 1000;
        if power_mw + charge::POWER_HYST_MW < self.last_power_mw {
            self.dir_up = !self.dir_up;
        }
        self.last_power_mw = power_mw;
        let duty: u32 = if self.dir_up {
            self.duty_pm + charge::DUTY_STEP_PM
        } else {
            self.duty_pm.saturating_sub(charge::DUTY_STEP_PM)
        };
        // Bounce off the rails instead of sticking to them.
        if duty >= MAX_DUTY_PERMILLE {
            self.dir_up = false;
        }
        if duty == 0 {
            self.dir_up = true;
        }
        self.apply(buck, duty);
    }
}

/// What every step keeps: the duty never passes the ceiling, an idle charger
/// does not switch, a charger without enough input is idle, and one over a
/// limit that is switching switches less.
pub proof fn charger_is_safe(m: MpptView, t: Telemetry)
    requires
        m.duty_pm <= MAX_DUTY_PERMILLE,
        m.state == ChargeState::Idle ==> m.duty_pm == 0,
    ensures
        ({
            let n = mppt_after(m, t);
            &&& n.duty_pm <= MAX_DUTY_PERMILLE
            &&& n.state == ChargeState::Idle ==> n.duty_pm == 0
            &&& too_dark(t) ==> n.state == ChargeState::Idle
            &&& !too_dark(t) && over_limit(t) && m.state != ChargeState::Idle ==> {
                &&& n.state == ChargeState::Limiting
                &&& n.duty_pm == minus(m.duty_pm, charge::LIMIT_STEP_PM)
                &&& m.duty_pm > 0 ==> n.duty_pm < m.duty_pm
                &&& !n.dir_up
            }
        }),
{
}

/// Tracking bounces off both rails instead of sticking to them: at the ceiling
/// it turns down, at zero it turns up, and the next step in that direction
/// moves the duty.
pub proof fn tracking_leaves_the_rails(m: MpptView, t: Telemetry)
    requires
        m.duty_pm <= MAX_DUTY_PERMILLE,
        m.state != ChargeState::Idle,
        !too_dark(t),
        !over_limit(t),
    ensures
        ({
            let n = mppt_after(m, t);
            &&& n.state == ChargeState::Tracking
            &&& n.duty_pm == MAX_DUTY_PERMILLE ==> !n.dir_up
            &&& n.duty_pm == 0 ==> n.dir_up
            &&& m.dir_up && m.duty_pm == 0 && m.last_power_mw <= charge::POWER_HYST_MW
                ==> n.duty_pm == charge::DUTY_STEP_PM
        }),
{
    assert(0 <= t.vbat_mv * t.ibat_ma <= 4200000) by (nonlinear_arith)
        requires
            0 <= t.vbat_mv <= 4200,
            0 <= t.ibat_ma <= 1000,
    ;
}

/// A panel between the two thresholds changes nothing about whether the
/// charger runs: an idle one stays idle, a running one runs on.
pub proof fn marginal_panel_does_not_flap(m: MpptView, t: Telemetry)
    requires
        !too_dark(t),
        t.vin_mv < t.vbat_mv + charge::VIN_MARGIN_MV + charge::VIN_HYST_MV,
    ensures
        (mppt_after(m, t).state == ChargeState::Idle) == (m.state == ChargeState::Idle),
{
}

/// Everything the charger board adds on top of the bare module.
pub struct Board {
    pub senses: Senses,
    pub buck: Buck,
    pub sd: SdCard,
    pub mppt: Mppt,
    pub leds: Leds,
}

impl Board {
    /// A board on a chip with this reference calibration, its charger off.
    pub fn new(vref_cal: u16) -> (r: Board)
        ensures
            r.senses.vref_cal == vref_cal,
            r.buck.ccr == 0,
            r.mppt.wf(),
            r.mppt@ == (MpptView {
                state: ChargeState::Idle,
                duty_pm: 0,
                dir_up: true,
                last_power_mw: 0,
            }),
            r.sd@ == (SdView { kind: None, state: SdState::Idle }),
            r.leds.tx == (Led { on_at: 0, lit: false }),
            r.leds.rx == (Led { on_at: 0, lit: false }),
    {
        Board {
            senses: Senses::new(vref_cal),
            buck: Buck::new(),
            sd: SdCard::new(),
            mppt: Mppt::new(),
            leds: Leds::new(),
        }
    }

    /// One charger control step: averaged sensor sweep, then MPPT/limit
    /// update of the buck duty. Returns the reading for logging.
    pub fn mppt_step(&mut self, sweeps: &[Sweep]) -> (t: Telemetry)
        requires
            old(self).mppt.wf(),
            sweeps@.len() >= 1,
            sweeps@.len() <= u32::MAX,
            forall|i: int|
                0 <= i < sweeps@.len() ==> convertible(
                    old(self).senses.vref_cal,
                    #[trigger] sweeps@[i],
                ),
            vin_sum(old(self).senses.vref_cal, sweeps@) <= u32::MAX,
            vbat_sum(old(self).senses.vref_cal, sweeps@) <= u32::MAX - 1500,
            ibat_sum(old(self).senses.vref_cal, sweeps@) <= u32::MAX,
        ensures
            t.vin_mv == vin_sum(old(self).senses.vref_cal, sweeps@) / sweeps@.len() as int,
            t.vbat_mv == vbat_sum(old(self).senses.vref_cal, sweeps@) / sweeps@.len() as int,
            t.ibat_ma == ibat_sum(old(self).senses.vref_cal, sweeps@) / sweeps@.len() as int,
            final(self).mppt.wf(),
            final(self).mppt@ == mppt_after(old(self).mppt@, t),
            final(self).buck == buck_after(old(self).mppt@, t, old(self).buck),
            final(self).senses == old(self).senses,
            final(self).sd == old(self).sd,
            final(self).leds == old(self).leds,
    {
        let t: Telemetry = self.senses.read_avg(sweeps);
        proof {
            sums_grow(self.senses.vref_cal, sweeps@, 0);
            let sum = vbat_sum(self.senses.vref_cal, sweeps@);
            let n = sweeps@.len() as int;
            assert(sum / n <= sum) by (nonlinear_arith)
                requires
                    0 <= sum,
                    n >= 1,
            ;
        }
        self.mppt.step(&t, &mut self.buck);
        t
    }
}

} // verus!
