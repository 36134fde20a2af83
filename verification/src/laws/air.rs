//! Laws of the radio: what is sent to it, and how a packet is received and sent.

use vstd::prelude::*;
use crate::board::activity::Activity;
use crate::config::{mesh_listen_period, tx_chip_timeout, tx_poll_timeout, RadioPreset};
use crate::gpslog::events::{pushed, RadioEvent};
use crate::radio::{
    activity_ran, activity_received, enter_rx_ops, events_ran, events_received, has_irq,
    image_bounds, init_ops, matters, modulation_of, packet_command, radio_buffer_read,
    radio_buffer_status, radio_cleared, radio_irq, radio_packet_status, radio_poll, radio_ran,
    radio_send, radio_tick, read_reg_frame, send_ops, switch_lines, write_reg_frame, OpView,
    PacketStatus, RadioDo, RadioStage, RfPath, Sx1262Driver, Sx1262Error,
};
use crate::rh_radio::{
    rh_armed, rh_buffer_read, rh_buffer_status, rh_cleared, rh_irq, rh_packet_status, rh_poll,
    RhStage, RhStep,
};
use crate::subghz::{
    bw_hertz, frequency_command, irq_command, mod_params_command, packet_params_command,
    pll_steps, sf_code, timeout_steps, Bw, Cr, IrqKind, Sf,
};

verus! {

/// The antenna switch never connects both sides: isolated has both lines low,
/// and each way has one line high, the first for the receiver and the second for
/// the amplifier.
pub proof fn switch_connects_one_side(path: RfPath)
    ensures
        switch_lines(path).ctrl1 <==> path == RfPath::Rx,
        switch_lines(path).ctrl2 <==> path == RfPath::TxHp,
{
}

/// Image rejection is calibrated over all of the band that a frequency is in,
/// in units of 4 MHz, and elsewhere over the 4 MHz around it.
pub proof fn image_band_is_the_datasheets(mhz: int)
    requires
        0 <= mhz < 1020,
    ensures
        ({
            let (lo, hi) = image_bounds(mhz);
            let from = 4 * lo;
            let to = 4 * hi;
            &&& 902 <= mhz <= 928 ==> from == 900 && to == 932
            &&& 863 <= mhz <= 870 ==> from == 860 && to == 876
            &&& 779 <= mhz <= 787 ==> from == 772 && to == 788
            &&& 470 <= mhz <= 510 ==> from == 468 && to == 516
            &&& 430 <= mhz <= 440 ==> from == 428 && to == 444
            &&& !(902 <= mhz <= 928 || 863 <= mhz <= 870 || 779 <= mhz <= 787 || 470 <= mhz <= 510
                || 430 <= mhz <= 440) ==> from <= mhz < to && to - from == 4
        }),
{
}

/// A timeout lasts as long as is asked: its steps of 15.625 us make up the
/// milliseconds, as far as 24 bits go, and none is no wait at all.
pub proof fn timeouts_have_their_length(ms: u32)
    ensures
        0 < ms < 262144 ==> 15625 * timeout_steps(ms) == 1000000 * ms,
        ms >= 262144 ==> timeout_steps(ms) == 16777215,
        timeout_steps(ms) >= 1,
        timeout_steps(0) == 1,
{
}

/// The radio is tuned to within one step of 32 MHz / 2^25 below the frequency.
pub proof fn tuning_is_close(hz: u32)
    requires
        hz < 4096000000,
    ensures
        ({
            let c = frequency_command(hz);
            let steps = 16777216 * c[1] + 65536 * c[2] + 256 * c[3] + c[4];
            &&& c.len() == 5
            &&& c[0] == 0x86
            &&& steps == pll_steps(hz)
            &&& steps * 32000000 <= hz * 33554432 < (steps + 1) * 32000000
        }),
{
}

/// Where the packet params keep the preamble, the kind of header, the payload
/// length, the CRC and the inversion.
pub proof fn packet_params_are_laid_out(
    preamble: u16,
    variable: bool,
    len: u8,
    crc: bool,
    invert: bool,
)
    ensures
        ({
            let c = packet_params_command(preamble, variable, len, crc, invert);
            &&& c.len() == 7
            &&& c[0] == 0x8C
            &&& preamble > 0 ==> 256 * c[1] + c[2] == preamble
            &&& preamble == 0 ==> 256 * c[1] + c[2] == 1
            &&& c[3] == if variable {
                0u8
            } else {
                1u8
            }
            &&& c[4] == len
            &&& c[5] == if crc {
                1u8
            } else {
                0u8
            }
            &&& c[6] == if invert {
                1u8
            } else {
                0u8
            }
        }),
        packet_command(len) == seq![0x8Cu8, 0u8, 8u8, 0u8, len, 1u8, 0u8],
{
    assert(packet_command(len) =~= seq![0x8Cu8, 0u8, 8u8, 0u8, len, 1u8, 0u8]);
}

/// Where the modulation params keep spreading factor, bandwidth, coding rate and
/// the low data rate flag, and how the radio codes them.
pub proof fn modulation_is_laid_out(sf: Sf, bw: Bw, cr: Cr, ldro: bool)
    ensures
        ({
            let c = mod_params_command(sf, bw, cr, ldro);
            &&& c.len() == 5
            &&& c[0] == 0x8B
            &&& c[1] == 7 <==> sf == Sf::Sf7
            &&& c[1] == 10 <==> sf == Sf::Sf10
            &&& c[1] == 12 <==> sf == Sf::Sf12
            &&& c[2] == 3 <==> bw == Bw::Bw62
            &&& c[2] == 4 <==> bw == Bw::Bw125
            &&& c[2] == 6 <==> bw == Bw::Bw500
            &&& c[3] == 1 <==> cr == Cr::Cr45
            &&& c[3] == 4 <==> cr == Cr::Cr48
            &&& c[4] == if ldro {
                1u8
            } else {
                0u8
            }
        }),
        // Each code of a bandwidth stands for twice that of the one below it.
        bw_hertz(Bw::Bw125) == 2 * bw_hertz(Bw::Bw62),
        bw_hertz(Bw::Bw500) == 4 * bw_hertz(Bw::Bw125),
        bw_hertz(Bw::Bw500) == 500000,
{
}

/// Where the interrupt mask goes: everywhere alike, high byte first.
pub proof fn interrupts_are_routed_everywhere(mask: u16, line: int)
    requires
        0 <= line < 4,
    ensures
        irq_command(mask).len() == 9,
        irq_command(mask)[0] == 0x08,
        256 * irq_command(mask)[1 + 2 * line] + irq_command(mask)[2 + 2 * line] == mask,
{
}

/// The bits of the interrupt register.
pub proof fn interrupt_bits(irq: u16)
    ensures
        has_irq(irq, IrqKind::TxDone) <==> irq % 2 == 1,
        has_irq(irq, IrqKind::RxDone) <==> irq as int / 2 % 2 == 1,
        has_irq(irq, IrqKind::CrcErr) <==> irq as int / 64 % 2 == 1,
        has_irq(irq, IrqKind::Timeout) <==> irq as int / 512 % 2 == 1,
{
    assert((irq & 0x0001 != 0) == (irq % 2 == 1)) by (bit_vector);
    assert((irq & 0x0002 != 0) == (irq / 2 % 2 == 1)) by (bit_vector);
    assert((irq & 0x0040 != 0) == (irq / 64 % 2 == 1)) by (bit_vector);
    assert((irq & 0x0200 != 0) == (irq / 512 % 2 == 1)) by (bit_vector);
}

/// The frames that read and write a register: address high byte first, and a
/// byte more before the value that is read.
pub proof fn register_frames(addr: u16, value: u8)
    ensures
        ({
            let r = read_reg_frame(addr);
            let w = write_reg_frame(addr, value);
            &&& r.len() == 5 && w.len() == 4
            &&& r[0] == 0x1D && w[0] == 0x0D
            &&& 256 * r[1] + r[2] == addr
            &&& 256 * w[1] + w[2] == addr
            &&& w[3] == value
            &&& r[3] == 0 && r[4] == 0
        }),
{
}

/// The presets, from the fastest to the farthest: spreading factor 7, 10, 12 and
/// 12, a band of 125 kHz but for the last, which has half of it, and four fifths
/// or, for the two farthest, four eighths of payload, with the low data rate
/// flag.
pub proof fn presets_trade_time_for_range()
    ensures
        ({
            let (fast_sf, fast_bw, fast_cr, fast_ldro) = modulation_of(RadioPreset::Fast);
            let (long_sf, long_bw, long_cr, long_ldro) = modulation_of(RadioPreset::Long);
            let (max_sf, max_bw, max_cr, max_ldro) = modulation_of(RadioPreset::Max);
            let (far_sf, far_bw, far_cr, far_ldro) = modulation_of(RadioPreset::Extreme);
            &&& sf_code(fast_sf) == 7 && bw_hertz(fast_bw) == 125000 && fast_cr is Cr45
            &&& sf_code(long_sf) == 10 && bw_hertz(long_bw) == 125000 && long_cr is Cr45
            &&& sf_code(max_sf) == 12 && bw_hertz(max_bw) == 125000 && max_cr is Cr48
            &&& sf_code(far_sf) == 12 && bw_hertz(far_bw) == 62500 && far_cr is Cr48
            &&& !fast_ldro && !long_ldro && max_ldro && far_ldro
        }),
{
}

/// Chips of a symbol.
pub open spec fn chips(sf: Sf) -> int {
    match sf {
        Sf::Sf7 => 128,
        Sf::Sf10 => 1024,
        Sf::Sf12 => 4096,
    }
}

/// How long a packet of 40 bytes is on the air (microseconds, rounded up): the
/// preamble, the header and the coded payload, by the usual formula.
pub open spec fn airtime_us(sf: int, chips: int, hertz: int, coded: int, ldro: bool) -> int {
    let bits = 8 * 40 - 4 * sf + 44;
    let per_block = if ldro {
        4 * sf - 8
    } else {
        4 * sf
    };
    let quarter_symbols = 4 * (8 + coded * ((bits + per_block - 1) / per_block)) + 49;
    (quarter_symbols * chips * 250000 + hertz - 1) / hertz
}

/// How long a packet of 40 bytes is on the air with a preset (microseconds).
pub open spec fn preset_airtime_us(preset: RadioPreset) -> int {
    let (sf, bw, cr, ldro) = modulation_of(preset);
    let coded = match cr {
        Cr::Cr45 => 5int,
        Cr::Cr48 => 8int,
    };
    airtime_us(sf_code(sf) as int, chips(sf), bw_hertz(bw), coded, ldro)
}

/// A transmission is polled for longer than a packet is on the air, the radio
/// itself gives up only after that, and a node listens for longer before it
/// sends.
pub proof fn timeouts_cover_the_airtime(preset: RadioPreset)
    ensures
        preset_airtime_us(preset) < 1000 * tx_poll_timeout(preset),
        preset_airtime_us(preset) < 1000 * mesh_listen_period(preset),
        tx_poll_timeout(preset) < tx_chip_timeout(preset),
{
    assert(airtime_us(7, 128, 125000, 5, false) == 82176) by (nonlinear_arith);
    assert(airtime_us(10, 1024, 125000, 5, false) == 534528) by (nonlinear_arith);
    assert(airtime_us(12, 4096, 125000, 8, true) == 2760704) by (nonlinear_arith);
    assert(airtime_us(12, 4096, 62500, 8, true) == 5521408) by (nonlinear_arith);
}

/// How long a transmission is polled, how long the radio tries, and how long a
/// node listens first (ms).
pub proof fn timeouts_of_the_presets(preset: RadioPreset)
    ensures
        (tx_poll_timeout(preset), tx_chip_timeout(preset), mesh_listen_period(preset)) == (
        match preset {
            RadioPreset::Fast => (150u32, 300u32, 200u32),
            RadioPreset::Long => (1000u32, 1300u32, 900u32),
            RadioPreset::Max => (4000u32, 4500u32, 4000u32),
            RadioPreset::Extreme => (7500u32, 8200u32, 7000u32),
        }),
{
}

/// The operations of a bring-up that carry bytes, and those whose failure is
/// passed over: the regulator, the gain, the fallback mode and the protection.
pub proof fn bring_up_parameters(hz: u32, preset: RadioPreset, boost: bool, i: int)
    requires
        0 <= i < init_ops(hz, preset, boost).len(),
    ensures
        ({
            let ops = init_ops(hz, preset, boost);
            &&& ops.len() == 22
            &&& ops[1] is Standby
            &&& ops[2] matches OpView::Modify(u) && u.addr == 0x0916 && u.set == 0x40 && u.clear
                == 0
            &&& ops[3] is RegulatorSmps
            &&& ops[4] == OpView::Tcxo(seq![0x97u8, 0x02u8, 0x00u8, 0x02u8, 0x80u8])
            &&& ops[5] == OpView::Calibrate(0x7F)
            &&& ops[6] is WaitBusy
            &&& ops[7] == OpView::CalibrateImage(
                image_bounds(hz as int / 1000000).0,
                image_bounds(hz as int / 1000000).1,
            )
            &&& ops[8] is PacketTypeLora
            &&& ops[9] == OpView::Frequency(frequency_command(hz))
            &&& ops[10] == OpView::Pa(seq![0x95u8, 0x04u8, 0x07u8, 0x00u8, 0x01u8])
            &&& ops[11] == OpView::TxPower(seq![0x8Eu8, 22u8, 0x04u8])
            &&& ops[12] matches OpView::Modify(u) && u.addr == 0x08D8 && u.set == 0x1E && u.clear
                == 0
            &&& ops[13] matches OpView::Modulation(c) && c == mod_params_command(
                modulation_of(preset).0,
                modulation_of(preset).1,
                modulation_of(preset).2,
                modulation_of(preset).3,
            )
            &&& ops[14] matches OpView::Modify(u) && u.addr == 0x0889 && u.set == 0x04 && u.clear
                == 0
            &&& ops[15] == OpView::Packet(packet_command(255))
            &&& ops[16] is SyncWordPublic
            &&& ops[17] == OpView::BufferBase(0, 0)
            &&& ops[18] == OpView::Irqs(irq_command(0x0243))
            &&& ops[19] == OpView::RxGain(boost)
            &&& ops[20] is FallbackStandby
            &&& ops[21] is Ocp140
            &&& matters(ops[i]) <==> !(i == 3 || i == 19 || i == 20 || i == 21)
        }),
{
    let ops = init_ops(hz, preset, boost);
    let tcxo = ops[4]->Tcxo_0;
    assert(tcxo =~= seq![0x97u8, 0x02u8, 0x00u8, 0x02u8, 0x80u8]);
}

/// What arming receive and starting a transmission hand to the radio, in order:
/// the radio is put in standby with the antenna isolated, the packet params go
/// in, the antenna is pointed, and only then the radio starts. Receiving never
/// times out, a transmission does after its preset's time.
pub proof fn radio_is_started_in_order(len: u8, preset: RadioPreset)
    ensures
        ({
            let rx = enter_rx_ops();
            let tx = send_ops(len, preset);
            &&& rx.len() == 7
            &&& rx[0] == OpView::Path(RfPath::Off)
            &&& rx[1] is Standby
            &&& rx[2] is WaitBusy
            &&& rx[3] == OpView::Packet(packet_command(255))
            &&& rx[4] == OpView::Path(RfPath::Rx)
            &&& rx[5] == OpView::SetRx(16777215)
            &&& rx[6] is WaitBusy
            &&& tx.len() == 9
            &&& tx[0] == OpView::Path(RfPath::Off)
            &&& tx[1] is Standby
            &&& tx[2] is WaitBusy
            &&& tx[3] == OpView::ClearIrq(65535)
            &&& tx[4] is WriteBuffer
            &&& tx[5] == OpView::Packet(packet_command(len))
            &&& tx[6] == OpView::Path(RfPath::TxHp)
            &&& tx[7] matches OpView::SetTx(steps) && steps == 64 * tx_chip_timeout(preset)
            &&& tx[8] is WaitBusy
        }),
{
}

/// A poll of a radio that listens looks at its interrupts; one of a radio that
/// does not has it listen first.
pub proof fn polls_begin_by_listening(d: Sx1262Driver, room: usize, now_ms: u32)
    requires
        d.stage is Idle,
    ensures
        ({
            let poll = radio_poll(d, room);
            let armed = radio_ran(poll.0, true, now_ms);
            let failed = radio_ran(poll.0, false, now_ms);
            let listening = Sx1262Driver {
                rx_active: true,
                stage: RadioStage::RecvIrq { room },
                ..d
            };
            &&& d.rx_active ==> poll == (listening, RadioDo::ReadIrq)
            &&& !d.rx_active ==> {
                &&& poll.1 == RadioDo::Run(enter_rx_ops())
                &&& armed == (listening, RadioDo::ReadIrq)
                &&& failed == (d, RadioDo::Failed(Sx1262Error::Radio))
            }
        }),
{
}

/// A whole reception, from the interrupt register to the packet status: nothing
/// without the received bit, nothing with the CRC bit, and else the packet, of
/// its own length, from its own place, with its own signal strength.
pub proof fn packet_is_received(
    d: Sx1262Driver,
    room: usize,
    irq: u16,
    len: u8,
    offset: u8,
    status: PacketStatus,
)
    requires
        d.stage == (RadioStage::RecvIrq { room }),
    ensures
        ({
            let seen = radio_irq(d, Some(irq));
            let cleared = radio_cleared(seen.0);
            let placed = radio_buffer_status(cleared.0, Some((len, offset)));
            let read = radio_buffer_read(placed.0, true);
            let done = radio_packet_status(read.0, Some(status));
            let idle = Sx1262Driver { stage: RadioStage::Idle, ..d };
            let here = irq as int / 2 % 2 == 1;
            let broken = irq as int / 64 % 2 == 1;
            &&& !here ==> seen == (idle, RadioDo::Nothing)
            &&& here ==> seen.1 is ClearIrq
            &&& here && broken ==> cleared == (idle, RadioDo::Nothing)
            &&& here && !broken ==> cleared.1 is BufferStatus
            &&& here && !broken && len > room ==> placed == (
                Sx1262Driver { rx_active: false, ..idle },
                RadioDo::Nothing,
            )
            &&& here && !broken && len <= room ==> {
                &&& placed.1 == (RadioDo::ReadBuffer { offset, len })
                &&& read.1 is PacketStatus
                &&& done == (idle, RadioDo::Received { len, rssi: status.rssi_dbm })
            }
        }),
{
    interrupt_bits(irq);
}

/// A read that fails ends a reception with the radio's error, and reception
/// goes on.
pub proof fn failed_reads_end_a_reception(d: Sx1262Driver, room: usize, len: u8)
    ensures
        ({
            let idle = Sx1262Driver { stage: RadioStage::Idle, ..d };
            let error = (idle, RadioDo::Failed(Sx1262Error::Radio));
            let at_irq = Sx1262Driver { stage: RadioStage::RecvIrq { room }, ..d };
            let at_status = Sx1262Driver { stage: RadioStage::RecvStatus { room }, ..d };
            let at_data = Sx1262Driver { stage: RadioStage::RecvData { len }, ..d };
            let at_packet = Sx1262Driver { stage: RadioStage::RecvPacket { len }, ..d };
            &&& radio_irq(at_irq, None) == error
            &&& radio_buffer_status(at_status, None) == error
            &&& radio_buffer_read(at_data, false) == error
            &&& radio_packet_status(at_packet, None) == error
        }),
{
}

/// A whole transmission, from its start to a look at the interrupts: the length
/// goes out on one byte, the clock is looked at before each look at the
/// interrupts, and it is sent, failed or still under way by the two bits.
pub proof fn packet_is_sent(
    d: Sx1262Driver,
    n: nat,
    start: u32,
    elapsed: u32,
    irq: u16,
    rearmed: bool,
)
    requires
        d.stage is Idle,
    ensures
        ({
            let now_ms = ((start + elapsed) % 0x1_0000_0000) as u32;
            let len = (n % 256) as u8;
            let begun = radio_send(d, n);
            let refused = radio_ran(begun.0, false, start);
            let on_air = radio_ran(begun.0, true, start);
            let looked = radio_tick(on_air.0, now_ms);
            let seen = radio_irq(looked.0, Some(irq));
            let cleared = radio_cleared(seen.0);
            let over = radio_ran(cleared.0, rearmed, now_ms);
            let deaf = Sx1262Driver { rx_active: false, ..d };
            let out = irq % 2 == 1;
            let gave_up = irq as int / 512 % 2 == 1;
            &&& begun.1 == RadioDo::Run(send_ops(len, d.preset))
            &&& refused == (deaf, RadioDo::Failed(Sx1262Error::Radio))
            &&& on_air.1 is Tick
            &&& elapsed <= tx_poll_timeout(d.preset) ==> {
                &&& looked.1 is ReadIrq
                &&& radio_irq(looked.0, None) == on_air
                &&& !out && !gave_up ==> seen == on_air
                &&& out || gave_up ==> {
                    &&& seen.1 is ClearIrq
                    &&& cleared.1 == RadioDo::Run(enter_rx_ops())
                    &&& over.0 == (Sx1262Driver { rx_active: rearmed, ..d })
                    &&& over.1 == if out {
                        RadioDo::Sent
                    } else {
                        RadioDo::Failed(Sx1262Error::Timeout)
                    }
                }
            }
            &&& elapsed > tx_poll_timeout(d.preset) ==> {
                let over = radio_ran(radio_cleared(looked.0).0, rearmed, now_ms);
                &&& looked.1 is ClearIrq
                &&& radio_cleared(looked.0).1 == RadioDo::Run(enter_rx_ops())
                &&& over.0 == (Sx1262Driver { rx_active: rearmed, ..d })
                &&& over.1 == RadioDo::Failed(Sx1262Error::Timeout)
            }
        }),
{
    interrupt_bits(irq);
}

/// The lights and the log learn of a packet exactly once: of a transmission's
/// start, of its end with how it went, and of a reception with what it came
/// with.
pub proof fn packets_are_noted_once(
    d: Sx1262Driver,
    len: u8,
    sent: bool,
    ok: bool,
    status: Option<PacketStatus>,
    a: Activity,
    q: Seq<RadioEvent>,
)
    ensures
        activity_ran(d, ok, a) == (Activity { tx: a.tx || (d.stage is SendStart && ok), rx: a.rx }),
        activity_received(status, a) == (Activity { tx: a.tx, rx: a.rx || status is Some }),
        d.stage == (RadioStage::SendRearm { len, ok: sent }) ==> events_ran(d, q) == pushed(
            q,
            RadioEvent::Tx { len, ok: sent },
        ),
        !(d.stage is SendRearm) ==> events_ran(d, q) == q,
        d.stage == (RadioStage::RecvPacket { len }) && status is Some ==> {
            let after = events_received(d, status, q);
            let last = after[after.len() - 1];
            &&& after == pushed(q, last)
            &&& last matches RadioEvent::Rx { len: l, rssi_dbm, snr_qdb, signal_rssi_dbm }
            &&& l == len
            &&& rssi_dbm == status->0.rssi_dbm
            &&& snr_qdb == status->0.snr_qdb
            &&& signal_rssi_dbm == status->0.signal_rssi_dbm
        },
        status is None ==> events_received(d, status, q) == q,
        q.len() <= 8 ==> pushed(q, RadioEvent::Tx { len, ok: sent }).len() <= 8,
{
}

/// Eight events are kept, the newest last; the ninth costs the oldest.
pub proof fn eight_events_are_kept(q: Seq<RadioEvent>, ev: RadioEvent)
    requires
        q.len() <= 8,
    ensures
        pushed(q, ev).last() == ev,
        q.len() < 8 ==> pushed(q, ev).drop_last() == q,
        q.len() == 8 ==> pushed(q, ev).drop_last() == q.skip(1),
{
    if q.len() < 8 {
        assert(q.push(ev).drop_last() =~= q);
    } else {
        assert(q.skip(1).push(ev).drop_last() =~= q.skip(1));
    }
}

/// A whole reception of the driver under the RadioHead stack: the packet where
/// one has come that fits and can be read, and nothing elsewhere; only one that
/// does not fit has the next poll arm receive anew.
pub proof fn rh_packet_is_received(
    d: crate::rh_radio::Sx1262Driver,
    room: usize,
    ok: bool,
    rx_done: Option<bool>,
    status: Option<(u8, u8)>,
    read: bool,
    rssi: Option<i16>,
)
    requires
        d.stage is Idle,
    ensures
        ({
            let poll = rh_poll(d, room);
            let arm = rh_armed(poll.0, ok);
            let armed = if d.rx_active {
                poll
            } else {
                arm
            };
            let seen = rh_irq(armed.0, rx_done);
            let cleared = rh_cleared(seen.0);
            let placed = rh_buffer_status(cleared.0, status);
            let data = rh_buffer_read(placed.0, read);
            let done = rh_packet_status(data.0, rssi);
            let listening = crate::rh_radio::Sx1262Driver {
                rx_active: true,
                stage: RhStage::Idle,
            };
            let nothing = RhStep::Done(None);
            &&& d.rx_active ==> poll.1 is ReadIrq
            &&& !d.rx_active ==> poll.1 is SetRx
            &&& !d.rx_active && !ok ==> arm == (d, nothing)
            &&& d.rx_active || ok ==> {
                &&& armed.1 is ReadIrq
                &&& rx_done != Some(true) ==> seen == (listening, nothing)
                &&& rx_done == Some(true) ==> {
                    &&& seen.1 is ClearIrq
                    &&& cleared.1 is BufferStatus
                    &&& status is None ==> placed == (listening, nothing)
                    &&& status matches Some((len, offset)) ==> {
                        &&& len > room ==> placed == (
                            crate::rh_radio::Sx1262Driver { rx_active: false, ..listening },
                            nothing,
                        )
                        &&& len <= room ==> {
                            &&& placed.1 == (RhStep::ReadBuffer { offset, len })
                            &&& !read ==> data == (listening, nothing)
                            &&& read ==> data.1 is PacketStatus
                            &&& read && rssi is None ==> done == (listening, nothing)
                            &&& read && rssi is Some ==> done == (
                                listening,
                                RhStep::Done(Some((len, rssi->0))),
                            )
                        }
                    }
                }
            }
        }),
{
}

} // verus!
