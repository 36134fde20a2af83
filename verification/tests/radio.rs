use stm32wlxx_hal::subghz::{
    CalibrateImage, CfgIrq, CodingRate, HeaderType, Irq, LoRaBandwidth, LoRaModParams,
    LoRaPacketParams, PaConfig, PaSel, RampTime, RfFreq, SpreadingFactor, TcxoMode, TcxoTrim,
    Timeout, TxParams,
};
use sx1262_mesh_rs::board::activity::Activity;
use sx1262_mesh_rs::config::RadioPreset;
use sx1262_mesh_rs::gpslog::events::{pop, Queue, RadioEvent};
use sx1262_mesh_rs::radio::{
    image_band, packet_params, PacketStatus, RadioOp, RadioStep, RegUpdate, RfPath, RfSwitch,
    Sx1262Driver, Sx1262Error, RX_CONTINUOUS,
};
use sx1262_mesh_rs::rh_radio;

#[test]
fn image_bands() {
    let cal = |hz: u32| {
        let (lo, hi) = image_band(hz);
        CalibrateImage::new(lo, hi)
    };
    assert_eq!(cal(915_000_000), CalibrateImage::ISM_902_928);
    assert_eq!(cal(902_000_000), CalibrateImage::ISM_902_928);
    assert_eq!(cal(928_999_999), CalibrateImage::ISM_902_928);
    assert_eq!(cal(868_000_000), CalibrateImage::ISM_863_870);
    assert_eq!(cal(780_000_000), CalibrateImage::ISM_779_787);
    assert_eq!(cal(490_000_000), CalibrateImage::ISM_470_510);
    assert_eq!(cal(433_000_000), CalibrateImage::ISM_430_440);
    assert_eq!(cal(929_000_000), CalibrateImage::from_freq(928, 932));
    assert_eq!(cal(169_000_000), CalibrateImage::from_freq(168, 172));
    assert_eq!(cal(0), CalibrateImage::from_freq(0, 4));
    assert_eq!(cal(1_019_999_999), CalibrateImage::from_freq(1016, 1020));
}

#[test]
fn packet_params_block() {
    let p = packet_params(17);
    let expected = LoRaPacketParams::new()
        .set_preamble_len(8)
        .set_header_type(HeaderType::Variable)
        .set_payload_len(17)
        .set_crc_en(true)
        .set_invert_iq(false);
    assert_eq!(*p.block(), expected);
    assert_eq!(p.command_bytes(), &[0x8C, 0x00, 0x08, 0x00, 17, 0x01, 0x00]);
}

#[test]
fn switch_table() {
    let mut s = RfSwitch::new();
    assert_eq!((s.ctrl1, s.ctrl2), (false, false));
    s.set(RfPath::Rx);
    assert_eq!((s.ctrl1, s.ctrl2), (true, false));
    s.set(RfPath::TxHp);
    assert_eq!((s.ctrl1, s.ctrl2), (false, true));
    s.set(RfPath::Off);
    assert_eq!((s.ctrl1, s.ctrl2), (false, false));
}

#[test]
fn register_frames() {
    let u = RegUpdate { addr: 0x0889, set: 0, clear: 0x04 };
    assert_eq!(u.read_frame(), [0x1D, 0x08, 0x89, 0, 0]);
    assert_eq!(u.write_frame(0xFF), [0x0D, 0x08, 0x89, 0xFB]);
    let u = RegUpdate { addr: 0x08D8, set: 0x1E, clear: 0 };
    assert_eq!(u.write_frame(0x81), [0x0D, 0x08, 0xD8, 0x9F]);
}

#[test]
fn init_sequence() {
    let mut d = Sx1262Driver::new(RadioPreset::Extreme, true);
    d.rx_active = true;
    let ops = d.init(915_000_000);
    assert!(!d.rx_active);
    assert_eq!(ops.len(), 22);
    let mut paths = 0;
    for op in &ops {
        match op {
            RadioOp::Path(p) => {
                assert_eq!(*p, RfPath::Off);
                paths += 1;
            }
            RadioOp::Tcxo(t) => {
                let expected = TcxoMode::new()
                    .set_txco_trim(TcxoTrim::Volts1pt8)
                    .set_timeout(Timeout::from_millis_sat(10));
                assert_eq!(*t.block(), expected);
                assert_eq!(t.command_bytes(), &[0x97, 0x02, 0x00, 0x02, 0x80]);
            }
            RadioOp::Calibrate(m) => assert_eq!(*m, 0x7F),
            RadioOp::CalibrateImage(lo, hi) => assert_eq!((*lo, *hi), (0xE1, 0xE9)),
            RadioOp::Frequency(f) => {
                assert_eq!(*f.block(), RfFreq::from_frequency(915_000_000));
                assert_eq!(f.command_bytes(), &[0x86, 0x39, 0x30, 0x00, 0x00]);
            }
            RadioOp::Pa(p) => {
                let expected =
                    PaConfig::new().set_pa_duty_cycle(0x04).set_hp_max(0x07).set_pa(PaSel::Hp);
                assert_eq!(*p.block(), expected);
                assert_eq!(*p.block(), PaConfig::HP_22);
                assert_eq!(p.command_bytes(), &[0x95, 4, 7, 0, 1]);
            }
            RadioOp::TxPower(t) => {
                let expected = TxParams::new().set_power(0x16).set_ramp_time(RampTime::Micros200);
                assert_eq!(*t.block(), expected);
                assert_eq!(t.command_bytes(), &[0x8E, 0x16, 0x04]);
            }
            RadioOp::Modulation(m) => {
                let expected = LoRaModParams::new()
                    .set_sf(SpreadingFactor::Sf12)
                    .set_bw(LoRaBandwidth::Bw62)
                    .set_cr(CodingRate::Cr48)
                    .set_ldro_en(true);
                assert_eq!(*m.block(), expected);
                assert_eq!(m.command_bytes(), &[0x8B, 12, 3, 4, 1]);
            }
            RadioOp::Packet(p) => assert_eq!(p.command_bytes()[4], 255),
            RadioOp::Irqs(c) => {
                let expected = CfgIrq::new()
                    .irq_enable_all(Irq::RxDone)
                    .irq_enable_all(Irq::TxDone)
                    .irq_enable_all(Irq::Err)
                    .irq_enable_all(Irq::Timeout);
                assert_eq!(*c.block(), expected);
                assert_eq!(
                    c.command_bytes(),
                    &[0x08, 0x02, 0x43, 0x02, 0x43, 0x02, 0x43, 0x02, 0x43]
                );
            }
            RadioOp::RxGain(boost) => assert!(*boost),
            _ => {}
        }
    }
    assert_eq!(paths, 1);
    assert!(matches!(
        ops[2],
        RadioOp::Modify(RegUpdate { addr: 0x0916, set: 0x40, clear: 0 })
    ));
    assert!(matches!(ops[3], RadioOp::RegulatorSmps));
    assert!(!ops[3].must_succeed());
    assert!(ops[1].must_succeed());
}

#[test]
fn modulation_of_the_presets() {
    let command = |p: RadioPreset| {
        let ops = Sx1262Driver::new(p, false).init(868_000_000);
        ops.iter()
            .find_map(|op| match op {
                RadioOp::Modulation(m) => Some(m.command_bytes().to_vec()),
                _ => None,
            })
            .unwrap()
    };
    assert_eq!(command(RadioPreset::Fast), vec![0x8B, 7, 4, 1, 0]);
    assert_eq!(command(RadioPreset::Long), vec![0x8B, 10, 4, 1, 0]);
    assert_eq!(command(RadioPreset::Max), vec![0x8B, 12, 4, 4, 1]);
}

fn is_arming(ops: &[RadioOp]) -> bool {
    ops.len() == 7
        && matches!(ops[0], RadioOp::Path(RfPath::Off))
        && matches!(ops[1], RadioOp::Standby)
        && matches!(&ops[3], RadioOp::Packet(p) if p.command_bytes()[4] == 255)
        && matches!(ops[4], RadioOp::Path(RfPath::Rx))
        && matches!(ops[5], RadioOp::SetRx(RX_CONTINUOUS))
}

#[test]
fn receive_a_packet() {
    let mut d = Sx1262Driver::new(RadioPreset::Fast, false);
    let mut a = Activity::new();
    let mut q = Queue::new();
    match d.poll_recv(255) {
        RadioStep::Run(ops) => assert!(is_arming(&ops)),
        _ => panic!("not armed"),
    }
    assert!(matches!(d.ran(true, 0, &mut a, &mut q), RadioStep::ReadIrq));
    assert!(matches!(d.irq_read(Some(0x0000)), RadioStep::Nothing));
    // Armed now.
    assert!(matches!(d.poll_recv(255), RadioStep::ReadIrq));
    assert!(matches!(d.irq_read(Some(Irq::RxDone.mask())), RadioStep::ClearIrq));
    assert!(matches!(d.irq_cleared(), RadioStep::BufferStatus));
    assert!(matches!(
        d.buffer_status(Some((20, 0x80))),
        RadioStep::ReadBuffer { offset: 0x80, len: 20 }
    ));
    assert!(matches!(d.buffer_read(true), RadioStep::PacketStatus));
    let s = PacketStatus { rssi_dbm: -101, snr_qdb: 9, signal_rssi_dbm: -99 };
    assert!(matches!(
        d.packet_status(Some(s), &mut a, &mut q),
        RadioStep::Received { len: 20, rssi: -101 }
    ));
    assert!(a.rx && !a.tx);
    assert!(matches!(
        pop(&mut q),
        Some(RadioEvent::Rx { len: 20, rssi_dbm: -101, snr_qdb: 9, signal_rssi_dbm: -99 })
    ));
    assert!(d.rx_active);
}

#[test]
fn bad_packets_are_dropped() {
    let mut d = Sx1262Driver::new(RadioPreset::Fast, false);
    d.rx_active = true;
    d.poll_recv(32);
    let irq = Irq::RxDone.mask() | Irq::Err.mask();
    assert!(matches!(d.irq_read(Some(irq)), RadioStep::ClearIrq));
    assert!(matches!(d.irq_cleared(), RadioStep::Nothing));
    assert!(d.rx_active);
    // Too large: the next poll arms receive anew.
    d.poll_recv(32);
    d.irq_read(Some(Irq::RxDone.mask()));
    d.irq_cleared();
    assert!(matches!(d.buffer_status(Some((33, 0))), RadioStep::Nothing));
    assert!(matches!(d.poll_recv(32), RadioStep::Run(_)));
}

#[test]
fn receive_failures() {
    let fail = RadioStep::Failed(Sx1262Error::Radio);
    assert!(matches!(fail, RadioStep::Failed(Sx1262Error::Radio)));
    let mut a = Activity::new();
    let mut q = Queue::new();
    let mut d = Sx1262Driver::new(RadioPreset::Fast, false);
    d.poll_recv(32);
    assert!(matches!(
        d.ran(false, 0, &mut a, &mut q),
        RadioStep::Failed(Sx1262Error::Radio)
    ));
    assert!(!d.rx_active);
    d.rx_active = true;
    d.poll_recv(32);
    assert!(matches!(d.irq_read(None), RadioStep::Failed(Sx1262Error::Radio)));
    d.poll_recv(32);
    d.irq_read(Some(2));
    d.irq_cleared();
    assert!(matches!(d.buffer_status(None), RadioStep::Failed(Sx1262Error::Radio)));
    d.poll_recv(32);
    d.irq_read(Some(2));
    d.irq_cleared();
    d.buffer_status(Some((1, 0)));
    assert!(matches!(d.buffer_read(false), RadioStep::Failed(Sx1262Error::Radio)));
    d.poll_recv(32);
    d.irq_read(Some(2));
    d.irq_cleared();
    d.buffer_status(Some((1, 0)));
    d.buffer_read(true);
    assert!(matches!(
        d.packet_status(None, &mut a, &mut q),
        RadioStep::Failed(Sx1262Error::Radio)
    ));
    assert!(pop(&mut q).is_none());
}

#[test]
fn send_a_packet() {
    let mut d = Sx1262Driver::new(RadioPreset::Long, false);
    d.rx_active = true;
    let mut a = Activity::new();
    let mut q = Queue::new();
    match d.send(40) {
        RadioStep::Run(ops) => {
            assert_eq!(ops.len(), 9);
            assert!(matches!(ops[3], RadioOp::ClearIrq(0xFFFF)));
            assert!(!ops[3].must_succeed());
            assert!(matches!(ops[4], RadioOp::WriteBuffer));
            assert!(matches!(&ops[5], RadioOp::Packet(p) if p.command_bytes()[4] == 40));
            assert!(matches!(ops[6], RadioOp::Path(RfPath::TxHp)));
            let bits = Timeout::from_millis_sat(1300).into_bits();
            assert!(matches!(ops[7], RadioOp::SetTx(t) if t == bits && t == 83200));
        }
        _ => panic!("not started"),
    }
    assert!(!d.rx_active);
    assert!(matches!(d.ran(true, 5000, &mut a, &mut q), RadioStep::Tick));
    assert!(a.tx);
    assert!(matches!(d.tick(6000), RadioStep::ReadIrq));
    assert!(matches!(d.irq_read(None), RadioStep::Tick));
    assert!(matches!(d.tick(6000), RadioStep::ReadIrq));
    assert!(matches!(d.irq_read(Some(0)), RadioStep::Tick));
    assert!(matches!(d.tick(6000), RadioStep::ReadIrq));
    assert!(matches!(d.irq_read(Some(Irq::TxDone.mask())), RadioStep::ClearIrq));
    match d.irq_cleared() {
        RadioStep::Run(ops) => assert!(is_arming(&ops)),
        _ => panic!("not rearmed"),
    }
    assert!(matches!(d.ran(true, 6001, &mut a, &mut q), RadioStep::Sent));
    assert!(d.rx_active);
    assert!(matches!(pop(&mut q), Some(RadioEvent::Tx { len: 40, ok: true })));
    assert_eq!(d.max_packet_len(), 255);
}

#[test]
fn send_failures() {
    let mut a = Activity::new();
    let mut q = Queue::new();
    let mut d = Sx1262Driver::new(RadioPreset::Fast, false);
    d.send(1);
    assert!(matches!(
        d.ran(false, 0, &mut a, &mut q),
        RadioStep::Failed(Sx1262Error::Radio)
    ));
    assert!(pop(&mut q).is_none());
    // The chip gives up.
    d.send(1);
    d.ran(true, 0, &mut a, &mut q);
    d.tick(0);
    assert!(matches!(d.irq_read(Some(Irq::Timeout.mask())), RadioStep::ClearIrq));
    d.irq_cleared();
    assert!(matches!(
        d.ran(false, 0, &mut a, &mut q),
        RadioStep::Failed(Sx1262Error::Timeout)
    ));
    assert!(!d.rx_active);
    assert!(matches!(pop(&mut q), Some(RadioEvent::Tx { len: 1, ok: false })));
    // The poll gives up, 150 ms after the start at the latest.
    d.send(1);
    d.ran(true, u32::MAX - 9, &mut a, &mut q);
    assert!(matches!(d.tick(140), RadioStep::ReadIrq));
    d.irq_read(Some(0));
    assert!(matches!(d.tick(141), RadioStep::ClearIrq));
    d.irq_cleared();
    assert!(matches!(
        d.ran(true, 141, &mut a, &mut q),
        RadioStep::Failed(Sx1262Error::Timeout)
    ));
    assert!(d.rx_active);
}

#[test]
fn send_success_needs_its_event_in_time() {
    let mut a = Activity::new();
    let mut q = Queue::new();
    let both = Irq::TxDone.mask() | Irq::Timeout.mask();
    // The packet went out, although the chip also tells of a timeout.
    let mut d = Sx1262Driver::new(RadioPreset::Fast, false);
    d.send(1);
    d.ran(true, 0, &mut a, &mut q);
    d.tick(150);
    assert!(matches!(d.irq_read(Some(both)), RadioStep::ClearIrq));
    d.irq_cleared();
    assert!(matches!(d.ran(false, 150, &mut a, &mut q), RadioStep::Sent));
    // Past the deadline the register is not even read.
    d.send(1);
    d.ran(true, 0, &mut a, &mut q);
    assert!(matches!(d.tick(151), RadioStep::ClearIrq));
    d.irq_cleared();
    assert!(matches!(
        d.ran(true, 151, &mut a, &mut q),
        RadioStep::Failed(Sx1262Error::Timeout)
    ));
}

#[test]
fn radiohead_receive() {
    let mut d = rh_radio::Sx1262Driver::new();
    assert!(matches!(d.poll_recv(64), rh_radio::RhStep::SetRx));
    assert!(matches!(d.armed(false), rh_radio::RhStep::Done(None)));
    assert!(matches!(d.poll_recv(64), rh_radio::RhStep::SetRx));
    assert!(matches!(d.armed(true), rh_radio::RhStep::ReadIrq));
    assert!(matches!(d.irq_read(Some(false)), rh_radio::RhStep::Done(None)));
    assert!(matches!(d.poll_recv(64), rh_radio::RhStep::ReadIrq));
    assert!(matches!(d.irq_read(Some(true)), rh_radio::RhStep::ClearIrq));
    assert!(matches!(d.irq_cleared(), rh_radio::RhStep::BufferStatus));
    assert!(matches!(
        d.buffer_status(Some((9, 3))),
        rh_radio::RhStep::ReadBuffer { offset: 3, len: 9 }
    ));
    assert!(matches!(d.buffer_read(true), rh_radio::RhStep::PacketStatus));
    assert!(matches!(d.packet_status(Some(-7)), rh_radio::RhStep::Done(Some((9, -7)))));
    assert!(d.rx_active);
    d.poll_recv(8);
    d.irq_read(Some(true));
    d.irq_cleared();
    assert!(matches!(d.buffer_status(Some((9, 0))), rh_radio::RhStep::Done(None)));
    assert!(!d.rx_active);
    d.rx_active = true;
    d.send();
    assert!(!d.rx_active);
    assert_eq!(d.max_message_length(), 255);
}
