use sx1262_mesh_rs::board::activity::{note_rx, note_tx, take_rx, take_tx, Activity};
use sx1262_mesh_rs::board::sd::{SdCard, SdDone, SdError, SdEvent, SdKind, SdStep};
use sx1262_mesh_rs::board::{
    Board, Buck, ChargeState, Leds, Mppt, Senses, Sweep, Telemetry, MAX_DUTY_PERMILLE,
};

fn t(vin_mv: u32, vbat_mv: u32, ibat_ma: u32) -> Telemetry {
    Telemetry { vin_mv, vbat_mv, ibat_ma }
}

#[test]
fn telemetry_text() {
    let mut buf = [0u8; 32];
    assert_eq!(t(18012, 3914, 220).format_into(&mut buf), "V=18012 B=3914 I=220");
    assert_eq!(
        t(18012, 3914, 220).format_status(507, ChargeState::Tracking, &mut buf),
        "V=18012 B=3914 I=220 D=507 t"
    );
    assert_eq!(
        t(0, 0, 0).format_status(0, ChargeState::Idle, &mut buf),
        "V=0 B=0 I=0 D=0 i"
    );
    assert_eq!(
        t(99999, 99999, 99999).format_status(950, ChargeState::Limiting, &mut buf),
        "V=99999 B=99999 I=99999 D=950 l"
    );
}

#[test]
fn telemetry_text_stops_at_the_first_piece_that_does_not_fit() {
    let mut buf = [0u8; 32];
    let max = u32::MAX;
    assert_eq!(t(max, max, max).format_into(&mut buf), "V=4294967295 B=4294967295 I=");
    assert_eq!(
        t(max, max, 1).format_status(5, ChargeState::Idle, &mut buf),
        "V=4294967295 B=4294967295 I=1 D="
    );
}

#[test]
fn default_telemetry_is_zero() {
    let z = Telemetry::default();
    assert_eq!((z.vin_mv, z.vbat_mv, z.ibat_ma), (0, 0, 0));
}

#[test]
fn sweeps_in_physical_units() {
    // The reference reads what it read at 3.3 V, so the rail is 3.3 V.
    let s = Senses::new(1500);
    let one = Sweep { vref: 1500, vin: 4095, vout: 2048, ishunt: 100 };
    let r = s.read(&one);
    assert_eq!((r.vin_mv, r.vbat_mv, r.ibat_ma), (25300, 3300, 1600));
    let two = Sweep { vref: 1500, vin: 4095, vout: 2048, ishunt: 50 };
    let r = s.read_avg(&[one, two]);
    assert_eq!((r.vin_mv, r.vbat_mv, r.ibat_ma), (25300, 3300, 1200));
    // A lower reading of the reference means a higher rail.
    let low = Sweep { vref: 1000, vin: 4095, vout: 0, ishunt: 0 };
    assert_eq!(s.read(&low).vin_mv, 4950 * 23 / 3);
}

#[test]
fn buck_duty() {
    let mut b = Buck::new();
    b.set_duty_permille(500);
    assert_eq!(b.ccr, 80);
    assert_eq!(b.duty_permille(), 500);
    b.set_duty_permille(5000);
    assert_eq!(b.ccr, 152);
    assert_eq!(b.duty_permille(), 950);
    b.set_duty_permille(13);
    assert_eq!(b.ccr, 2);
    assert_eq!(b.duty_permille(), 12);
    b.off();
    assert_eq!(b.ccr, 0);
}

#[test]
fn activity_flags_are_taken_once() {
    let mut a = Activity::new();
    note_tx(&mut a);
    assert!(take_tx(&mut a) && !take_tx(&mut a) && !take_rx(&mut a));
    note_rx(&mut a);
    assert!(take_rx(&mut a) && !take_rx(&mut a));
}

#[test]
fn led_pulse() {
    let mut leds = Leds::new();
    let mut a = Activity::new();
    note_tx(&mut a);
    leds.update(&mut a, 1000);
    assert!(leds.tx.lit && !leds.rx.lit);
    leds.update(&mut a, 1029);
    assert!(leds.tx.lit);
    note_tx(&mut a);
    leds.update(&mut a, 1029);
    leds.update(&mut a, 1058);
    assert!(leds.tx.lit);
    note_rx(&mut a);
    leds.update(&mut a, 1059);
    assert!(!leds.tx.lit && leds.rx.lit);
    // Across the wrap of the clock.
    note_tx(&mut a);
    leds.update(&mut a, u32::MAX);
    leds.update(&mut a, 28);
    assert!(leds.tx.lit);
    leds.update(&mut a, 29);
    assert!(!leds.tx.lit);
}

#[test]
fn charger_waits_for_sun_with_hysteresis() {
    let mut m = Mppt::default();
    let mut b = Buck::new();
    m.step(&t(4999, 4000, 0), &mut b);
    assert_eq!((m.state(), m.duty_permille()), (ChargeState::Idle, 0));
    // Enough to run, not enough to start.
    m.step(&t(5499, 4000, 0), &mut b);
    assert_eq!(m.state(), ChargeState::Idle);
    m.step(&t(5500, 4000, 0), &mut b);
    assert_eq!((m.state(), m.duty_permille()), (ChargeState::Tracking, 13));
    assert_eq!(b.ccr, 2);
    // Once running, the margin is enough.
    m.step(&t(5000, 4000, 100), &mut b);
    assert_eq!((m.state(), m.duty_permille()), (ChargeState::Tracking, 26));
    m.step(&t(4999, 4000, 100), &mut b);
    assert_eq!((m.state(), m.duty_permille(), b.ccr), (ChargeState::Idle, 0, 0));
}

#[test]
fn charger_climbs_and_turns_when_power_drops() {
    let mut m = Mppt::new();
    let mut b = Buck::new();
    m.step(&t(18000, 4000, 0), &mut b);
    m.step(&t(18000, 4000, 100), &mut b); // 400 mW
    m.step(&t(18000, 4000, 200), &mut b); // 800 mW
    assert_eq!(m.duty_permille(), 39);
    // 40 mW less is noise.
    m.step(&t(18000, 4000, 190), &mut b);
    assert_eq!(m.duty_permille(), 52);
    m.step(&t(18000, 4000, 179), &mut b);
    assert_eq!(m.duty_permille(), 39);
    m.step(&t(18000, 4000, 179), &mut b);
    assert_eq!(m.duty_permille(), 26);
    m.step(&t(18000, 4000, 100), &mut b);
    assert_eq!(m.duty_permille(), 39);
}

#[test]
fn charger_backs_off_at_its_limits() {
    let mut m = Mppt::new();
    let mut b = Buck::new();
    m.step(&t(18000, 4000, 0), &mut b);
    for _ in 0..4 {
        m.step(&t(18000, 4000, 100), &mut b);
    }
    assert_eq!(m.duty_permille(), 65);
    m.step(&t(18000, 4201, 100), &mut b);
    assert_eq!((m.state(), m.duty_permille()), (ChargeState::Limiting, 39));
    m.step(&t(18000, 4200, 1001), &mut b);
    assert_eq!((m.state(), m.duty_permille()), (ChargeState::Limiting, 13));
    m.step(&t(18000, 4200, 1001), &mut b);
    assert_eq!(m.duty_permille(), 0);
    // Downhill first, then off the lower rail.
    m.step(&t(18000, 4200, 1000), &mut b);
    assert_eq!((m.state(), m.duty_permille()), (ChargeState::Tracking, 0));
    m.step(&t(18000, 4200, 1000), &mut b);
    assert_eq!(m.duty_permille(), 13);
}

#[test]
fn charger_bounces_off_the_ceiling() {
    let mut m = Mppt::new();
    let mut b = Buck::new();
    for _ in 0..75 {
        m.step(&t(18000, 4000, 500), &mut b);
        assert!(m.duty_permille() <= MAX_DUTY_PERMILLE);
    }
    assert!(m.duty_permille() < MAX_DUTY_PERMILLE);
}

#[test]
fn fresh_board() {
    let b = Board::new(1500);
    assert_eq!(b.senses.vref_cal, 1500);
    assert_eq!((b.buck.ccr, b.mppt.duty_permille()), (0, 0));
    assert!(b.mppt.state() == ChargeState::Idle);
    assert_eq!(b.sd.kind(), None);
    assert!(!b.leds.tx.lit && !b.leds.rx.lit);
    assert_eq!((b.leds.tx.on_at, b.leds.rx.on_at), (0, 0));
}

#[test]
fn board_step() {
    let mut board = Board::new(1500);
    let sweep = Sweep { vref: 1500, vin: 2000, vout: 2000, ishunt: 10 };
    let r = board.mppt_step(&[sweep; 4]);
    assert_eq!(r.vbat_mv, 3222);
    assert_eq!(board.mppt.state(), ChargeState::Tracking);
    assert_eq!(board.buck.ccr, 2);
}

/// A card that answers commands from a table.
struct Card {
    ocr: u8,
    v2: bool,
    idle_polls: u32,
    reset_fails: u32,
    queue: Vec<u8>,
    commands: Vec<(u8, u32)>,
    selected: bool,
    fast: bool,
    block: Vec<u8>,
    write_response: u8,
    busy: u32,
    in_data: bool,
}

impl Card {
    fn new(v2: bool, ocr: u8) -> Card {
        Card {
            ocr,
            v2,
            idle_polls: 2,
            reset_fails: 0,
            queue: Vec::new(),
            commands: Vec::new(),
            selected: false,
            fast: false,
            block: vec![0x5A; 512],
            write_response: 0xE5,
            busy: 3,
            in_data: false,
        }
    }

    fn command(&mut self, frame: &[u8; 6]) {
        let id = frame[0] & 0x3F;
        let arg = u32::from_be_bytes([frame[1], frame[2], frame[3], frame[4]]);
        self.commands.push((id, arg));
        self.queue.clear();
        self.queue.push(0xFF);
        match id {
            0 => {
                assert_eq!(frame[5], 0x95);
                if self.reset_fails > 0 {
                    self.reset_fails -= 1;
                    self.queue.push(0x00);
                } else {
                    self.queue.push(0x01);
                }
            }
            8 => {
                assert_eq!(frame[5], 0x87);
                if self.v2 {
                    self.queue.extend_from_slice(&[0x01, 0, 0, 1, 0xAA]);
                } else {
                    self.queue.push(0x05);
                }
            }
            55 => self.queue.push(0x01),
            41 => {
                if self.idle_polls > 0 {
                    self.idle_polls -= 1;
                    self.queue.push(0x01);
                } else {
                    self.queue.push(0x00);
                }
            }
            58 => self.queue.extend_from_slice(&[0x00, self.ocr, 0xFF, 0x80, 0x00]),
            16 => self.queue.push(0x00),
            17 => self.queue.extend_from_slice(&[0x00, 0xFF, 0xFF, 0xFE]),
            24 => self.queue.push(0x00),
            _ => self.queue.push(0x04),
        }
    }

    fn exchange(&mut self) -> u8 {
        if self.queue.is_empty() {
            0xFF
        } else {
            self.queue.remove(0)
        }
    }
}

fn run(sd: &mut SdCard, card: &mut Card, mut step: SdStep) -> Result<SdDone, SdError> {
    let mut now = 0;
    let mut read = Vec::new();
    loop {
        now += 1;
        let ev = match step {
            SdStep::Done(r) => {
                assert!(!card.selected);
                return r;
            }
            SdStep::Speed { fast } => {
                card.fast = fast;
                SdEvent::Finished
            }
            SdStep::ChipSelect(on) => {
                card.selected = on;
                SdEvent::Finished
            }
            SdStep::Send { frame, feed_watchdog } => {
                assert!(card.selected);
                assert_eq!(feed_watchdog, frame[0] == 0x40 + 55);
                card.command(&frame);
                SdEvent::Finished
            }
            SdStep::Exchange { .. } => {
                let b = card.exchange();
                SdEvent::Byte(b)
            }
            SdStep::ReadBlock => {
                read = card.block.clone();
                assert_eq!(read.len(), 512);
                SdEvent::Finished
            }
            SdStep::WriteBlock => {
                // Two CRC bytes, the response, then busy.
                card.in_data = true;
                card.queue = vec![0xFF, 0xFF, card.write_response];
                for _ in 0..card.busy {
                    card.queue.push(0x00);
                }
                SdEvent::Finished
            }
        };
        step = sd.event(ev, now);
    }
}

fn init(card: &mut Card) -> (SdCard, Result<SdDone, SdError>) {
    let mut sd = SdCard::new();
    let step = sd.init(true);
    let r = run(&mut sd, card, step);
    (sd, r)
}

#[test]
fn sd_kinds() {
    let mut card = Card::new(true, 0xC0);
    let (sd, r) = init(&mut card);
    assert_eq!(r, Ok(SdDone::Kind(SdKind::Sdhc)));
    assert_eq!(sd.kind(), Some(SdKind::Sdhc));
    assert!(card.fast);
    let ids: Vec<u8> = card.commands.iter().map(|c| c.0).collect();
    assert_eq!(ids, vec![0, 8, 55, 41, 55, 41, 55, 41, 58]);
    assert_eq!(card.commands[3].1, 0x4000_0000);

    let mut card = Card::new(true, 0x80);
    let (sd, r) = init(&mut card);
    assert_eq!(r, Ok(SdDone::Kind(SdKind::Sd2)));
    assert_eq!(sd.kind(), Some(SdKind::Sd2));
    assert_eq!(card.commands.last(), Some(&(16, 512)));

    let mut card = Card::new(false, 0);
    card.reset_fails = 31;
    let (sd, r) = init(&mut card);
    assert_eq!(r, Ok(SdDone::Kind(SdKind::Sd1)));
    assert_eq!(sd.kind(), Some(SdKind::Sd1));
    assert_eq!(card.commands[0..32], [(0, 0); 32]);
}

#[test]
fn sd_init_failures() {
    let mut sd = SdCard::new();
    assert!(matches!(sd.init(false), SdStep::Done(Err(SdError::NoCard))));
    let mut card = Card::new(true, 0);
    card.reset_fails = 32;
    let (sd, r) = init(&mut card);
    assert_eq!(r, Err(SdError::Response(0x00)));
    assert_eq!(sd.kind(), None);
    // A card that never leaves its idle state.
    let mut card = Card::new(true, 0);
    card.idle_polls = u32::MAX;
    assert_eq!(init(&mut card).1, Err(SdError::Timeout));
    // A kind that was known is forgotten when the card no longer answers.
    let mut card = Card::new(true, 0xC0);
    let (mut sd, r) = init(&mut card);
    assert_eq!(r, Ok(SdDone::Kind(SdKind::Sdhc)));
    let mut card = Card::new(true, 0xC0);
    card.reset_fails = 32;
    let step = sd.init(true);
    assert_eq!(sd.kind(), None);
    assert_eq!(run(&mut sd, &mut card, step), Err(SdError::Response(0x00)));
    assert_eq!(sd.kind(), None);
    // A bus that fails while the card is woken.
    let mut sd = SdCard::new();
    sd.init(true);
    sd.event(SdEvent::Finished, 0);
    sd.event(SdEvent::Finished, 0);
    assert!(matches!(sd.event(SdEvent::Failed, 0), SdStep::Done(Err(SdError::Spi))));
}

#[test]
fn sd_answers_nothing() {
    let mut sd = SdCard::new();
    let mut step = sd.init(true);
    loop {
        let ev = match step {
            SdStep::Done(r) => {
                assert_eq!(r, Err(SdError::Timeout));
                break;
            }
            SdStep::Exchange { .. } => SdEvent::Byte(0xFF),
            _ => SdEvent::Finished,
        };
        step = sd.event(ev, 0);
    }
}

#[test]
fn sd_blocks() {
    let mut card = Card::new(true, 0xC0);
    let (mut sd, _) = init(&mut card);
    let step = sd.read_block(2048);
    assert_eq!(run(&mut sd, &mut card, step), Ok(SdDone::Block));
    assert_eq!(card.commands.last(), Some(&(17, 2048)));
    let step = sd.write_block(2049);
    assert_eq!(run(&mut sd, &mut card, step), Ok(SdDone::Block));
    assert_eq!(card.commands.last(), Some(&(24, 2049)));
    // Byte addresses on a standard capacity card.
    let mut card = Card::new(true, 0x80);
    let (mut sd, _) = init(&mut card);
    let step = sd.write_block(2049);
    assert_eq!(run(&mut sd, &mut card, step), Ok(SdDone::Block));
    assert_eq!(card.commands.last(), Some(&(24, 2049 * 512)));
}

#[test]
fn sd_block_failures() {
    let mut sd = SdCard::new();
    assert!(matches!(sd.read_block(1), SdStep::Done(Err(SdError::NotInitialized))));
    assert!(matches!(sd.write_block(1), SdStep::Done(Err(SdError::NotInitialized))));
    let mut card = Card::new(true, 0xC0);
    let (mut sd, _) = init(&mut card);
    card.write_response = 0xEB;
    let step = sd.write_block(1);
    assert_eq!(run(&mut sd, &mut card, step), Err(SdError::Response(0x0B)));
    card.write_response = 0xE5;
    card.busy = 100_000;
    let step = sd.write_block(1);
    assert_eq!(run(&mut sd, &mut card, step), Err(SdError::Timeout));
}
