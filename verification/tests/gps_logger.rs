use sx1262_mesh_rs::gpslog::block_log::{
    BlockLog, LogStep, BLOCK_LEN, DATA_BLOCKS, DATA_START_LBA, HEADER_LBA,
};
use sx1262_mesh_rs::gpslog::events::{note_rx, note_tx, pop, push, Queue, RadioEvent};
use sx1262_mesh_rs::gpslog::gps::{Gps, GpsPoll, UartRead, DRAIN_BUDGET};
use sx1262_mesh_rs::gpslog::{GpsRadioLog, PollStep};

const GGA: &str = "$GPGGA,123519,4807.038,N,01131.000,E,1,08,0.9,545.4,M,46.9,M,,*47";

fn with_checksum(body: &str) -> String {
    let sum = body.bytes().fold(0u8, |a, b| a ^ b);
    format!("${}*{:02X}", body, sum)
}

/// Feeds a text; returns the sentences that were reported.
fn feed(gps: &mut Gps, text: &str) -> Vec<String> {
    let mut out = Vec::new();
    for b in text.bytes() {
        if gps.poll_line(UartRead::Byte(b), DRAIN_BUDGET) == GpsPoll::Line {
            out.push(String::from_utf8(gps.line().to_vec()).unwrap());
        }
    }
    out
}

#[test]
fn queue_keeps_order_and_drops_the_oldest() {
    let mut q = Queue::new();
    assert!(pop(&mut q).is_none());
    for i in 0..10u8 {
        push(&mut q, RadioEvent::Tx { len: i, ok: true });
    }
    for i in 2..10u8 {
        assert!(matches!(pop(&mut q), Some(RadioEvent::Tx { len, .. }) if len == i));
    }
    assert!(pop(&mut q).is_none());
    note_tx(&mut q, 3, false);
    note_rx(&mut q, 4, -90, 10, -80);
    assert!(matches!(pop(&mut q), Some(RadioEvent::Tx { len: 3, ok: false })));
    assert!(matches!(
        pop(&mut q),
        Some(RadioEvent::Rx { len: 4, rssi_dbm: -90, snr_qdb: 10, signal_rssi_dbm: -80 })
    ));
}

#[test]
fn gga_gives_a_fix() {
    let mut gps = Gps::new();
    let heard = feed(&mut gps, &format!("noise{}\r\n", GGA));
    assert_eq!(heard, vec![GGA.to_string()]);
    assert_eq!(gps.fix_quality, 1);
    assert_eq!(gps.sats, 8);
    assert!(gps.has_pos);
    assert_eq!(gps.lat.text, b"4807.038");
    assert!(!gps.lat.negative);
    assert_eq!(gps.lon.text, b"01131.000");
    assert!(!gps.lon.negative);
}

#[test]
fn southern_and_western_hemispheres() {
    let mut gps = Gps::new();
    let line = with_checksum("GNRMC,123519,A,3342.1,S,07030.25,W,0,0,230394,,");
    assert_eq!(feed(&mut gps, &format!("{}\n", line)).len(), 1);
    assert!(gps.has_pos && gps.lat.negative && gps.lon.negative);
    assert_eq!(gps.fix_quality, 0);
}

#[test]
fn lost_fix_clears_position() {
    let mut gps = Gps::new();
    feed(&mut gps, &format!("{}\r", GGA));
    assert!(gps.has_pos);
    let gone = with_checksum("GPGGA,123519,,,,,0,00,,,M,,M,,");
    assert_eq!(feed(&mut gps, &format!("{}\r", gone)).len(), 1);
    assert!(!gps.has_pos);
    feed(&mut gps, &format!("{}\r", GGA));
    let void = with_checksum("GPRMC,123519,V,4807.038,N,01131.000,E,,,230394,,");
    feed(&mut gps, &format!("{}\r", void));
    assert!(!gps.has_pos);
}

#[test]
fn unreadable_position_with_a_fix_keeps_the_old_one() {
    let mut gps = Gps::new();
    feed(&mut gps, &format!("{}\r", GGA));
    let odd = with_checksum("GPGGA,123519,48x7.038,N,01131.000,E,2,300,,,M,,M,,");
    assert_eq!(feed(&mut gps, &format!("{}\r", odd)).len(), 1);
    assert_eq!(gps.fix_quality, 2);
    assert_eq!(gps.sats, 255);
    assert!(gps.has_pos);
    assert_eq!(gps.lat.text, b"4807.038");
}

#[test]
fn bad_checksum_and_other_sentences_are_dropped() {
    let mut gps = Gps::new();
    assert!(feed(&mut gps, &format!("{}\r\n", GGA.replace("08", "09"))).is_empty());
    assert!(feed(&mut gps, &format!("{}\r\n", with_checksum("GPGSV,1,1,00"))).is_empty());
    assert!(feed(&mut gps, "$GPGGA\r\n").is_empty());
    assert!(feed(&mut gps, "$GPGGA,1,2,3,4*ZZ\r\n").is_empty());
    assert!(!gps.has_pos);
    // A sentence that never ends is given up at its 83rd byte.
    let mut endless = String::from("$");
    endless.push_str(&"x".repeat(200));
    assert!(feed(&mut gps, &endless).is_empty());
    assert_eq!(feed(&mut gps, &format!("{}\n", GGA)).len(), 1);
}

#[test]
fn invalid_utf8_sentence_is_not_reported() {
    let mut body: Vec<u8> = b"GPGGA,1,4807.038,N,01131.000,E,1,05,\xFF".to_vec();
    let sum = body.iter().fold(0u8, |a, b| a ^ b);
    body.insert(0, b'$');
    body.extend_from_slice(format!("*{:02x}", sum).as_bytes());
    let mut gps = Gps::new();
    for &b in &body {
        assert_eq!(
            gps.poll_line(UartRead::Byte(b), 100),
            GpsPoll::Read { clear_errors: false }
        );
    }
    assert_eq!(
        gps.poll_line(UartRead::Byte(13), 100),
        GpsPoll::Nothing { clear_errors: false }
    );
    // The fix state has been taken over all the same.
    assert_eq!(gps.sats, 5);
}

#[test]
fn poll_ends_with_its_budget_or_an_empty_uart() {
    let mut gps = Gps::new();
    assert_eq!(gps.poll_line(UartRead::WouldBlock, 5), GpsPoll::Nothing { clear_errors: false });
    assert_eq!(gps.poll_line(UartRead::Byte(b'x'), 1), GpsPoll::Nothing { clear_errors: false });
    assert_eq!(gps.poll_line(UartRead::Error, 2), GpsPoll::Read { clear_errors: true });
    assert_eq!(gps.poll_line(UartRead::Error, 1), GpsPoll::Nothing { clear_errors: true });
    // Lost bytes drop the sentence under way.
    let mut gps = Gps::new();
    for b in GGA.bytes() {
        gps.poll_line(UartRead::Byte(b), 9);
    }
    gps.poll_line(UartRead::Error, 9);
    assert_ne!(gps.poll_line(UartRead::Byte(13), 9), GpsPoll::Line);
}

#[test]
fn status_line() {
    let mut gps = Gps::new();
    feed(&mut gps, &format!("{}\r", GGA));
    let mut buf = [0u8; 24];
    assert_eq!(gps.fmt_status_line(&mut buf, -95, Some(83_999)), "08 -95dBm 1m23s");
    assert_eq!(gps.fmt_status_line(&mut buf, -95, None), "08 no rx");
    assert_eq!(gps.fmt_status_line(&mut buf, -32768, Some(u32::MAX)), "08 -32768dBm 71582m47s");
}

fn blank() -> [u8; BLOCK_LEN] {
    [0u8; BLOCK_LEN]
}

fn header(lba: u32) -> [u8; BLOCK_LEN] {
    let mut b = blank();
    b[..4].copy_from_slice(b"GRL1");
    b[4..8].copy_from_slice(&lba.to_le_bytes());
    b
}

#[test]
fn log_starts_on_a_blank_card() {
    let mut log = BlockLog::new();
    match log.setup(&blank()) {
        LogStep::Write { lba, block } => {
            assert_eq!(lba, HEADER_LBA);
            // A blank header counts as one that points to the first data block.
            assert_eq!(block, header(DATA_START_LBA + 17));
        }
        LogStep::Done => panic!("no header"),
    }
    assert!(!log.is_ready());
    assert!(matches!(log.written(true), LogStep::Done));
    assert!(log.is_ready());
    assert_eq!(log.lba(), DATA_START_LBA + 17);
}

#[test]
fn log_resumes_past_recent_blocks() {
    let resume = |stored: u32| {
        let mut log = BlockLog::new();
        log.setup(&header(stored));
        log.written(true);
        log.lba()
    };
    assert_eq!(resume(DATA_START_LBA), DATA_START_LBA + 17);
    assert_eq!(resume(DATA_START_LBA + 160), DATA_START_LBA + 177);
    // Around the end of the region.
    assert_eq!(resume(DATA_START_LBA + DATA_BLOCKS - 1), DATA_START_LBA + 16);
    // A pointer outside the region is not trusted.
    assert_eq!(resume(5), DATA_START_LBA);
    assert_eq!(resume(DATA_START_LBA + DATA_BLOCKS), DATA_START_LBA);
}

#[test]
fn log_writes_blocks_and_checkpoints() {
    let mut log = BlockLog::new();
    log.setup(&header(DATA_START_LBA + 13));
    log.written(true);
    assert_eq!(log.lba(), DATA_START_LBA + 30);
    let text: Vec<u8> = (0..1100).map(|i| b'a' + (i % 26) as u8).collect();
    let mut seen: Vec<(u32, Vec<u8>)> = Vec::new();
    let mut step = log.append(&text);
    while let LogStep::Write { lba, block } = step {
        seen.push((lba, block.to_vec()));
        step = log.written(true);
    }
    assert_eq!(seen.len(), 3);
    assert_eq!(seen[0], (DATA_START_LBA + 30, text[..512].to_vec()));
    assert_eq!(seen[1], (DATA_START_LBA + 31, text[512..1024].to_vec()));
    // Block 32 is a multiple of the checkpoint distance.
    assert_eq!(seen[2], (HEADER_LBA, header(DATA_START_LBA + 32).to_vec()));
    // What is left is synced in place, zero padded, once.
    match log.sync() {
        LogStep::Write { lba, block } => {
            assert_eq!(lba, DATA_START_LBA + 32);
            assert_eq!(&block[..76], &text[1024..]);
            assert!(block[76..].iter().all(|&b| b == 0));
        }
        LogStep::Done => panic!("nothing synced"),
    }
    log.written(true);
    assert!(matches!(log.sync(), LogStep::Done));
}

#[test]
fn log_wraps_around() {
    let mut log = BlockLog::new();
    log.setup(&header(DATA_START_LBA + DATA_BLOCKS - 18));
    log.written(true);
    assert_eq!(log.lba(), DATA_START_LBA + DATA_BLOCKS - 1);
    assert!(matches!(log.append(&[b'x'; 512]), LogStep::Write { .. }));
    match log.written(true) {
        LogStep::Write { lba, block } => {
            assert_eq!(lba, HEADER_LBA);
            assert_eq!(block, header(DATA_START_LBA));
        }
        LogStep::Done => panic!("no checkpoint"),
    }
}

#[test]
fn failed_write_needs_a_new_setup() {
    let mut log = BlockLog::new();
    log.setup(&blank());
    log.written(true);
    log.append(&[1; 512]);
    assert!(matches!(log.written(false), LogStep::Done));
    assert!(!log.is_ready());
    assert!(matches!(log.append(b"lost"), LogStep::Done));
    assert!(matches!(log.sync(), LogStep::Done));
}

/// A logger with a card and a GPS text on its UART.
fn run_poll(
    l: &mut GpsRadioLog,
    q: &mut Queue,
    now: u32,
    gps_text: &mut Vec<u8>,
    writes: &mut Vec<(u32, Vec<u8>)>,
) {
    let mut step = l.poll(q, now);
    loop {
        step = match step {
            PollStep::Done => return,
            PollStep::CheckCard => l.card_checked(q, true, false),
            PollStep::InitCard => l.card_ready(q, true),
            PollStep::ReadBlock { lba } => {
                assert_eq!(lba, HEADER_LBA);
                l.header_read(q, Some(&blank()))
            }
            PollStep::Write { lba, block } => {
                writes.push((lba, block.to_vec()));
                l.block_written(q, true)
            }
            PollStep::ReadUart => {
                if gps_text.is_empty() {
                    l.uart_read(UartRead::WouldBlock)
                } else {
                    let b = gps_text.remove(0);
                    l.uart_read(UartRead::Byte(b))
                }
            }
            PollStep::ClearUart => l.uart_cleared(),
        };
    }
}

fn console(l: &GpsRadioLog) -> Vec<String> {
    l.echo().iter().map(|line| String::from_utf8(line.clone()).unwrap()).collect()
}

#[test]
fn fix_quality_is_told_when_it_changes() {
    let mut l = GpsRadioLog::new();
    let mut q = Queue::new();
    let mut writes = Vec::new();
    run_poll(&mut l, &mut q, 0, &mut Vec::new(), &mut writes);
    for (quality, told) in [("0", false), ("2", true), ("2", false), ("0", true)] {
        let gga = with_checksum(&format!(
            "GPGGA,123519,4807.038,N,01131.000,E,{},07,0.9,545.4,M,46.9,M,,",
            quality
        ));
        let mut text = format!("{}\r\n", gga).into_bytes();
        run_poll(&mut l, &mut q, 1, &mut text, &mut writes);
        let mut expected = vec![format!("GPS {}", gga)];
        if told {
            expected.push(format!("GPS fix quality {} (7 sats)", quality));
        }
        assert_eq!(console(&l), expected);
    }
}

#[test]
fn logger_logs_events_and_sentences() {
    let mut l = GpsRadioLog::new();
    let mut q = Queue::new();
    note_tx(&mut q, 12, true);
    note_rx(&mut q, 40, -95, -13, -97);
    let mut text = format!("{}\r\n", GGA).into_bytes();
    let mut writes = Vec::new();
    assert!(!l.is_logging());
    run_poll(&mut l, &mut q, 1234, &mut text, &mut writes);
    assert!(l.is_logging());
    assert_eq!(l.gps.sats, 8);
    let mut expected = String::new();
    expected.push_str("t=1234 TX len=12 ok=1\n");
    expected.push_str("t=1234 RX len=40 rssi=-95 snr=-3.25 srssi=-97\n");
    expected.push_str(&format!("t=1234 GPS {}\n", GGA));
    assert_eq!(writes[0].0, HEADER_LBA);
    assert_eq!(writes[1].0, DATA_START_LBA + 17);
    assert_eq!(&writes[1].1[..expected.len()], expected.as_bytes());
    assert_eq!(
        console(&l),
        vec![
            "gps-radio-log: logging at block 2066".to_string(),
            "t=1234 TX len=12 ok=1".to_string(),
            "t=1234 RX len=40 rssi=-95 snr=-3.25 srssi=-97".to_string(),
            format!("GPS {}", GGA),
            "GPS fix quality 1 (8 sats)".to_string(),
        ]
    );
    // The sync comes once per period.
    let n = writes.len();
    note_tx(&mut q, 1, false);
    run_poll(&mut l, &mut q, 5000, &mut Vec::new(), &mut writes);
    assert_eq!(writes.len(), n);
    assert_eq!(console(&l), vec!["t=5000 TX len=1 ok=0".to_string()]);
    run_poll(&mut l, &mut q, 11_234, &mut Vec::new(), &mut writes);
    assert_eq!(writes.len(), n + 1);
    expected.push_str("t=5000 TX len=1 ok=0\n");
    assert_eq!(&writes[n].1[..expected.len()], expected.as_bytes());
}

#[test]
fn logger_logs_stats() {
    let mut l = GpsRadioLog::new();
    let mut q = Queue::new();
    let mut writes = Vec::new();
    run_poll(&mut l, &mut q, 0, &mut Vec::new(), &mut writes);
    writes.clear();
    assert!(matches!(l.log_stats(77, (10, 2, 65535)), PollStep::Done));
    run_poll(&mut l, &mut q, 20_000, &mut Vec::new(), &mut writes);
    let line = b"t=77 STATS rx=10 crc_err=2 hdr_err=65535\n";
    assert_eq!(&writes[0].1[..line.len()], line);
}

#[test]
fn logger_retries_a_missing_card_later() {
    let mut l = GpsRadioLog::new();
    let mut q = Queue::new();
    assert!(matches!(l.poll(&mut q, 100), PollStep::CheckCard));
    assert!(matches!(l.card_checked(&mut q, false, false), PollStep::ReadUart));
    assert!(matches!(l.uart_read(UartRead::WouldBlock), PollStep::Done));
    assert!(matches!(l.poll(&mut q, 10_099), PollStep::ReadUart));
    assert!(matches!(l.uart_read(UartRead::Error), PollStep::ClearUart));
    assert!(matches!(l.uart_cleared(), PollStep::ReadUart));
    assert!(matches!(l.uart_read(UartRead::WouldBlock), PollStep::Done));
    assert!(matches!(l.poll(&mut q, 10_100), PollStep::CheckCard));
    assert!(matches!(l.card_checked(&mut q, true, true), PollStep::ReadBlock { lba: 2048 }));
    assert!(matches!(l.header_read(&mut q, None), PollStep::ReadUart));
}

#[test]
fn logger_brings_a_failed_card_up_anew() {
    let mut l = GpsRadioLog::new();
    let mut q = Queue::new();
    // The header cannot be read.
    l.poll(&mut q, 0);
    assert!(matches!(l.card_checked(&mut q, true, true), PollStep::ReadBlock { lba: 2048 }));
    l.header_read(&mut q, None);
    l.uart_read(UartRead::WouldBlock);
    // A retry that finds no card changes nothing about that.
    assert!(matches!(l.poll(&mut q, 10_000), PollStep::CheckCard));
    assert!(matches!(l.card_checked(&mut q, false, true), PollStep::ReadUart));
    l.uart_read(UartRead::WouldBlock);
    assert!(matches!(l.poll(&mut q, 20_000), PollStep::CheckCard));
    assert!(matches!(l.card_checked(&mut q, true, true), PollStep::InitCard));
    // Nor does a failed bring-up.
    assert!(matches!(l.card_ready(&mut q, false), PollStep::ReadUart));
    l.uart_read(UartRead::WouldBlock);
    l.poll(&mut q, 30_000);
    assert!(matches!(l.card_checked(&mut q, true, true), PollStep::InitCard));
    assert!(matches!(l.card_ready(&mut q, true), PollStep::ReadBlock { lba: 2048 }));
    // The header cannot be written.
    assert!(matches!(l.header_read(&mut q, Some(&[0; 512])), PollStep::Write { lba: 2048, .. }));
    assert!(matches!(l.block_written(&mut q, false), PollStep::ReadUart));
    assert!(!l.is_logging());
    l.uart_read(UartRead::WouldBlock);
    l.poll(&mut q, 40_000);
    assert!(matches!(l.card_checked(&mut q, true, true), PollStep::InitCard));
    l.card_ready(&mut q, true);
    l.header_read(&mut q, Some(&[0; 512]));
    assert!(matches!(l.block_written(&mut q, true), PollStep::ReadUart));
    assert!(l.is_logging());
    l.uart_read(UartRead::WouldBlock);
    // A sync fails: the card was removed while the log was in use.
    note_tx(&mut q, 1, true);
    assert!(matches!(l.poll(&mut q, 50_000), PollStep::ReadUart));
    assert!(matches!(l.uart_read(UartRead::WouldBlock), PollStep::Write { .. }));
    assert!(matches!(l.block_written(&mut q, false), PollStep::Done));
    assert!(!l.is_logging());
    assert!(matches!(l.poll(&mut q, 50_001), PollStep::CheckCard));
    assert!(matches!(l.card_checked(&mut q, true, true), PollStep::InitCard));
    assert!(matches!(l.card_ready(&mut q, true), PollStep::ReadBlock { lba: 2048 }));
}

#[test]
fn noise_does_not_hold_a_poll() {
    let mut l = GpsRadioLog::new();
    let mut q = Queue::new();
    l.poll(&mut q, 0);
    let mut step = l.card_checked(&mut q, false, false);
    let mut reads = 0;
    while matches!(step, PollStep::ReadUart) {
        reads += 1;
        step = l.uart_read(UartRead::Byte(b'#'));
    }
    assert!(matches!(step, PollStep::Done));
    assert_eq!(reads, DRAIN_BUDGET);
}
