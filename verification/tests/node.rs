use sx1262_mesh_rs::config::{
    firmware_version, mesh_listen_period_ms, radio_preset, rx_boost, this_address,
    tx_chip_timeout_ms, tx_poll_timeout_ms, RadioPreset,
};
use sx1262_mesh_rs::mesh::{MeshError, Message, RhMesh};
use sx1262_mesh_rs::node::{
    banner_in, banner_out, format_pct, message_text, ota_percent, payload, plain_heartbeat,
    sweep_line, Features, Node, Task, TelemetryLine,
};
use sx1262_mesh_rs::platform::{millis, random, Clock, Rng};
use sx1262_mesh_rs::rs422::SoilReading;
use sx1262_mesh_rs::sensors::{
    BaroReading, BmeReading, McpReading, Readings, Scd41Reading, ShtReading,
};
use sx1262_mesh_rs::timer::{after, due};

#[test]
fn presets() {
    assert_eq!(radio_preset(None), Some(RadioPreset::Fast));
    assert_eq!(radio_preset(Some("fast")), Some(RadioPreset::Fast));
    assert_eq!(radio_preset(Some("long")), Some(RadioPreset::Long));
    assert_eq!(radio_preset(Some("max")), Some(RadioPreset::Max));
    assert_eq!(radio_preset(Some("extreme")), Some(RadioPreset::Extreme));
    assert_eq!(radio_preset(Some("Fast")), None);
    assert_eq!(radio_preset(Some("")), None);
    assert_eq!(RadioPreset::Extreme.name(), "extreme (SF12/BW62.5/CR4-8)");
    assert_eq!(RadioPreset::Fast.name(), "fast (SF7/BW125/CR4-5)");
    assert_eq!(RadioPreset::Long.name(), "long (SF10/BW125/CR4-5)");
    assert_eq!(RadioPreset::Max.name(), "max (SF12/BW125/CR4-8)");
    let all = [RadioPreset::Fast, RadioPreset::Long, RadioPreset::Max, RadioPreset::Extreme];
    for p in all {
        assert!(tx_poll_timeout_ms(p) < tx_chip_timeout_ms(p));
    }
    assert_eq!(all.map(tx_poll_timeout_ms), [150, 1000, 4000, 7500]);
    assert_eq!(all.map(tx_chip_timeout_ms), [300, 1300, 4500, 8200]);
    assert_eq!(all.map(mesh_listen_period_ms), [200, 900, 4000, 7000]);
}

#[test]
fn settings() {
    assert_eq!(rx_boost(None), Some(false));
    assert_eq!(rx_boost(Some("0")), Some(false));
    assert_eq!(rx_boost(Some("1")), Some(true));
    assert_eq!(rx_boost(Some("yes")), None);
    assert_eq!(firmware_version(None), Some(1));
    assert_eq!(firmware_version(Some("65535")), Some(65535));
    assert_eq!(firmware_version(Some("65536")), None);
    assert_eq!(firmware_version(Some("0007")), Some(7));
    assert_eq!(firmware_version(Some("")), None);
    assert_eq!(firmware_version(Some("1a")), None);
    assert_eq!(this_address(None), Some(1));
    assert_eq!(this_address(Some("255")), Some(255));
    assert_eq!(this_address(Some("256")), None);
    assert_eq!(this_address(Some("-1")), None);
    assert_eq!(this_address(Some("0")), None);
    assert_eq!(this_address(Some("10")), Some(10));
}

#[test]
fn clock_accounts_for_every_cycle() {
    let mut c = Clock::new(4_000_000);
    assert_eq!(millis(&mut c, 3_999), 0);
    assert_eq!(millis(&mut c, 4_000), 1);
    assert_eq!(millis(&mut c, 4_001), 1);
    assert_eq!(millis(&mut c, 12_000), 3);
    // Across the roll-over of the cycle counter.
    let mut c = Clock::new(4_000_000);
    assert_eq!(millis(&mut c, u32::MAX), 1_073_741);
    assert_eq!(millis(&mut c, 3_999), 1_073_742);
}

#[test]
fn random_numbers_stay_in_their_span() {
    let mut r = Rng::new();
    for i in 0..10_000u32 {
        let x = random(&mut r, i, -3, 17);
        assert!((-3..17).contains(&x));
    }
    assert_eq!(random(&mut r, 0, 5, 5), 5);
    assert_eq!(random(&mut r, 0, 5, -5), 5);
    // Seeded with one where the counter reads zero.
    let mut r = Rng::new();
    assert_eq!(random(&mut r, 0, 0, i32::MAX), 270_369);
    let mut wide = Rng::new();
    let x = random(&mut wide, 77, i32::MIN, i32::MAX);
    assert!(x < i32::MAX);
}

#[test]
fn deadlines() {
    assert!(!due(99, 100));
    assert!(due(100, 100));
    assert!(due(after(u32::MAX, 2), u32::MAX));
    assert!(!due(u32::MAX, after(u32::MAX, 2)));
    assert_eq!(after(u32::MAX, 2), 1);
}

#[test]
fn router_codes() {
    let m = RhMesh::new();
    assert_eq!(m.sent(0), Ok(()));
    assert_eq!(m.sent(1), Err(MeshError::InvalidLength));
    assert_eq!(m.sent(2), Err(MeshError::NoRoute));
    assert_eq!(m.sent(3), Err(MeshError::Timeout));
    assert_eq!(m.sent(4), Err(MeshError::NoReply));
    assert_eq!(m.sent(5), Err(MeshError::UnableToDeliver));
    assert_eq!(m.sent(200), Err(MeshError::UnableToDeliver));
    assert_eq!(MeshError::from_code(0), None);
    let r = m.send(&[1, 2, 3], 9);
    assert_eq!((r.len, r.dest, r.flags), (3, 9, 0));
    let r = m.send_with_flags(&[0; 257], 9, 2);
    assert_eq!((r.len, r.dest, r.flags), (1, 9, 2));
    assert_eq!(m.recv_room(&[0; 60]), 60);
    let header = Message { len: 2, source: 3, dest: 4, id: 5, flags: 6 };
    assert_eq!(m.recv(true, header).unwrap().source, 3);
    let header = Message { len: 2, source: 3, dest: 4, id: 5, flags: 6 };
    assert!(m.recv(false, header).is_none());
}

fn features(on: bool) -> Features {
    Features { board: on, sensor: on, rs422: on, gps_log: on }
}

fn round(n: &mut Node, ota: bool, now: u32) -> Vec<Task> {
    n.begin_round(ota);
    let mut tasks = Vec::new();
    loop {
        let t = n.next(now);
        tasks.push(t);
        if t == Task::Sleep {
            return tasks;
        }
    }
}

#[test]
fn plain_rounds() {
    let mut n = Node::new(3, features(false), true, 0);
    assert_eq!(round(&mut n, false, 0), vec![Task::UpdateMesh, Task::Receive, Task::Sleep]);
    assert_eq!(
        round(&mut n, false, 3000),
        vec![Task::UpdateMesh, Task::Receive, Task::Heartbeat, Task::Sleep]
    );
    assert_eq!(n.count_heartbeat(), 1);
    n.heartbeat_sent(3000, 12345);
    assert!((13_000..16_000).contains(&n.next_tx));
    assert_eq!(round(&mut n, false, 12_999).len(), 3);
    assert_eq!(round(&mut n, false, 16_000).len(), 4);
}

#[test]
fn full_rounds() {
    let mut n = Node::new(8, features(true), false, 0);
    assert_eq!(
        round(&mut n, false, 70_000),
        vec![
            Task::RetryDisplay,
            Task::UpdateLeds,
            Task::PollLog,
            Task::LogStats,
            Task::Charge,
            Task::ReadSensors,
            Task::UpdateMesh,
            Task::Receive,
            Task::Heartbeat,
            Task::Sleep
        ]
    );
    n.display_retried(true, 70_000);
    n.stats_logged(70_000);
    n.charged(70_000);
    n.sensors_read(70_000);
    n.heartbeat_sent(70_000, 1);
    assert_eq!(
        round(&mut n, false, 70_001),
        vec![
            Task::UpdateLeds,
            Task::PollLog,
            Task::ShowPosition,
            Task::UpdateMesh,
            Task::Receive,
            Task::Sleep
        ]
    );
    n.position_shown(70_001);
    assert!(!n.shows_banners());
    // An OTA transfer keeps the I2C bus quiet.
    assert_eq!(
        round(&mut n, true, 79_000),
        vec![
            Task::UpdateLeds,
            Task::PollLog,
            Task::Charge,
            Task::UpdateMesh,
            Task::Receive,
            Task::Sleep
        ]
    );
}

#[test]
fn display_comes_and_goes() {
    let mut n = Node::new(1, features(false), true, 0);
    assert!(n.shows_banners());
    n.drawn(true, 500);
    assert!(n.display_ok);
    n.drawn(false, 1000);
    assert!(!n.display_ok);
    assert!(!n.shows_banners());
    assert!(!round(&mut n, false, 10_999).contains(&Task::RetryDisplay));
    assert!(round(&mut n, false, 11_000).contains(&Task::RetryDisplay));
    n.display_retried(false, 11_100);
    assert!(!round(&mut n, false, 21_099).contains(&Task::RetryDisplay));
    assert!(round(&mut n, false, 21_100).contains(&Task::RetryDisplay));
}

#[test]
fn first_heartbeats_are_staggered() {
    for a in 0..=255u8 {
        let n = Node::new(a, features(false), true, 100);
        assert_eq!(n.next_tx, 100 + (a % 8) as u32 * 1000);
    }
}

#[test]
fn messages_are_told_apart() {
    let mut n = Node::new(1, features(false), true, 0);
    assert_eq!(n.message(&[0xF3, 1]), None);
    assert_eq!(n.message(b"hello"), Some(1));
    assert_eq!(n.message(&[]), Some(2));
}

#[test]
fn payloads_lose_their_padding() {
    assert_eq!(payload(b"hi\0\0\0"), b"hi");
    assert_eq!(payload(b"hi"), b"hi");
    assert_eq!(payload(&[0, 1, 2]), &[] as &[u8]);
    assert_eq!(payload(&[0xF3, 0, 0, 5, 0]), &[0xF3, 0, 0, 5, 0]);
}

#[test]
fn ota_progress_line() {
    let mut buf = [0u8; 16];
    assert_eq!(format_pct(&mut buf, 0), "OTA 0%");
    assert_eq!(format_pct(&mut buf, 7), "OTA 7%");
    assert_eq!(format_pct(&mut buf, 42), "OTA 42%");
    assert_eq!(format_pct(&mut buf, 100), "OTA 100%");
    assert_eq!(format_pct(&mut buf, 1205), "OTA 205%");
    assert_eq!(ota_percent(1, 3), 33);
    assert_eq!(ota_percent(4096, 4096), 100);
}

#[test]
fn telemetry_fields_are_whole() {
    let mut l = TelemetryLine::new();
    l.push(b'T', -1234);
    l.push(b'H', 5600);
    assert_eq!(l.as_bytes(), b"T=-1234 H=5600");
    l.push(b'X', i32::MIN);
    assert_eq!(l.as_bytes(), b"T=-1234 H=5600 X=-2147483648");
    // No room for this one, but for the next.
    l.push(b'Y', 12345);
    l.push(b'Z', 1);
    assert_eq!(l.as_bytes(), b"T=-1234 H=5600 X=-2147483648 Z=1");
}

#[test]
fn best_sources() {
    let bme = BmeReading { temp_c_x100: 1, press_pa: 0, hum_pct_x100: 2, gas_ohm: 0 };
    let sht = ShtReading { temp_c_x100: 3, hum_pct_x100: 4 };
    let co2 = Scd41Reading { co2_ppm: 5, temp_c_x100: 6, hum_pct_x100: 7 };
    let mcp = McpReading { temp_c_x100: 8 };
    let baro = BaroReading { temp_c_x100: 9, press_pa: 0 };
    let line = |r: &Readings, s: Option<SoilReading>| {
        String::from_utf8(sweep_line(r, s).as_bytes().to_vec()).unwrap()
    };
    let mut r = Readings::default();
    assert_eq!(line(&r, None), "");
    r.baro = Some(baro);
    assert_eq!(line(&r, None), "T=9");
    r.mcp = Some(mcp);
    assert_eq!(line(&r, None), "T=8");
    r.co2 = Some(co2);
    assert_eq!(line(&r, None), "T=6 H=7 C=5");
    r.sht = Some(sht);
    assert_eq!(line(&r, None), "T=3 H=4 C=5");
    r.bme = Some(bme);
    let soil = SoilReading { moisture_pct_x10: 486, temp_c_x10: -97 };
    assert_eq!(line(&r, Some(soil)), "T=1 H=2 C=5 M=486");
}

#[test]
fn banners() {
    assert_eq!(&banner_in(b"hello"), b"In: hello                       ");
    assert_eq!(&banner_out(b"hello"), b"Out: hello                      ");
    let long = b"abcdefghijklmnopqrstuvwxyz012345";
    assert_eq!(&banner_out(long), b"Out: abcdefghijklmnopqrstuvwxyz0");
    assert_eq!(&banner_in(&long[..28]), b"In: abcdefghijklmnopqrstuvwxyz01");
    assert_eq!(plain_heartbeat(), b"hello");
    assert_eq!(message_text(b"hi"), "hi");
    assert_eq!(message_text(&[0xFF, 0xFE]), "<invalid utf8>");
}

#[test]
fn reboot_after_a_swap() {
    let features = Features { board: false, sensor: false, rs422: false, gps_log: false };
    let mut n = Node::new(1, features, false, 0);
    assert!(!n.reboot_due(0));
    // A transfer that failed its check changes nothing.
    n.transfer_finished(false, 0);
    assert!(!n.reboot_due(30_000));
    // The clock wraps before the reboot.
    n.transfer_finished(true, u32::MAX - 9_999);
    assert!(!n.reboot_due(u32::MAX - 9_999));
    assert!(!n.reboot_due(19_999));
    assert!(n.reboot_due(20_000));
    n.begin_round(false);
    n.next(20_001);
    n.transfer_finished(false, 20_001);
    assert!(n.reboot_due(20_001));
}
