use sx1262_mesh_rs::rs422::{
    crc16, soil_reading, LinkRead, LinkStep, Rs422, Rs422Error, SoilReading,
};
use sx1262_mesh_rs::sensors::{
    read_accel, read_bme_cal_first, read_bme_cal_second, read_bme_raw, read_high_nibble, read_mcp,
    read_scd41, read_sht, sensirion_crc, AccelReading, BaroReading, BmeCal, BmeReading, BusOp,
    Found, LightningEvent, McpReading, Readings, Scd41Reading, Sensors, ShtReading, Stage,
};

#[test]
fn modbus_crc_check_value() {
    assert_eq!(crc16(b"123456789"), 0x4B37);
}

fn respond(link: &mut Rs422, bytes: &[u8]) -> LinkStep {
    let mut step = LinkStep::ReadByte;
    for &b in bytes {
        assert!(matches!(step, LinkStep::ReadByte));
        step = link.read_byte(LinkRead::Byte(b), 0);
    }
    step
}

fn started() -> Rs422 {
    let mut link = Rs422::new();
    assert!(matches!(link.read_soil(), LinkStep::ClearErrors));
    assert!(matches!(link.cleared(), LinkStep::ReadByte));
    // Stale bytes are discarded.
    assert!(matches!(link.read_byte(LinkRead::Byte(0x55), 0), LinkStep::ReadByte));
    match link.read_byte(LinkRead::Nothing, 0) {
        LinkStep::Write(req) => assert_eq!(req, [0x01, 0x03, 0, 0, 0, 2, 0xC4, 0x0B]),
        _ => panic!("no request"),
    }
    assert!(matches!(link.written(true, 1000), LinkStep::ReadByte));
    link
}

fn frame(body: &[u8]) -> Vec<u8> {
    let mut f = body.to_vec();
    f.extend_from_slice(&crc16(body).to_le_bytes());
    f
}

#[test]
fn soil_probe_reading() {
    let mut link = started();
    let f = frame(&[0x01, 0x03, 0x04, 0x01, 0xE6, 0xFF, 0x9F]);
    match respond(&mut link, &f) {
        LinkStep::Done(Ok(regs)) => {
            assert_eq!(regs, vec![486, 0xFF9F]);
            assert_eq!(
                soil_reading(&regs),
                SoilReading { moisture_pct_x10: 486, temp_c_x10: -97 }
            );
        }
        _ => panic!("no registers"),
    }
}

fn error_of(step: LinkStep) -> Rs422Error {
    match step {
        LinkStep::Done(Err(e)) => e,
        _ => panic!("no error"),
    }
}

#[test]
fn soil_probe_failures() {
    let good = frame(&[0x01, 0x03, 0x04, 0x01, 0xE6, 0xFF, 0x9F]);
    for at in 0..7 {
        let mut bad = good.clone();
        bad[at] ^= 0x04;
        assert_eq!(error_of(respond(&mut started(), &bad)), Rs422Error::Crc);
    }
    let f = frame(&[0x02, 0x03, 0x04, 0, 0, 0, 0]);
    assert_eq!(error_of(respond(&mut started(), &f)), Rs422Error::Malformed);
    let f = frame(&[0x01, 0x04, 0x04, 0, 0, 0, 0]);
    assert_eq!(error_of(respond(&mut started(), &f)), Rs422Error::Malformed);
    let f = frame(&[0x01, 0x03, 0x06, 0, 0, 0, 0]);
    assert_eq!(error_of(respond(&mut started(), &f)), Rs422Error::Malformed);
    // An exception is complete after 5 bytes.
    let f = frame(&[0x01, 0x83, 0x02]);
    assert_eq!(error_of(respond(&mut started(), &f)), Rs422Error::Exception(2));
    let mut link = started();
    assert!(matches!(link.read_byte(LinkRead::Nothing, 1200), LinkStep::ReadByte));
    assert_eq!(error_of(link.read_byte(LinkRead::Nothing, 1201)), Rs422Error::Timeout);
    let mut link = started();
    assert_eq!(error_of(link.read_byte(LinkRead::Error, 0)), Rs422Error::Uart);
    let mut link = Rs422::new();
    link.modbus_read_holding(9, 0x1234, 16, 50);
    link.cleared();
    match link.read_byte(LinkRead::Error, 0) {
        LinkStep::Write(req) => assert_eq!(&req[..6], &[9, 3, 0x12, 0x34, 0, 16]),
        _ => panic!("no request"),
    }
    assert_eq!(error_of(link.written(false, 0)), Rs422Error::Uart);
}

#[test]
fn response_in_pieces() {
    // Waiting in between changes nothing, and nothing is read past the end.
    let mut link = started();
    let f = frame(&[0x01, 0x03, 0x04, 0x00, 0x07, 0x01, 0x00]);
    for &b in &f[..8] {
        assert!(matches!(link.read_byte(LinkRead::Byte(b), 0), LinkStep::ReadByte));
        assert!(matches!(link.read_byte(LinkRead::Nothing, 1200), LinkStep::ReadByte));
    }
    assert!(matches!(
        link.read_byte(LinkRead::Byte(f[8]), 5000),
        LinkStep::Done(Ok(regs)) if regs == vec![7, 256]
    ));
    // 0x83 in another place is data.
    let f = frame(&[0x01, 0x03, 0x04, 0x83, 0x83, 0x83, 0x83]);
    assert!(matches!(
        respond(&mut started(), &f),
        LinkStep::Done(Ok(regs)) if regs == vec![0x8383, 0x8383]
    ));
    // An exception with a wrong CRC, or of another slave, is none.
    let mut f = frame(&[0x01, 0x83, 0x02]);
    f[2] = 0x03;
    assert_eq!(error_of(respond(&mut started(), &f)), Rs422Error::Crc);
    let f = frame(&[0x02, 0x83, 0x02]);
    assert_eq!(error_of(respond(&mut started(), &f)), Rs422Error::Malformed);
}

#[test]
fn sensirion_crc_example() {
    assert_eq!(sensirion_crc(&[0xBE, 0xEF]), 0x92);
}

fn words(ws: &[u16]) -> Vec<u8> {
    let mut d = Vec::new();
    for w in ws {
        let b = w.to_be_bytes();
        d.extend_from_slice(&b);
        d.push(sensirion_crc(&b));
    }
    d
}

#[test]
fn conversions() {
    assert_eq!(
        read_accel(&[0x00, 0x01, 0xFF, 0xFF, 0x00, 0x80]),
        AccelReading { x_mg: 998, y_mg: -3, z_mg: -127795 }
    );
    assert_eq!(
        read_scd41(&words(&[500, 0x6667, 0x5EB9])),
        Scd41Reading { co2_ppm: 500, temp_c_x100: 2500, hum_pct_x100: 3700 }
    );
    assert_eq!(
        read_scd41(&words(&[1, 0, 65535])),
        Scd41Reading { co2_ppm: 1, temp_c_x100: -4500, hum_pct_x100: 10000 }
    );
    assert_eq!(
        read_sht(&words(&[0xFFFF, 0])),
        ShtReading { temp_c_x100: 13000, hum_pct_x100: 0 }
    );
    assert_eq!(
        read_sht(&words(&[0, 0xFFFF])),
        ShtReading { temp_c_x100: -4500, hum_pct_x100: 10000 }
    );
    assert_eq!(read_sht(&words(&[0, 32768])).hum_pct_x100, 5650);
    // 25.25 C with the alert flags set, and -0.0625 C.
    assert_eq!(read_mcp(&[0xC1, 0x94]), McpReading { temp_c_x100: 2525 });
    assert_eq!(read_mcp(&[0x1F, 0xFF]), McpReading { temp_c_x100: -6 });
    assert_eq!(read_high_nibble(0x7F), 7);
    assert_eq!(read_high_nibble(0xF0), -1);
    assert_eq!(read_high_nibble(0x80), -8);
}

#[test]
fn bme_blocks() {
    let c1: Vec<u8> = (0..25).map(|i| 0x70 + i as u8).collect();
    let c2: Vec<u8> = (0..16).map(|i| 0x8F - i as u8).collect();
    let cal = read_bme_cal_second(&read_bme_cal_first(&BmeCal::default(), &c1), &c2);
    assert_eq!(cal.t2, 0x7271);
    assert_eq!(cal.t3, 0x73);
    assert_eq!(cal.p1, 0x7675);
    assert_eq!(cal.p6, -128);
    assert_eq!(cal.p7, 0x7F);
    assert_eq!(cal.p8, i16::from_le_bytes([0x83, 0x84]));
    assert_eq!(cal.p10, 0x87);
    assert_eq!(cal.t1, 0x8687);
    assert_eq!(cal.h1, (0x8D << 4) | 0x0E);
    assert_eq!(cal.h2, (0x8F << 4) | 0x08);
    assert_eq!(cal.h6, 0x89);
    assert_eq!(cal.g2, i16::from_le_bytes([0x85, 0x84]));
    let mut f = [0u8; 15];
    f[2..10].copy_from_slice(&[0x12, 0x34, 0x5F, 0x80, 0x01, 0x2F, 0xAB, 0xCD]);
    f[13] = 0xFF;
    f[14] = 0xA7;
    let raw = read_bme_raw(&f);
    assert_eq!(raw.press_adc, 0x12345);
    assert_eq!(raw.temp_adc, 0x80012);
    assert_eq!(raw.hum_adc, 0xABCD);
    assert_eq!(raw.gas_adc, 0x3FE);
    assert_eq!(raw.gas_range, 7);
    assert!(raw.gas_valid);
}

/// Answers a transaction: `None` fails it.
fn probe_with(answer: impl Fn(&BusOp) -> Option<Vec<u8>>) -> (Sensors, Vec<BusOp>) {
    let (mut s, mut op) = Sensors::probe();
    let mut ops = Vec::new();
    while op != BusOp::Done {
        ops.push(op);
        let reply = match op {
            BusOp::Delay { .. } => Some(Vec::new()),
            BusOp::HeaterCode { target_c, ambient_c } => {
                assert_eq!((target_c, ambient_c), (320, 25));
                Some(vec![0x77])
            }
            _ => answer(&op),
        };
        op = s.probed(reply.as_deref());
    }
    (s, ops)
}

#[test]
fn empty_bus() {
    let (s, ops) = probe_with(|_| None);
    assert_eq!(s.found, Found::default());
    assert_eq!(s.stage, Stage::Idle);
    // 2 chip ids, 2 ADXL, SCD41, SHT45, 8 MCP9808, 3 AS3935, 2 BMV080.
    assert_eq!(ops.len(), 19);
}

fn full_bus(op: &BusOp) -> Option<Vec<u8>> {
    match *op {
        BusOp::WriteRead { addr: 0x76, reg: 0xD0, .. } => Some(vec![0x58]),
        BusOp::WriteRead { addr: 0x77, reg: 0xD0, .. } => Some(vec![0x61]),
        BusOp::WriteRead { addr: 0x1D, reg: 0x00, .. } => Some(vec![0xE5]),
        BusOp::WriteRead { addr: 0x53, .. } => None,
        BusOp::WriteRead { addr: 0x1A, reg: 0x06, .. } => Some(vec![0x00, 0x54]),
        BusOp::WriteRead { addr: 0x1A, reg: 0x07, .. } => Some(vec![0x04, 0x00]),
        BusOp::WriteRead { addr: 0x18..=0x1F, .. } => None,
        BusOp::WriteRead { addr: 0x03, .. } => None,
        BusOp::WriteRead { len, .. } => Some(vec![0; len]),
        BusOp::Read { addr: 0x62, len: 9 } => Some(words(&[1, 2, 3])),
        BusOp::Read { addr: 0x44, .. } => Some(words(&[4, 5])),
        BusOp::Read { addr: 0x57, .. } => None,
        BusOp::Read { len, .. } => Some(vec![0; len]),
        _ => Some(Vec::new()),
    }
}

#[test]
fn everything_on_the_bus() {
    let (s, ops) = probe_with(full_bus);
    assert_eq!(
        s.found,
        Found {
            bme680: Some(0x77),
            bmp280: Some(0x76),
            scd41: true,
            sht45: true,
            mcp9808: Some(0x1A),
            adxl345: Some(0x1D),
            as3935: Some(0x02),
            bmv080: Some(0x56),
        }
    );
    assert!(ops.contains(&BusOp::Write2 { addr: 0x77, first: 0x5A, second: 0x77 }));
    assert!(ops.contains(&BusOp::Write2 { addr: 0x62, first: 0x21, second: 0xB1 }));
}

#[test]
fn unconfigurable_bme_is_not_found() {
    let (s, _) = probe_with(|op| match *op {
        BusOp::WriteRead { addr: 0x76, reg: 0xD0, .. } => Some(vec![0x61]),
        BusOp::Write2 { addr: 0x76, first: 0xE0, .. } => Some(Vec::new()),
        BusOp::WriteRead { addr: 0x76, reg: 0x89, .. } => Some(vec![0; 25]),
        _ => None,
    });
    assert_eq!(s.found, Found::default());
}

#[test]
fn sweep_of_everything() {
    let (mut s, _) = probe_with(full_bus);
    let bme = BmeReading { temp_c_x100: 2101, press_pa: 99000, hum_pct_x100: 4000, gas_ohm: 7 };
    let baro = BaroReading { temp_c_x100: 2050, press_pa: 98990 };
    let mut polls = 0;
    let mut now = 0;
    let mut op = s.read();
    while op != BusOp::Done {
        now += 10;
        op = match op {
            BusOp::CompensateBme { bme: raw } => {
                assert!(raw.gas_valid);
                s.bme_compensated(bme)
            }
            BusOp::CompensateBmp { .. } => s.bmp_compensated(baro),
            BusOp::WriteRead { addr: 0x77, reg: 0x1D, len: 1 } => {
                polls += 1;
                s.answered(Some(&[if polls < 4 { 0x20 } else { 0x80 }]), now)
            }
            BusOp::WriteRead { addr: 0x77, reg: 0x1D, .. } => {
                let mut d = [0; 15];
                d[14] = 0x20;
                s.answered(Some(&d), now)
            }
            BusOp::WriteRead { addr: 0x76, reg: 0xF3, .. } => s.answered(Some(&[0xF7]), now),
            BusOp::Read { addr: 0x62, len: 3 } => s.answered(Some(&words(&[0x8001])), now),
            BusOp::Read { addr: 0x62, .. } => s.answered(Some(&words(&[450, 0, 0])), now),
            BusOp::Read { addr: 0x44, .. } => s.answered(Some(&words(&[0, 0])), now),
            BusOp::WriteRead { addr: 0x1A, .. } => s.answered(Some(&[0x01, 0x90]), now),
            BusOp::WriteRead { reg: 0x32, .. } => s.answered(Some(&[10, 0, 0, 0, 0, 0]), now),
            BusOp::WriteRead { reg: 0x03, .. } => s.answered(Some(&[0xF8]), now),
            BusOp::WriteRead { reg: 0x07, .. } => s.answered(Some(&[0xC5]), now),
            BusOp::WriteRead { len, .. } => s.answered(Some(&vec![0; len]), now),
            _ => s.answered(Some(&[]), now),
        };
    }
    assert_eq!(polls, 4);
    assert_eq!(
        s.readings,
        Readings {
            bme: Some(bme),
            co2: Some(Scd41Reading { co2_ppm: 450, temp_c_x100: -4500, hum_pct_x100: 0 }),
            sht: Some(ShtReading { temp_c_x100: -4500, hum_pct_x100: 0 }),
            mcp: Some(McpReading { temp_c_x100: 2500 }),
            baro: Some(baro),
            accel: Some(AccelReading { x_mg: 39, y_mg: 0, z_mg: 0 }),
            lightning: Some(LightningEvent { distance_km: 5, int_src: 8 }),
        }
    );
}

/// A sweep in which only the BME680 is there, with this last byte of its data.
fn bme_sweep(last: u8, reading: BmeReading) -> Readings {
    let (mut s, _) = probe_with(|op| match *op {
        BusOp::WriteRead { addr: 0x77, reg: 0xD0, .. } => Some(vec![0x61]),
        BusOp::WriteRead { addr: 0x77, len, .. } => Some(vec![0; len]),
        BusOp::Write2 { addr: 0x77, .. } => Some(Vec::new()),
        _ => None,
    });
    assert_eq!(s.found, Found { bme680: Some(0x77), ..Found::default() });
    let mut op = s.read();
    while op != BusOp::Done {
        op = match op {
            BusOp::CompensateBme { .. } => s.bme_compensated(reading),
            BusOp::WriteRead { len: 1, .. } => s.answered(Some(&[0x80]), 0),
            BusOp::WriteRead { .. } => {
                let mut d = [0; 15];
                d[14] = last;
                s.answered(Some(&d), 0)
            }
            _ => s.answered(Some(&[]), 0),
        };
    }
    s.readings
}

#[test]
fn compensated_measurement_is_held() {
    let raw = BmeReading { temp_c_x100: 1, press_pa: 2, hum_pct_x100: 10001, gas_ohm: 3 };
    let held = BmeReading { hum_pct_x100: 10000, ..raw };
    assert_eq!(bme_sweep(0x2F, raw), Readings { bme: Some(held), ..Readings::default() });
    // No valid gas measurement.
    let held = BmeReading { gas_ohm: 0, ..held };
    assert_eq!(bme_sweep(0xDF, raw), Readings { bme: Some(held), ..Readings::default() });
    let fair = BmeReading { hum_pct_x100: 10000, ..raw };
    assert_eq!(bme_sweep(0x20, fair).bme, Some(fair));
}

#[test]
fn first_address_is_taken() {
    // A sensor of each kind at all of its addresses.
    let (s, ops) = probe_with(|op| match *op {
        BusOp::WriteRead { addr: 0x53 | 0x1D, reg: 0x00, .. } => Some(vec![0xE5]),
        BusOp::WriteRead { addr: 0x76 | 0x77, reg: 0xD0, .. } => Some(vec![0x58]),
        BusOp::WriteRead { addr: 0x18..=0x1F, reg: 0x06, .. } => Some(vec![0x00, 0x54]),
        BusOp::WriteRead { addr: 0x18, reg: 0x07, .. } => Some(vec![0x05, 0x00]),
        BusOp::WriteRead { addr: 0x18..=0x1F, reg: 0x07, .. } => Some(vec![0x04, 0x00]),
        BusOp::WriteRead { len, .. } => Some(vec![0; len]),
        BusOp::Read { addr: 0x62 | 0x44, .. } => None,
        BusOp::Read { len, .. } => Some(vec![0; len]),
        _ => Some(Vec::new()),
    });
    assert_eq!(
        s.found,
        Found {
            bmp280: Some(0x76),
            // The one at 0x18 is another device.
            mcp9808: Some(0x19),
            adxl345: Some(0x53),
            as3935: Some(0x03),
            bmv080: Some(0x57),
            ..Found::default()
        }
    );
    assert!(!ops.contains(&BusOp::WriteRead { addr: 0x1D, reg: 0x00, len: 1 }));
    assert!(!ops.contains(&BusOp::WriteRead { addr: 0x02, reg: 0x00, len: 1 }));
    // A BMP280 whose calibration cannot be read leaves the other address free.
    let (s, _) = probe_with(|op| match *op {
        BusOp::WriteRead { reg: 0xD0, .. } => Some(vec![0x58]),
        BusOp::WriteRead { addr: 0x77, reg: 0x88, .. } => Some(vec![0; 24]),
        _ => None,
    });
    assert_eq!(s.found, Found { bmp280: Some(0x77), ..Found::default() });
}

#[test]
fn sweep_without_lightning() {
    let (mut s, _) = probe_with(|op| match *op {
        BusOp::WriteRead { addr: 0x01, .. } => Some(vec![0]),
        _ => None,
    });
    assert_eq!(s.found, Found { as3935: Some(0x01), ..Found::default() });
    assert!(matches!(s.read(), BusOp::WriteRead { addr: 0x01, reg: 0x03, len: 1 }));
    assert_eq!(s.answered(Some(&[0xF0]), 0), BusOp::Done);
    assert_eq!(s.readings, Readings::default());
}

#[test]
fn sweep_of_failing_sensors() {
    let (mut s, _) = probe_with(full_bus);
    let mut op = s.read();
    let mut now = 0;
    while op != BusOp::Done {
        now += 100;
        op = match op {
            // The BME680 never finishes.
            BusOp::WriteRead { addr: 0x77, .. } => s.answered(Some(&[0]), now),
            BusOp::Write2 { addr: 0x77, .. } => s.answered(Some(&[]), now),
            BusOp::Delay { .. } => s.answered(Some(&[]), now),
            // The SCD41 has nothing ready.
            BusOp::Write2 { addr: 0x62, .. } => s.answered(Some(&[]), now),
            BusOp::Read { addr: 0x62, len: 3 } => s.answered(Some(&words(&[0x8000])), now),
            // The SHT45's answer is damaged.
            BusOp::Write1 { .. } => s.answered(Some(&[]), now),
            BusOp::Read { addr: 0x44, .. } => s.answered(Some(&[0, 0, 0, 0, 0, 0]), now),
            // The lightning sensor has an event but loses its distance.
            BusOp::WriteRead { reg: 0x03, .. } => s.answered(Some(&[0x01]), now),
            _ => s.answered(None, now),
        };
    }
    assert_eq!(
        s.readings,
        Readings {
            lightning: Some(LightningEvent { distance_km: 63, int_src: 1 }),
            ..Readings::default()
        }
    );
}
