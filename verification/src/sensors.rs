//! I2C environmental sensor suite.
//!
//! All sensors hang off the module's single exposed I2C bus, shared with the
//! SSD1306 display.
//!
//! | Sensor    | Address(es) | Measures                        | Support        |
//! |-----------|-------------|---------------------------------|----------------|
//! | BME680    | 0x76, 0x77  | temp, pressure, humidity, gas   | full           |
//! | BMP280    | 0x76, 0x77  | temp, pressure                  | full           |
//! | SCD41     | 0x62        | CO2, temp, humidity             | full           |
//! | SHT45     | 0x44        | temp, humidity                  | full           |
//! | MCP9808   | 0x18..0x1F  | temp                            | full           |
//! | ADXL345/3 | 0x53, 0x1D  | acceleration                    | full           |
//! | AS3935    | 0x03..0x01  | lightning                       | poll, no IRQ   |
//! | BMV080    | 0x57, 0x56  | particulate matter              | presence only  |
//!
//! The BMV080's register protocol is only documented inside Bosch's
//! closed-source vendor library, so it is detected but not read.
//! The AS3935 interrupt line is not wired to the module; events are
//! polled from INT_SRC, which is best-effort (the datasheet wants the
//! IRQ serviced promptly).
//!
//! Everything on the bus is probed at startup; absent sensors are
//! skipped forever after. The suite never touches the bus: it says which
//! transaction comes next, and is told what came of it. The float
//! compensation of the two Bosch sensors is the caller's.

pub mod probe;
pub mod probe_run;
pub mod sweep;

use vstd::prelude::*;
use crate::bytes::{i16_from_bits, i16_of, u16_from, u16_of};
use crate::crc::{crc8_of, crc8_run};

verus! {

/// A BME680 measurement.
#[derive(Debug, Clone, Copy, PartialEq, Eq, Structural)]
pub struct BmeReading {
    /// Air temperature, centidegrees C.
    pub temp_c_x100: i32,
    /// Barometric pressure, Pa.
    pub press_pa: u32,
    /// Relative humidity, centipercent.
    pub hum_pct_x100: u32,
    /// Gas sensor resistance, Ohm (air quality proxy: lower = more VOCs).
    pub gas_ohm: u32,
}

/// A BMP280 measurement.
#[derive(Debug, Clone, Copy, PartialEq, Eq, Structural)]
pub struct BaroReading {
    /// Centidegrees C.
    pub temp_c_x100: i32,
    /// Barometric pressure, Pa.
    pub press_pa: u32,
}

/// An SCD41 measurement.
#[derive(Debug, Clone, Copy, PartialEq, Eq, Structural)]
pub struct Scd41Reading {
    pub co2_ppm: u16,
    /// Centidegrees C.
    pub temp_c_x100: i32,
    /// Centipercent RH.
    pub hum_pct_x100: u32,
}

/// An SHT45 measurement.
#[derive(Debug, Clone, Copy, PartialEq, Eq, Structural)]
pub struct ShtReading {
    /// Centidegrees C.
    pub temp_c_x100: i32,
    /// Centipercent RH.
    pub hum_pct_x100: u32,
}

/// An MCP9808 measurement.
#[derive(Debug, Clone, Copy, PartialEq, Eq, Structural)]
pub struct McpReading {
    /// Centidegrees C.
    pub temp_c_x100: i32,
}

/// An ADXL345 measurement.
#[derive(Debug, Clone, Copy, PartialEq, Eq, Structural)]
pub struct AccelReading {
    /// Milli-g per axis.
    pub x_mg: i32,
    pub y_mg: i32,
    pub z_mg: i32,
}

/// An AS3935 event.
#[derive(Debug, Clone, Copy, PartialEq, Eq, Structural)]
pub struct LightningEvent {
    /// Estimated storm head distance in km; 63 = out of range.
    pub distance_km: u8,
    /// Raw INT_SRC bits (0x08 lightning, 0x04 disturber, 0x01 noise).
    pub int_src: u8,
}

/// One sweep of everything that was found; absent/failed sensors are None.
#[derive(Debug, Clone, Copy, PartialEq, Eq, Structural)]
pub struct Readings {
    pub bme: Option<BmeReading>,
    pub co2: Option<Scd41Reading>,
    pub sht: Option<ShtReading>,
    pub mcp: Option<McpReading>,
    pub baro: Option<BaroReading>,
    pub accel: Option<AccelReading>,
    pub lightning: Option<LightningEvent>,
}

/// No readings.
pub open spec fn no_readings() -> Readings {
    Readings {
        bme: None,
        co2: None,
        sht: None,
        mcp: None,
        baro: None,
        accel: None,
        lightning: None,
    }
}

impl Default for Readings {
    fn default() -> (r: Readings)
        ensures
            r == no_readings(),
    {
        Readings {
            bme: None,
            co2: None,
            sht: None,
            mcp: None,
            baro: None,
            accel: None,
            lightning: None,
        }
    }
}

/// Which devices answered the startup probe.
#[derive(Debug, Clone, Copy, PartialEq, Eq, Structural)]
pub struct Found {
    pub bme680: Option<u8>,
    pub bmp280: Option<u8>,
    pub scd41: bool,
    pub sht45: bool,
    pub mcp9808: Option<u8>,
    pub adxl345: Option<u8>,
    pub as3935: Option<u8>,
    pub bmv080: Option<u8>,
}

/// Nothing found.
pub open spec fn none_found() -> Found {
    Found {
        bme680: None,
        bmp280: None,
        scd41: false,
        sht45: false,
        mcp9808: None,
        adxl345: None,
        as3935: None,
        bmv080: None,
    }
}

impl Default for Found {
    fn default() -> (r: Found)
        ensures
            r == none_found(),
    {
        Found {
            bme680: None,
            bmp280: None,
            scd41: false,
            sht45: false,
            mcp9808: None,
            adxl345: None,
            as3935: None,
            bmv080: None,
        }
    }
}

/// Calibration of a BME680.
#[derive(Debug, Clone, Copy, PartialEq, Eq, Structural)]
pub struct BmeCal {
    pub t1: u16,
    pub t2: i16,
    pub t3: i8,
    pub p1: u16,
    pub p2: i16,
    pub p3: i8,
    pub p4: i16,
    pub p5: i16,
    pub p6: i8,
    pub p7: i8,
    pub p8: i16,
    pub p9: i16,
    pub p10: u8,
    pub h1: u16,
    pub h2: u16,
    pub h3: i8,
    pub h4: i8,
    pub h5: i8,
    pub h6: u8,
    pub h7: i8,
    pub g1: i8,
    pub g2: i16,
    pub g3: i8,
    pub res_heat_range: u8,
    pub res_heat_val: i8,
    pub range_sw_err: i8,
}

/// All zero.
pub open spec fn no_bme_cal() -> BmeCal {
    BmeCal {
        t1: 0,
        t2: 0,
        t3: 0,
        p1: 0,
        p2: 0,
        p3: 0,
        p4: 0,
        p5: 0,
        p6: 0,
        p7: 0,
        p8: 0,
        p9: 0,
        p10: 0,
        h1: 0,
        h2: 0,
        h3: 0,
        h4: 0,
        h5: 0,
        h6: 0,
        h7: 0,
        g1: 0,
        g2: 0,
        g3: 0,
        res_heat_range: 0,
        res_heat_val: 0,
        range_sw_err: 0,
    }
}

impl Default for BmeCal {
    fn default() -> (r: BmeCal)
        ensures
            r == no_bme_cal(),
    {
        BmeCal {
            t1: 0,
            t2: 0,
            t3: 0,
            p1: 0,
            p2: 0,
            p3: 0,
            p4: 0,
            p5: 0,
            p6: 0,
            p7: 0,
            p8: 0,
            p9: 0,
            p10: 0,
            h1: 0,
            h2: 0,
            h3: 0,
            h4: 0,
            h5: 0,
            h6: 0,
            h7: 0,
            g1: 0,
            g2: 0,
            g3: 0,
            res_heat_range: 0,
            res_heat_val: 0,
            range_sw_err: 0,
        }
    }
}

/// Calibration of a BMP280.
#[derive(Debug, Clone, Copy, PartialEq, Eq, Structural)]
pub struct BmpCal {
    pub t1: u16,
    pub t2: i16,
    pub t3: i16,
    pub p1: u16,
    pub p2: i16,
    pub p3: i16,
    pub p4: i16,
    pub p5: i16,
    pub p6: i16,
    pub p7: i16,
    pub p8: i16,
    pub p9: i16,
}

/// All zero.
pub open spec fn no_bmp_cal() -> BmpCal {
    BmpCal {
        t1: 0,
        t2: 0,
        t3: 0,
        p1: 0,
        p2: 0,
        p3: 0,
        p4: 0,
        p5: 0,
        p6: 0,
        p7: 0,
        p8: 0,
        p9: 0,
    }
}

impl Default for BmpCal {
    fn default() -> (r: BmpCal)
        ensures
            r == no_bmp_cal(),
    {
        BmpCal {
            t1: 0,
            t2: 0,
            t3: 0,
            p1: 0,
            p2: 0,
            p3: 0,
            p4: 0,
            p5: 0,
            p6: 0,
            p7: 0,
            p8: 0,
            p9: 0,
        }
    }
}

/// A BME680 measurement before compensation.
#[derive(Debug, Clone, Copy, PartialEq, Eq, Structural)]
pub struct BmeRaw {
    pub press_adc: u32,
    pub temp_adc: u32,
    pub hum_adc: u32,
    pub gas_adc: u32,
    pub gas_range: u8,
    pub gas_valid: bool,
}

/// A BMP280 measurement before compensation.
#[derive(Debug, Clone, Copy, PartialEq, Eq, Structural)]
pub struct BmpRaw {
    pub press_adc: u32,
    pub temp_adc: u32,
}

/// A byte read as a signed number.
pub open spec fn i8_of(b: u8) -> i8 {
    if b < 128 {
        b as i8
    } else {
        (b - 256) as i8
    }
}

/// A byte read as a signed number.
pub fn i8_from(b: u8) -> (r: i8)
    ensures
        r == i8_of(b),
{
    if b < 128 {
        b as i8
    } else {
        (b as i16 - 256) as i8
    }
}

/// Two bytes, low one first, read as a signed number.
pub open spec fn i16le(lo: u8, hi: u8) -> i16 {
    i16_of(u16_of(lo, hi))
}

fn i16_le_from(lo: u8, hi: u8) -> (r: i16)
    ensures
        r == i16le(lo, hi),
{
    i16_from_bits(u16_from(lo, hi))
}

/// The calibration after the first block, of 25 bytes from register 0x89.
pub open spec fn bme_cal_first(cal: BmeCal, c1: Seq<u8>) -> BmeCal {
    BmeCal {
        t2: i16le(c1[1], c1[2]),
        t3: i8_of(c1[3]),
        p1: u16_of(c1[5], c1[6]),
        p2: i16le(c1[7], c1[8]),
        p3: i8_of(c1[9]),
        p4: i16le(c1[11], c1[12]),
        p5: i16le(c1[13], c1[14]),
        p6: i8_of(c1[16]),
        p7: i8_of(c1[15]),
        p8: i16le(c1[19], c1[20]),
        p9: i16le(c1[21], c1[22]),
        p10: c1[23],
        ..cal
    }
}

/// The calibration after the second block, of 16 bytes from register 0xE1.
pub open spec fn bme_cal_second(cal: BmeCal, c2: Seq<u8>) -> BmeCal {
    BmeCal {
        t1: u16_of(c2[8], c2[9]),
        h1: (c2[2] * 16 + c2[1] % 16) as u16,
        h2: (c2[0] * 16 + c2[1] / 16) as u16,
        h3: i8_of(c2[3]),
        h4: i8_of(c2[4]),
        h5: i8_of(c2[5]),
        h6: c2[6],
        h7: i8_of(c2[7]),
        g1: i8_of(c2[12]),
        g2: i16le(c2[10], c2[11]),
        g3: i8_of(c2[13]),
        ..cal
    }
}

/// The upper four bits of a byte, read as a signed number.
pub open spec fn high_nibble(b: u8) -> i8 {
    if b < 128 {
        (b / 16) as i8
    } else {
        (b / 16 - 16) as i8
    }
}

/// The calibration of a BMP280, of 24 bytes from register 0x88.
pub open spec fn bmp_cal_of(c: Seq<u8>) -> BmpCal {
    BmpCal {
        t1: u16_of(c[0], c[1]),
        t2: i16le(c[2], c[3]),
        t3: i16le(c[4], c[5]),
        p1: u16_of(c[6], c[7]),
        p2: i16le(c[8], c[9]),
        p3: i16le(c[10], c[11]),
        p4: i16le(c[12], c[13]),
        p5: i16le(c[14], c[15]),
        p6: i16le(c[16], c[17]),
        p7: i16le(c[18], c[19]),
        p8: i16le(c[20], c[21]),
        p9: i16le(c[22], c[23]),
    }
}

/// A 20-bit ADC value, highest bits first.
pub open spec fn adc20(b0: u8, b1: u8, b2: u8) -> u32 {
    (b0 * 4096 + b1 * 16 + b2 / 16) as u32
}

/// The measurement in a BME680's 15 bytes from register 0x1D.
pub open spec fn bme_raw_of(f: Seq<u8>) -> BmeRaw {
    BmeRaw {
        press_adc: adc20(f[2], f[3], f[4]),
        temp_adc: adc20(f[5], f[6], f[7]),
        hum_adc: u16_of(f[9], f[8]) as u32,
        gas_adc: (f[13] * 4 + f[14] / 64) as u32,
        gas_range: (f[14] % 16) as u8,
        gas_valid: f[14] / 32 % 2 == 1,
    }
}

/// The measurement in a BMP280's 6 bytes from register 0xF7.
pub open spec fn bmp_raw_of(f: Seq<u8>) -> BmpRaw {
    BmpRaw { press_adc: adc20(f[0], f[1], f[2]), temp_adc: adc20(f[3], f[4], f[5]) }
}

/// `a / d`, rounded towards zero.
pub open spec fn toward_zero(a: int, d: int) -> int {
    if a >= 0 {
        a / d
    } else {
        -((-a) / d)
    }
}

/// One axis of an ADXL345 in full-resolution mode: 3.9 mg/LSB.
pub open spec fn axis_mg(lo: u8, hi: u8) -> int {
    toward_zero(i16le(lo, hi) * 39, 10)
}

/// The acceleration in an ADXL345's 6 data bytes.
pub open spec fn accel_of(d: Seq<u8>) -> AccelReading {
    AccelReading {
        x_mg: axis_mg(d[0], d[1]) as i32,
        y_mg: axis_mg(d[2], d[3]) as i32,
        z_mg: axis_mg(d[4], d[5]) as i32,
    }
}

/// Sensirion CRC-8 (poly 0x31, init 0xFF) of `data`.
pub open spec fn sensirion_check(data: Seq<u8>) -> u8 {
    crc8_of(0x31, 0xFF, data)
}

/// Sensirion CRC-8: poly 0x31, init 0xFF.
pub fn sensirion_crc(data: &[u8]) -> (r: u8)
    ensures
        r == sensirion_check(data@),
{
    crc8_run(0x31, 0xFF, data)
}

/// Every word of a Sensirion answer is followed by its CRC.
pub open spec fn words_check_out(d: Seq<u8>, words: int) -> bool {
    forall|i: int|
        0 <= i < words ==> sensirion_check(#[trigger] d.subrange(3 * i, 3 * i + 2)) == d[3 * i + 2]
}

/// The `i`th word of a Sensirion answer.
pub open spec fn word_at(d: Seq<u8>, i: int) -> u16 {
    u16_of(d[3 * i + 1], d[3 * i])
}

/// The words of an SCD41 measurement in physical units.
pub open spec fn scd41_of(d: Seq<u8>) -> Scd41Reading {
    Scd41Reading {
        co2_ppm: word_at(d, 0),
        temp_c_x100: (-4500 + 17500 * word_at(d, 1) / 65535) as i32,
        hum_pct_x100: (10000 * word_at(d, 2) / 65535) as u32,
    }
}

/// The words of an SHT45 measurement in physical units; the humidity formula
/// overshoots at both ends, so it is held to 0..100 %.
pub open spec fn sht_of(d: Seq<u8>) -> ShtReading {
    let hum = -600 + 12500 * word_at(d, 1) / 65535;
    ShtReading {
        temp_c_x100: (-4500 + 17500 * word_at(d, 0) / 65535) as i32,
        hum_pct_x100: (if hum < 0 {
            0
        } else if hum > 10000 {
            10000
        } else {
            hum
        }) as u32,
    }
}

/// The 13-bit two's complement temperature of an MCP9808, in sixteenths of a
/// degree.
pub open spec fn mcp_sixteenths(d: Seq<u8>) -> int {
    let bits = u16_of(d[1], d[0]) % 0x2000;
    if bits < 0x1000 {
        bits as int
    } else {
        bits - 0x2000
    }
}

/// The temperature register of an MCP9808 in physical units.
pub open spec fn mcp_of(d: Seq<u8>) -> McpReading {
    McpReading { temp_c_x100: toward_zero(mcp_sixteenths(d) * 25, 4) as i32 }
}

/// A transaction on the bus, or what else comes next.
#[derive(Debug, Clone, Copy, PartialEq, Eq, Structural)]
pub enum BusOp {
    /// Write one byte.
    Write1 { addr: u8, byte: u8 },
    /// Write two bytes.
    Write2 { addr: u8, first: u8, second: u8 },
    /// Read `len` bytes.
    Read { addr: u8, len: usize },
    /// Write one byte, then read `len` bytes.
    WriteRead { addr: u8, reg: u8, len: usize },
    /// Wait.
    Delay { ms: u32 },
    /// Compute the BME680's heater set-point register value.
    HeaterCode { target_c: i32, ambient_c: i32 },
    /// Compensate a BME680 measurement.
    CompensateBme { bme: BmeRaw },
    /// Compensate a BMP280 measurement.
    CompensateBmp { bmp: BmpRaw },
    /// There is nothing more to do.
    Done,
}

/// Where the suite is.
#[derive(Debug, Clone, Copy, PartialEq, Eq, Structural)]
pub enum Stage {
    Idle,
    // Probing
    ChipId { addr: u8 },
    BmeReset { addr: u8 },
    BmeResetWait { addr: u8 },
    BmeCalFirst { addr: u8 },
    BmeCalSecond { addr: u8 },
    BmeHeatRange { addr: u8 },
    BmeHeatVal { addr: u8 },
    BmeSwitchErr { addr: u8 },
    BmeHeater { addr: u8 },
    BmeHeaterSet { addr: u8 },
    BmeGasWait { addr: u8 },
    BmeRunGas { addr: u8 },
    BmpCal { addr: u8 },
    AdxlId { addr: u8 },
    AdxlFormat { addr: u8 },
    AdxlMeasure { addr: u8 },
    ScdSerialAsk,
    ScdSerialWait,
    ScdSerial,
    ScdStart,
    ScdStartWait,
    ShtSerialAsk,
    ShtSerialWait,
    ShtSerial,
    McpMaker { addr: u8 },
    McpDevice { addr: u8 },
    LightningId { addr: u8 },
    LightningPreset { addr: u8 },
    LightningTune { addr: u8 },
    LightningWait,
    BmvId { addr: u8 },
    // Reading
    BmeHumidity { addr: u8 },
    BmeForce { addr: u8 },
    BmeStatus { addr: u8, start: u32 },
    BmeStatusWait { addr: u8, start: u32 },
    BmeData { addr: u8 },
    BmeCompensate { gas_valid: bool },
    ScdReadyAsk,
    ScdReadyWait,
    ScdReady,
    ScdDataAsk,
    ScdDataWait,
    ScdData,
    ShtAsk,
    ShtWait,
    ShtData,
    McpData,
    BmpForce { addr: u8 },
    BmpStatus { addr: u8, start: u32 },
    BmpStatusWait { addr: u8, start: u32 },
    BmpData { addr: u8 },
    BmpCompensate,
    AccelData,
    LightningSource { addr: u8 },
    LightningDistance { int_src: u8 },
}

/// The sensor suite.
#[derive(Clone, Copy)]
pub struct Sensors {
    pub found: Found,
    pub bme_cal: BmeCal,
    pub bmp_cal: BmpCal,
    /// What the sweep under way has read so far, or the last one has.
    pub readings: Readings,
    pub stage: Stage,
    /// A BME680 has been seen, whether or not it could be configured.
    pub bme_seen: bool,
}

/// What was read, as the contracts speak of it; none where the transaction
/// failed.
pub open spec fn reply_bytes(reply: Option<&[u8]>) -> Option<Seq<u8>> {
    match reply {
        Some(d) => Some(d@),
        None => None,
    }
}

/// The bytes that an operation reads.
pub open spec fn op_len(op: BusOp) -> nat {
    match op {
        BusOp::Read { len, .. } => len as nat,
        BusOp::WriteRead { len, .. } => len as nat,
        BusOp::HeaterCode { .. } => 1,
        _ => 0,
    }
}

/// The calibration with the first block's values.
pub fn read_bme_cal_first(cal: &BmeCal, c1: &[u8]) -> (r: BmeCal)
    requires
        c1@.len() == 25,
    ensures
        r == bme_cal_first(*cal, c1@),
{
    BmeCal {
        t1: cal.t1,
        t2: i16_le_from(c1[1], c1[2]),
        t3: i8_from(c1[3]),
        p1: u16_from(c1[5], c1[6]),
        p2: i16_le_from(c1[7], c1[8]),
        p3: i8_from(c1[9]),
        p4: i16_le_from(c1[11], c1[12]),
        p5: i16_le_from(c1[13], c1[14]),
        p6: i8_from(c1[16]),
        p7: i8_from(c1[15]),
        p8: i16_le_from(c1[19], c1[20]),
        p9: i16_le_from(c1[21], c1[22]),
        p10: c1[23],
        h1: cal.h1,
        h2: cal.h2,
        h3: cal.h3,
        h4: cal.h4,
        h5: cal.h5,
        h6: cal.h6,
        h7: cal.h7,
        g1: cal.g1,
        g2: cal.g2,
        g3: cal.g3,
        res_heat_range: cal.res_heat_range,
        res_heat_val: cal.res_heat_val,
        range_sw_err: cal.range_sw_err,
    }
}

/// The calibration with the second block's values.
pub fn read_bme_cal_second(cal: &BmeCal, c2: &[u8]) -> (r: BmeCal)
    requires
        c2@.len() == 16,
    ensures
        r == bme_cal_second(*cal, c2@),
{
    BmeCal {
        t1: u16_from(c2[8], c2[9]),
        t2: cal.t2,
        t3: cal.t3,
        p1: cal.p1,
        p2: cal.p2,
        p3: cal.p3,
        p4: cal.p4,
        p5: cal.p5,
        p6: cal.p6,
        p7: cal.p7,
        p8: cal.p8,
        p9: cal.p9,
        p10: cal.p10,
        h1: c2[2] as u16 * 16 + c2[1] as u16 % 16,
        h2: c2[0] as u16 * 16 + c2[1] as u16 / 16,
        h3: i8_from(c2[3]),
        h4: i8_from(c2[4]),
        h5: i8_from(c2[5]),
        h6: c2[6],
        h7: i8_from(c2[7]),
        g1: i8_from(c2[12]),
        g2: i16_le_from(c2[10], c2[11]),
        g3: i8_from(c2[13]),
        res_heat_range: cal.res_heat_range,
        res_heat_val: cal.res_heat_val,
        range_sw_err: cal.range_sw_err,
    }
}

/// The calibration of a BMP280.
pub fn read_bmp_cal(c: &[u8]) -> (r: BmpCal)
    requires
        c@.len() == 24,
    ensures
        r == bmp_cal_of(c@),
{
    BmpCal {
        t1: u16_from(c[0], c[1]),
        t2: i16_le_from(c[2], c[3]),
        t3: i16_le_from(c[4], c[5]),
        p1: u16_from(c[6], c[7]),
        p2: i16_le_from(c[8], c[9]),
        p3: i16_le_from(c[10], c[11]),
        p4: i16_le_from(c[12], c[13]),
        p5: i16_le_from(c[14], c[15]),
        p6: i16_le_from(c[16], c[17]),
        p7: i16_le_from(c[18], c[19]),
        p8: i16_le_from(c[20], c[21]),
        p9: i16_le_from(c[22], c[23]),
    }
}

/// The upper four bits of a byte, read as a signed number.
pub fn read_high_nibble(b: u8) -> (r: i8)
    ensures
        r == high_nibble(b),
{
    if b < 128 {
        (b / 16) as i8
    } else {
        (b / 16) as i8 - 16
    }
}

fn read_adc20(b0: u8, b1: u8, b2: u8) -> (r: u32)
    ensures
        r == adc20(b0, b1, b2),
{
    b0 as u32 * 4096 + b1 as u32 * 16 + b2 as u32 / 16
}

/// The measurement in a BME680's 15 bytes from register 0x1D.
pub fn read_bme_raw(f: &[u8]) -> (r: BmeRaw)
    requires
        f@.len() == 15,
    ensures
        r == bme_raw_of(f@),
{
    BmeRaw {
        press_adc: read_adc20(f[2], f[3], f[4]),
        temp_adc: read_adc20(f[5], f[6], f[7]),
        hum_adc: u16_from(f[9], f[8]) as u32,
        gas_adc: f[13] as u32 * 4 + f[14] as u32 / 64,
        gas_range: f[14] % 16,
        gas_valid: f[14] / 32 % 2 == 1,
    }
}

/// The measurement in a BMP280's 6 bytes from register 0xF7.
pub fn read_bmp_raw(f: &[u8]) -> (r: BmpRaw)
    requires
        f@.len() == 6,
    ensures
        r == bmp_raw_of(f@),
{
    BmpRaw { press_adc: read_adc20(f[0], f[1], f[2]), temp_adc: read_adc20(f[3], f[4], f[5]) }
}

fn div_toward_zero(a: i32, d: i32) -> (r: i32)
    requires
        a > i32::MIN,
        d > 0,
    ensures
        r == toward_zero(a as int, d as int),
{
    proof {
        let m = if a >= 0 {
            a as int
        } else {
            -a
        };
        assert(0 <= m / (d as int) <= m) by (nonlinear_arith)
            requires
                m >= 0,
                d > 0,
        ;
    }
    if a >= 0 {
        (a as u32 / d as u32) as i32
    } else {
        -(((-a) as u32 / d as u32) as i32)
    }
}

/// The acceleration in an ADXL345's 6 data bytes.
pub fn read_accel(d: &[u8]) -> (r: AccelReading)
    requires
        d@.len() == 6,
    ensures
        r == accel_of(d@),
{
    AccelReading {
        x_mg: div_toward_zero(i16_le_from(d[0], d[1]) as i32 * 39, 10),
        y_mg: div_toward_zero(i16_le_from(d[2], d[3]) as i32 * 39, 10),
        z_mg: div_toward_zero(i16_le_from(d[4], d[5]) as i32 * 39, 10),
    }
}

/// Whether every word of a Sensirion answer is followed by its CRC.
pub fn check_words(d: &[u8], words: usize) -> (r: bool)
    requires
        words <= 3,
        d@.len() == 3 * words,
    ensures
        r == words_check_out(d@, words as int),
{
    let mut i: usize = 0;
    while i < words
        invariant
            i <= words <= 3,
            d@.len() == 3 * words,
            forall|j: int|
                0 <= j < i ==> sensirion_check(#[trigger] d@.subrange(3 * j, 3 * j + 2)) == d@[3 * j
                    + 2],
        decreases words - i,
    {
        if sensirion_crc(&d[3 * i..3 * i + 2]) != d[3 * i + 2] {
            assert(sensirion_check(d@.subrange(3 * i as int, 3 * i + 2)) != d@[3 * i + 2]);
            return false;
        }
        i += 1;
    }
    true
}

fn read_word(d: &[u8], i: usize) -> (r: u16)
    requires
        i < 3,
        3 * i + 1 < d@.len(),
    ensures
        r == word_at(d@, i as int),
{
    u16_from(d[3 * i + 1], d[3 * i])
}

/// The words of an SCD41 measurement in physical units.
pub fn read_scd41(d: &[u8]) -> (r: Scd41Reading)
    requires
        d@.len() == 9,
    ensures
        r == scd41_of(d@),
{
    Scd41Reading {
        co2_ppm: read_word(d, 0),
        temp_c_x100: (17500 * read_word(d, 1) as u32 / 65535) as i32 - 4500,
        hum_pct_x100: 10000 * read_word(d, 2) as u32 / 65535,
    }
}

/// The words of an SHT45 measurement in physical units.
pub fn read_sht(d: &[u8]) -> (r: ShtReading)
    requires
        d@.len() == 6,
    ensures
        r == sht_of(d@),
{
    let hum: i32 = (12500 * read_word(d, 1) as u32 / 65535) as i32 - 600;
    ShtReading {
        temp_c_x100: (17500 * read_word(d, 0) as u32 / 65535) as i32 - 4500,
        hum_pct_x100: if hum < 0 {
            0
        } else if hum > 10000 {
            10000
        } else {
            hum as u32
        },
    }
}

/// The temperature register of an MCP9808 in physical units.
pub fn read_mcp(d: &[u8]) -> (r: McpReading)
    requires
        d@.len() == 2,
    ensures
        r == mcp_of(d@),
{
    let bits: u16 = u16_from(d[1], d[0]) % 0x2000;
    let t: i32 = if bits < 0x1000 {
        bits as i32
    } else {
        bits as i32 - 0x2000
    };
    McpReading { temp_c_x100: div_toward_zero(t * 25, 4) }
}

/// What the Sensirion sensors report stays in their range: -45 to 130 degrees,
/// 0 to 100 percent.
pub proof fn sensirion_ranges(d: Seq<u8>)
    ensures
        -4500 <= scd41_of(d).temp_c_x100 <= 13000,
        scd41_of(d).hum_pct_x100 <= 10000,
        -4500 <= sht_of(d).temp_c_x100 <= 13000,
        sht_of(d).hum_pct_x100 <= 10000,
{
}

/// A Sensirion word with one wrong byte does not check out.
pub proof fn damaged_word_fails(d: Seq<u8>, words: int, at: int, byte: u8)
    requires
        0 <= at < 3 * words == d.len(),
        words_check_out(d, words),
        byte != d[at],
    ensures
        !words_check_out(d.update(at, byte), words),
{
    let bad = d.update(at, byte);
    let i = at / 3;
    let good_word = d.subrange(3 * i, 3 * i + 2);
    let bad_word = bad.subrange(3 * i, 3 * i + 2);
    assert(sensirion_check(good_word) == d[3 * i + 2]);
    if at == 3 * i + 2 {
        assert(good_word =~= bad_word);
    } else {
        assert(0x31u8 & 1 == 1) by (bit_vector);
        crate::crc::crc8_detects_one_byte(0x31, 0xFF, good_word, bad_word, at - 3 * i);
    }
    assert(sensirion_check(bad_word) != bad[3 * i + 2]);
}

} // verus!
