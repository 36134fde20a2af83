//! One sweep: every sensor that the probe found is read.

use vstd::prelude::*;
use super::{
    accel_of, bme_raw_of, bmp_raw_of, check_words, mcp_of, no_readings, op_len, read_accel,
    read_bme_raw, read_bmp_raw, read_mcp, read_scd41, read_sht, reply_bytes, scd41_of, sht_of,
    word_at, words_check_out, BaroReading, BmeReading, BusOp, LightningEvent, Readings, Sensors,
    Stage,
};
use crate::bytes::u16_from;

verus! {

/// How long a Bosch sensor may take to measure (ms). TPH takes a few ms; the
/// gas heater adds ~150 ms.
pub const MEASURE_TIMEOUT_MS: u32 = 300;

/// More than [`MEASURE_TIMEOUT_MS`] have passed.
pub open spec fn too_long(start: u32, now_ms: u32) -> bool {
    (now_ms - start) % 0x1_0000_0000 > MEASURE_TIMEOUT_MS
}

/// The sweep is over.
pub open spec fn sweep_done(s: Sensors) -> (Sensors, BusOp) {
    (Sensors { stage: Stage::Idle, ..s }, BusOp::Done)
}

/// BME680 in forced mode: osrs_h x1, osrs_t x2, osrs_p x4.
pub open spec fn read_bme(s: Sensors) -> (Sensors, BusOp) {
    match s.found.bme680 {
        Some(addr) => (
            Sensors { stage: Stage::BmeHumidity { addr }, ..s },
            BusOp::Write2 { addr, first: 0x72, second: 0x01 },
        ),
        None => read_co2(s),
    }
}

/// SCD41: is there a measurement?
pub open spec fn read_co2(s: Sensors) -> (Sensors, BusOp) {
    if s.found.scd41 {
        (
            Sensors { stage: Stage::ScdReadyAsk, ..s },
            BusOp::Write2 { addr: 0x62, first: 0xE4, second: 0xB8 },
        )
    } else {
        read_sht45(s)
    }
}

/// SHT45: measure with high precision.
pub open spec fn read_sht45(s: Sensors) -> (Sensors, BusOp) {
    if s.found.sht45 {
        (Sensors { stage: Stage::ShtAsk, ..s }, BusOp::Write1 { addr: 0x44, byte: 0xFD })
    } else {
        read_mcp9808(s)
    }
}

/// MCP9808: the temperature register; it converts all the time.
pub open spec fn read_mcp9808(s: Sensors) -> (Sensors, BusOp) {
    match s.found.mcp9808 {
        Some(addr) => (
            Sensors { stage: Stage::McpData, ..s },
            BusOp::WriteRead { addr, reg: 0x05, len: 2 },
        ),
        None => read_baro(s),
    }
}

/// BMP280 in forced mode: osrs_t x2, osrs_p x4.
pub open spec fn read_baro(s: Sensors) -> (Sensors, BusOp) {
    match s.found.bmp280 {
        Some(addr) => (
            Sensors { stage: Stage::BmpForce { addr }, ..s },
            BusOp::Write2 { addr, first: 0xF4, second: 0x4D },
        ),
        None => read_adxl(s),
    }
}

/// ADXL345: the three axes.
pub open spec fn read_adxl(s: Sensors) -> (Sensors, BusOp) {
    match s.found.adxl345 {
        Some(addr) => (
            Sensors { stage: Stage::AccelData, ..s },
            BusOp::WriteRead { addr, reg: 0x32, len: 6 },
        ),
        None => read_lightning(s),
    }
}

/// AS3935: the interrupt source register.
pub open spec fn read_lightning(s: Sensors) -> (Sensors, BusOp) {
    match s.found.as3935 {
        Some(addr) => (
            Sensors { stage: Stage::LightningSource { addr }, ..s },
            BusOp::WriteRead { addr, reg: 0x03, len: 1 },
        ),
        None => sweep_done(s),
    }
}

/// The stages of a sweep, but for the two in which a measurement is being
/// compensated.
pub open spec fn is_sweep_stage(stage: Stage) -> bool {
    match stage {
        Stage::BmeHumidity { .. } | Stage::BmeForce { .. } | Stage::BmeStatus { .. }
        | Stage::BmeStatusWait { .. } | Stage::BmeData { .. } | Stage::ScdReadyAsk
        | Stage::ScdReadyWait | Stage::ScdReady | Stage::ScdDataAsk | Stage::ScdDataWait
        | Stage::ScdData | Stage::ShtAsk | Stage::ShtWait | Stage::ShtData | Stage::McpData
        | Stage::BmpForce { .. } | Stage::BmpStatus { .. } | Stage::BmpStatusWait { .. }
        | Stage::BmpData { .. } | Stage::AccelData | Stage::LightningSource { .. }
        | Stage::LightningDistance { .. } => true,
        _ => false,
    }
}

/// The bytes that the answer to a stage of a sweep has.
pub open spec fn sweep_len(stage: Stage) -> nat {
    match stage {
        Stage::BmeStatus { .. } => 1,
        Stage::BmeData { .. } => 15,
        Stage::ScdReady => 3,
        Stage::ScdData => 9,
        Stage::ShtData => 6,
        Stage::McpData => 2,
        Stage::BmpStatus { .. } => 1,
        Stage::BmpData { .. } => 6,
        Stage::AccelData => 6,
        Stage::LightningSource { .. } => 1,
        Stage::LightningDistance { .. } => 1,
        _ => 0,
    }
}

/// What was asked for came back as `reply`, or failed, and it is now `now_ms`:
/// the next step of the sweep. A sensor that fails is left out.
pub open spec fn sweep_next(s: Sensors, reply: Option<Seq<u8>>, now_ms: u32) -> (Sensors, BusOp) {
    match (s.stage, reply) {
        (Stage::BmeHumidity { addr }, Some(_)) => (
            Sensors { stage: Stage::BmeForce { addr }, ..s },
            BusOp::Write2 { addr, first: 0x74, second: 0x51 },
        ),
        (Stage::BmeForce { addr }, Some(_)) => (
            Sensors { stage: Stage::BmeStatus { addr, start: now_ms }, ..s },
            BusOp::WriteRead { addr, reg: 0x1D, len: 1 },
        ),
        (Stage::BmeStatus { addr, start }, Some(d)) => if d[0] >= 0x80 {
            // New data.
            (
                Sensors { stage: Stage::BmeData { addr }, ..s },
                BusOp::WriteRead { addr, reg: 0x1D, len: 15 },
            )
        } else if too_long(start, now_ms) {
            read_co2(s)
        } else {
            (Sensors { stage: Stage::BmeStatusWait { addr, start }, ..s }, BusOp::Delay { ms: 5 })
        },
        (Stage::BmeStatusWait { addr, start }, _) => (
            Sensors { stage: Stage::BmeStatus { addr, start }, ..s },
            BusOp::WriteRead { addr, reg: 0x1D, len: 1 },
        ),
        (Stage::BmeData { addr }, Some(d)) => (
            Sensors {
                stage: Stage::BmeCompensate { gas_valid: bme_raw_of(d).gas_valid },
                ..s
            },
            BusOp::CompensateBme { bme: bme_raw_of(d) },
        ),
        (Stage::BmeHumidity { .. } | Stage::BmeForce { .. } | Stage::BmeStatus { .. }
        | Stage::BmeData { .. }, None) => read_co2(s),
        (Stage::ScdReadyAsk, Some(_)) => (
            Sensors { stage: Stage::ScdReadyWait, ..s },
            BusOp::Delay { ms: 1 },
        ),
        (Stage::ScdReadyWait, _) => (
            Sensors { stage: Stage::ScdReady, ..s },
            BusOp::Read { addr: 0x62, len: 3 },
        ),
        // Data ready? (lower 11 bits nonzero)
        (Stage::ScdReady, Some(d)) => if words_check_out(d, 1) && word_at(d, 0) % 2048 != 0 {
            (
                Sensors { stage: Stage::ScdDataAsk, ..s },
                BusOp::Write2 { addr: 0x62, first: 0xEC, second: 0x05 },
            )
        } else {
            read_sht45(s)
        },
        (Stage::ScdDataAsk, Some(_)) => (
            Sensors { stage: Stage::ScdDataWait, ..s },
            BusOp::Delay { ms: 1 },
        ),
        (Stage::ScdDataWait, _) => (
            Sensors { stage: Stage::ScdData, ..s },
            BusOp::Read { addr: 0x62, len: 9 },
        ),
        (Stage::ScdData, Some(d)) => if words_check_out(d, 3) {
            read_sht45(
                Sensors { readings: Readings { co2: Some(scd41_of(d)), ..s.readings }, ..s },
            )
        } else {
            read_sht45(s)
        },
        (Stage::ScdReadyAsk | Stage::ScdReady | Stage::ScdDataAsk | Stage::ScdData, None) =>
            read_sht45(s),
        (Stage::ShtAsk, Some(_)) => (
            Sensors { stage: Stage::ShtWait, ..s },
            BusOp::Delay { ms: 10 },
        ),
        (Stage::ShtWait, _) => (
            Sensors { stage: Stage::ShtData, ..s },
            BusOp::Read { addr: 0x44, len: 6 },
        ),
        (Stage::ShtData, Some(d)) => if words_check_out(d, 2) {
            read_mcp9808(
                Sensors { readings: Readings { sht: Some(sht_of(d)), ..s.readings }, ..s },
            )
        } else {
            read_mcp9808(s)
        },
        (Stage::ShtAsk | Stage::ShtData, None) => read_mcp9808(s),
        (Stage::McpData, Some(d)) => read_baro(
            Sensors { readings: Readings { mcp: Some(mcp_of(d)), ..s.readings }, ..s },
        ),
        (Stage::McpData, None) => read_baro(s),
        (Stage::BmpForce { addr }, Some(_)) => (
            Sensors { stage: Stage::BmpStatus { addr, start: now_ms }, ..s },
            BusOp::WriteRead { addr, reg: 0xF3, len: 1 },
        ),
        (Stage::BmpStatus { addr, start }, Some(d)) => if d[0] / 8 % 2 == 0 {
            // Bit 3 is set while it measures.
            (
                Sensors { stage: Stage::BmpData { addr }, ..s },
                BusOp::WriteRead { addr, reg: 0xF7, len: 6 },
            )
        } else if too_long(start, now_ms) {
            read_adxl(s)
        } else {
            (Sensors { stage: Stage::BmpStatusWait { addr, start }, ..s }, BusOp::Delay { ms: 5 })
        },
        (Stage::BmpStatusWait { addr, start }, _) => (
            Sensors { stage: Stage::BmpStatus { addr, start }, ..s },
            BusOp::WriteRead { addr, reg: 0xF3, len: 1 },
        ),
        (Stage::BmpData { addr }, Some(d)) => (
            Sensors { stage: Stage::BmpCompensate, ..s },
            BusOp::CompensateBmp { bmp: bmp_raw_of(d) },
        ),
        (Stage::BmpForce { .. } | Stage::BmpStatus { .. } | Stage::BmpData { .. }, None) =>
            read_adxl(s),
        (Stage::AccelData, Some(d)) => read_lightning(
            Sensors { readings: Readings { accel: Some(accel_of(d)), ..s.readings }, ..s },
        ),
        (Stage::AccelData, None) => read_lightning(s),
        (Stage::LightningSource { addr }, Some(d)) => if d[0] % 16 == 0 {
            sweep_done(s)
        } else {
            (
                Sensors { stage: Stage::LightningDistance { int_src: (d[0] % 16) as u8 }, ..s },
                BusOp::WriteRead { addr, reg: 0x07, len: 1 },
            )
        },
        (Stage::LightningSource { .. }, None) => sweep_done(s),
        (Stage::LightningDistance { int_src }, _) => {
            let distance_km = match reply {
                Some(d) => (d[0] % 64) as u8,
                None => 63,
            };
            sweep_done(
                Sensors {
                    readings: Readings {
                        lightning: Some(LightningEvent { distance_km, int_src }),
                        ..s.readings
                    },
                    ..s
                },
            )
        },
        _ => sweep_done(s),
    }
}

/// The humidity of saturated air, centipercent.
pub const MAX_HUMIDITY_X100: u32 = 10000;

/// A compensated measurement as it is kept: the humidity is at most 100 %, and
/// there is no gas value where the sensor had no valid one.
pub open spec fn bme_kept(reading: BmeReading, gas_valid: bool) -> BmeReading {
    BmeReading {
        hum_pct_x100: if reading.hum_pct_x100 > MAX_HUMIDITY_X100 {
            MAX_HUMIDITY_X100
        } else {
            reading.hum_pct_x100
        },
        gas_ohm: if gas_valid {
            reading.gas_ohm
        } else {
            0
        },
        ..reading
    }
}

/// The BME680's measurement has been compensated.
pub open spec fn bme_next(s: Sensors, reading: BmeReading) -> (Sensors, BusOp) {
    let bme = Some(bme_kept(reading, s.stage->BmeCompensate_gas_valid));
    read_co2(Sensors { readings: Readings { bme, ..s.readings }, ..s })
}

/// The BMP280's measurement has been compensated.
pub open spec fn bmp_next(s: Sensors, reading: BaroReading) -> (Sensors, BusOp) {
    read_adxl(Sensors { readings: Readings { baro: Some(reading), ..s.readings }, ..s })
}

impl Sensors {
    /// Read every present sensor: carry out the operation and hand what came of
    /// it to [`answered`](Self::answered), until there is nothing more to do.
    /// The result is then in `readings`; `Readings::lightning` is only `Some`
    /// when an event was pending in the AS3935.
    pub fn read(&mut self) -> (r: BusOp)
        requires
            old(self).stage is Idle,
        ensures
            (*final(self), r) == read_bme(Sensors { readings: no_readings(), ..*old(self) }),
    {
        self.readings = Readings::default();
        match self.found.bme680 {
            Some(addr) => self.next(
                Stage::BmeHumidity { addr },
                BusOp::Write2 { addr, first: 0x72, second: 0x01 },
            ),
            None => self.read_co2(),
        }
    }

    fn next(&mut self, stage: Stage, op: BusOp) -> (r: BusOp)
        ensures
            *final(self) == (Sensors { stage, ..*old(self) }),
            r == op,
    {
        self.stage = stage;
        op
    }

    fn read_co2(&mut self) -> (r: BusOp)
        ensures
            (*final(self), r) == read_co2(*old(self)),
    {
        if self.found.scd41 {
            self.next(
                Stage::ScdReadyAsk,
                BusOp::Write2 { addr: 0x62, first: 0xE4, second: 0xB8 },
            )
        } else {
            self.read_sht45()
        }
    }

    fn read_sht45(&mut self) -> (r: BusOp)
        ensures
            (*final(self), r) == read_sht45(*old(self)),
    {
        if self.found.sht45 {
            self.next(Stage::ShtAsk, BusOp::Write1 { addr: 0x44, byte: 0xFD })
        } else {
            self.read_mcp9808()
        }
    }

    fn read_mcp9808(&mut self) -> (r: BusOp)
        ensures
            (*final(self), r) == read_mcp9808(*old(self)),
    {
        match self.found.mcp9808 {
            Some(addr) => self.next(Stage::McpData, BusOp::WriteRead { addr, reg: 0x05, len: 2 }),
            None => self.read_baro(),
        }
    }

    fn read_baro(&mut self) -> (r: BusOp)
        ensures
            (*final(self), r) == read_baro(*old(self)),
    {
        match self.found.bmp280 {
            Some(addr) => self.next(
                Stage::BmpForce { addr },
                BusOp::Write2 { addr, first: 0xF4, second: 0x4D },
            ),
            None => self.read_adxl(),
        }
    }

    fn read_adxl(&mut self) -> (r: BusOp)
        ensures
            (*final(self), r) == read_adxl(*old(self)),
    {
        match self.found.adxl345 {
            Some(addr) => self.next(
                Stage::AccelData,
                BusOp::WriteRead { addr, reg: 0x32, len: 6 },
            ),
            None => self.read_lightning(),
        }
    }

    fn read_lightning(&mut self) -> (r: BusOp)
        ensures
            (*final(self), r) == read_lightning(*old(self)),
    {
        match self.found.as3935 {
            Some(addr) => self.next(
                Stage::LightningSource { addr },
                BusOp::WriteRead { addr, reg: 0x03, len: 1 },
            ),
            None => self.next(Stage::Idle, BusOp::Done),
        }
    }

    /// The compensated measurement that [`BusOp::CompensateBme`] asked for. It
    /// is kept with a humidity of at most 100 %, and without a gas value where
    /// the sensor had no valid one.
    pub fn bme_compensated(&mut self, reading: BmeReading) -> (r: BusOp)
        requires
            old(self).stage is BmeCompensate,
        ensures
            (*final(self), r) == bme_next(*old(self), reading),
            final(self).readings.bme matches Some(b) && b.hum_pct_x100 <= MAX_HUMIDITY_X100,
            !old(self).stage->BmeCompensate_gas_valid ==> final(self).readings.bme->0.gas_ohm == 0,
    {
        let gas_valid: bool = match self.stage {
            Stage::BmeCompensate { gas_valid } => gas_valid,
            _ => false,
        };
        let hum_pct_x100: u32 = if reading.hum_pct_x100 > MAX_HUMIDITY_X100 {
            MAX_HUMIDITY_X100
        } else {
            reading.hum_pct_x100
        };
        let gas_ohm: u32 = if gas_valid {
            reading.gas_ohm
        } else {
            0
        };
        self.readings.bme = Some(BmeReading { hum_pct_x100, gas_ohm, ..reading });
        self.read_co2()
    }

    /// The compensated measurement that [`BusOp::CompensateBmp`] asked for.
    pub fn bmp_compensated(&mut self, reading: BaroReading) -> (r: BusOp)
        requires
            old(self).stage is BmpCompensate,
        ensures
            (*final(self), r) == bmp_next(*old(self), reading),
    {
        self.readings.baro = Some(reading);
        self.read_adxl()
    }

    /// What the last operation of the sweep gave: the bytes that it read, or
    /// none where the bus reported an error.
    pub fn answered(&mut self, reply: Option<&[u8]>, now_ms: u32) -> (r: BusOp)
        requires
            is_sweep_stage(old(self).stage),
            reply matches Some(d) ==> d@.len() == sweep_len(old(self).stage),
        ensures
            (*final(self), r) == sweep_next(*old(self), reply_bytes(reply), now_ms),
    {
        match self.stage {
            Stage::BmeHumidity { addr } => match reply {
                Some(_) => self.next(
                    Stage::BmeForce { addr },
                    BusOp::Write2 { addr, first: 0x74, second: 0x51 },
                ),
                None => self.read_co2(),
            },
            Stage::BmeForce { addr } => match reply {
                Some(_) => self.next(
                    Stage::BmeStatus { addr, start: now_ms },
                    BusOp::WriteRead { addr, reg: 0x1D, len: 1 },
                ),
                None => self.read_co2(),
            },
            Stage::BmeStatus { addr, start } => match reply {
                Some(d) => {
                    if d[0] >= 0x80 {
                        self.next(
                            Stage::BmeData { addr },
                            BusOp::WriteRead { addr, reg: 0x1D, len: 15 },
                        )
                    } else if now_ms.wrapping_sub(start) > MEASURE_TIMEOUT_MS {
                        self.read_co2()
                    } else {
                        self.next(Stage::BmeStatusWait { addr, start }, BusOp::Delay { ms: 5 })
                    }
                },
                None => self.read_co2(),
            },
            Stage::BmeStatusWait { addr, start } => self.next(
                Stage::BmeStatus { addr, start },
                BusOp::WriteRead { addr, reg: 0x1D, len: 1 },
            ),
            Stage::BmeData { .. } => match reply {
                Some(d) => {
                    let bme = read_bme_raw(d);
                    self.next(
                        Stage::BmeCompensate { gas_valid: bme.gas_valid },
                        BusOp::CompensateBme { bme },
                    )
                },
                None => self.read_co2(),
            },
            Stage::ScdReadyAsk => match reply {
                Some(_) => self.next(Stage::ScdReadyWait, BusOp::Delay { ms: 1 }),
                None => self.read_sht45(),
            },
            Stage::ScdReadyWait => self.next(Stage::ScdReady, BusOp::Read { addr: 0x62, len: 3 }),
            Stage::ScdReady => {
                let ready: bool = match reply {
                    Some(d) => check_words(d, 1) && u16_from(d[1], d[0]) % 2048 != 0,
                    None => false,
                };
                if ready {
                    self.next(
                        Stage::ScdDataAsk,
                        BusOp::Write2 { addr: 0x62, first: 0xEC, second: 0x05 },
                    )
                } else {
                    // Measurement not ready yet (5 s cadence).
                    self.read_sht45()
                }
            },
            Stage::ScdDataAsk => match reply {
                Some(_) => self.next(Stage::ScdDataWait, BusOp::Delay { ms: 1 }),
                None => self.read_sht45(),
            },
            Stage::ScdDataWait => self.next(Stage::ScdData, BusOp::Read { addr: 0x62, len: 9 }),
            Stage::ScdData => {
                match reply {
                    Some(d) => {
                        if check_words(d, 3) {
                            self.readings.co2 = Some(read_scd41(d));
                        }
                    },
                    None => {},
                }
                self.read_sht45()
            },
            Stage::ShtAsk => match reply {
                Some(_) => self.next(Stage::ShtWait, BusOp::Delay { ms: 10 }),
                None => self.read_mcp9808(),
            },
            Stage::ShtWait => self.next(Stage::ShtData, BusOp::Read { addr: 0x44, len: 6 }),
            Stage::ShtData => {
                match reply {
                    Some(d) => {
                        if check_words(d, 2) {
                            self.readings.sht = Some(read_sht(d));
                        }
                    },
                    None => {},
                }
                self.read_mcp9808()
            },
            Stage::McpData => {
                match reply {
                    Some(d) => {
                        self.readings.mcp = Some(read_mcp(d));
                    },
                    None => {},
                }
                self.read_baro()
            },
            Stage::BmpForce { addr } => match reply {
                Some(_) => self.next(
                    Stage::BmpStatus { addr, start: now_ms },
                    BusOp::WriteRead { addr, reg: 0xF3, len: 1 },
                ),
                None => self.read_adxl(),
            },
            Stage::BmpStatus { addr, start } => match reply {
                Some(d) => {
                    if d[0] / 8 % 2 == 0 {
                        self.next(
                            Stage::BmpData { addr },
                            BusOp::WriteRead { addr, reg: 0xF7, len: 6 },
                        )
                    } else if now_ms.wrapping_sub(start) > MEASURE_TIMEOUT_MS {
                        self.read_adxl()
                    } else {
                        self.next(Stage::BmpStatusWait { addr, start }, BusOp::Delay { ms: 5 })
                    }
                },
                None => self.read_adxl(),
            },
            Stage::BmpStatusWait { addr, start } => self.next(
                Stage::BmpStatus { addr, start },
                BusOp::WriteRead { addr, reg: 0xF3, len: 1 },
            ),
            Stage::BmpData { .. } => match reply {
                Some(d) => {
                    let bmp = read_bmp_raw(d);
                    self.next(Stage::BmpCompensate, BusOp::CompensateBmp { bmp })
                },
                None => self.read_adxl(),
            },
            Stage::AccelData => {
                match reply {
                    Some(d) => {
                        self.readings.accel = Some(read_accel(d));
                    },
                    None => {},
                }
                self.read_lightning()
            },
            Stage::LightningSource { addr } => match reply {
                Some(d) => {
                    let int_src: u8 = d[0] % 16;
                    if int_src == 0 {
                        self.next(Stage::Idle, BusOp::Done)
                    } else {
                        self.next(
                            Stage::LightningDistance { int_src },
                            BusOp::WriteRead { addr, reg: 0x07, len: 1 },
                        )
                    }
                },
                None => self.next(Stage::Idle, BusOp::Done),
            },
            Stage::LightningDistance { int_src } => {
                let distance_km: u8 = match reply {
                    Some(d) => d[0] % 64,
                    None => 63,
                };
                self.readings.lightning = Some(LightningEvent { distance_km, int_src });
                self.next(Stage::Idle, BusOp::Done)
            },
            _ => self.next(Stage::Idle, BusOp::Done),
        }
    }
}

/// What the sweep asks for is what its next step takes, and it ends idle.
pub proof fn sweep_keeps_step(s: Sensors, reply: Option<Seq<u8>>, now_ms: u32)
    requires
        is_sweep_stage(s.stage),
        reply matches Some(d) ==> d.len() == sweep_len(s.stage),
    ensures
        ({
            let after = sweep_next(s, reply, now_ms);
            &&& after.1 is Done ==> after.0.stage is Idle
            &&& after.1 is CompensateBme ==> after.0.stage is BmeCompensate
            &&& after.1 is CompensateBmp ==> after.0.stage is BmpCompensate
            &&& !(after.1 is Done || after.1 is CompensateBme || after.1 is CompensateBmp) ==> {
                &&& is_sweep_stage(after.0.stage)
                &&& op_len(after.1) == sweep_len(after.0.stage)
            }
        }),
{
}

/// A sweep reads only what the probe found, and changes nothing but the
/// readings and where it is.
pub proof fn sweep_reads_what_was_found(s: Sensors, reply: Option<Seq<u8>>, now_ms: u32)
    requires
        is_sweep_stage(s.stage),
    ensures
        ({
            let after = sweep_next(s, reply, now_ms).0;
            &&& after.found == s.found
            &&& after.bme_cal == s.bme_cal
            &&& after.bmp_cal == s.bmp_cal
            &&& after.stage is ScdReadyAsk ==> s.found.scd41
            &&& after.stage is ShtAsk ==> s.found.sht45
            &&& after.stage is McpData ==> s.found.mcp9808 is Some
            &&& after.stage is BmpForce ==> s.found.bmp280 is Some
            &&& after.stage is AccelData ==> s.found.adxl345 is Some
            &&& after.stage is LightningSource ==> s.found.as3935 is Some
        }),
{
}

/// What happens during a sweep.
pub enum SweepEvent {
    /// A transaction gave this, or failed.
    Answer { reply: Option<Seq<u8>>, now_ms: u32 },
    /// The BME680's measurement has been compensated.
    Bme(BmeReading),
    /// The BMP280's measurement has been compensated.
    Bmp(BaroReading),
}

/// One event; what the sweep does not wait for changes nothing.
pub open spec fn sweep_event(s: Sensors, ev: SweepEvent) -> Sensors {
    match ev {
        SweepEvent::Answer { reply, now_ms } => if is_sweep_stage(s.stage) {
            sweep_next(s, reply, now_ms).0
        } else {
            s
        },
        SweepEvent::Bme(reading) => if s.stage is BmeCompensate {
            bme_next(s, reading).0
        } else {
            s
        },
        SweepEvent::Bmp(reading) => if s.stage is BmpCompensate {
            bmp_next(s, reading).0
        } else {
            s
        },
    }
}

/// A sweep so far: how it starts, and then these events.
pub open spec fn sweep_run(s: Sensors, events: Seq<SweepEvent>) -> Sensors
    decreases events.len(),
{
    if events.len() == 0 {
        read_bme(Sensors { readings: no_readings(), ..s }).0
    } else {
        sweep_event(sweep_run(s, events.drop_last()), events.last())
    }
}

/// The sensor that a stage of a sweep reads is one of those found.
pub open spec fn reads_a_found_sensor(s: Sensors) -> bool {
    match s.stage {
        Stage::BmeHumidity { addr } | Stage::BmeForce { addr } | Stage::BmeData { addr } =>
            s.found.bme680 == Some(addr),
        Stage::BmeStatus { addr, .. } | Stage::BmeStatusWait { addr, .. } => s.found.bme680
            == Some(addr),
        Stage::BmeCompensate { .. } => s.found.bme680 is Some,
        Stage::ScdReadyAsk | Stage::ScdReadyWait | Stage::ScdReady | Stage::ScdDataAsk
        | Stage::ScdDataWait | Stage::ScdData => s.found.scd41,
        Stage::ShtAsk | Stage::ShtWait | Stage::ShtData => s.found.sht45,
        Stage::McpData => s.found.mcp9808 is Some,
        Stage::BmpForce { addr } | Stage::BmpData { addr } => s.found.bmp280 == Some(addr),
        Stage::BmpStatus { addr, .. } | Stage::BmpStatusWait { addr, .. } => s.found.bmp280
            == Some(addr),
        Stage::BmpCompensate => s.found.bmp280 is Some,
        Stage::AccelData => s.found.adxl345 is Some,
        Stage::LightningSource { addr } => s.found.as3935 == Some(addr),
        Stage::LightningDistance { int_src } => s.found.as3935 is Some && 1 <= int_src <= 15,
        _ => true,
    }
}

/// Only sensors that were found have readings; humidity is at most 100 %; and a
/// lightning event has a source.
pub open spec fn readings_are_founds(s: Sensors) -> bool {
    &&& s.readings.bme matches Some(b) ==> s.found.bme680 is Some && b.hum_pct_x100
        <= MAX_HUMIDITY_X100
    &&& s.readings.co2 is Some ==> s.found.scd41
    &&& s.readings.sht is Some ==> s.found.sht45
    &&& s.readings.mcp is Some ==> s.found.mcp9808 is Some
    &&& s.readings.baro is Some ==> s.found.bmp280 is Some
    &&& s.readings.accel is Some ==> s.found.adxl345 is Some
    &&& s.readings.lightning matches Some(e) ==> s.found.as3935 is Some && 1 <= e.int_src <= 15
        && e.distance_km <= 63
}

/// Turning to the next sensor leaves the readings right.
proof fn turning_to_the_next(s: Sensors)
    requires
        readings_are_founds(s),
    ensures
        keeps_to_found(s, read_lightning(s).0),
        keeps_to_found(s, read_adxl(s).0),
        keeps_to_found(s, read_baro(s).0),
        keeps_to_found(s, read_mcp9808(s).0),
        keeps_to_found(s, read_sht45(s).0),
        keeps_to_found(s, read_co2(s).0),
        keeps_to_found(s, read_bme(s).0),
{
}

/// The same sensors are found in `after` as in `s`, and its readings and its
/// stage are theirs.
pub open spec fn keeps_to_found(s: Sensors, after: Sensors) -> bool {
    &&& after.found == s.found
    &&& reads_a_found_sensor(after)
    &&& readings_are_founds(after)
}

/// One answer keeps to the sensors that were found.
#[verifier::rlimit(60)]
proof fn answer_keeps_to_found(s: Sensors, reply: Option<Seq<u8>>, now_ms: u32)
    requires
        is_sweep_stage(s.stage),
        reads_a_found_sensor(s),
        readings_are_founds(s),
    ensures
        keeps_to_found(s, sweep_next(s, reply, now_ms).0),
{
    turning_to_the_next(s);
    match reply {
        Some(d) => {
            if s.stage is ScdData {
                let with = Readings { co2: Some(scd41_of(d)), ..s.readings };
                turning_to_the_next(Sensors { readings: with, ..s });
            } else if s.stage is ShtData {
                let with = Readings { sht: Some(sht_of(d)), ..s.readings };
                turning_to_the_next(Sensors { readings: with, ..s });
            } else if s.stage is McpData {
                let with = Readings { mcp: Some(mcp_of(d)), ..s.readings };
                turning_to_the_next(Sensors { readings: with, ..s });
            } else if s.stage is AccelData {
                let with = Readings { accel: Some(accel_of(d)), ..s.readings };
                turning_to_the_next(Sensors { readings: with, ..s });
            }
        },
        None => {},
    }
}

/// One event keeps to the sensors that were found.
proof fn event_keeps_to_found(s: Sensors, ev: SweepEvent)
    requires
        reads_a_found_sensor(s),
        readings_are_founds(s),
    ensures
        keeps_to_found(s, sweep_event(s, ev)),
{
    match ev {
        SweepEvent::Answer { reply, now_ms } => {
            if is_sweep_stage(s.stage) {
                answer_keeps_to_found(s, reply, now_ms);
            }
        },
        SweepEvent::Bme(reading) => {
            if s.stage is BmeCompensate {
                let bme = Some(bme_kept(reading, s.stage->BmeCompensate_gas_valid));
                turning_to_the_next(Sensors { readings: Readings { bme, ..s.readings }, ..s });
            }
        },
        SweepEvent::Bmp(reading) => {
            if s.stage is BmpCompensate {
                let with = Readings { baro: Some(reading), ..s.readings };
                turning_to_the_next(Sensors { readings: with, ..s });
            }
        },
    }
}

/// Throughout a sweep, whatever the bus does: what was found stays found, a
/// sensor that was not found has no reading, humidity is at most 100 %, and
/// lightning is only ever given for a nonzero interrupt source.
pub proof fn sweep_gives_readings_of_found_sensors(s: Sensors, events: Seq<SweepEvent>)
    ensures
        keeps_to_found(s, sweep_run(s, events)),
    decreases events.len(),
{
    if events.len() == 0 {
        turning_to_the_next(Sensors { readings: no_readings(), ..s });
    } else {
        sweep_gives_readings_of_found_sensors(s, events.drop_last());
        event_keeps_to_found(sweep_run(s, events.drop_last()), events.last());
    }
}

/// A sensor whose transaction fails keeps its reading empty: a failed step adds
/// no reading, but for the distance of a lightning event, which is then unknown.
pub proof fn failed_step_adds_no_reading(s: Sensors, now_ms: u32)
    requires
        is_sweep_stage(s.stage),
    ensures
        s.stage is LightningDistance || sweep_next(s, None, now_ms).0.readings == s.readings,
        s.stage matches Stage::LightningDistance { int_src } ==> sweep_next(
            s,
            None,
            now_ms,
        ).0.readings == (Readings {
            lightning: Some(LightningEvent { distance_km: 63, int_src }),
            ..s.readings
        }),
{
}

} // verus!
