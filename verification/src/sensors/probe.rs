//! The startup probe: which sensors are there, and their configuration.

use vstd::prelude::*;
use super::{
    bme_cal_first, bme_cal_second, bmp_cal_of, check_words, high_nibble, i8_from, i8_of,
    no_bme_cal, no_bmp_cal, no_readings, none_found, op_len, read_bme_cal_first,
    read_bme_cal_second, read_bmp_cal, read_high_nibble, reply_bytes, words_check_out, BmeCal,
    BmpCal, BusOp, Found, Readings, Sensors, Stage,
};

verus! {

/// Target of the gas heater.
pub const HEATER_C: i32 = 320;

/// Ambient temperature that the heater set-point is computed for.
pub const AMBIENT_C: i32 = 25;

/// A suite that knows of no sensor.
pub open spec fn fresh() -> Sensors {
    Sensors {
        found: none_found(),
        bme_cal: no_bme_cal(),
        bmp_cal: no_bmp_cal(),
        readings: no_readings(),
        stage: Stage::Idle,
        bme_seen: false,
    }
}

/// BME680 or BMP280: chip id at register 0xD0.
pub open spec fn ask_chip_id(s: Sensors, addr: u8) -> (Sensors, BusOp) {
    (
        Sensors { stage: Stage::ChipId { addr }, ..s },
        BusOp::WriteRead { addr, reg: 0xD0, len: 1 },
    )
}

/// ADXL345/ADXL343: DEVID 0xE5 at register 0x00 (same for both).
pub open spec fn ask_adxl(s: Sensors, addr: u8) -> (Sensors, BusOp) {
    (
        Sensors { stage: Stage::AdxlId { addr }, ..s },
        BusOp::WriteRead { addr, reg: 0x00, len: 1 },
    )
}

/// SCD41: no chip-id register; ask for the serial number (only answered while
/// idle).
pub open spec fn ask_scd(s: Sensors) -> (Sensors, BusOp) {
    (
        Sensors { stage: Stage::ScdSerialAsk, ..s },
        BusOp::Write2 { addr: 0x62, first: 0x36, second: 0x82 },
    )
}

/// SHT45: the serial number shows its presence.
pub open spec fn ask_sht(s: Sensors) -> (Sensors, BusOp) {
    (Sensors { stage: Stage::ShtSerialAsk, ..s }, BusOp::Write1 { addr: 0x44, byte: 0x89 })
}

/// MCP9808: manufacturer id at register 0x06.
pub open spec fn ask_mcp(s: Sensors, addr: u8) -> (Sensors, BusOp) {
    (
        Sensors { stage: Stage::McpMaker { addr }, ..s },
        BusOp::WriteRead { addr, reg: 0x06, len: 2 },
    )
}

/// AS3935: address set by the breakout's A0/A1 straps.
pub open spec fn ask_lightning(s: Sensors, addr: u8) -> (Sensors, BusOp) {
    (
        Sensors { stage: Stage::LightningId { addr }, ..s },
        BusOp::WriteRead { addr, reg: 0x00, len: 1 },
    )
}

/// BMV080: protocol lives in Bosch's vendor blob; detect only.
pub open spec fn ask_bmv(s: Sensors, addr: u8) -> (Sensors, BusOp) {
    (Sensors { stage: Stage::BmvId { addr }, ..s }, BusOp::Read { addr, len: 1 })
}

/// The probe is over.
pub open spec fn probe_done(s: Sensors) -> (Sensors, BusOp) {
    (Sensors { stage: Stage::Idle, ..s }, BusOp::Done)
}

/// The Bosch sensor at `addr` is dealt with: the other address, then the next
/// kind.
pub open spec fn after_chip(s: Sensors, addr: u8) -> (Sensors, BusOp) {
    if addr == 0x76 {
        ask_chip_id(s, 0x77)
    } else {
        ask_adxl(s, 0x53)
    }
}

/// The BME680 at `addr` could not be configured.
pub open spec fn bme_failed(s: Sensors, addr: u8) -> (Sensors, BusOp) {
    after_chip(Sensors { found: Found { bme680: None, ..s.found }, ..s }, addr)
}

/// No MCP9808 at `addr`.
pub open spec fn after_mcp(s: Sensors, addr: u8) -> (Sensors, BusOp) {
    if addr < 0x1F {
        ask_mcp(s, (addr + 1) as u8)
    } else {
        ask_lightning(s, 0x03)
    }
}

/// The stages of the probe.
pub open spec fn is_probe_stage(stage: Stage) -> bool {
    match stage {
        Stage::ChipId { .. } | Stage::BmeReset { .. } | Stage::BmeResetWait { .. }
        | Stage::BmeCalFirst { .. } | Stage::BmeCalSecond { .. } | Stage::BmeHeatRange { .. }
        | Stage::BmeHeatVal { .. } | Stage::BmeSwitchErr { .. } | Stage::BmeHeater { .. }
        | Stage::BmeHeaterSet { .. } | Stage::BmeGasWait { .. } | Stage::BmeRunGas { .. }
        | Stage::BmpCal { .. } | Stage::AdxlId { .. } | Stage::AdxlFormat { .. }
        | Stage::AdxlMeasure { .. } | Stage::ScdSerialAsk | Stage::ScdSerialWait
        | Stage::ScdSerial | Stage::ScdStart | Stage::ScdStartWait | Stage::ShtSerialAsk
        | Stage::ShtSerialWait | Stage::ShtSerial | Stage::McpMaker { .. }
        | Stage::McpDevice { .. } | Stage::LightningId { .. } | Stage::LightningPreset { .. }
        | Stage::LightningTune { .. } | Stage::LightningWait | Stage::BmvId { .. } => true,
        _ => false,
    }
}

/// The bytes that the answer to a stage of the probe has.
pub open spec fn probe_len(stage: Stage) -> nat {
    match stage {
        Stage::ChipId { .. } => 1,
        Stage::BmeCalFirst { .. } => 25,
        Stage::BmeCalSecond { .. } => 16,
        Stage::BmeHeatRange { .. } => 1,
        Stage::BmeHeatVal { .. } => 1,
        Stage::BmeSwitchErr { .. } => 1,
        Stage::BmeHeater { .. } => 1,
        Stage::BmpCal { .. } => 24,
        Stage::AdxlId { .. } => 1,
        Stage::ScdSerial => 9,
        Stage::ShtSerial => 6,
        Stage::McpMaker { .. } => 2,
        Stage::McpDevice { .. } => 2,
        Stage::LightningId { .. } => 1,
        Stage::BmvId { .. } => 1,
        _ => 0,
    }
}

/// What was asked for came back as `reply`, or failed: the next step of the
/// probe.
pub open spec fn probe_next(s: Sensors, reply: Option<Seq<u8>>) -> (Sensors, BusOp) {
    match (s.stage, reply) {
        (Stage::ChipId { addr }, Some(d)) => if d[0] == 0x61 && !s.bme_seen {
            // Soft reset, then pull both calibration blocks.
            (
                Sensors {
                    found: Found { bme680: Some(addr), ..s.found },
                    bme_seen: true,
                    stage: Stage::BmeReset { addr },
                    ..s
                },
                BusOp::Write2 { addr, first: 0xE0, second: 0xB6 },
            )
        } else if d[0] == 0x58 && s.found.bmp280 is None {
            (
                Sensors { stage: Stage::BmpCal { addr }, ..s },
                BusOp::WriteRead { addr, reg: 0x88, len: 24 },
            )
        } else {
            after_chip(s, addr)
        },
        (Stage::ChipId { addr }, None) => after_chip(s, addr),
        (Stage::BmeReset { addr }, Some(_)) => (
            Sensors { stage: Stage::BmeResetWait { addr }, ..s },
            BusOp::Delay { ms: 5 },
        ),
        (Stage::BmeReset { addr }, None) => bme_failed(s, addr),
        (Stage::BmeResetWait { addr }, _) => (
            Sensors { stage: Stage::BmeCalFirst { addr }, ..s },
            BusOp::WriteRead { addr, reg: 0x89, len: 25 },
        ),
        (Stage::BmeCalFirst { addr }, Some(d)) => (
            Sensors {
                bme_cal: bme_cal_first(s.bme_cal, d),
                stage: Stage::BmeCalSecond { addr },
                ..s
            },
            BusOp::WriteRead { addr, reg: 0xE1, len: 16 },
        ),
        (Stage::BmeCalFirst { addr }, None) => bme_failed(s, addr),
        (Stage::BmeCalSecond { addr }, Some(d)) => (
            Sensors {
                bme_cal: bme_cal_second(s.bme_cal, d),
                stage: Stage::BmeHeatRange { addr },
                ..s
            },
            BusOp::WriteRead { addr, reg: 0x02, len: 1 },
        ),
        (Stage::BmeCalSecond { addr }, None) => bme_failed(s, addr),
        (Stage::BmeHeatRange { addr }, Some(d)) => (
            Sensors {
                bme_cal: BmeCal { res_heat_range: (d[0] / 16 % 4) as u8, ..s.bme_cal },
                stage: Stage::BmeHeatVal { addr },
                ..s
            },
            BusOp::WriteRead { addr, reg: 0x00, len: 1 },
        ),
        (Stage::BmeHeatRange { addr }, None) => bme_failed(s, addr),
        (Stage::BmeHeatVal { addr }, Some(d)) => (
            Sensors {
                bme_cal: BmeCal { res_heat_val: i8_of(d[0]), ..s.bme_cal },
                stage: Stage::BmeSwitchErr { addr },
                ..s
            },
            BusOp::WriteRead { addr, reg: 0x04, len: 1 },
        ),
        (Stage::BmeHeatVal { addr }, None) => bme_failed(s, addr),
        (Stage::BmeSwitchErr { addr }, Some(d)) => (
            // Gas heater: 320 C for ~148 ms each measurement.
            Sensors {
                bme_cal: BmeCal { range_sw_err: high_nibble(d[0]), ..s.bme_cal },
                stage: Stage::BmeHeater { addr },
                ..s
            },
            BusOp::HeaterCode { target_c: HEATER_C, ambient_c: AMBIENT_C },
        ),
        (Stage::BmeSwitchErr { addr }, None) => bme_failed(s, addr),
        (Stage::BmeHeater { addr }, Some(d)) => (
            Sensors { stage: Stage::BmeHeaterSet { addr }, ..s },
            BusOp::Write2 { addr, first: 0x5A, second: d[0] },
        ),
        (Stage::BmeHeater { addr }, None) => bme_failed(s, addr),
        (Stage::BmeHeaterSet { addr }, Some(_)) => (
            // gas_wait_0: 37 * 4 ms
            Sensors { stage: Stage::BmeGasWait { addr }, ..s },
            BusOp::Write2 { addr, first: 0x64, second: 0x65 },
        ),
        (Stage::BmeHeaterSet { addr }, None) => bme_failed(s, addr),
        (Stage::BmeGasWait { addr }, Some(_)) => (
            // run_gas, profile 0
            Sensors { stage: Stage::BmeRunGas { addr }, ..s },
            BusOp::Write2 { addr, first: 0x71, second: 0x10 },
        ),
        (Stage::BmeGasWait { addr }, None) => bme_failed(s, addr),
        (Stage::BmeRunGas { addr }, Some(_)) => after_chip(s, addr),
        (Stage::BmeRunGas { addr }, None) => bme_failed(s, addr),
        (Stage::BmpCal { addr }, Some(d)) => after_chip(
            Sensors {
                bmp_cal: bmp_cal_of(d),
                found: Found { bmp280: Some(addr), ..s.found },
                ..s
            },
            addr,
        ),
        (Stage::BmpCal { addr }, None) => after_chip(s, addr),
        (Stage::AdxlId { addr }, _) => if reply matches Some(d) && d[0] == 0xE5 {
            // Full-resolution +-2g, then measurement mode.
            (
                Sensors {
                    found: Found { adxl345: Some(addr), ..s.found },
                    stage: Stage::AdxlFormat { addr },
                    ..s
                },
                BusOp::Write2 { addr, first: 0x31, second: 0x08 },
            )
        } else if addr == 0x53 {
            ask_adxl(s, 0x1D)
        } else {
            ask_scd(s)
        },
        (Stage::AdxlFormat { addr }, _) => (
            Sensors { stage: Stage::AdxlMeasure { addr }, ..s },
            BusOp::Write2 { addr, first: 0x2D, second: 0x08 },
        ),
        (Stage::AdxlMeasure { .. }, _) => ask_scd(s),
        (Stage::ScdSerialAsk, Some(_)) => (
            Sensors { stage: Stage::ScdSerialWait, ..s },
            BusOp::Delay { ms: 1 },
        ),
        (Stage::ScdSerialAsk, None) => ask_sht(s),
        (Stage::ScdSerialWait, _) => (
            Sensors { stage: Stage::ScdSerial, ..s },
            BusOp::Read { addr: 0x62, len: 9 },
        ),
        (Stage::ScdSerial, _) => if reply matches Some(d) && words_check_out(d, 3) {
            // start_periodic_measurement
            (
                Sensors {
                    found: Found { scd41: true, ..s.found },
                    stage: Stage::ScdStart,
                    ..s
                },
                BusOp::Write2 { addr: 0x62, first: 0x21, second: 0xB1 },
            )
        } else {
            ask_sht(s)
        },
        (Stage::ScdStart, Some(_)) => (
            Sensors { stage: Stage::ScdStartWait, ..s },
            BusOp::Delay { ms: 1 },
        ),
        (Stage::ScdStart, None) => ask_sht(s),
        (Stage::ScdStartWait, _) => ask_sht(s),
        (Stage::ShtSerialAsk, Some(_)) => (
            Sensors { stage: Stage::ShtSerialWait, ..s },
            BusOp::Delay { ms: 10 },
        ),
        (Stage::ShtSerialAsk, None) => ask_mcp(s, 0x18),
        (Stage::ShtSerialWait, _) => (
            Sensors { stage: Stage::ShtSerial, ..s },
            BusOp::Read { addr: 0x44, len: 6 },
        ),
        (Stage::ShtSerial, _) => if reply matches Some(d) && words_check_out(d, 2) {
            ask_mcp(Sensors { found: Found { sht45: true, ..s.found }, ..s }, 0x18)
        } else {
            ask_mcp(s, 0x18)
        },
        (Stage::McpMaker { addr }, _) => if reply matches Some(d) && d[0] == 0x00 && d[1] == 0x54 {
            (
                Sensors { stage: Stage::McpDevice { addr }, ..s },
                BusOp::WriteRead { addr, reg: 0x07, len: 2 },
            )
        } else {
            after_mcp(s, addr)
        },
        (Stage::McpDevice { addr }, _) => if reply matches Some(d) && d[0] == 0x04 {
            ask_lightning(
                Sensors { found: Found { mcp9808: Some(addr), ..s.found }, ..s },
                0x03,
            )
        } else {
            after_mcp(s, addr)
        },
        (Stage::LightningId { addr }, Some(_)) => (
            // Direct commands: preset defaults, then recalibrate the RC
            // oscillators.
            Sensors {
                found: Found { as3935: Some(addr), ..s.found },
                stage: Stage::LightningPreset { addr },
                ..s
            },
            BusOp::Write2 { addr, first: 0x3C, second: 0x96 },
        ),
        (Stage::LightningId { addr }, None) => if addr > 0x01 {
            ask_lightning(s, (addr - 1) as u8)
        } else {
            ask_bmv(s, 0x57)
        },
        (Stage::LightningPreset { addr }, _) => (
            Sensors { stage: Stage::LightningTune { addr }, ..s },
            BusOp::Write2 { addr, first: 0x3D, second: 0x96 },
        ),
        (Stage::LightningTune { .. }, _) => (
            Sensors { stage: Stage::LightningWait, ..s },
            BusOp::Delay { ms: 3 },
        ),
        (Stage::LightningWait, _) => ask_bmv(s, 0x57),
        (Stage::BmvId { addr }, Some(_)) => probe_done(
            Sensors { found: Found { bmv080: Some(addr), ..s.found }, ..s },
        ),
        (Stage::BmvId { addr }, None) => if addr == 0x57 {
            ask_bmv(s, 0x56)
        } else {
            probe_done(s)
        },
        _ => probe_done(s),
    }
}

impl Sensors {
    /// Probe the bus and configure whatever answers. Carry out the operation
    /// and hand what came of it to [`probed`](Self::probed), until there is
    /// nothing more to do.
    pub fn probe() -> (r: (Sensors, BusOp))
        ensures
            r == ask_chip_id(fresh(), 0x76),
            r.1 == (BusOp::WriteRead { addr: 0x76, reg: 0xD0, len: 1 }),
    {
        let s = Sensors {
            found: Found::default(),
            bme_cal: BmeCal::default(),
            bmp_cal: BmpCal::default(),
            readings: Readings::default(),
            stage: Stage::ChipId { addr: 0x76 },
            bme_seen: false,
        };
        (s, BusOp::WriteRead { addr: 0x76, reg: 0xD0, len: 1 })
    }

    fn go(&mut self, stage: Stage, op: BusOp) -> (r: BusOp)
        ensures
            *final(self) == (Sensors { stage, ..*old(self) }),
            r == op,
    {
        self.stage = stage;
        op
    }

    fn after_chip(&mut self, addr: u8) -> (r: BusOp)
        ensures
            (*final(self), r) == after_chip(*old(self), addr),
    {
        if addr == 0x76 {
            self.go(
                Stage::ChipId { addr: 0x77 },
                BusOp::WriteRead { addr: 0x77, reg: 0xD0, len: 1 },
            )
        } else {
            self.go(
                Stage::AdxlId { addr: 0x53 },
                BusOp::WriteRead { addr: 0x53, reg: 0x00, len: 1 },
            )
        }
    }

    fn bme_failed(&mut self, addr: u8) -> (r: BusOp)
        ensures
            (*final(self), r) == bme_failed(*old(self), addr),
    {
        self.found.bme680 = None;
        self.after_chip(addr)
    }

    fn after_mcp(&mut self, addr: u8) -> (r: BusOp)
        ensures
            (*final(self), r) == after_mcp(*old(self), addr),
    {
        if addr < 0x1F {
            self.ask_mcp(addr + 1)
        } else {
            self.ask_lightning(0x03)
        }
    }

    fn ask_mcp(&mut self, addr: u8) -> (r: BusOp)
        ensures
            (*final(self), r) == ask_mcp(*old(self), addr),
    {
        self.go(Stage::McpMaker { addr }, BusOp::WriteRead { addr, reg: 0x06, len: 2 })
    }

    fn ask_lightning(&mut self, addr: u8) -> (r: BusOp)
        ensures
            (*final(self), r) == ask_lightning(*old(self), addr),
    {
        self.go(Stage::LightningId { addr }, BusOp::WriteRead { addr, reg: 0x00, len: 1 })
    }

    fn ask_scd(&mut self) -> (r: BusOp)
        ensures
            (*final(self), r) == ask_scd(*old(self)),
    {
        self.go(Stage::ScdSerialAsk, BusOp::Write2 { addr: 0x62, first: 0x36, second: 0x82 })
    }

    fn ask_sht(&mut self) -> (r: BusOp)
        ensures
            (*final(self), r) == ask_sht(*old(self)),
    {
        self.go(Stage::ShtSerialAsk, BusOp::Write1 { addr: 0x44, byte: 0x89 })
    }

    fn ask_bmv(&mut self, addr: u8) -> (r: BusOp)
        ensures
            (*final(self), r) == ask_bmv(*old(self), addr),
    {
        self.go(Stage::BmvId { addr }, BusOp::Read { addr, len: 1 })
    }

    /// What the last operation of the probe gave: the bytes that it read, or
    /// none where the bus reported an error.
    pub fn probed(&mut self, reply: Option<&[u8]>) -> (r: BusOp)
        requires
            is_probe_stage(old(self).stage),
            reply matches Some(d) ==> d@.len() == probe_len(old(self).stage),
        ensures
            (*final(self), r) == probe_next(*old(self), reply_bytes(reply)),
    {
        match self.stage {
            Stage::ChipId { addr } => match reply {
                Some(d) => {
                    if d[0] == 0x61 && !self.bme_seen {
                        self.found.bme680 = Some(addr);
                        self.bme_seen = true;
                        self.go(
                            Stage::BmeReset { addr },
                            BusOp::Write2 { addr, first: 0xE0, second: 0xB6 },
                        )
                    } else if d[0] == 0x58 && self.found.bmp280.is_none() {
                        self.go(
                            Stage::BmpCal { addr },
                            BusOp::WriteRead { addr, reg: 0x88, len: 24 },
                        )
                    } else {
                        self.after_chip(addr)
                    }
                },
                None => self.after_chip(addr),
            },
            Stage::BmeReset { addr } => match reply {
                Some(_) => self.go(Stage::BmeResetWait { addr }, BusOp::Delay { ms: 5 }),
                None => self.bme_failed(addr),
            },
            Stage::BmeResetWait { addr } => self.go(
                Stage::BmeCalFirst { addr },
                BusOp::WriteRead { addr, reg: 0x89, len: 25 },
            ),
            Stage::BmeCalFirst { addr } => match reply {
                Some(d) => {
                    self.bme_cal = read_bme_cal_first(&self.bme_cal, d);
                    self.go(
                        Stage::BmeCalSecond { addr },
                        BusOp::WriteRead { addr, reg: 0xE1, len: 16 },
                    )
                },
                None => self.bme_failed(addr),
            },
            Stage::BmeCalSecond { addr } => match reply {
                Some(d) => {
                    self.bme_cal = read_bme_cal_second(&self.bme_cal, d);
                    self.go(
                        Stage::BmeHeatRange { addr },
                        BusOp::WriteRead { addr, reg: 0x02, len: 1 },
                    )
                },
                None => self.bme_failed(addr),
            },
            Stage::BmeHeatRange { addr } => match reply {
                Some(d) => {
                    self.bme_cal.res_heat_range = d[0] / 16 % 4;
                    self.go(
                        Stage::BmeHeatVal { addr },
                        BusOp::WriteRead { addr, reg: 0x00, len: 1 },
                    )
                },
                None => self.bme_failed(addr),
            },
            Stage::BmeHeatVal { addr } => match reply {
                Some(d) => {
                    self.bme_cal.res_heat_val = i8_from(d[0]);
                    self.go(
                        Stage::BmeSwitchErr { addr },
                        BusOp::WriteRead { addr, reg: 0x04, len: 1 },
                    )
                },
                None => self.bme_failed(addr),
            },
            Stage::BmeSwitchErr { addr } => match reply {
                Some(d) => {
                    self.bme_cal.range_sw_err = read_high_nibble(d[0]);
                    // Gas heater: 320 C for ~148 ms each measurement.
                    self.go(
                        Stage::BmeHeater { addr },
                        BusOp::HeaterCode { target_c: HEATER_C, ambient_c: AMBIENT_C },
                    )
                },
                None => self.bme_failed(addr),
            },
            Stage::BmeHeater { addr } => match reply {
                Some(d) => self.go(
                    Stage::BmeHeaterSet { addr },
                    BusOp::Write2 { addr, first: 0x5A, second: d[0] },
                ),
                None => self.bme_failed(addr),
            },
            Stage::BmeHeaterSet { addr } => match reply {
                // gas_wait_0: 37 * 4 ms
                Some(_) => self.go(
                    Stage::BmeGasWait { addr },
                    BusOp::Write2 { addr, first: 0x64, second: 0x65 },
                ),
                None => self.bme_failed(addr),
            },
            Stage::BmeGasWait { addr } => match reply {
                // run_gas, profile 0
                Some(_) => self.go(
                    Stage::BmeRunGas { addr },
                    BusOp::Write2 { addr, first: 0x71, second: 0x10 },
                ),
                None => self.bme_failed(addr),
            },
            Stage::BmeRunGas { addr } => match reply {
                Some(_) => self.after_chip(addr),
                None => self.bme_failed(addr),
            },
            Stage::BmpCal { addr } => match reply {
                Some(d) => {
                    self.bmp_cal = read_bmp_cal(d);
                    self.found.bmp280 = Some(addr);
                    self.after_chip(addr)
                },
                None => self.after_chip(addr),
            },
            Stage::AdxlId { addr } => {
                let there: bool = match reply {
                    Some(d) => d[0] == 0xE5,
                    None => false,
                };
                if there {
                    self.found.adxl345 = Some(addr);
                    // Full-resolution +-2g, then measurement mode.
                    self.go(
                        Stage::AdxlFormat { addr },
                        BusOp::Write2 { addr, first: 0x31, second: 0x08 },
                    )
                } else if addr == 0x53 {
                    self.go(
                        Stage::AdxlId { addr: 0x1D },
                        BusOp::WriteRead { addr: 0x1D, reg: 0x00, len: 1 },
                    )
                } else {
                    self.ask_scd()
                }
            },
            Stage::AdxlFormat { addr } => self.go(
                Stage::AdxlMeasure { addr },
                BusOp::Write2 { addr, first: 0x2D, second: 0x08 },
            ),
            Stage::AdxlMeasure { .. } => self.ask_scd(),
            Stage::ScdSerialAsk => match reply {
                Some(_) => self.go(Stage::ScdSerialWait, BusOp::Delay { ms: 1 }),
                None => self.ask_sht(),
            },
            Stage::ScdSerialWait => self.go(Stage::ScdSerial, BusOp::Read { addr: 0x62, len: 9 }),
            Stage::ScdSerial => {
                let there: bool = match reply {
                    Some(d) => check_words(d, 3),
                    None => false,
                };
                if there {
                    self.found.scd41 = true;
                    // start_periodic_measurement
                    self.go(
                        Stage::ScdStart,
                        BusOp::Write2 { addr: 0x62, first: 0x21, second: 0xB1 },
                    )
                } else {
                    self.ask_sht()
                }
            },
            Stage::ScdStart => match reply {
                Some(_) => self.go(Stage::ScdStartWait, BusOp::Delay { ms: 1 }),
                None => self.ask_sht(),
            },
            Stage::ScdStartWait => self.ask_sht(),
            Stage::ShtSerialAsk => match reply {
                Some(_) => self.go(Stage::ShtSerialWait, BusOp::Delay { ms: 10 }),
                None => self.ask_mcp(0x18),
            },
            Stage::ShtSerialWait => self.go(Stage::ShtSerial, BusOp::Read { addr: 0x44, len: 6 }),
            Stage::ShtSerial => {
                let there: bool = match reply {
                    Some(d) => check_words(d, 2),
                    None => false,
                };
                if there {
                    self.found.sht45 = true;
                }
                self.ask_mcp(0x18)
            },
            Stage::McpMaker { addr } => {
                let there: bool = match reply {
                    Some(d) => d[0] == 0x00 && d[1] == 0x54,
                    None => false,
                };
                if there {
                    self.go(
                        Stage::McpDevice { addr },
                        BusOp::WriteRead { addr, reg: 0x07, len: 2 },
                    )
                } else {
                    self.after_mcp(addr)
                }
            },
            Stage::McpDevice { addr } => {
                let there: bool = match reply {
                    Some(d) => d[0] == 0x04,
                    None => false,
                };
                if there {
                    self.found.mcp9808 = Some(addr);
                    self.ask_lightning(0x03)
                } else {
                    self.after_mcp(addr)
                }
            },
            Stage::LightningId { addr } => match reply {
                Some(_) => {
                    self.found.as3935 = Some(addr);
                    // Direct commands: preset defaults, then recalibrate
                    // the RC oscillators.
                    self.go(
                        Stage::LightningPreset { addr },
                        BusOp::Write2 { addr, first: 0x3C, second: 0x96 },
                    )
                },
                None => {
                    if addr > 0x01 {
                        self.ask_lightning(addr - 1)
                    } else {
                        self.ask_bmv(0x57)
                    }
                },
            },
            Stage::LightningPreset { addr } => self.go(
                Stage::LightningTune { addr },
                BusOp::Write2 { addr, first: 0x3D, second: 0x96 },
            ),
            Stage::LightningTune { .. } => self.go(Stage::LightningWait, BusOp::Delay { ms: 3 }),
            Stage::LightningWait => self.ask_bmv(0x57),
            Stage::BmvId { addr } => match reply {
                Some(_) => {
                    self.found.bmv080 = Some(addr);
                    self.go(Stage::Idle, BusOp::Done)
                },
                None => {
                    if addr == 0x57 {
                        self.ask_bmv(0x56)
                    } else {
                        self.go(Stage::Idle, BusOp::Done)
                    }
                },
            },
            _ => self.go(Stage::Idle, BusOp::Done),
        }
    }
}

/// What the probe asks for is what its next step takes, and it ends idle.
pub proof fn probe_keeps_step(s: Sensors, reply: Option<Seq<u8>>)
    requires
        is_probe_stage(s.stage),
        reply matches Some(d) ==> d.len() == probe_len(s.stage),
    ensures
        ({
            let after = probe_next(s, reply);
            &&& after.1 is Done ==> after.0.stage is Idle
            &&& !(after.1 is Done) ==> is_probe_stage(after.0.stage) && op_len(after.1)
                == probe_len(after.0.stage)
        }),
{
}

/// The number of steps that the probe can still take.
pub open spec fn probe_steps_left(s: Sensors) -> nat {
    match s.stage {
        Stage::ChipId { addr } => if addr == 0x76 {
            90
        } else {
            70
        },
        Stage::BmeReset { addr } => if addr == 0x76 {
            88
        } else {
            68
        },
        Stage::BmeResetWait { addr } => if addr == 0x76 {
            87
        } else {
            67
        },
        Stage::BmeCalFirst { addr } => if addr == 0x76 {
            86
        } else {
            66
        },
        Stage::BmeCalSecond { addr } => if addr == 0x76 {
            85
        } else {
            65
        },
        Stage::BmeHeatRange { addr } => if addr == 0x76 {
            84
        } else {
            64
        },
        Stage::BmeHeatVal { addr } => if addr == 0x76 {
            83
        } else {
            63
        },
        Stage::BmeSwitchErr { addr } => if addr == 0x76 {
            82
        } else {
            62
        },
        Stage::BmeHeater { addr } => if addr == 0x76 {
            81
        } else {
            61
        },
        Stage::BmeHeaterSet { addr } => if addr == 0x76 {
            80
        } else {
            60
        },
        Stage::BmeGasWait { addr } => if addr == 0x76 {
            79
        } else {
            59
        },
        Stage::BmeRunGas { addr } => if addr == 0x76 {
            78
        } else {
            58
        },
        Stage::BmpCal { addr } => if addr == 0x76 {
            77
        } else {
            57
        },
        Stage::AdxlId { addr } => if addr == 0x53 {
            50
        } else {
            49
        },
        Stage::AdxlFormat { .. } => 48,
        Stage::AdxlMeasure { .. } => 47,
        Stage::ScdSerialAsk => 46,
        Stage::ScdSerialWait => 45,
        Stage::ScdSerial => 44,
        Stage::ScdStart => 43,
        Stage::ScdStartWait => 42,
        Stage::ShtSerialAsk => 41,
        Stage::ShtSerialWait => 40,
        Stage::ShtSerial => 39,
        Stage::McpMaker { addr } => if addr <= 0x1F {
            (20 + 2 * (0x1F - addr) + 1) as nat
        } else {
            20
        },
        Stage::McpDevice { addr } => if addr <= 0x1F {
            (20 + 2 * (0x1F - addr)) as nat
        } else {
            20
        },
        Stage::LightningId { addr } => if addr <= 3 {
            (10 + addr) as nat
        } else {
            19
        },
        Stage::LightningPreset { .. } => 9,
        Stage::LightningTune { .. } => 8,
        Stage::LightningWait => 7,
        Stage::BmvId { addr } => if addr == 0x57 {
            2
        } else {
            1
        },
        _ => 0,
    }
}

/// The addresses that a probe goes through.
pub open spec fn probe_addr_ok(stage: Stage) -> bool {
    match stage {
        Stage::McpMaker { addr } => 0x18 <= addr <= 0x1F,
        Stage::McpDevice { addr } => 0x18 <= addr <= 0x1F,
        Stage::LightningId { addr } => 1 <= addr <= 3,
        _ => true,
    }
}

/// The probe ends, whatever the bus does: every step leaves fewer than before.
pub proof fn probe_ends(s: Sensors, reply: Option<Seq<u8>>)
    requires
        is_probe_stage(s.stage),
        probe_addr_ok(s.stage),
    ensures
        probe_steps_left(probe_next(s, reply).0) < probe_steps_left(s) <= 90,
        probe_addr_ok(probe_next(s, reply).0.stage),
{
}

/// A sensor is only ever reported found where it answered: on a bus on which
/// every transaction fails, a step of the probe finds nothing more.
pub proof fn silent_bus_finds_nothing(s: Sensors)
    requires
        is_probe_stage(s.stage),
    ensures
        ({
            let after = probe_next(s, None).0.found;
            &&& after == s.found || after == (Found { bme680: None, ..s.found })
        }),
{
}

/// Where a found device's address can lie.
pub proof fn found_addresses_are_its_own(s: Sensors, reply: Option<Seq<u8>>)
    requires
        is_probe_stage(s.stage),
        probe_addr_ok(s.stage),
    ensures
        ({
            let f = probe_next(s, reply).0.found;
            &&& f.bme680 != s.found.bme680 ==> f.bme680 is None || s.stage == (Stage::ChipId {
                addr: f.bme680->0,
            })
            &&& f.bmp280 != s.found.bmp280 ==> s.stage == (Stage::BmpCal { addr: f.bmp280->0 })
            &&& f.mcp9808 != s.found.mcp9808 ==> f.mcp9808 is Some && 0x18 <= f.mcp9808->0 <= 0x1F
            &&& f.as3935 != s.found.as3935 ==> f.as3935 is Some && 1 <= f.as3935->0 <= 3
        }),
{
}

} // verus!
