//! Laws of the sensor bus: what goes over it, stage by stage, and what an answer
//! decides.

use vstd::prelude::*;
use crate::sensors::probe::{is_probe_stage, probe_next};
use crate::sensors::sweep::{bme_next, bmp_next, is_sweep_stage, read_bme, sweep_next};
use crate::sensors::{
    accel_of, bme_raw_of, bmp_cal_of, bmp_raw_of, mcp_of, no_readings, scd41_of, sht_of,
    words_check_out, BaroReading, BmeReading, BusOp, Found, Readings, Sensors, Stage,
};

verus! {

/// What the bus carries in a stage, for the sensors that were found; the heater
/// code and the compensations, which rest on an answer, are left out.
pub open spec fn carried_in(s: Sensors) -> BusOp {
    match s.stage {
        // BME680 and BMP280
        Stage::ChipId { addr } => BusOp::WriteRead { addr, reg: 0xD0, len: 1 },
        Stage::BmeReset { addr } => BusOp::Write2 { addr, first: 0xE0, second: 0xB6 },
        Stage::BmeResetWait { .. } => BusOp::Delay { ms: 5 },
        Stage::BmeCalFirst { addr } => BusOp::WriteRead { addr, reg: 0x89, len: 25 },
        Stage::BmeCalSecond { addr } => BusOp::WriteRead { addr, reg: 0xE1, len: 16 },
        Stage::BmeHeatRange { addr } => BusOp::WriteRead { addr, reg: 0x02, len: 1 },
        Stage::BmeHeatVal { addr } => BusOp::WriteRead { addr, reg: 0x00, len: 1 },
        Stage::BmeSwitchErr { addr } => BusOp::WriteRead { addr, reg: 0x04, len: 1 },
        Stage::BmeHeater { .. } => BusOp::HeaterCode { target_c: 320, ambient_c: 25 },
        Stage::BmeGasWait { addr } => BusOp::Write2 { addr, first: 0x64, second: 0x65 },
        Stage::BmeRunGas { addr } => BusOp::Write2 { addr, first: 0x71, second: 0x10 },
        Stage::BmpCal { addr } => BusOp::WriteRead { addr, reg: 0x88, len: 24 },
        Stage::BmeHumidity { addr } => BusOp::Write2 { addr, first: 0x72, second: 0x01 },
        Stage::BmeForce { addr } => BusOp::Write2 { addr, first: 0x74, second: 0x51 },
        Stage::BmeStatus { addr, .. } => BusOp::WriteRead { addr, reg: 0x1D, len: 1 },
        Stage::BmeStatusWait { .. } => BusOp::Delay { ms: 5 },
        Stage::BmeData { addr } => BusOp::WriteRead { addr, reg: 0x1D, len: 15 },
        Stage::BmpForce { addr } => BusOp::Write2 { addr, first: 0xF4, second: 0x4D },
        Stage::BmpStatus { addr, .. } => BusOp::WriteRead { addr, reg: 0xF3, len: 1 },
        Stage::BmpStatusWait { .. } => BusOp::Delay { ms: 5 },
        Stage::BmpData { addr } => BusOp::WriteRead { addr, reg: 0xF7, len: 6 },
        // ADXL345
        Stage::AdxlId { addr } => BusOp::WriteRead { addr, reg: 0x00, len: 1 },
        Stage::AdxlFormat { addr } => BusOp::Write2 { addr, first: 0x31, second: 0x08 },
        Stage::AdxlMeasure { addr } => BusOp::Write2 { addr, first: 0x2D, second: 0x08 },
        Stage::AccelData => BusOp::WriteRead { addr: s.found.adxl345->0, reg: 0x32, len: 6 },
        // SCD41
        Stage::ScdSerialAsk => BusOp::Write2 { addr: 0x62, first: 0x36, second: 0x82 },
        Stage::ScdSerialWait => BusOp::Delay { ms: 1 },
        Stage::ScdSerial => BusOp::Read { addr: 0x62, len: 9 },
        Stage::ScdStart => BusOp::Write2 { addr: 0x62, first: 0x21, second: 0xB1 },
        Stage::ScdStartWait => BusOp::Delay { ms: 1 },
        Stage::ScdReadyAsk => BusOp::Write2 { addr: 0x62, first: 0xE4, second: 0xB8 },
        Stage::ScdReadyWait => BusOp::Delay { ms: 1 },
        Stage::ScdReady => BusOp::Read { addr: 0x62, len: 3 },
        Stage::ScdDataAsk => BusOp::Write2 { addr: 0x62, first: 0xEC, second: 0x05 },
        Stage::ScdDataWait => BusOp::Delay { ms: 1 },
        Stage::ScdData => BusOp::Read { addr: 0x62, len: 9 },
        // SHT45
        Stage::ShtSerialAsk => BusOp::Write1 { addr: 0x44, byte: 0x89 },
        Stage::ShtSerialWait => BusOp::Delay { ms: 10 },
        Stage::ShtSerial => BusOp::Read { addr: 0x44, len: 6 },
        Stage::ShtAsk => BusOp::Write1 { addr: 0x44, byte: 0xFD },
        Stage::ShtWait => BusOp::Delay { ms: 10 },
        Stage::ShtData => BusOp::Read { addr: 0x44, len: 6 },
        // MCP9808
        Stage::McpMaker { addr } => BusOp::WriteRead { addr, reg: 0x06, len: 2 },
        Stage::McpDevice { addr } => BusOp::WriteRead { addr, reg: 0x07, len: 2 },
        Stage::McpData => BusOp::WriteRead { addr: s.found.mcp9808->0, reg: 0x05, len: 2 },
        // AS3935
        Stage::LightningId { addr } => BusOp::WriteRead { addr, reg: 0x00, len: 1 },
        Stage::LightningPreset { addr } => BusOp::Write2 { addr, first: 0x3C, second: 0x96 },
        Stage::LightningTune { addr } => BusOp::Write2 { addr, first: 0x3D, second: 0x96 },
        Stage::LightningWait => BusOp::Delay { ms: 3 },
        Stage::LightningSource { addr } => BusOp::WriteRead { addr, reg: 0x03, len: 1 },
        Stage::LightningDistance { .. } => BusOp::WriteRead {
            addr: s.found.as3935->0,
            reg: 0x07,
            len: 1,
        },
        // BMV080
        Stage::BmvId { addr } => BusOp::Read { addr, len: 1 },
        _ => BusOp::Done,
    }
}

/// Every step of the probe puts on the bus what its new stage is about; the
/// heater's set-point register gets the code that was computed.
#[verifier::rlimit(60)]
pub proof fn probe_talks_to_its_sensors(s: Sensors, reply: Option<Seq<u8>>)
    requires
        is_probe_stage(s.stage),
    ensures
        ({
            let after = probe_next(s, reply);
            &&& !(after.0.stage is BmeHeaterSet) ==> after.1 == carried_in(after.0)
            &&& after.0.stage matches Stage::BmeHeaterSet { addr } ==> {
                &&& reply matches Some(d)
                &&& after.1 == (BusOp::Write2 { addr, first: 0x5A, second: d[0] })
            }
        }),
{
}

/// Where the probe looks for each kind, one address after the other, and where it
/// goes on: Bosch sensors at 0x76 and 0x77, accelerometers at 0x53 and 0x1D, then
/// the SCD41 and the SHT45, temperature sensors from 0x18 to 0x1F, lightning
/// sensors from 3 down to 1, and the particle sensor at 0x57 and 0x56.
pub proof fn probe_looks_everywhere(s: Sensors, addr: u8)
    ensures
        ({
            let after = probe_next(s, None).0;
            &&& s.stage == (Stage::ChipId { addr: 0x76 }) ==> after.stage == (Stage::ChipId {
                addr: 0x77,
            })
            &&& s.stage == (Stage::ChipId { addr: 0x77 }) ==> after.stage == (Stage::AdxlId {
                addr: 0x53,
            })
            &&& s.stage == (Stage::AdxlId { addr: 0x53 }) ==> after.stage == (Stage::AdxlId {
                addr: 0x1D,
            })
            &&& s.stage == (Stage::AdxlId { addr: 0x1D }) ==> after.stage is ScdSerialAsk
            &&& s.stage is ScdSerialAsk || s.stage is ScdSerial || s.stage is ScdStart
                ==> after.stage is ShtSerialAsk
            &&& s.stage is ShtSerialAsk || s.stage is ShtSerial ==> after.stage
                == (Stage::McpMaker { addr: 0x18 })
            &&& s.stage == (Stage::McpMaker { addr }) || s.stage == (Stage::McpDevice { addr })
                ==> after.stage == if addr < 0x1F {
                Stage::McpMaker { addr: (addr + 1) as u8 }
            } else {
                Stage::LightningId { addr: 3 }
            }
            &&& s.stage == (Stage::LightningId { addr }) ==> after.stage == if addr > 1 {
                Stage::LightningId { addr: (addr - 1) as u8 }
            } else {
                Stage::BmvId { addr: 0x57 }
            }
            &&& s.stage == (Stage::BmvId { addr: 0x57 }) ==> after.stage == (Stage::BmvId {
                addr: 0x56,
            })
            &&& s.stage == (Stage::BmvId { addr: 0x56 }) ==> after.stage is Idle
            &&& s.stage is ChipId || s.stage is AdxlId || s.stage is ScdSerial
                || s.stage is ShtSerial || s.stage is McpMaker || s.stage is McpDevice
                || s.stage is LightningId || s.stage is BmvId ==> after.found == s.found
        }),
{
}

/// What an answer has to be for a sensor to be found, and what is found then: the
/// sensor at the address that answered, and nothing else.
pub proof fn answers_tell_sensors(s: Sensors, addr: u8, d: Seq<u8>)
    requires
        d.len() > 1,
    ensures
        ({
            let after = probe_next(s, Some(d)).0;
            &&& s.stage == (Stage::ChipId { addr }) ==> {
                &&& after.stage is BmeReset <==> d[0] == 0x61 && !s.bme_seen
                &&& after.stage is BmeReset ==> after.found == (Found {
                    bme680: Some(addr),
                    ..s.found
                }) && after.bme_seen
                &&& after.stage is BmpCal <==> d[0] == 0x58 && s.found.bmp280 is None
                &&& !(after.stage is BmeReset) ==> after.found == s.found
            }
            &&& s.stage == (Stage::BmpCal { addr }) ==> after.found == (Found {
                bmp280: Some(addr),
                ..s.found
            })
            &&& s.stage == (Stage::AdxlId { addr }) ==> after.found == if d[0] == 0xE5 {
                Found { adxl345: Some(addr), ..s.found }
            } else {
                s.found
            }
            &&& s.stage is ScdSerial ==> after.found == if words_check_out(d, 3) {
                Found { scd41: true, ..s.found }
            } else {
                s.found
            }
            &&& s.stage is ShtSerial ==> after.found == if words_check_out(d, 2) {
                Found { sht45: true, ..s.found }
            } else {
                s.found
            }
            &&& s.stage == (Stage::McpMaker { addr }) ==> after.found == s.found && (
            after.stage is McpDevice <==> d[0] == 0 && d[1] == 0x54)
            &&& s.stage == (Stage::McpDevice { addr }) ==> after.found == if d[0] == 4 {
                Found { mcp9808: Some(addr), ..s.found }
            } else {
                s.found
            }
            &&& s.stage == (Stage::LightningId { addr }) ==> after.found == (Found {
                as3935: Some(addr),
                ..s.found
            })
            &&& s.stage == (Stage::BmvId { addr }) ==> after.found == (Found {
                bmv080: Some(addr),
                ..s.found
            }) && after.stage is Idle
        }),
{
}

/// A BME680 that stops answering while it is set up is not there after all, and
/// the probe goes on with the next address.
pub proof fn half_configured_sensor_is_dropped(s: Sensors, addr: u8)
    requires
        s.stage == (Stage::BmeReset { addr }) || s.stage == (Stage::BmeCalFirst { addr })
            || s.stage == (Stage::BmeCalSecond { addr }) || s.stage == (Stage::BmeHeatRange {
            addr,
        }) || s.stage == (Stage::BmeHeatVal { addr }) || s.stage == (Stage::BmeSwitchErr { addr })
            || s.stage == (Stage::BmeHeater { addr }) || s.stage == (Stage::BmeHeaterSet { addr })
            || s.stage == (Stage::BmeGasWait { addr }) || s.stage == (Stage::BmeRunGas { addr }),
    ensures
        ({
            let after = probe_next(s, None).0;
            &&& after.found == (Found { bme680: None, ..s.found })
            &&& after.stage == if addr == 0x76 {
                Stage::ChipId { addr: 0x77 }
            } else {
                Stage::AdxlId { addr: 0x53 }
            }
        }),
{
}

/// The steps that set a sensor up, once it answers: a BME680's reset, its five
/// reads, its heater and its gas profile; then each sensor is left to the next.
pub proof fn sensors_are_set_up_in_turn(s: Sensors, addr: u8, d: Seq<u8>)
    ensures
        ({
            let after = probe_next(s, Some(d)).0.stage;
            &&& s.stage == (Stage::BmeReset { addr }) ==> after == (Stage::BmeResetWait { addr })
            &&& s.stage == (Stage::BmeResetWait { addr }) ==> after == (Stage::BmeCalFirst {
                addr,
            })
            &&& s.stage == (Stage::BmeCalFirst { addr }) ==> after == (Stage::BmeCalSecond {
                addr,
            })
            &&& s.stage == (Stage::BmeCalSecond { addr }) ==> after == (Stage::BmeHeatRange {
                addr,
            })
            &&& s.stage == (Stage::BmeHeatRange { addr }) ==> after == (Stage::BmeHeatVal { addr })
            &&& s.stage == (Stage::BmeHeatVal { addr }) ==> after == (Stage::BmeSwitchErr { addr })
            &&& s.stage == (Stage::BmeSwitchErr { addr }) ==> after == (Stage::BmeHeater { addr })
            &&& s.stage == (Stage::BmeHeater { addr }) ==> after == (Stage::BmeHeaterSet { addr })
            &&& s.stage == (Stage::BmeHeaterSet { addr }) ==> after == (Stage::BmeGasWait { addr })
            &&& s.stage == (Stage::BmeGasWait { addr }) ==> after == (Stage::BmeRunGas { addr })
            &&& s.stage == (Stage::BmeRunGas { addr: 0x76 }) ==> after == (Stage::ChipId {
                addr: 0x77,
            })
            &&& s.stage == (Stage::BmpCal { addr: 0x76 }) ==> after == (Stage::ChipId {
                addr: 0x77,
            })
            &&& s.stage == (Stage::BmpCal { addr: 0x77 }) ==> after == (Stage::AdxlId {
                addr: 0x53,
            })
            &&& s.stage == (Stage::AdxlFormat { addr }) ==> after == (Stage::AdxlMeasure { addr })
            &&& s.stage == (Stage::AdxlMeasure { addr }) ==> after is ScdSerialAsk
            &&& s.stage is ScdSerialAsk ==> after is ScdSerialWait
            &&& s.stage is ScdSerialWait ==> after is ScdSerial
            &&& s.stage is ScdStart ==> after is ScdStartWait
            &&& s.stage is ScdStartWait ==> after is ShtSerialAsk
            &&& s.stage is ShtSerialAsk ==> after is ShtSerialWait
            &&& s.stage is ShtSerialWait ==> after is ShtSerial
            &&& s.stage == (Stage::LightningPreset { addr }) ==> after == (Stage::LightningTune {
                addr,
            })
            &&& s.stage == (Stage::LightningTune { addr }) ==> after is LightningWait
            &&& s.stage is LightningWait ==> after == (Stage::BmvId { addr: 0x57 })
        }),
{
}

/// What was compensated is kept as it is, but for a humidity that air cannot
/// have, which is taken for saturation, and for a gas resistance that was not
/// measured, which is zero.
pub proof fn compensated_values_are_kept(s: Sensors, bme: BmeReading, baro: BaroReading)
    requires
        s.stage is BmeCompensate,
    ensures
        ({
            let after = bme_next(s, bme).0.readings;
            let valid = s.stage->BmeCompensate_gas_valid;
            &&& after == (Readings { bme: after.bme, ..s.readings })
            &&& after.bme matches Some(r)
            &&& r == (BmeReading { hum_pct_x100: r.hum_pct_x100, gas_ohm: r.gas_ohm, ..bme })
            &&& bme.hum_pct_x100 <= 10000 ==> r.hum_pct_x100 == bme.hum_pct_x100
            &&& bme.hum_pct_x100 > 10000 ==> r.hum_pct_x100 == 10000
            &&& valid ==> r.gas_ohm == bme.gas_ohm
            &&& !valid ==> r.gas_ohm == 0
        }),
        bmp_next(s, baro).0.readings == (Readings { baro: Some(baro), ..s.readings }),
{
}

/// A BME680's gas flag goes with its measurement to the compensation.
pub proof fn gas_flag_goes_along(s: Sensors, addr: u8, d: Seq<u8>, now_ms: u32)
    requires
        d.len() == 15,
        s.stage == (Stage::BmeData { addr }),
    ensures
        sweep_next(s, Some(d), now_ms).0.stage == (Stage::BmeCompensate {
            gas_valid: d[14] % 64 >= 32,
        }),
{
}

/// Every step of a sweep puts on the bus what its new stage is about, and hands
/// what was measured to the compensation.
#[verifier::rlimit(80)]
pub proof fn sweep_talks_to_its_sensors(s: Sensors, reply: Option<Seq<u8>>, now_ms: u32)
    requires
        is_sweep_stage(s.stage),
        s.stage matches Stage::LightningSource { addr } ==> s.found.as3935 == Some(addr),
    ensures
        ({
            let after = sweep_next(s, reply, now_ms);
            &&& !(after.0.stage is BmeCompensate || after.0.stage is BmpCompensate) ==> after.1
                == carried_in(after.0)
            &&& after.0.stage is BmeCompensate ==> {
                &&& reply matches Some(d)
                &&& after.1 == (BusOp::CompensateBme { bme: bme_raw_of(d) })
                &&& s.stage is BmeData
            }
            &&& after.0.stage is BmpCompensate ==> {
                &&& reply matches Some(d)
                &&& after.1 == (BusOp::CompensateBmp { bmp: bmp_raw_of(d) })
                &&& s.stage is BmpData
            }
        }),
{
}

/// A sweep begins with no readings, at the first sensor of the order BME680,
/// SCD41, SHT45, MCP9808, BMP280, ADXL345, AS3935 that was found.
pub proof fn sweep_begins_at_the_first(s: Sensors)
    ensures
        ({
            let begun = read_bme(Sensors { readings: no_readings(), ..s });
            &&& begun.1 == carried_in(begun.0)
            &&& begun.0.readings == no_readings()
            &&& begun.0.found == s.found
            &&& s.found.bme680 is Some <==> begun.0.stage is BmeHumidity
            &&& s.found.bme680 is None && s.found.scd41 <==> begun.0.stage is ScdReadyAsk
            &&& s.found.bme680 is None && !s.found.scd41 && s.found.sht45 <==> begun.0.stage
                is ShtAsk
            &&& s.found.bme680 is None && !s.found.scd41 && !s.found.sht45
                && s.found.mcp9808 is Some <==> begun.0.stage is McpData
            &&& s.found.bme680 is None && !s.found.scd41 && !s.found.sht45
                && s.found.mcp9808 is None && s.found.bmp280 is Some <==> begun.0.stage
                is BmpForce
            &&& s.found.bme680 is None && !s.found.scd41 && !s.found.sht45
                && s.found.mcp9808 is None && s.found.bmp280 is None && s.found.adxl345 is Some
                <==> begun.0.stage is AccelData
            &&& s.found.bme680 is None && !s.found.scd41 && !s.found.sht45
                && s.found.mcp9808 is None && s.found.bmp280 is None && s.found.adxl345 is None
                && s.found.as3935 is Some <==> begun.0.stage is LightningSource
        }),
{
}

/// An answer with data that checks out becomes the reading of its sensor, and of
/// no other; one that does not becomes none.
#[verifier::rlimit(60)]
pub proof fn answers_become_readings(s: Sensors, d: Seq<u8>, now_ms: u32)
    ensures
        ({
            let after = sweep_next(s, Some(d), now_ms).0.readings;
            &&& s.stage is ScdData ==> after == (Readings {
                co2: if words_check_out(d, 3) {
                    Some(scd41_of(d))
                } else {
                    s.readings.co2
                },
                ..s.readings
            })
            &&& s.stage is ShtData ==> after == (Readings {
                sht: if words_check_out(d, 2) {
                    Some(sht_of(d))
                } else {
                    s.readings.sht
                },
                ..s.readings
            })
            &&& s.stage is McpData ==> after == (Readings { mcp: Some(mcp_of(d)), ..s.readings })
            &&& s.stage is AccelData ==> after == (Readings {
                accel: Some(accel_of(d)),
                ..s.readings
            })
        }),
{
}

/// An SCD41 is read exactly where the low eleven bits of its status, which has to
/// check out, are not all zero.
pub proof fn scd41_is_read_when_ready(s: Sensors, d: Seq<u8>, now_ms: u32)
    requires
        s.stage is ScdReady,
        d.len() == 3,
    ensures
        sweep_next(s, Some(d), now_ms).0.stage is ScdDataAsk <==> words_check_out(d, 1) && (d[0]
            % 8 != 0 || d[1] != 0),
{
}

/// A Bosch sensor is read once its status says so, by bit 7 of the BME680's being
/// set or bit 3 of the BMP280's clear; it is waited for 300 ms and then left out.
pub proof fn bosch_sensors_are_waited_for(
    s: Sensors,
    addr: u8,
    start: u32,
    d: Seq<u8>,
    elapsed: u32,
)
    requires
        d.len() == 1,
    ensures
        ({
            let now_ms = ((start + elapsed) % 0x1_0000_0000) as u32;
            let bme = sweep_next(
                Sensors { stage: Stage::BmeStatus { addr, start }, ..s },
                Some(d),
                now_ms,
            ).0;
            let bmp = sweep_next(
                Sensors { stage: Stage::BmpStatus { addr, start }, ..s },
                Some(d),
                now_ms,
            ).0;
            &&& bme.stage is BmeData <==> d[0] >= 128
            &&& bme.stage is BmeStatusWait <==> d[0] < 128 && elapsed <= 300
            &&& bmp.stage is BmpData <==> d[0] % 16 < 8
            &&& bmp.stage is BmpStatusWait <==> d[0] % 16 >= 8 && elapsed <= 300
        }),
{
}

/// A lightning sensor's event: its source in the low four bits, none where they
/// are zero, and its distance in the low six bits, or 63, out of range, where it
/// cannot be read.
pub proof fn lightning_event_is_told(
    s: Sensors,
    addr: u8,
    source: Seq<u8>,
    distance: Option<Seq<u8>>,
    now_ms: u32,
)
    requires
        source.len() == 1,
        s.stage == (Stage::LightningSource { addr }),
    ensures
        ({
            let first = sweep_next(s, Some(source), now_ms);
            let second = sweep_next(first.0, distance, now_ms);
            &&& source[0] % 16 == 0 ==> first.1 is Done && first.0.readings == s.readings
            &&& source[0] % 16 != 0 ==> {
                &&& second.1 is Done
                &&& second.0.readings.lightning matches Some(e)
                &&& e.int_src == source[0] % 16
                &&& e.distance_km == match distance {
                    Some(d) => (d[0] % 64) as int,
                    None => 63,
                }
                &&& second.0.readings == (Readings {
                    lightning: second.0.readings.lightning,
                    ..s.readings
                })
            }
        }),
{
}

/// What the probe keeps of a BMP280 is the calibration that it answered.
pub proof fn bmp280_calibration_is_kept(s: Sensors, addr: u8, d: Seq<u8>)
    requires
        s.stage == (Stage::BmpCal { addr }),
    ensures
        probe_next(s, Some(d)).0.bmp_cal == bmp_cal_of(d),
        probe_next(s, Some(d)).0.bme_cal == s.bme_cal,
        probe_next(s, None).0.bmp_cal == s.bmp_cal,
{
}

/// What the probe keeps of a BME680's heater: the range from bits 4 and 5, the
/// value as a signed byte, and the error from the upper four bits, signed.
pub proof fn bme680_heater_calibration(s: Sensors, addr: u8, d: Seq<u8>)
    requires
        d.len() == 1,
    ensures
        s.stage == (Stage::BmeHeatRange { addr }) ==> probe_next(
            s,
            Some(d),
        ).0.bme_cal.res_heat_range == d[0] as int / 16 % 4,
        s.stage == (Stage::BmeHeatVal { addr }) ==> (probe_next(s, Some(d)).0.bme_cal.res_heat_val
            - d[0]) % 256 == 0,
        s.stage == (Stage::BmeSwitchErr { addr }) ==> (probe_next(
            s,
            Some(d),
        ).0.bme_cal.range_sw_err - d[0] as int / 16) % 16 == 0,
{
}

} // verus!
