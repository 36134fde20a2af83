//! Whole probes: what a run of the startup probe finds, from what the bus
//! answers.

use vstd::prelude::*;
use super::{none_found, words_check_out, Found, Sensors, Stage};
use super::probe::{
    after_chip, ask_chip_id, bme_failed, fresh, is_probe_stage, probe_addr_ok, probe_ends,
    probe_next, probe_steps_left,
};

verus! {

/// The probe from `s` on, where a stage's transaction gives `answers` of that
/// stage. No stage comes twice, as every step leaves fewer
/// ([`probe_ends`]), so this is any run on any bus.
pub open spec fn probe_run(s: Sensors, answers: spec_fn(Stage) -> Option<Seq<u8>>) -> Sensors
    decreases probe_steps_left(s),
{
    if is_probe_stage(s.stage) && probe_addr_ok(s.stage) {
        proof {
            probe_ends(s, answers(s.stage));
        }
        probe_run(probe_next(s, answers(s.stage)).0, answers)
    } else {
        s
    }
}

/// The first of `addrs`, in order, at which `there` holds.
pub open spec fn first_at(there: spec_fn(u8) -> bool, addrs: Seq<u8>) -> Option<u8>
    decreases addrs.len(),
{
    if addrs.len() == 0 {
        None
    } else if there(addrs[0]) {
        Some(addrs[0])
    } else {
        first_at(there, addrs.drop_first())
    }
}

/// The first address is one at which `there` holds, and before it there is
/// none; without one there is none at all.
pub proof fn first_at_is_the_first(there: spec_fn(u8) -> bool, addrs: Seq<u8>)
    ensures
        match first_at(there, addrs) {
            Some(a) => exists|i: int|
                #![trigger addrs[i]]
                0 <= i < addrs.len() && addrs[i] == a && there(a) && forall|j: int|
                    0 <= j < i ==> !there(#[trigger] addrs[j]),
            None => forall|j: int| 0 <= j < addrs.len() ==> !there(#[trigger] addrs[j]),
        },
    decreases addrs.len(),
{
    if addrs.len() > 0 && !there(addrs[0]) {
        let rest = addrs.drop_first();
        first_at_is_the_first(there, rest);
        match first_at(there, addrs) {
            Some(a) => {
                let i = choose|i: int|
                    #![trigger rest[i]]
                    0 <= i < rest.len() && rest[i] == a && there(a) && forall|j: int|
                        0 <= j < i ==> !there(#[trigger] rest[j]);
                assert(addrs[i + 1] == a);
                assert forall|j: int| 0 <= j < i + 1 implies !there(#[trigger] addrs[j]) by {
                    if j > 0 {
                        assert(rest[j - 1] == addrs[j]);
                    }
                }
            },
            None => {
                assert forall|j: int| 0 <= j < addrs.len() implies !there(#[trigger] addrs[j]) by {
                    if j > 0 {
                        assert(rest[j - 1] == addrs[j]);
                    }
                }
            },
        }
    }
}

/// A BME680's chip id at `addr`.
pub open spec fn bme_at(answers: spec_fn(Stage) -> Option<Seq<u8>>) -> spec_fn(u8) -> bool {
    |addr: u8| answers(Stage::ChipId { addr }) matches Some(d) && d[0] == 0x61
}

/// Every transaction that sets up the BME680 at `addr` succeeds.
pub open spec fn bme_sets_up(answers: spec_fn(Stage) -> Option<Seq<u8>>, addr: u8) -> bool {
    &&& answers(Stage::BmeReset { addr }) is Some
    &&& answers(Stage::BmeCalFirst { addr }) is Some
    &&& answers(Stage::BmeCalSecond { addr }) is Some
    &&& answers(Stage::BmeHeatRange { addr }) is Some
    &&& answers(Stage::BmeHeatVal { addr }) is Some
    &&& answers(Stage::BmeSwitchErr { addr }) is Some
    &&& answers(Stage::BmeHeater { addr }) is Some
    &&& answers(Stage::BmeHeaterSet { addr }) is Some
    &&& answers(Stage::BmeGasWait { addr }) is Some
    &&& answers(Stage::BmeRunGas { addr }) is Some
}

/// A BMP280's chip id at `addr`, and its calibration.
pub open spec fn bmp_at(answers: spec_fn(Stage) -> Option<Seq<u8>>) -> spec_fn(u8) -> bool {
    |addr: u8|
        (answers(Stage::ChipId { addr }) matches Some(d) && d[0] == 0x58) && answers(
            Stage::BmpCal { addr },
        ) is Some
}

/// An accelerometer's id at `addr`.
pub open spec fn adxl_at(answers: spec_fn(Stage) -> Option<Seq<u8>>) -> spec_fn(u8) -> bool {
    |addr: u8| answers(Stage::AdxlId { addr }) matches Some(d) && d[0] == 0xE5
}

/// An SCD41 that gives its serial number.
pub open spec fn scd_answers(answers: spec_fn(Stage) -> Option<Seq<u8>>) -> bool {
    answers(Stage::ScdSerialAsk) is Some && (answers(Stage::ScdSerial) matches Some(d)
        && words_check_out(d, 3))
}

/// An SHT45 that gives its serial number.
pub open spec fn sht_answers(answers: spec_fn(Stage) -> Option<Seq<u8>>) -> bool {
    answers(Stage::ShtSerialAsk) is Some && (answers(Stage::ShtSerial) matches Some(d)
        && words_check_out(d, 2))
}

/// An MCP9808's manufacturer and device ids at `addr`.
pub open spec fn mcp_at(answers: spec_fn(Stage) -> Option<Seq<u8>>) -> spec_fn(u8) -> bool {
    |addr: u8|
        (answers(Stage::McpMaker { addr }) matches Some(m) && m[0] == 0x00 && m[1] == 0x54) && (
        answers(Stage::McpDevice { addr }) matches Some(d) && d[0] == 0x04)
}

/// The addresses that an MCP9808 can have, from `from` on.
pub open spec fn mcp_addrs(from: u8) -> Seq<u8> {
    Seq::new((0x20 - from) as nat, |i: int| (from + i) as u8)
}

/// A lightning sensor that answers at `addr`.
pub open spec fn lightning_at(answers: spec_fn(Stage) -> Option<Seq<u8>>) -> spec_fn(u8) -> bool {
    |addr: u8| answers(Stage::LightningId { addr }) is Some
}

/// A BMV080 that answers at `addr`.
pub open spec fn bmv_at(answers: spec_fn(Stage) -> Option<Seq<u8>>) -> spec_fn(u8) -> bool {
    |addr: u8| answers(Stage::BmvId { addr }) is Some
}

/// What there is to find on a bus that gives these answers.
pub open spec fn found_on(answers: spec_fn(Stage) -> Option<Seq<u8>>) -> Found {
    Found {
        bme680: match first_at(bme_at(answers), seq![0x76u8, 0x77u8]) {
            Some(addr) => if bme_sets_up(answers, addr) {
                Some(addr)
            } else {
                None
            },
            None => None,
        },
        bmp280: first_at(bmp_at(answers), seq![0x76u8, 0x77u8]),
        scd41: scd_answers(answers),
        sht45: sht_answers(answers),
        mcp9808: first_at(mcp_at(answers), mcp_addrs(0x18)),
        adxl345: first_at(adxl_at(answers), seq![0x53u8, 0x1Du8]),
        as3935: first_at(lightning_at(answers), seq![0x03u8, 0x02u8, 0x01u8]),
        bmv080: first_at(bmv_at(answers), seq![0x57u8, 0x56u8]),
    }
}

/// One step of a run.
proof fn probe_step(s: Sensors, answers: spec_fn(Stage) -> Option<Seq<u8>>) -> (t: Sensors)
    requires
        is_probe_stage(s.stage),
        probe_addr_ok(s.stage),
    ensures
        t == probe_next(s, answers(s.stage)).0,
        probe_run(s, answers) == probe_run(t, answers),
{
    probe_next(s, answers(s.stage)).0
}

/// The first half of setting up a BME680.
proof fn bme_first_half(
    s: Sensors,
    addr: u8,
    answers: spec_fn(Stage) -> Option<Seq<u8>>,
) -> (t: Sensors)
    requires
        s.stage == (Stage::BmeReset { addr }),
    ensures
        probe_run(s, answers) == probe_run(t, answers),
        t.bme_seen == s.bme_seen,
        ({
            let through = {
                &&& answers(Stage::BmeReset { addr }) is Some
                &&& answers(Stage::BmeCalFirst { addr }) is Some
                &&& answers(Stage::BmeCalSecond { addr }) is Some
                &&& answers(Stage::BmeHeatRange { addr }) is Some
                &&& answers(Stage::BmeHeatVal { addr }) is Some
            };
            &&& through ==> t.found == s.found && t.stage == (Stage::BmeSwitchErr { addr })
            &&& !through ==> t.found == bme_failed(s, addr).0.found && t.stage == after_chip(
                s,
                addr,
            ).0.stage
        }),
{
    let s1 = probe_step(s, answers);
    if answers(Stage::BmeReset { addr }) is None {
        s1
    } else {
        let s2 = probe_step(s1, answers);
        let s3 = probe_step(s2, answers);
        if answers(Stage::BmeCalFirst { addr }) is None {
            s3
        } else {
            let s4 = probe_step(s3, answers);
            if answers(Stage::BmeCalSecond { addr }) is None {
                s4
            } else {
                let s5 = probe_step(s4, answers);
                if answers(Stage::BmeHeatRange { addr }) is None {
                    s5
                } else {
                    probe_step(s5, answers)
                }
            }
        }
    }
}

/// The second half of setting up a BME680.
proof fn bme_second_half(
    s: Sensors,
    addr: u8,
    answers: spec_fn(Stage) -> Option<Seq<u8>>,
) -> (t: Sensors)
    requires
        s.stage == (Stage::BmeSwitchErr { addr }),
    ensures
        probe_run(s, answers) == probe_run(t, answers),
        t.bme_seen == s.bme_seen,
        t.stage == after_chip(s, addr).0.stage,
        ({
            let through = {
                &&& answers(Stage::BmeSwitchErr { addr }) is Some
                &&& answers(Stage::BmeHeater { addr }) is Some
                &&& answers(Stage::BmeHeaterSet { addr }) is Some
                &&& answers(Stage::BmeGasWait { addr }) is Some
                &&& answers(Stage::BmeRunGas { addr }) is Some
            };
            t.found == if through {
                s.found
            } else {
                bme_failed(s, addr).0.found
            }
        }),
{
    let s1 = probe_step(s, answers);
    if answers(Stage::BmeSwitchErr { addr }) is None {
        s1
    } else {
        let s2 = probe_step(s1, answers);
        if answers(Stage::BmeHeater { addr }) is None {
            s2
        } else {
            let s3 = probe_step(s2, answers);
            if answers(Stage::BmeHeaterSet { addr }) is None {
                s3
            } else {
                let s4 = probe_step(s3, answers);
                if answers(Stage::BmeGasWait { addr }) is None {
                    s4
                } else {
                    probe_step(s4, answers)
                }
            }
        }
    }
}

/// One address at which a Bosch sensor can be.
proof fn chip_run(
    s: Sensors,
    addr: u8,
    answers: spec_fn(Stage) -> Option<Seq<u8>>,
) -> (t: Sensors)
    requires
        s.stage == (Stage::ChipId { addr }),
        s.bme_seen || s.found.bme680 is None,
    ensures
        probe_run(s, answers) == probe_run(t, answers),
        t.stage == after_chip(s, addr).0.stage,
        t.bme_seen == (s.bme_seen || bme_at(answers)(addr)),
        t.found == (Found {
            bme680: if !s.bme_seen && bme_at(answers)(addr) && bme_sets_up(answers, addr) {
                Some(addr)
            } else {
                s.found.bme680
            },
            bmp280: if s.found.bmp280 is None && bmp_at(answers)(addr) {
                Some(addr)
            } else {
                s.found.bmp280
            },
            ..s.found
        }),
{
    let s1 = probe_step(s, answers);
    if s1.stage is BmeReset {
        let s2 = bme_first_half(s1, addr, answers);
        if s2.stage is BmeSwitchErr {
            bme_second_half(s2, addr, answers)
        } else {
            s2
        }
    } else if s1.stage is BmpCal {
        probe_step(s1, answers)
    } else {
        s1
    }
}

/// The accelerometer.
proof fn adxl_run(s: Sensors, answers: spec_fn(Stage) -> Option<Seq<u8>>) -> (t: Sensors)
    requires
        s.stage == (Stage::AdxlId { addr: 0x53 }),
        s.found.adxl345 is None,
    ensures
        probe_run(s, answers) == probe_run(t, answers),
        t.stage is ScdSerialAsk,
        t.found == (Found {
            adxl345: first_at(adxl_at(answers), seq![0x53u8, 0x1Du8]),
            ..s.found
        }),
{
    let addrs = seq![0x53u8, 0x1Du8];
    reveal_with_fuel(first_at, 3);
    assert(addrs.drop_first()[0] == 0x1D);
    let s1 = probe_step(s, answers);
    let s2 = if s1.stage is AdxlId {
        probe_step(s1, answers)
    } else {
        s1
    };
    if s2.stage is AdxlFormat {
        let s3 = probe_step(s2, answers);
        probe_step(s3, answers)
    } else {
        s2
    }
}

/// The CO2 sensor.
proof fn scd_run(s: Sensors, answers: spec_fn(Stage) -> Option<Seq<u8>>) -> (t: Sensors)
    requires
        s.stage is ScdSerialAsk,
        !s.found.scd41,
    ensures
        probe_run(s, answers) == probe_run(t, answers),
        t.stage is ShtSerialAsk,
        t.found == (Found { scd41: scd_answers(answers), ..s.found }),
{
    let s1 = probe_step(s, answers);
    if s1.stage is ScdSerialWait {
        let s2 = probe_step(s1, answers);
        let s3 = probe_step(s2, answers);
        if s3.stage is ScdStart {
            let s4 = probe_step(s3, answers);
            if s4.stage is ScdStartWait {
                probe_step(s4, answers)
            } else {
                s4
            }
        } else {
            s3
        }
    } else {
        s1
    }
}

/// The humidity sensor.
proof fn sht_run(s: Sensors, answers: spec_fn(Stage) -> Option<Seq<u8>>) -> (t: Sensors)
    requires
        s.stage is ShtSerialAsk,
        !s.found.sht45,
    ensures
        probe_run(s, answers) == probe_run(t, answers),
        t.stage == (Stage::McpMaker { addr: 0x18 }),
        t.found == (Found { sht45: sht_answers(answers), ..s.found }),
{
    let s1 = probe_step(s, answers);
    if s1.stage is ShtSerialWait {
        let s2 = probe_step(s1, answers);
        probe_step(s2, answers)
    } else {
        s1
    }
}

/// The thermometer, from `addr` on.
proof fn mcp_run(
    s: Sensors,
    addr: u8,
    answers: spec_fn(Stage) -> Option<Seq<u8>>,
) -> (t: Sensors)
    requires
        s.stage == (Stage::McpMaker { addr }),
        0x18 <= addr <= 0x1F,
        s.found.mcp9808 is None,
    ensures
        probe_run(s, answers) == probe_run(t, answers),
        t.stage == (Stage::LightningId { addr: 0x03 }),
        t.found == (Found { mcp9808: first_at(mcp_at(answers), mcp_addrs(addr)), ..s.found }),
    decreases 0x20 - addr,
{
    let addrs = mcp_addrs(addr);
    assert(addrs[0] == addr);
    let s1 = probe_step(s, answers);
    let s2 = if s1.stage is McpDevice {
        probe_step(s1, answers)
    } else {
        s1
    };
    if s2.stage is McpMaker {
        let next = (addr + 1) as u8;
        assert(addrs.drop_first() =~= mcp_addrs(next));
        mcp_run(s2, next, answers)
    } else {
        if addr == 0x1F {
            assert(addrs.drop_first().len() == 0);
            reveal_with_fuel(first_at, 2);
        }
        s2
    }
}

/// A lightning sensor that answered is set up, whatever comes of it.
proof fn lightning_sets_up(
    s: Sensors,
    answers: spec_fn(Stage) -> Option<Seq<u8>>,
) -> (t: Sensors)
    requires
        s.stage is LightningPreset,
    ensures
        probe_run(s, answers) == probe_run(t, answers),
        t.stage == (Stage::BmvId { addr: 0x57 }),
        t.found == s.found,
{
    let s1 = probe_step(s, answers);
    let s2 = probe_step(s1, answers);
    probe_step(s2, answers)
}

/// The lightning sensor's addresses, one by one.
proof fn lightning_addrs(there: spec_fn(u8) -> bool)
    ensures
        first_at(there, seq![0x03u8, 0x02u8, 0x01u8]) == if there(0x03) {
            Some(0x03u8)
        } else if there(0x02) {
            Some(0x02u8)
        } else if there(0x01) {
            Some(0x01u8)
        } else {
            None
        },
{
    let addrs = seq![0x03u8, 0x02u8, 0x01u8];
    reveal_with_fuel(first_at, 4);
    assert(addrs.drop_first()[0] == 0x02);
    assert(addrs.drop_first().drop_first()[0] == 0x01);
}

/// The lightning sensor.
proof fn lightning_run(s: Sensors, answers: spec_fn(Stage) -> Option<Seq<u8>>) -> (t: Sensors)
    requires
        s.stage == (Stage::LightningId { addr: 0x03 }),
        s.found.as3935 is None,
    ensures
        probe_run(s, answers) == probe_run(t, answers),
        t.stage == (Stage::BmvId { addr: 0x57 }),
        t.found == (Found {
            as3935: first_at(lightning_at(answers), seq![0x03u8, 0x02u8, 0x01u8]),
            ..s.found
        }),
{
    lightning_addrs(lightning_at(answers));
    let s1 = probe_step(s, answers);
    if lightning_at(answers)(0x03) {
        lightning_sets_up(s1, answers)
    } else {
        let s2 = probe_step(s1, answers);
        if lightning_at(answers)(0x02) {
            lightning_sets_up(s2, answers)
        } else {
            let s3 = probe_step(s2, answers);
            if lightning_at(answers)(0x01) {
                lightning_sets_up(s3, answers)
            } else {
                s3
            }
        }
    }
}

/// The particle sensor, with which the probe ends.
proof fn bmv_run(s: Sensors, answers: spec_fn(Stage) -> Option<Seq<u8>>)
    requires
        s.stage == (Stage::BmvId { addr: 0x57 }),
        s.found.bmv080 is None,
    ensures
        ({
            let t = probe_run(s, answers);
            &&& t.stage is Idle
            &&& t.found == (Found {
                bmv080: first_at(bmv_at(answers), seq![0x57u8, 0x56u8]),
                ..s.found
            })
        }),
{
    let addrs = seq![0x57u8, 0x56u8];
    reveal_with_fuel(first_at, 3);
    assert(addrs.drop_first()[0] == 0x56);
    let s1 = probe_step(s, answers);
    if s1.stage is BmvId {
        let s2 = probe_step(s1, answers);
        assert(probe_run(s2, answers) == s2);
    } else {
        assert(probe_run(s1, answers) == s1);
    }
}

/// A probe, whatever the bus answers, ends idle, and each sensor that it found
/// is at the first of its addresses, in order, that answered as that sensor
/// does. A BME680 is only found if all of its set-up succeeded.
pub proof fn probe_finds_what_answers(answers: spec_fn(Stage) -> Option<Seq<u8>>)
    ensures
        ({
            let end = probe_run(ask_chip_id(fresh(), 0x76).0, answers);
            &&& end.stage is Idle
            &&& end.found == found_on(answers)
        }),
{
    let addrs = seq![0x76u8, 0x77u8];
    reveal_with_fuel(first_at, 3);
    assert(addrs.drop_first()[0] == 0x77);
    let s = ask_chip_id(fresh(), 0x76).0;
    assert(s.found == none_found());
    let s1 = chip_run(s, 0x76, answers);
    let s2 = chip_run(s1, 0x77, answers);
    let s3 = adxl_run(s2, answers);
    let s4 = scd_run(s3, answers);
    let s5 = sht_run(s4, answers);
    let s6 = mcp_run(s5, 0x18, answers);
    let s7 = lightning_run(s6, answers);
    bmv_run(s7, answers);
}

} // verus!
