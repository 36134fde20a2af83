//! Laws of the sensors' readings: what the bytes of an answer mean.

use vstd::prelude::*;
use crate::bytes::{i16_bits, i16_of, u16_of};
use crate::sensors::{
    accel_of, adc20, axis_mg, bme_cal_first, bme_cal_second, bme_raw_of, bmp_cal_of, bmp_raw_of,
    high_nibble, i16le, i8_of, mcp_of, scd41_of, sensirion_check, sht_of, word_at,
    words_check_out, BmeCal,
};

verus! {

/// A byte, or two, read as signed: the same bits, on either side of zero.
pub proof fn signed_numbers(b: u8, lo: u8, hi: u8)
    ensures
        (i8_of(b) - b) % 256 == 0,
        -128 <= i8_of(b) < 128,
        (i16le(lo, hi) - (lo + 256 * hi)) % 65536 == 0,
        -32768 <= i16le(lo, hi) < 32768,
        (high_nibble(b) - b as int / 16) % 16 == 0,
        -8 <= high_nibble(b) < 8,
{
}

/// The words of a Sensirion answer come high byte first, each with a check byte
/// behind it.
pub proof fn words_come_high_byte_first(d: Seq<u8>)
    ensures
        word_at(d, 0) == 256 * d[0] + d[1],
        word_at(d, 1) == 256 * d[3] + d[4],
        word_at(d, 2) == 256 * d[6] + d[7],
{
}

/// An answer checks out exactly where each of its words does.
pub proof fn every_word_is_checked(d: Seq<u8>)
    requires
        d.len() == 9,
    ensures
        ({
            let a = sensirion_check(seq![d[0], d[1]]) == d[2];
            let b = sensirion_check(seq![d[3], d[4]]) == d[5];
            let c = sensirion_check(seq![d[6], d[7]]) == d[8];
            &&& words_check_out(d, 1) <==> a
            &&& words_check_out(d, 2) <==> a && b
            &&& words_check_out(d, 3) <==> a && b && c
        }),
{
    assert(d.subrange(0, 2) =~= seq![d[0], d[1]]);
    assert(d.subrange(3, 5) =~= seq![d[3], d[4]]);
    assert(d.subrange(6, 8) =~= seq![d[6], d[7]]);
    assert forall|i: int| 0 <= i < 3 implies #[trigger] d.subrange(3 * i, 3 * i + 2) == (if i
        == 0 {
        d.subrange(0, 2)
    } else if i == 1 {
        d.subrange(3, 5)
    } else {
        d.subrange(6, 8)
    }) by {}
    let z = 0int;
    let y = 1int;
    let x = 2int;
    assert(d.subrange(3 * z, 3 * z + 2) == d.subrange(0, 2));
    assert(d.subrange(3 * y, 3 * y + 2) == d.subrange(3, 5));
    assert(d.subrange(3 * x, 3 * x + 2) == d.subrange(6, 8));
}

/// An SCD41 tells the CO2 as it is, the temperature on a scale of 175 degrees
/// from -45, and the humidity on one of 100 percent, rounded down.
pub proof fn scd41_scales(d: Seq<u8>)
    ensures
        ({
            let r = scd41_of(d);
            let t = 256 * d[3] + d[4];
            let h = 256 * d[6] + d[7];
            &&& r.co2_ppm == 256 * d[0] + d[1]
            &&& (r.temp_c_x100 + 4500) * 65535 <= 17500 * t < (r.temp_c_x100 + 4501) * 65535
            &&& r.hum_pct_x100 * 65535 <= 10000 * h < (r.hum_pct_x100 + 1) * 65535
        }),
{
}

/// An SHT45 tells the temperature on a scale of 175 degrees from -45, and the
/// humidity on one of 125 percent from -6, held to what air can have.
pub proof fn sht45_scales(d: Seq<u8>)
    ensures
        ({
            let r = sht_of(d);
            let t = 256 * d[0] + d[1];
            let h = 256 * d[3] + d[4];
            &&& (r.temp_c_x100 + 4500) * 65535 <= 17500 * t < (r.temp_c_x100 + 4501) * 65535
            &&& r.hum_pct_x100 <= 10000
            &&& 0 < r.hum_pct_x100 < 10000 ==> (r.hum_pct_x100 + 600) * 65535 <= 12500 * h < (
            r.hum_pct_x100 + 601) * 65535
            &&& r.hum_pct_x100 == 0 ==> 12500 * h < 601 * 65535
            &&& r.hum_pct_x100 == 10000 ==> 12500 * h >= 10600 * 65535
        }),
{
}

/// An MCP9808 tells its temperature in the low thirteen bits, in sixteenths of a
/// degree; the alert flags above them play no part.
pub proof fn mcp9808_scale(d: Seq<u8>, flags: u8)
    requires
        d.len() == 2,
        flags < 8,
    ensures
        ({
            let bits = 256 * (d[0] % 32) + d[1];
            let sixteenths = if bits < 4096 {
                bits as int
            } else {
                bits - 8192
            };
            let r = mcp_of(d).temp_c_x100;
            &&& -4 < 4 * r - 25 * sixteenths < 4
            &&& sixteenths >= 0 ==> r >= 0 && 4 * r <= 25 * sixteenths
            &&& sixteenths <= 0 ==> r <= 0 && 4 * r >= 25 * sixteenths
            &&& mcp_of(seq![(d[0] % 32 + 32 * flags) as u8, d[1]]) == mcp_of(d)
        }),
{
    let e = seq![(d[0] % 32 + 32 * flags) as u8, d[1]];
    assert(u16_of(e[1], e[0]) % 0x2000 == u16_of(d[1], d[0]) % 0x2000);
}

/// An ADXL345 tells 3.9 mg for each unit of each axis, x, y and z one after the
/// other, low bytes first, and the same the other way round as its negative.
pub proof fn adxl345_scale(d: Seq<u8>, lo: u8, hi: u8, raw: i16)
    ensures
        -10 < 10 * accel_of(d).x_mg - 39 * i16le(d[0], d[1]) < 10,
        -10 < 10 * accel_of(d).y_mg - 39 * i16le(d[2], d[3]) < 10,
        -10 < 10 * accel_of(d).z_mg - 39 * i16le(d[4], d[5]) < 10,
        i16le(lo, hi) >= 0 ==> axis_mg(lo, hi) >= 0 && 10 * axis_mg(lo, hi) <= 39 * i16le(lo, hi),
        i16le(lo, hi) <= 0 ==> axis_mg(lo, hi) <= 0 && 10 * axis_mg(lo, hi) >= 39 * i16le(lo, hi),
        i16_of(i16_bits(raw)) == raw,
{
}

/// A BME680's raw values: 20 bits of pressure, then 20 of temperature, high bits
/// first, 16 of humidity, and ten of gas with its range and a flag.
pub proof fn bme680_places(f: Seq<u8>)
    ensures
        ({
            let r = bme_raw_of(f);
            &&& 16 * r.press_adc + f[4] % 16 == 65536 * f[2] + 256 * f[3] + f[4]
            &&& 16 * r.temp_adc + f[7] % 16 == 65536 * f[5] + 256 * f[6] + f[7]
            &&& r.hum_adc == 256 * f[8] + f[9]
            &&& 64 * r.gas_adc + f[14] % 64 == 256 * f[13] + f[14]
            &&& r.gas_range == f[14] % 16
            &&& r.gas_valid <==> f[14] % 64 >= 32
        }),
{
}

/// A BMP280's raw values: 20 bits of pressure, then 20 of temperature.
pub proof fn bmp280_places(f: Seq<u8>)
    ensures
        16 * bmp_raw_of(f).press_adc + f[2] % 16 == 65536 * f[0] + 256 * f[1] + f[2],
        16 * bmp_raw_of(f).temp_adc + f[5] % 16 == 65536 * f[3] + 256 * f[4] + f[5],
{
}

/// A signed number of two bytes, low byte first.
pub open spec fn is_i16(x: i16, lo: u8, hi: u8) -> bool {
    (x - lo - 256 * hi) % 65536 == 0
}

/// A signed number of one byte.
pub open spec fn is_i8(x: i8, b: u8) -> bool {
    (x - b) % 256 == 0
}

/// Where a BMP280 keeps its calibration: twelve numbers of two bytes, low byte
/// first, T1 to T3 and then P1 to P9, T1 and P1 unsigned.
pub proof fn bmp280_calibration(c: Seq<u8>)
    ensures
        ({
            let r = bmp_cal_of(c);
            &&& r.t1 == c[0] + 256 * c[1]
            &&& is_i16(r.t2, c[2], c[3])
            &&& is_i16(r.t3, c[4], c[5])
            &&& r.p1 == c[6] + 256 * c[7]
            &&& is_i16(r.p2, c[8], c[9])
            &&& is_i16(r.p3, c[10], c[11])
            &&& is_i16(r.p4, c[12], c[13])
            &&& is_i16(r.p5, c[14], c[15])
            &&& is_i16(r.p6, c[16], c[17])
            &&& is_i16(r.p7, c[18], c[19])
            &&& is_i16(r.p8, c[20], c[21])
            &&& is_i16(r.p9, c[22], c[23])
        }),
{
}

/// Where a BME680 keeps its calibration, in two blocks: the first has T2 to T3
/// and the pressure's, the second the humidity's, T1 and the gas heater's. Each
/// block leaves what the other gives.
pub proof fn bme680_calibration(cal: BmeCal, c: Seq<u8>, e: Seq<u8>)
    ensures
        ({
            let r = bme_cal_second(bme_cal_first(cal, c), e);
            &&& is_i16(r.t2, c[1], c[2])
            &&& is_i8(r.t3, c[3])
            &&& r.p1 == c[5] + 256 * c[6]
            &&& is_i16(r.p2, c[7], c[8])
            &&& is_i8(r.p3, c[9])
            &&& is_i16(r.p4, c[11], c[12])
            &&& is_i16(r.p5, c[13], c[14])
            &&& is_i8(r.p7, c[15])
            &&& is_i8(r.p6, c[16])
            &&& is_i16(r.p8, c[19], c[20])
            &&& is_i16(r.p9, c[21], c[22])
            &&& r.p10 == c[23]
            &&& 16 * r.h2 == 256 * e[0] + e[1] - e[1] % 16
            &&& r.h1 == 16 * e[2] + e[1] % 16
            &&& is_i8(r.h3, e[3])
            &&& is_i8(r.h4, e[4])
            &&& is_i8(r.h5, e[5])
            &&& r.h6 == e[6]
            &&& is_i8(r.h7, e[7])
            &&& r.t1 == e[8] + 256 * e[9]
            &&& is_i16(r.g2, e[10], e[11])
            &&& is_i8(r.g1, e[12])
            &&& is_i8(r.g3, e[13])
            &&& r.res_heat_range == cal.res_heat_range
            &&& r.res_heat_val == cal.res_heat_val
            &&& r.range_sw_err == cal.range_sw_err
        }),
{
}

/// The low four bits of the last byte of a 20-bit value play no part.
pub proof fn twenty_bits(b0: u8, b1: u8, b2: u8)
    ensures
        adc20(b0, b1, b2) < 0x10_0000,
        adc20(b0, b1, b2) == adc20(b0, b1, (b2 - b2 % 16) as u8),
{
}

} // verus!
