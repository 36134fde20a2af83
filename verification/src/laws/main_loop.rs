//! Laws of the node's main loop: what is done when, for which node, and what is
//! said.

use vstd::prelude::*;
use crate::laws::settings::random_numbers_follow_the_state;
use crate::node::{
    as_i32, banner_text, beaconed, best_hum, best_temp, controlled, counted, drew, finished,
    following, last_digits, logged_stats, ota_percent_of, payload_of, percent_text, rank, reboots,
    retried, showed_position, shown_text, starts, sweep_text, swept, telemetry_field, wanted,
    with_field, Features, Node, Task,
};
use crate::platform::Rng;
use crate::rs422::SoilReading;
use crate::sensors::{
    BaroReading, BmeReading, McpReading, Readings, Scd41Reading, ShtReading,
};
use crate::text::{dec, dec_len, lit, lit_codes};
use crate::timer::{is_due, later};

verus! {

/// Either of the two, the sensor suite or the soil probe, is enough for a sweep:
/// a node that has one wants it exactly when its time has come and no OTA
/// transfer is under way, and a node that has neither never does.
pub proof fn either_sensor_is_swept(n: Node, now_ms: u32)
    ensures
        n.features.sensor && !n.ota_active ==> wanted(n, Task::ReadSensors, now_ms) == is_due(
            now_ms,
            n.next_sensor,
        ),
        n.features.rs422 && !n.ota_active ==> wanted(n, Task::ReadSensors, now_ms) == is_due(
            now_ms,
            n.next_sensor,
        ),
        !n.features.sensor && !n.features.rs422 ==> !wanted(n, Task::ReadSensors, now_ms),
{
}

/// A sweep that was done at one time is wanted again from 30 s later on.
pub proof fn sweeps_come_again(n: Node, swept_ms: u32, elapsed: u32)
    requires
        n.features.sensor || n.features.rs422,
        !n.ota_active,
        elapsed < 0x8000_0000,
    ensures
        wanted(swept(n, swept_ms), Task::ReadSensors, later(swept_ms, elapsed)) == (elapsed
            >= 30000),
{
}

/// A heartbeat that was sent at one time is followed by another 10 to 13 s later:
/// never sooner, and always by then, whatever the jitter.
pub proof fn heartbeats_come_again(n: Node, rng: Rng, sent_ms: u32, elapsed: u32)
    requires
        elapsed < 0x8000_0000,
    ensures
        ({
            let after = beaconed(n, rng, sent_ms);
            &&& elapsed < 10000 ==> !wanted(after, Task::Heartbeat, later(sent_ms, elapsed))
            &&& elapsed >= 12999 ==> wanted(after, Task::Heartbeat, later(sent_ms, elapsed))
            &&& after.tx_count == n.tx_count && after.rng == rng
        }),
{
    random_numbers_follow_the_state(rng@, 0, 3000);
}

/// What was done at one time comes again: radio stats after a minute, the
/// position after a second, the charger after a fifth of one, and another try at
/// the display after ten.
pub proof fn other_tasks_come_again(n: Node, done_ms: u32, elapsed: u32)
    requires
        n.features.board && n.features.gps_log && !n.ota_active,
        elapsed < 0x8000_0000,
    ensures
        ({
            let at = later(done_ms, elapsed);
            &&& wanted(logged_stats(n, done_ms), Task::LogStats, at) == (elapsed >= 60000)
            &&& n.display_ok ==> wanted(showed_position(n, done_ms), Task::ShowPosition, at) == (
            elapsed >= 1000)
            &&& wanted(controlled(n, done_ms), Task::Charge, at) == (elapsed >= 200)
            &&& !n.display_ok ==> wanted(retried(n, false, done_ms), Task::RetryDisplay, at) == (
            elapsed >= 10000)
        }),
{
}

/// A display that draws is kept; one that does not is lost, tried again ten
/// seconds later and drawn on no more until a try succeeds.
pub proof fn lost_display_is_retried(n: Node, done_ms: u32, elapsed: u32)
    requires
        n.features.gps_log && !n.ota_active,
        elapsed < 0x8000_0000,
    ensures
        ({
            let at = later(done_ms, elapsed);
            let lost = drew(n, false, done_ms);
            &&& drew(n, true, done_ms) == n
            &&& !lost.display_ok
            &&& wanted(lost, Task::RetryDisplay, at) == (elapsed >= 10000)
            &&& !wanted(lost, Task::ShowPosition, at)
            &&& retried(lost, true, at).display_ok
            &&& !retried(lost, false, at).display_ok
        }),
{
}

/// Everything that is done moves its own deadline and nothing else.
pub proof fn deadlines_are_apart(n: Node, rng: Rng, now_ms: u32)
    ensures
        swept(n, now_ms) == (Node { next_sensor: swept(n, now_ms).next_sensor, ..n }),
        logged_stats(n, now_ms) == (Node { next_stats: logged_stats(n, now_ms).next_stats, ..n }),
        showed_position(n, now_ms) == (Node {
            next_gps_display: showed_position(n, now_ms).next_gps_display,
            ..n
        }),
        controlled(n, now_ms) == (Node { next_mppt: controlled(n, now_ms).next_mppt, ..n }),
        beaconed(n, rng, now_ms) == (Node {
            rng,
            next_tx: beaconed(n, rng, now_ms).next_tx,
            ..n
        }),
{
}

/// Boot: a node's first heartbeat comes a second later for each step of its
/// address around the eight slots, its first sweep, with the time that the CO2
/// sensor takes, six seconds after boot, its first stats after a minute, and the
/// charger and the position at once.
pub proof fn first_times(
    n: Node,
    address: u8,
    features: Features,
    display_ok: bool,
    boot_ms: u32,
    elapsed: u32,
)
    requires
        starts(n, address, features, display_ok, boot_ms),
        elapsed < 0x8000_0000,
    ensures
        ({
            let at = later(boot_ms, elapsed);
            &&& wanted(n, Task::Heartbeat, at) == (elapsed >= 1000 * (address as int % 8))
            &&& wanted(n, Task::ReadSensors, at) == ((features.sensor || features.rs422) && elapsed
                >= 6000)
            &&& wanted(n, Task::LogStats, at) == (features.gps_log && elapsed >= 60000)
            &&& wanted(n, Task::ShowPosition, at) == (features.gps_log && display_ok)
            &&& wanted(n, Task::Charge, at) == features.board
            &&& wanted(n, Task::RetryDisplay, at) == (!display_ok && elapsed >= 10000)
            &&& rank(n.next_task) == 0
            &&& n.tx_count == 0 && n.rx_count == 0
            &&& !reboots(n, at)
        }),
{
}

/// Messages are numbered one after the other, but for those of an update, which
/// are not counted.
pub proof fn messages_are_numbered(n: Node, data: Seq<u8>)
    ensures
        data.len() > 0 && 240 <= data[0] <= 246 ==> counted(n, data) == (n, None::<u32>),
        !(data.len() > 0 && 240 <= data[0] <= 246) ==> {
            let after = counted(n, data);
            &&& after.0 == (Node { rx_count: after.0.rx_count, ..n })
            &&& after.1 == Some(after.0.rx_count)
            &&& (after.0.rx_count - n.rx_count - 1) % 0x1_0000_0000 == 0
        },
{
}

/// A node reboots half a minute after a transfer that ended with a swap, and
/// never on account of one that did not; either leaves the rest as it is.
pub proof fn reboot_comes_after_half_a_minute(n: Node, now_ms: u32, elapsed: u32)
    requires
        elapsed < 0x8000_0000,
    ensures
        reboots(finished(n, true, now_ms), later(now_ms, elapsed)) == (elapsed >= 30000),
        finished(n, false, now_ms) == n,
        finished(n, true, now_ms) == (Node {
            reboot_at: finished(n, true, now_ms).reboot_at,
            ..n
        }),
{
}

/// The mesh, the receiver and the end of the round are for every node and every
/// round.
pub proof fn mesh_is_always_served(n: Node, now_ms: u32)
    ensures
        wanted(n, Task::UpdateMesh, now_ms),
        wanted(n, Task::Receive, now_ms),
        wanted(n, Task::Sleep, now_ms),
{
}

/// Of a number the last three digits are shown, and all of a shorter one.
pub proof fn last_three_digits_are_shown(n: nat)
    ensures
        n < 1000 ==> last_digits(n) == dec(n),
        n >= 1000 ==> last_digits(n).len() == 3 && last_digits(n)[0] == 48 + n / 100 % 10
            && last_digits(n)[1] == 48 + n / 10 % 10 && last_digits(n)[2] == 48 + n % 10,
{
}

/// A field is appended to a line exactly where line and field together have at
/// most 32 bytes.
pub proof fn fields_are_appended_whole(line: Seq<u8>, key: u8, value: i32)
    ensures
        ({
            let field = telemetry_field(line, key, value);
            &&& (line + field).len() <= 32 ==> with_field(line, key, value) == line + field
            &&& (line + field).len() > 32 ==> with_field(line, key, value) == line
        }),
{
}

/// A count is read as the signed number with the same bits.
pub proof fn counts_keep_their_bits(x: u32)
    ensures
        (as_i32(x) - x) % 0x1_0000_0000 == 0,
        x < 0x8000_0000 ==> as_i32(x) == x,
{
}

/// A deadline is due from its own time on, for half the clock's range, and not
/// in the half before it, wherever the clock wraps.
pub proof fn deadlines_are_halves(deadline: u32, elapsed: u32)
    ensures
        is_due(later(deadline, elapsed), deadline) == (elapsed < 0x8000_0000),
        later(deadline, 0) == deadline,
{
}

/// The charger board brings the LEDs, every round, and the control loop, when
/// its time has come; transfers do not hold them up.
pub proof fn board_tasks(n: Node, now_ms: u32)
    ensures
        wanted(n, Task::UpdateLeds, now_ms) <==> n.features.board,
        n.features.board ==> wanted(n, Task::Charge, now_ms) == is_due(now_ms, n.next_mppt),
        !n.features.board ==> !wanted(n, Task::Charge, now_ms),
{
}

/// The logger brings its polls, every round, the radio stats, when their time
/// has come, and the position on the display, where there is one and no OTA
/// transfer is under way.
pub proof fn logger_tasks(n: Node, now_ms: u32)
    ensures
        wanted(n, Task::PollLog, now_ms) <==> n.features.gps_log,
        n.features.gps_log ==> wanted(n, Task::LogStats, now_ms) == is_due(now_ms, n.next_stats),
        !n.features.gps_log ==> !wanted(n, Task::LogStats, now_ms) && !wanted(
            n,
            Task::ShowPosition,
            now_ms,
        ),
        n.features.gps_log && n.display_ok && !n.ota_active ==> wanted(
            n,
            Task::ShowPosition,
            now_ms,
        ) == is_due(now_ms, n.next_gps_display),
        !n.display_ok ==> !wanted(n, Task::ShowPosition, now_ms),
{
}

/// Any node retries a display that is missing, and no other, and sends its
/// heartbeat, each when its time has come; a transfer holds up only the display.
pub proof fn every_nodes_tasks(n: Node, now_ms: u32)
    ensures
        n.display_ok ==> !wanted(n, Task::RetryDisplay, now_ms),
        !n.display_ok && !n.ota_active ==> wanted(n, Task::RetryDisplay, now_ms) == is_due(
            now_ms,
            n.next_display_retry,
        ),
        wanted(n, Task::Heartbeat, now_ms) == is_due(now_ms, n.next_tx),
{
}

/// One more feature takes no task away.
pub proof fn features_only_add_tasks(n: Node, more: Features, t: Task, now_ms: u32)
    requires
        n.features.board ==> more.board,
        n.features.sensor ==> more.sensor,
        n.features.rs422 ==> more.rs422,
        n.features.gps_log ==> more.gps_log,
        wanted(n, t, now_ms),
    ensures
        wanted(Node { features: more, ..n }, t, now_ms),
{
}

/// The order of a round: the display and the LEDs, the log and its stats, the
/// position, the charger, the sensors, then the mesh, what it received, the
/// heartbeat and the sleep.
pub proof fn order_of_a_round()
    ensures
        following(Task::RetryDisplay) == Task::UpdateLeds,
        following(Task::UpdateLeds) == Task::PollLog,
        following(Task::PollLog) == Task::LogStats,
        following(Task::LogStats) == Task::ShowPosition,
        following(Task::ShowPosition) == Task::Charge,
        following(Task::Charge) == Task::ReadSensors,
        following(Task::ReadSensors) == Task::UpdateMesh,
        following(Task::UpdateMesh) == Task::Receive,
        following(Task::Receive) == Task::Heartbeat,
        following(Task::Heartbeat) == Task::Sleep,
        forall|t: Task, u: Task|
            t != Task::Sleep ==> (#[trigger] rank(t) < #[trigger] rank(u) <==> rank(following(t))
                <= rank(u)),
{
}

/// Where the temperature of a sweep comes from: the first of BME680, SHT45,
/// SCD41, MCP9808 and BMP280 that has a reading; the others play no part.
pub proof fn temperature_has_its_order(
    r: Readings,
    bme: BmeReading,
    sht: ShtReading,
    co2: Scd41Reading,
    mcp: McpReading,
    baro: BaroReading,
)
    ensures
        best_temp(Readings { bme: Some(bme), ..r }) == Some(bme.temp_c_x100),
        best_temp(Readings { bme: None, sht: Some(sht), ..r }) == Some(sht.temp_c_x100),
        best_temp(Readings { bme: None, sht: None, co2: Some(co2), ..r }) == Some(co2.temp_c_x100),
        best_temp(Readings { bme: None, sht: None, co2: None, mcp: Some(mcp), ..r }) == Some(
            mcp.temp_c_x100,
        ),
        best_temp(
            Readings { bme: None, sht: None, co2: None, mcp: None, baro: Some(baro), ..r },
        ) == Some(baro.temp_c_x100),
        best_temp(
            Readings { bme: None, sht: None, co2: None, mcp: None, baro: None, ..r },
        ) is None,
{
}

/// Where the humidity of a sweep comes from: the first of BME680, SHT45 and
/// SCD41 that has a reading.
pub proof fn humidity_has_its_order(
    r: Readings,
    bme: BmeReading,
    sht: ShtReading,
    co2: Scd41Reading,
)
    ensures
        best_hum(Readings { bme: Some(bme), ..r }) == Some(bme.hum_pct_x100),
        best_hum(Readings { bme: None, sht: Some(sht), ..r }) == Some(sht.hum_pct_x100),
        best_hum(Readings { bme: None, sht: None, co2: Some(co2), ..r }) == Some(co2.hum_pct_x100),
        best_hum(Readings { bme: None, sht: None, co2: None, ..r }) is None,
{
}

/// What a sweep broadcasts, quantity by quantity: T and H in hundredths, C in
/// ppm, M in tenths of a percent, each only where it was read, in this order.
pub proof fn sweep_is_labelled(r: Readings, soil: Option<SoilReading>)
    requires
        best_temp(r) matches Some(t) ==> -10000 < t < 100000,
        best_hum(r) matches Some(h) ==> h <= 10000,
        soil matches Some(s) ==> s.moisture_pct_x10 < 10000,
    ensures
        ({
            let none = Seq::<u8>::empty();
            let t = match best_temp(r) {
                Some(t) => none + telemetry_field(none, 84, t),
                None => none,
            };
            let h = match best_hum(r) {
                Some(h) => t + telemetry_field(t, 72, h as i32),
                None => t,
            };
            let c = match r.co2 {
                Some(c) => h + telemetry_field(h, 67, c.co2_ppm as i32),
                None => h,
            };
            let m = match soil {
                Some(s) => c + telemetry_field(c, 77, s.moisture_pct_x10 as i32),
                None => c,
            };
            sweep_text(r, soil) == m
        }),
{
    let temp = match best_temp(r) {
        Some(t) => t,
        None => 0i32,
    };
    let mag = if temp < 0 {
        -temp
    } else {
        temp as int
    };
    dec_len(mag as nat);
    match best_hum(r) {
        Some(h) => dec_len(h as nat),
        None => {},
    }
    match r.co2 {
        Some(c) => dec_len(c.co2_ppm as nat),
        None => {},
    }
    match soil {
        Some(s) => dec_len(s.moisture_pct_x10 as nat),
        None => {},
    }
}

/// A field is its letter, an equals sign and its value, with a space before it
/// where it is not the first.
pub proof fn fields_name_their_values(line: Seq<u8>, key: u8, value: i32)
    ensures
        ({
            let field = telemetry_field(line, key, value);
            let start = if line.len() == 0 {
                0int
            } else {
                1
            };
            &&& line.len() > 0 ==> field[0] == 32
            &&& field[start] == key
            &&& field[start + 1] == 61
            &&& value >= 0 ==> field.skip(start + 2) == dec(value as nat)
            &&& value < 0 ==> field[start + 2] == 45 && field.skip(start + 3) == dec(
                (-value) as nat,
            )
        }),
{
    let field = telemetry_field(line, key, value);
    let start = if line.len() == 0 {
        0int
    } else {
        1
    };
    if value >= 0 {
        assert(field.skip(start + 2) =~= dec(value as nat));
    } else {
        assert(field.skip(start + 3) =~= dec((-value) as nat));
    }
}

/// The percentage of a transfer is the share of its chunks that have come,
/// rounded down.
pub proof fn transfer_share(done: u16, total: u16)
    requires
        total > 0,
    ensures
        ota_percent_of(done, total) * total <= done * 100 < (ota_percent_of(done, total) + 1)
            * total,
{
    let d = done * 100;
    let t = total as int;
    let q = d / t;
    vstd::arithmetic::div_mod::lemma_fundamental_div_mod(d, t);
    vstd::arithmetic::div_mod::lemma_mod_bound(d, t);
    assert(q * t <= d < (q + 1) * t) by (nonlinear_arith)
        requires
            d == t * q + d % t,
            0 <= d % t < t,
    ;
}

/// A banner shows its label, then the text, up to its 32 columns, then blanks.
pub proof fn banner_shows_its_text(label: Seq<u8>, text: Seq<u8>)
    requires
        label.len() <= 32,
    ensures
        ({
            let banner = banner_text(label, text);
            let shown = if label.len() + text.len() <= 32 {
                text.len() as int
            } else {
                32 - label.len()
            };
            &&& banner.len() == 32
            &&& banner.subrange(0, label.len() as int) == label
            &&& banner.subrange(label.len() as int, label.len() + shown) == text.subrange(0, shown)
            &&& forall|i: int| label.len() + shown <= i < 32 ==> banner[i] == 32
        }),
{
    let banner = banner_text(label, text);
    let shown = if label.len() + text.len() <= 32 {
        text.len() as int
    } else {
        32 - label.len()
    };
    assert(banner.subrange(0, label.len() as int) =~= label);
    assert(banner.subrange(label.len() as int, label.len() + shown) =~= text.subrange(0, shown));
}

/// The progress line of a percentage is "OTA ", the number and a percent sign.
pub proof fn progress_line_is_labelled(pct: u32)
    requires
        pct <= 100,
    ensures
        percent_text(pct) == seq![79u8, 84u8, 65u8, 32u8] + dec(pct as nat) + seq![37u8],
{
    reveal_strlit("OTA ");
    lit_codes("OTA ");
    reveal_strlit("%");
    lit_codes("%");
    assert(lit("OTA ") =~= seq![79u8, 84u8, 65u8, 32u8]);
    assert(lit("%") =~= seq![37u8]);
}

/// An OTA message is handed on whole, zero bytes and all, and a text up to its
/// first zero byte.
pub proof fn binary_messages_are_whole(data: Seq<u8>)
    ensures
        data.len() > 0 && 0xF0 <= data[0] <= 0xF6 ==> payload_of(data) == data,
        !(data.len() > 0 && 0xF0 <= data[0] <= 0xF6) ==> payload_of(data).is_prefix_of(data) && (
        forall|i: int| 0 <= i < payload_of(data).len() ==> payload_of(data)[i] != 0) && (
        payload_of(data).len() < data.len() ==> data[payload_of(data).len() as int] == 0),
{
    crate::gpslog::gps::find_finds(data, 0);
}

/// A text is shown as it is, and what is no text is said to be none.
pub proof fn texts_are_shown(data: Seq<u8>)
    ensures
        vstd::utf8::valid_utf8(data) ==> shown_text(data) == data,
        !vstd::utf8::valid_utf8(data) ==> shown_text(data) == lit("<invalid utf8>"),
{
}

} // verus!
