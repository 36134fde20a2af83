//! A node's main loop: what is due when, what is broadcast, and what is shown.
//!
//! The loop itself is the caller's: it asks for the next thing to do, does it,
//! and reports how it went.

use vstd::prelude::*;
use vstd::string::StringSliceAdditionalSpecFns;
use crate::board::charge::MPPT_PERIOD_MS;
use crate::bytes::{copy_into, overwrite};
use crate::gpslog::gps::{find, find_finds};
use crate::ota_protocol::{is_ota, is_ota_message};
use crate::platform::{in_span, random, seed, xorshift32, Rng};
use crate::rs422::SoilReading;
use crate::sensors::Readings;
use crate::text::{
    ascii_is_utf8, cut, dec, dec_len, dec_round_trip, dec_signed, lit, lit_codes, push_signed,
    str_from_utf8,
};
use crate::timer::{after, due, is_due, later};

verus! {

/// RF frequency in Hz (915 MHz ISM band).
pub const RF_FREQ: u32 = 915000000;

/// Watchdog timeout (ms).
pub const WATCHDOG_MS: u32 = 5000;

/// Period of the heartbeat (ms), before jitter.
pub const TX_INTERVAL_MS: u32 = 10000;

/// Jitter added to the period of the heartbeat: less than this (ms).
pub const TX_JITTER_MS: i32 = 3000;

/// Slots that the first heartbeats of nodes are spread over.
pub const STAGGER_SLOTS: u8 = 8;

/// Length of a slot (ms).
pub const STAGGER_SLOT_MS: u32 = 1000;

/// Retry display init this often while it is not connected (ms).
pub const DISPLAY_RETRY_MS: u32 = 10000;

/// Radio stats snapshot period for the SD log (ms).
pub const STATS_INTERVAL_MS: u32 = 60000;

/// Refresh period of the position readout (ms): the GPS fix rate.
pub const GPS_DISPLAY_MS: u32 = 1000;

/// Period of the environmental sensor sweep (ms).
pub const SENSOR_INTERVAL_MS: u32 = 30000;

/// The first sweep comes this long after boot (ms), so that the SCD41's 5 s
/// first measurement is ready.
pub const FIRST_SENSOR_MS: u32 = 6000;

/// Time for the reply to a finished transfer to go out before the reboot into
/// the new firmware (ms).
pub const REBOOT_DELAY_MS: u32 = 30000;

/// Columns of a message banner.
pub const BANNER_LEN: usize = 32;

/// What a node is built with.
#[derive(Clone, Copy)]
pub struct Features {
    /// The charger board.
    pub board: bool,
    /// The I2C sensor suite.
    pub sensor: bool,
    /// The RS-422 soil probe.
    pub rs422: bool,
    /// The GPS + radio link logger.
    pub gps_log: bool,
}

/// Things to do in one round of the main loop, in this order.
#[derive(Debug, Clone, Copy, PartialEq, Eq, Structural)]
pub enum Task {
    /// Retry the display, then call [`Node::display_retried`].
    RetryDisplay,
    /// Pulse the radio activity LEDs.
    UpdateLeds,
    /// Drain the GPS and radio event queue into the SD log.
    PollLog,
    /// Log radio stats, then call [`Node::stats_logged`].
    LogStats,
    /// Show the current fix and position, then call [`Node::position_shown`].
    ShowPosition,
    /// Run the charger control loop, then call [`Node::charged`].
    Charge,
    /// Sweep the sensors and broadcast the result, then call
    /// [`Node::sensors_read`].
    ReadSensors,
    /// Drive the mesh protocol (receive, forward, transmit).
    UpdateMesh,
    /// Check for an incoming message.
    Receive,
    /// Broadcast a heartbeat, then call [`Node::heartbeat_sent`].
    Heartbeat,
    /// Feed the watchdog and sleep for a millisecond: the round is over.
    Sleep,
}

/// The state of the main loop.
pub struct Node {
    pub features: Features,
    /// The display is connected.
    pub display_ok: bool,
    /// An OTA transfer was active when the round began.
    pub ota_active: bool,
    /// The next thing to consider in this round.
    pub next_task: Task,
    pub next_tx: u32,
    pub next_display_retry: u32,
    pub next_mppt: u32,
    pub next_stats: u32,
    pub next_gps_display: u32,
    pub next_sensor: u32,
    pub tx_count: u32,
    pub rx_count: u32,
    /// Jitters the heartbeat.
    pub rng: Rng,
    /// When to reboot into new firmware.
    pub reboot_at: Option<u32>,
}

/// A firmware transfer has finished at `now_ms`, and the bootloader has been
/// asked for the swap, or has not.
pub open spec fn finished(n: Node, swapped: bool, now_ms: u32) -> Node {
    if swapped {
        Node { reboot_at: Some(later(now_ms, REBOOT_DELAY_MS)), ..n }
    } else {
        n
    }
}

/// The display was retried at `now_ms`.
pub open spec fn retried(n: Node, ok: bool, now_ms: u32) -> Node {
    if ok {
        Node { display_ok: true, ..n }
    } else {
        Node { next_display_retry: later(now_ms, DISPLAY_RETRY_MS), ..n }
    }
}

/// Something was drawn at `now_ms`, or could not be.
pub open spec fn drew(n: Node, ok: bool, now_ms: u32) -> Node {
    if ok {
        n
    } else {
        Node { display_ok: false, next_display_retry: later(now_ms, DISPLAY_RETRY_MS), ..n }
    }
}

/// Radio stats were logged at `now_ms`.
pub open spec fn logged_stats(n: Node, now_ms: u32) -> Node {
    Node { next_stats: later(now_ms, STATS_INTERVAL_MS), ..n }
}

/// The position was shown at `now_ms`.
pub open spec fn showed_position(n: Node, now_ms: u32) -> Node {
    Node { next_gps_display: later(now_ms, GPS_DISPLAY_MS), ..n }
}

/// The charger control loop ran at `now_ms`.
pub open spec fn controlled(n: Node, now_ms: u32) -> Node {
    Node { next_mppt: later(now_ms, MPPT_PERIOD_MS), ..n }
}

/// The sensors were swept at `now_ms`.
pub open spec fn swept(n: Node, now_ms: u32) -> Node {
    Node { next_sensor: later(now_ms, SENSOR_INTERVAL_MS), ..n }
}

/// A heartbeat was sent at `now_ms`; `rng` is the generator after the jitter
/// that it gave.
pub open spec fn beaconed(n: Node, rng: Rng, now_ms: u32) -> Node {
    Node {
        rng,
        next_tx: later(now_ms, (TX_INTERVAL_MS + in_span(rng@, 0, TX_JITTER_MS)) as u32),
        ..n
    }
}

/// A message has come, and its number, if it is not for the OTA receiver.
pub open spec fn counted(n: Node, data: Seq<u8>) -> (Node, Option<u32>) {
    if is_ota(data) {
        (n, None)
    } else {
        let rx_count = ((n.rx_count + 1) % 0x1_0000_0000) as u32;
        (Node { rx_count, ..n }, Some(rx_count))
    }
}

/// Whether the node is to reboot at `now_ms`.
pub open spec fn reboots(n: Node, now_ms: u32) -> bool {
    n.reboot_at matches Some(at) && is_due(now_ms, at)
}

/// The order of a task.
pub open spec fn rank(t: Task) -> int {
    match t {
        Task::RetryDisplay => 0,
        Task::UpdateLeds => 1,
        Task::PollLog => 2,
        Task::LogStats => 3,
        Task::ShowPosition => 4,
        Task::Charge => 5,
        Task::ReadSensors => 6,
        Task::UpdateMesh => 7,
        Task::Receive => 8,
        Task::Heartbeat => 9,
        Task::Sleep => 10,
    }
}

/// The task after `t`; the first one of the next round after the last.
pub open spec fn following(t: Task) -> Task {
    match t {
        Task::RetryDisplay => Task::UpdateLeds,
        Task::UpdateLeds => Task::PollLog,
        Task::PollLog => Task::LogStats,
        Task::LogStats => Task::ShowPosition,
        Task::ShowPosition => Task::Charge,
        Task::Charge => Task::ReadSensors,
        Task::ReadSensors => Task::UpdateMesh,
        Task::UpdateMesh => Task::Receive,
        Task::Receive => Task::Heartbeat,
        Task::Heartbeat => Task::Sleep,
        Task::Sleep => Task::RetryDisplay,
    }
}

/// Whether a task is to be done at `now_ms`.
///
/// All I2C is skipped during OTA: a stuck bus could trigger a watchdog reset
/// and lose the in-progress transfer. The sweep is blocking (worst ~0.5 s), so
/// it is skipped too.
pub open spec fn wanted(n: Node, t: Task, now_ms: u32) -> bool {
    match t {
        Task::RetryDisplay => !n.ota_active && !n.display_ok && is_due(
            now_ms,
            n.next_display_retry,
        ),
        Task::UpdateLeds => n.features.board,
        Task::PollLog => n.features.gps_log,
        Task::LogStats => n.features.gps_log && is_due(now_ms, n.next_stats),
        Task::ShowPosition => n.features.gps_log && !n.ota_active && n.display_ok && is_due(
            now_ms,
            n.next_gps_display,
        ),
        Task::Charge => n.features.board && is_due(now_ms, n.next_mppt),
        Task::ReadSensors => (n.features.sensor || n.features.rs422) && !n.ota_active && is_due(
            now_ms,
            n.next_sensor,
        ),
        Task::UpdateMesh => true,
        Task::Receive => true,
        Task::Heartbeat => is_due(now_ms, n.next_tx),
        Task::Sleep => true,
    }
}

/// The first heartbeat of the node at `address` after boot: slots a second
/// apart are already wide against a packet's air time, and the jitter keeps
/// nodes apart from there.
pub open spec fn first_beacon_ms(address: u8) -> int {
    (address % STAGGER_SLOTS) * STAGGER_SLOT_MS
}

/// The main loop of the node at `address` when it starts at `now_ms`.
pub open spec fn starts(
    n: Node,
    address: u8,
    features: Features,
    display_ok: bool,
    now_ms: u32,
) -> bool {
    &&& n.features == features
    &&& n.display_ok == display_ok
    &&& !n.ota_active
    &&& n.next_task == Task::RetryDisplay
    &&& n.next_tx == later(now_ms, first_beacon_ms(address) as u32)
    &&& n.next_display_retry == later(now_ms, DISPLAY_RETRY_MS)
    &&& n.next_mppt == now_ms
    &&& n.next_stats == later(now_ms, STATS_INTERVAL_MS)
    &&& n.next_gps_display == now_ms
    &&& n.next_sensor == later(now_ms, FIRST_SENSOR_MS)
    &&& n.tx_count == 0
    &&& n.rx_count == 0
    &&& n.rng@ == 0
    &&& n.reboot_at is None
}

impl Node {
    /// The state of the main loop of the node at `address` when it starts at
    /// `now_ms`.
    pub fn new(address: u8, features: Features, display_ok: bool, now_ms: u32) -> (r: Node)
        ensures
            starts(r, address, features, display_ok, now_ms),
    {
        // Stagger first TX by address so nodes don't collide on boot
        let stagger: u32 = (address % STAGGER_SLOTS) as u32 * STAGGER_SLOT_MS;
        Node {
            features,
            display_ok,
            ota_active: false,
            next_task: Task::RetryDisplay,
            next_tx: after(now_ms, stagger),
            next_display_retry: after(now_ms, DISPLAY_RETRY_MS),
            next_mppt: now_ms,
            next_stats: after(now_ms, STATS_INTERVAL_MS),
            next_gps_display: now_ms,
            next_sensor: after(now_ms, FIRST_SENSOR_MS),
            tx_count: 0,
            rx_count: 0,
            rng: Rng::new(),
            reboot_at: None,
        }
    }

    /// A round of the loop begins, with or without an OTA transfer under way.
    pub fn begin_round(&mut self, ota_active: bool)
        ensures
            *final(self) == (Node {
                ota_active,
                next_task: Task::RetryDisplay,
                ..*old(self)
            }),
    {
        self.ota_active = ota_active;
        self.next_task = Task::RetryDisplay;
    }

    fn wants(&self, t: Task, now_ms: u32) -> (r: bool)
        ensures
            r == wanted(*self, t, now_ms),
    {
        match t {
            Task::RetryDisplay => !self.ota_active && !self.display_ok && due(
                now_ms,
                self.next_display_retry,
            ),
            Task::UpdateLeds => self.features.board,
            Task::PollLog => self.features.gps_log,
            Task::LogStats => self.features.gps_log && due(now_ms, self.next_stats),
            Task::ShowPosition => self.features.gps_log && !self.ota_active && self.display_ok
                && due(now_ms, self.next_gps_display),
            Task::Charge => self.features.board && due(now_ms, self.next_mppt),
            Task::ReadSensors => (self.features.sensor || self.features.rs422) && !self.ota_active
                && due(now_ms, self.next_sensor),
            Task::UpdateMesh => true,
            Task::Receive => true,
            Task::Heartbeat => due(now_ms, self.next_tx),
            Task::Sleep => true,
        }
    }

    /// The next thing to do in this round: the first one from where the round
    /// is that is wanted at `now_ms`.
    pub fn next(&mut self, now_ms: u32) -> (r: Task)
        ensures
            rank(r) >= rank(old(self).next_task),
            wanted(*old(self), r, now_ms),
            forall|t: Task|
                rank(old(self).next_task) <= #[trigger] rank(t) < rank(r) ==> !wanted(
                    *old(self),
                    t,
                    now_ms,
                ),
            *final(self) == (Node { next_task: following(r), ..*old(self) }),
    {
        let mut t: Task = self.next_task;
        while !self.wants(t, now_ms)
            invariant
                *self == *old(self),
                rank(self.next_task) <= rank(t) <= 10,
                forall|u: Task|
                    rank(self.next_task) <= #[trigger] rank(u) < rank(t) ==> !wanted(
                        *self,
                        u,
                        now_ms,
                    ),
            decreases 10 - rank(t),
        {
            let ghost before = t;
            t = next_of(t);
            assert forall|u: Task| rank(self.next_task) <= #[trigger] rank(u) < rank(
                t,
            ) implies !wanted(*self, u, now_ms) by {
                if rank(u) == rank(before) {
                    assert(u == before);
                }
            }
        }
        self.next_task = next_of(t);
        t
    }

    /// The display was retried.
    pub fn display_retried(&mut self, ok: bool, now_ms: u32)
        ensures
            *final(self) == retried(*old(self), ok, now_ms),
    {
        if ok {
            self.display_ok = true;
        } else {
            self.next_display_retry = after(now_ms, DISPLAY_RETRY_MS);
        }
    }

    /// Something was drawn; where that failed, the display is lost.
    pub fn drawn(&mut self, ok: bool, now_ms: u32)
        ensures
            *final(self) == drew(*old(self), ok, now_ms),
    {
        if !ok {
            self.display_ok = false;
            self.next_display_retry = after(now_ms, DISPLAY_RETRY_MS);
        }
    }

    /// Radio stats were logged, or could not be read.
    pub fn stats_logged(&mut self, now_ms: u32)
        ensures
            *final(self) == logged_stats(*old(self), now_ms),
    {
        self.next_stats = after(now_ms, STATS_INTERVAL_MS);
    }

    /// The position was shown.
    pub fn position_shown(&mut self, now_ms: u32)
        ensures
            *final(self) == showed_position(*old(self), now_ms),
    {
        self.next_gps_display = after(now_ms, GPS_DISPLAY_MS);
    }

    /// The charger control loop has run.
    pub fn charged(&mut self, now_ms: u32)
        ensures
            *final(self) == controlled(*old(self), now_ms),
    {
        self.next_mppt = after(now_ms, MPPT_PERIOD_MS);
    }

    /// The sensors were swept.
    pub fn sensors_read(&mut self, now_ms: u32)
        ensures
            *final(self) == swept(*old(self), now_ms),
    {
        self.next_sensor = after(now_ms, SENSOR_INTERVAL_MS);
    }

    /// A heartbeat is about to be sent: its number.
    pub fn count_heartbeat(&mut self) -> (r: u32)
        ensures
            r == (old(self).tx_count + 1) % 0x1_0000_0000,
            *final(self) == (Node { tx_count: r, ..*old(self) }),
    {
        self.tx_count = self.tx_count.wrapping_add(1);
        self.tx_count
    }

    /// A heartbeat was sent: schedule the next one with 0 to 3 s of jitter.
    pub fn heartbeat_sent(&mut self, now_ms: u32, cycle_count: u32)
        ensures
            final(self).rng@ == xorshift32(seed(old(self).rng@, cycle_count)),
            0 <= in_span(final(self).rng@, 0, TX_JITTER_MS) < TX_JITTER_MS,
            *final(self) == beaconed(*old(self), final(self).rng, now_ms),
    {
        let jitter: i32 = random(&mut self.rng, cycle_count, 0, TX_JITTER_MS);
        self.next_tx = after(now_ms, TX_INTERVAL_MS + jitter as u32);
    }

    /// A message has come: `None` if it is for the OTA receiver, else its number.
    pub fn message(&mut self, data: &[u8]) -> (r: Option<u32>)
        ensures
            (*final(self), r) == counted(*old(self), data@),
    {
        if is_ota_message(data) {
            return None;
        }
        self.rx_count = self.rx_count.wrapping_add(1);
        Some(self.rx_count)
    }

    /// A firmware transfer has finished. If the bootloader could be asked for the
    /// swap, the node is to reboot into the new firmware.
    pub fn transfer_finished(&mut self, swapped: bool, now_ms: u32)
        ensures
            *final(self) == finished(*old(self), swapped, now_ms),
    {
        if swapped {
            self.reboot_at = Some(after(now_ms, REBOOT_DELAY_MS));
        }
    }

    /// Whether it is time to reboot into new firmware.
    pub fn reboot_due(&self, now_ms: u32) -> (r: bool)
        ensures
            r == reboots(*self, now_ms),
    {
        match self.reboot_at {
            Some(at) => due(now_ms, at),
            None => false,
        }
    }

    /// Whether message banners are shown: with the GPS logger the display is
    /// dedicated to the position readout.
    pub fn shows_banners(&self) -> (r: bool)
        ensures
            r == (!self.features.gps_log && self.display_ok),
    {
        !self.features.gps_log && self.display_ok
    }
}

fn next_of(t: Task) -> (r: Task)
    ensures
        r == following(t),
{
    match t {
        Task::RetryDisplay => Task::UpdateLeds,
        Task::UpdateLeds => Task::PollLog,
        Task::PollLog => Task::LogStats,
        Task::LogStats => Task::ShowPosition,
        Task::ShowPosition => Task::Charge,
        Task::Charge => Task::ReadSensors,
        Task::ReadSensors => Task::UpdateMesh,
        Task::UpdateMesh => Task::Receive,
        Task::Receive => Task::Heartbeat,
        Task::Heartbeat => Task::Sleep,
        Task::Sleep => Task::RetryDisplay,
    }
}

/// A node whose transfer finished with a swap reboots once its reply has had
/// time to go out, and not before; one whose transfer did not does not reboot on
/// that account, and one that has finished none does not reboot at all.
pub proof fn reboot_follows_a_swap(n: Node, now_ms: u32, elapsed: u32)
    requires
        elapsed < 0x8000_0000,
    ensures
        reboots(finished(n, true, now_ms), later(now_ms, elapsed)) == (elapsed
            >= REBOOT_DELAY_MS),
        finished(n, false, now_ms) == n,
        n.reboot_at is None ==> !reboots(n, now_ms),
{
}

/// Every round drives the mesh, looks for a message and ends, whatever else is
/// due: the three are never skipped.
pub proof fn rounds_serve_the_mesh(n: Node, now_ms: u32)
    ensures
        wanted(n, Task::UpdateMesh, now_ms),
        wanted(n, Task::Receive, now_ms),
        wanted(n, Task::Sleep, now_ms),
{
}

/// A round goes through the tasks in order and ends: each one leaves fewer to
/// consider, down to the sleep that ends the round.
pub proof fn rounds_end(t: Task)
    ensures
        t == Task::Sleep || rank(following(t)) == rank(t) + 1,
        rank(t) <= rank(Task::Sleep),
        rank(following(Task::Sleep)) == 0,
{
}

/// While an OTA transfer is under way nothing touches the I2C bus.
pub proof fn ota_keeps_the_bus_quiet(n: Node, now_ms: u32)
    requires
        n.ota_active,
    ensures
        !wanted(n, Task::RetryDisplay, now_ms),
        !wanted(n, Task::ShowPosition, now_ms),
        !wanted(n, Task::ReadSensors, now_ms),
{
}

/// Every node's first heartbeat comes within the slots' time, and nodes whose
/// addresses differ by less than the number of slots have slots of their own.
pub proof fn first_beacons_are_staggered(a: u8, b: u8)
    ensures
        first_beacon_ms(a) <= 7000,
        a < b < a + STAGGER_SLOTS ==> {
            ||| first_beacon_ms(a) - first_beacon_ms(b) >= STAGGER_SLOT_MS
            ||| first_beacon_ms(b) - first_beacon_ms(a) >= STAGGER_SLOT_MS
        },
{
}

/// Percentage of an OTA transfer.
pub open spec fn ota_percent_of(done: u16, total: u16) -> int {
    done * 100 / total as int
}

/// Percentage of an OTA transfer of `total` chunks.
pub fn ota_percent(done: u16, total: u16) -> (r: u32)
    requires
        total > 0,
    ensures
        r == ota_percent_of(done, total),
        done <= total ==> r <= 100,
{
    proof {
        let d = done as int;
        let t = total as int;
        assert(d <= t ==> d * 100 / t <= 100) by (nonlinear_arith)
            requires
                d >= 0,
                t > 0,
        ;
    }
    (done as u32 * 100) / total as u32
}

/// The last three decimal digits of a number, without leading zeros where the
/// number has fewer.
pub open spec fn last_digits(n: nat) -> Seq<u8> {
    if n < 1000 {
        dec(n)
    } else {
        seq![(48 + n / 100 % 10) as u8, (48 + n / 10 % 10) as u8, (48 + n % 10) as u8]
    }
}

/// The progress line.
pub open spec fn percent_text(pct: u32) -> Seq<u8> {
    lit("OTA ") + last_digits(pct as nat) + lit("%")
}

/// Format "OTA XX%" into a buffer, returning the str slice.
pub fn format_pct<'a>(buf: &'a mut [u8; 16], pct: u32) -> (r: &'a str)
    ensures
        r.spec_bytes() == percent_text(pct),
        final(buf)@ == overwrite(old(buf)@, 0, r.spec_bytes()),
{
    proof {
        reveal_strlit("OTA ");
        lit_codes("OTA ");
        reveal_strlit("%");
        lit_codes("%");
        assert(lit("OTA ") =~= seq![79u8, 84u8, 65u8, 32u8]);
        assert(lit("%") =~= seq![37u8]);
        dec_round_trip(pct as nat);
        reveal_with_fuel(dec, 4);
    }
    let ghost digits = last_digits(pct as nat);
    buf[0] = 79;
    buf[1] = 84;
    buf[2] = 65;
    buf[3] = 32;
    let count: usize = if pct < 10 {
        1
    } else if pct < 100 {
        2
    } else {
        3
    };
    if count == 1 {
        buf[4] = 48 + pct as u8;
    } else if count == 2 {
        buf[4] = 48 + (pct / 10) as u8;
        buf[5] = 48 + (pct % 10) as u8;
    } else {
        buf[4] = 48 + (pct / 100 % 10) as u8;
        buf[5] = 48 + (pct / 10 % 10) as u8;
        buf[6] = 48 + (pct % 10) as u8;
    }
    buf[4 + count] = 37;
    let end: usize = 5 + count;
    let filled: &'a [u8] = buf;
    assert(digits.len() == count);
    assert(filled@.subrange(0, end as int) =~= percent_text(pct));
    assert(filled@ =~= overwrite(old(buf)@, 0, percent_text(pct)));
    proof {
        ascii_is_utf8(filled@.subrange(0, end as int));
    }
    match str_from_utf8(&filled[0..end]) {
        Some(s) => s,
        None => "OTA ?%",
    }
}

/// A field of a telemetry line, with a space before it where others come first.
pub open spec fn telemetry_field(line: Seq<u8>, key: u8, value: i32) -> Seq<u8> {
    (if line.len() == 0 {
        Seq::empty()
    } else {
        seq![32u8]
    }) + seq![key, 61u8] + dec_signed(value as int)
}

/// A telemetry line with one more field, if that fits whole.
pub open spec fn with_field(line: Seq<u8>, key: u8, value: i32) -> Seq<u8> {
    let field = telemetry_field(line, key, value);
    if line.len() + field.len() <= 32 {
        line + field
    } else {
        line
    }
}

/// A telemetry line with one more field, if there is a value.
pub open spec fn with_optional(line: Seq<u8>, key: u8, value: Option<i32>) -> Seq<u8> {
    match value {
        Some(v) => with_field(line, key, v),
        None => line,
    }
}

/// Builds a `K=<int> K=<int> ...` telemetry line sized for the 32-byte
/// mesh payload. A field that does not fit whole is dropped.
pub struct TelemetryLine {
    buf: [u8; 32],
    len: usize,
}

impl TelemetryLine {
    /// Every line that `new` and `push` give.
    pub closed spec fn wf(self) -> bool {
        self.len <= 32
    }

    /// The text of the line.
    pub closed spec fn view(self) -> Seq<u8> {
        self.buf@.subrange(0, self.len as int)
    }

    /// A line fits the mesh payload.
    pub proof fn fits(self)
        requires
            self.wf(),
        ensures
            self@.len() <= 32,
    {
    }

    /// An empty line.
    pub fn new() -> (r: TelemetryLine)
        ensures
            r.wf(),
            r@ == Seq::<u8>::empty(),
    {
        let r = TelemetryLine { buf: [0u8; 32], len: 0 };
        assert(r@ =~= Seq::<u8>::empty());
        r
    }

    /// Append a field with an ASCII key.
    pub fn push(&mut self, key: u8, value: i32)
        requires
            old(self).wf(),
        ensures
            final(self).wf(),
            final(self)@ == with_field(old(self)@, key, value),
    {
        let mut field: Vec<u8> = Vec::new();
        if self.len > 0 {
            field.push(32);
        }
        field.push(key);
        field.push(61);
        push_signed(&mut field, value);
        assert(field@ =~= telemetry_field(self@, key, value));
        if field.len() <= 32 - self.len {
            let ghost before = self@;
            copy_into(&mut self.buf, self.len, &field);
            self.len = self.len + field.len();
            assert(self@ =~= before + field@);
        }
    }

    /// The text of the line.
    pub fn as_bytes(&self) -> (r: &[u8])
        requires
            self.wf(),
        ensures
            r@ == self@,
    {
        &self.buf[0..self.len]
    }
}

/// Temperature (centidegrees) from the best available source: BME680, SHT45,
/// SCD41, MCP9808, BMP280.
pub open spec fn best_temp(r: Readings) -> Option<i32> {
    if r.bme is Some {
        Some(r.bme->0.temp_c_x100)
    } else if r.sht is Some {
        Some(r.sht->0.temp_c_x100)
    } else if r.co2 is Some {
        Some(r.co2->0.temp_c_x100)
    } else if r.mcp is Some {
        Some(r.mcp->0.temp_c_x100)
    } else if r.baro is Some {
        Some(r.baro->0.temp_c_x100)
    } else {
        None
    }
}

/// Humidity (centipercent) from the best available source: BME680, SHT45,
/// SCD41.
pub open spec fn best_hum(r: Readings) -> Option<u32> {
    if r.bme is Some {
        Some(r.bme->0.hum_pct_x100)
    } else if r.sht is Some {
        Some(r.sht->0.hum_pct_x100)
    } else if r.co2 is Some {
        Some(r.co2->0.hum_pct_x100)
    } else {
        None
    }
}

/// A count read as a signed number.
pub open spec fn as_i32(x: u32) -> i32 {
    if x < 0x8000_0000 {
        x as i32
    } else {
        (x - 0x1_0000_0000) as i32
    }
}

/// The line broadcast after a sweep: temperature and humidity in centi-units,
/// CO2 in ppm, soil moisture in permille.
pub open spec fn sweep_text(r: Readings, soil: Option<SoilReading>) -> Seq<u8> {
    let t = with_optional(Seq::empty(), 84, best_temp(r));
    let h = with_optional(
        t,
        72,
        match best_hum(r) {
            Some(h) => Some(as_i32(h)),
            None => None,
        },
    );
    let c = with_optional(
        h,
        67,
        match r.co2 {
            Some(c) => Some(c.co2_ppm as i32),
            None => None,
        },
    );
    with_optional(
        c,
        77,
        match soil {
            Some(s) => Some(s.moisture_pct_x10 as i32),
            None => None,
        },
    )
}

fn as_signed(x: u32) -> (r: i32)
    ensures
        r == as_i32(x),
{
    if x < 0x8000_0000 {
        x as i32
    } else {
        (x as i64 - 0x1_0000_0000) as i32
    }
}

/// The line broadcast after a sweep: compact `K=<int>` fields, so that the base
/// station (and the dashboard behind it) sees the readings. An empty line is
/// not broadcast.
pub fn sweep_line(r: &Readings, soil: Option<SoilReading>) -> (line: TelemetryLine)
    ensures
        line.wf(),
        line@ == sweep_text(*r, soil),
{
    let mut tele: TelemetryLine = TelemetryLine::new();
    // Best available source per quantity.
    let temp: Option<i32> = match r.bme {
        Some(b) => Some(b.temp_c_x100),
        None => match r.sht {
            Some(s) => Some(s.temp_c_x100),
            None => match r.co2 {
                Some(c) => Some(c.temp_c_x100),
                None => match r.mcp {
                    Some(m) => Some(m.temp_c_x100),
                    None => match r.baro {
                        Some(b) => Some(b.temp_c_x100),
                        None => None,
                    },
                },
            },
        },
    };
    let hum: Option<u32> = match r.bme {
        Some(b) => Some(b.hum_pct_x100),
        None => match r.sht {
            Some(s) => Some(s.hum_pct_x100),
            None => match r.co2 {
                Some(c) => Some(c.hum_pct_x100),
                None => None,
            },
        },
    };
    match temp {
        Some(t) => tele.push(84, t),
        None => {},
    }
    match hum {
        Some(h) => tele.push(72, as_signed(h)),
        None => {},
    }
    match r.co2 {
        Some(c) => tele.push(67, c.co2_ppm as i32),
        None => {},
    }
    match soil {
        Some(s) => tele.push(77, s.moisture_pct_x10 as i32),
        None => {},
    }
    tele
}

/// A field either is in a line whole or not at all: the line before it is never
/// changed, and what follows it is the field.
pub proof fn fields_are_whole(line: Seq<u8>, key: u8, value: i32)
    requires
        line.len() <= 32,
    ensures
        with_field(line, key, value).len() <= 32,
        with_field(line, key, value) == line || with_field(line, key, value) == line
            + telemetry_field(line, key, value),
{
}

/// Readings within their sensors' ranges all fit: temperatures above -100 and
/// below 1000 degrees, humidity up to a hundred percent, any CO2 and moisture
/// below a thousand percent leave no field out.
pub proof fn sweep_fits(t: i32, h: u32, c: u16, m: u16)
    requires
        -10000 < t < 100000,
        h <= 10000,
        m < 10000,
    ensures
        ({
            let line = Seq::<u8>::empty();
            let with_t = line + telemetry_field(line, 84, t);
            let with_h = with_t + telemetry_field(with_t, 72, as_i32(h));
            let with_c = with_h + telemetry_field(with_h, 67, c as i32);
            let with_m = with_c + telemetry_field(with_c, 77, m as i32);
            &&& with_m.len() <= 32
            &&& with_field(line, 84, t) == with_t
            &&& with_field(with_t, 72, as_i32(h)) == with_h
            &&& with_field(with_h, 67, c as i32) == with_c
            &&& with_field(with_c, 77, m as i32) == with_m
        }),
{
    dec_len(
        (if t < 0 {
            -t
        } else {
            t as int
        }) as nat,
    );
    dec_len(h as nat);
    dec_len(c as nat);
    dec_len(m as nat);
}

/// A banner: a label, the text after it as far as there is room, and blanks.
pub open spec fn banner_text(label: Seq<u8>, text: Seq<u8>) -> Seq<u8> {
    let shown = cut(text, BANNER_LEN - label.len());
    Seq::new(
        BANNER_LEN as nat,
        |i: int|
            if i < label.len() {
                label[i]
            } else if i < label.len() + shown.len() {
                shown[i - label.len()]
            } else {
                32
            },
    )
}

/// The banner for a received text of up to 28 bytes.
pub fn banner_in(text: &[u8]) -> (r: [u8; BANNER_LEN])
    requires
        text@.len() <= 28,
    ensures
        r@ == banner_text(lit("In: "), text@),
{
    proof {
        reveal_strlit("In: ");
        lit_codes("In: ");
        assert(lit("In: ") =~= seq![73u8, 110u8, 58u8, 32u8]);
    }
    let mut r: [u8; BANNER_LEN] = [32u8; BANNER_LEN];
    copy_into(&mut r, 0, "In: ".as_bytes());
    copy_into(&mut r, 4, text);
    assert(r@ =~= banner_text(lit("In: "), text@));
    r
}

/// The banner for a transmitted message.
pub fn banner_out(message: &[u8]) -> (r: [u8; BANNER_LEN])
    ensures
        r@ == banner_text(lit("Out: "), message@),
{
    proof {
        reveal_strlit("Out: ");
        lit_codes("Out: ");
        assert(lit("Out: ") =~= seq![79u8, 117u8, 116u8, 58u8, 32u8]);
    }
    let mut r: [u8; BANNER_LEN] = [32u8; BANNER_LEN];
    let len: usize = if message.len() <= 27 {
        message.len()
    } else {
        27
    };
    copy_into(&mut r, 0, "Out: ".as_bytes());
    copy_into(&mut r, 5, &message[0..len]);
    assert(r@ =~= banner_text(lit("Out: "), message@));
    r
}

/// The payload of a mesh packet. The mesh pads a packet with zero bytes and does
/// not tell how long it was, so a text ends before the first zero byte; binary
/// OTA messages, which hold zero bytes of their own, are passed through.
pub open spec fn payload_of(data: Seq<u8>) -> Seq<u8> {
    if is_ota(data) {
        data
    } else {
        data.subrange(0, find(data, 0))
    }
}

/// The payload of a mesh packet.
pub fn payload(data: &[u8]) -> (r: &[u8])
    ensures
        r@ == payload_of(data@),
{
    if is_ota_message(data) {
        return data;
    }
    proof {
        find_finds(data@, 0);
    }
    let mut n: usize = 0;
    while n < data.len() && data[n] != 0
        invariant
            n <= data@.len(),
            forall|i: int| 0 <= i < n ==> data@[i] != 0,
            0 <= find(data@, 0) <= data@.len(),
            find(data@, 0) < data@.len() ==> data@[find(data@, 0)] == 0,
            forall|i: int| 0 <= i < find(data@, 0) ==> data@[i] != 0,
            n <= find(data@, 0),
        decreases data@.len() - n,
    {
        n += 1;
    }
    assert(n == find(data@, 0));
    &data[0..n]
}

/// What a node sends is what the other one gets: a text without zero bytes comes
/// out of its padding as it went in, and so does an OTA message with all that
/// follows it.
pub proof fn payload_survives_padding(text: Seq<u8>, zeros: nat)
    requires
        !is_ota(text),
        forall|i: int| 0 <= i < text.len() ==> text[i] != 0,
    ensures
        payload_of(text + Seq::new(zeros, |i: int| 0u8)) == text,
{
    let padded = text + Seq::new(zeros, |i: int| 0u8);
    find_finds(padded, 0);
    assert(padded.len() > 0 ==> padded[0] == 0 || padded[0] == text[0]);
    let n = find(padded, 0);
    if n < text.len() {
        assert(padded[n] == text[n]);
    }
    if n > text.len() {
        assert(padded[text.len() as int] == 0);
    }
    assert(padded.subrange(0, n) =~= text);
}

/// A received message as text.
pub open spec fn shown_text(data: Seq<u8>) -> Seq<u8> {
    if vstd::utf8::valid_utf8(data) {
        data
    } else {
        lit("<invalid utf8>")
    }
}

/// A received message as text; a fixed one where it is not valid UTF-8.
pub fn message_text(data: &[u8]) -> (r: &str)
    ensures
        r.spec_bytes() == shown_text(data@),
{
    match str_from_utf8(data) {
        Some(s) => s,
        None => "<invalid utf8>",
    }
}

/// The heartbeat of a node without the charger board.
pub fn plain_heartbeat() -> (r: &'static [u8])
    ensures
        r@ == lit("hello"),
{
    "hello".as_bytes()
}

} // verus!
