//! Radio and mesh configuration.

use vstd::prelude::*;
use vstd::string::StringSliceAdditionalSpecFns;
use crate::text::{dec_value, lit, lit_codes};

verus! {

/// LoRa range/airtime preset: spreading factor, bandwidth and coding rate.
///
/// Higher presets trade throughput and on-air time for receiver sensitivity
/// (link budget). On-air time grows roughly as 2^SF, so the TX timeouts and
/// the mesh listen window below are scaled to match the selected preset.
///
/// | Preset    | SF   | BW       | CR  | Rx sens.  | ~Range | Airtime ~40 B |
/// |-----------|------|----------|-----|-----------|--------|---------------|
/// | `Fast`    | SF7  | 125 kHz  | 4/5 | -124 dBm  | 1x     | ~0.1 s        |
/// | `Long`    | SF10 | 125 kHz  | 4/5 | -132 dBm  | ~2.5x  | ~0.6 s        |
/// | `Max`     | SF12 | 125 kHz  | 4/8 | -137 dBm  | ~4x    | ~3.3 s        |
/// | `Extreme` | SF12 | 62.5 kHz | 4/8 | -140 dBm  | ~5.5x  | ~6.6 s        |
///
/// Every preset transmits at the maximum +22 dBm; only the modulation
/// changes. Both ends of a link must use the same preset to communicate.
#[derive(Debug, Clone, Copy, PartialEq, Eq, Structural)]
pub enum RadioPreset {
    /// SF7 / BW125 / CR4-5 - fastest, shortest range.
    Fast,
    /// SF10 / BW125 / CR4-5 - +8 dB sensitivity, ~2.5x range.
    Long,
    /// SF12 / BW125 / CR4-8 - +12.5 dB sensitivity, ~4x range.
    Max,
    /// SF12 / BW62.5 / CR4-8 - +15.5 dB sensitivity, ~5.5x range; needs the TCXO.
    Extreme,
}

/// Hop-count lifetime for broadcast packets.
///
/// Each hop decrements the counter; a packet with lifetime 0 is not
/// forwarded. For a 2-node direct link, 1 is sufficient: the originator
/// transmits once and the peer receives it without re-broadcasting.
/// Increase if you add intermediate nodes that need to forward packets.
pub const BROADCAST_LIFETIME: u8 = 1;

/// Firmware version where none is given.
pub const DEFAULT_FIRMWARE_VERSION: u16 = 1;

/// Mesh address where none is given.
pub const DEFAULT_ADDRESS: u8 = 1;

/// The name of a preset.
pub open spec fn preset_name(preset: RadioPreset) -> Seq<char> {
    match preset {
        RadioPreset::Fast => "fast (SF7/BW125/CR4-5)"@,
        RadioPreset::Long => "long (SF10/BW125/CR4-5)"@,
        RadioPreset::Max => "max (SF12/BW125/CR4-8)"@,
        RadioPreset::Extreme => "extreme (SF12/BW62.5/CR4-8)"@,
    }
}

impl RadioPreset {
    /// Human-readable name for boot logging.
    pub fn name(self) -> (r: &'static str)
        ensures
            r@ == preset_name(self),
    {
        match self {
            RadioPreset::Fast => "fast (SF7/BW125/CR4-5)",
            RadioPreset::Long => "long (SF10/BW125/CR4-5)",
            RadioPreset::Max => "max (SF12/BW125/CR4-8)",
            RadioPreset::Extreme => "extreme (SF12/BW62.5/CR4-8)",
        }
    }
}

/// The preset that a setting selects: one of `fast` (also where nothing is
/// set), `long`, `max`, `extreme`.
pub open spec fn preset_of(setting: Option<Seq<u8>>) -> Option<RadioPreset> {
    match setting {
        None => Some(RadioPreset::Fast),
        Some(s) => if s == lit("fast") {
            Some(RadioPreset::Fast)
        } else if s == lit("long") {
            Some(RadioPreset::Long)
        } else if s == lit("max") {
            Some(RadioPreset::Max)
        } else if s == lit("extreme") {
            Some(RadioPreset::Extreme)
        } else {
            None
        },
    }
}

/// Whether a setting asks for boosted receive gain: `1` does, `0` or nothing
/// does not.
pub open spec fn boost_of(setting: Option<Seq<u8>>) -> Option<bool> {
    match setting {
        None => Some(false),
        Some(s) => if s == lit("0") {
            Some(false)
        } else if s == lit("1") {
            Some(true)
        } else {
            None
        },
    }
}

/// The number that a text of decimal digits writes down, if it is one and is at
/// most `max`.
pub open spec fn number_of(text: Seq<u8>, max: nat) -> Option<nat> {
    if text.len() > 0 && (forall|i: int| 0 <= i < text.len() ==> 48 <= #[trigger] text[i] <= 57)
        && dec_value(text) <= max {
        Some(dec_value(text))
    } else {
        None
    }
}

fn same_bytes(a: &[u8], b: &[u8]) -> (r: bool)
    ensures
        r == (a@ == b@),
{
    if a.len() != b.len() {
        return false;
    }
    let mut i: usize = 0;
    while i < a.len()
        invariant
            i <= a@.len(),
            a@.len() == b@.len(),
            forall|j: int| 0 <= j < i ==> a@[j] == b@[j],
        decreases a@.len() - i,
    {
        if a[i] != b[i] {
            return false;
        }
        i += 1;
    }
    assert(a@ =~= b@);
    true
}

/// The bytes of a setting, if there is one.
pub open spec fn setting_bytes(setting: Option<&str>) -> Option<Seq<u8>> {
    match setting {
        Some(s) => Some(s.spec_bytes()),
        None => None,
    }
}

/// LoRa preset selecting the range/airtime trade-off, from the `LORA_PRESET`
/// setting. Valid values: `fast` (default), `long`, `max`, `extreme`.
pub fn radio_preset(setting: Option<&str>) -> (r: Option<RadioPreset>)
    ensures
        r == preset_of(setting_bytes(setting)),
{
    let s: &[u8] = match setting {
        None => return Some(RadioPreset::Fast),
        Some(s) => s.as_bytes(),
    };
    if same_bytes(s, "fast".as_bytes()) {
        Some(RadioPreset::Fast)
    } else if same_bytes(s, "long".as_bytes()) {
        Some(RadioPreset::Long)
    } else if same_bytes(s, "max".as_bytes()) {
        Some(RadioPreset::Max)
    } else if same_bytes(s, "extreme".as_bytes()) {
        Some(RadioPreset::Extreme)
    } else {
        None
    }
}

/// Whether the receiver runs at boosted gain, from the `RX_BOOST` setting.
/// Valid values: `0` (default), `1`.
///
/// The SX126x powers up with the RxGain register selecting power-saving gain;
/// boosting it buys roughly 2 dB of sensitivity, which is worth about the
/// same as one step of the preset but costs no airtime at all. What it
/// does cost is receive current, continuously, on a node that is listening
/// most of the time - so on solar or battery it is a trade to opt into rather
/// than inherit, and the default matches the chip.
pub fn rx_boost(setting: Option<&str>) -> (r: Option<bool>)
    ensures
        r == boost_of(setting_bytes(setting)),
{
    let s: &[u8] = match setting {
        None => return Some(false),
        Some(s) => s.as_bytes(),
    };
    if same_bytes(s, "0".as_bytes()) {
        proof {
            reveal_strlit("0");
            reveal_strlit("1");
            lit_codes("0");
            lit_codes("1");
            assert(lit("0")[0] != lit("1")[0]);
        }
        Some(false)
    } else if same_bytes(s, "1".as_bytes()) {
        Some(true)
    } else {
        None
    }
}

/// The value of the digits so far never exceeds the value of all of them.
proof fn dec_value_grows(text: Seq<u8>, n: int)
    requires
        0 <= n <= text.len(),
        forall|i: int| 0 <= i < text.len() ==> 48 <= #[trigger] text[i] <= 57,
    ensures
        dec_value(text.subrange(0, n)) <= dec_value(text),
    decreases text.len() - n,
{
    if n < text.len() {
        dec_value_grows(text, n + 1);
        assert(text.subrange(0, n + 1).drop_last() =~= text.subrange(0, n));
    } else {
        assert(text.subrange(0, n) =~= text);
    }
}

fn parse_number(text: &[u8], max: u16) -> (r: Option<u16>)
    ensures
        match number_of(text@, max as nat) {
            Some(n) => r == Some(n as u16),
            None => r is None,
        },
{
    if text.len() == 0 {
        return None;
    }
    let mut n: u16 = 0;
    let mut i: usize = 0;
    while i < text.len()
        invariant
            i <= text@.len(),
            forall|j: int| 0 <= j < i ==> 48 <= #[trigger] text@[j] <= 57,
            n == dec_value(text@.subrange(0, i as int)),
            n <= max,
        decreases text@.len() - i,
    {
        let d: u8 = text[i];
        if d < 48 || d > 57 {
            assert(!(48 <= text@[i as int] <= 57));
            return None;
        }
        let next: u32 = n as u32 * 10 + (d - 48) as u32;
        proof {
            assert(text@.subrange(0, i + 1).drop_last() =~= text@.subrange(0, i as int));
            assert(next == dec_value(text@.subrange(0, i + 1)));
        }
        if next > max as u32 {
            proof {
                if forall|j: int| 0 <= j < text@.len() ==> 48 <= #[trigger] text@[j] <= 57 {
                    dec_value_grows(text@, i + 1);
                }
            }
            return None;
        }
        n = next as u16;
        i += 1;
    }
    assert(text@.subrange(0, text@.len() as int) =~= text@);
    Some(n)
}

/// Current firmware version, from the `FW_VERSION` setting; 1 if not specified.
///
/// Bumped on each release. The OTA receiver rejects offers whose version
/// is less than or equal to this value (downgrade prevention).
pub fn firmware_version(setting: Option<&str>) -> (r: Option<u16>)
    ensures
        match setting_bytes(setting) {
            None => r == Some(DEFAULT_FIRMWARE_VERSION),
            Some(s) => match number_of(s, 65535) {
                Some(n) => r == Some(n as u16),
                None => r is None,
            },
        },
{
    match setting {
        None => Some(DEFAULT_FIRMWARE_VERSION),
        Some(s) => parse_number(s.as_bytes(), 65535),
    }
}

/// This node's mesh address, 1 to 255, from the `ADDRESS` setting; 1 if not
/// specified.
pub fn this_address(setting: Option<&str>) -> (r: Option<u8>)
    ensures
        match setting_bytes(setting) {
            None => r == Some(DEFAULT_ADDRESS),
            Some(s) => match number_of(s, 255) {
                Some(n) => r == if n > 0 {
                    Some(n as u8)
                } else {
                    None
                },
                None => r is None,
            },
        },
{
    match setting {
        None => Some(DEFAULT_ADDRESS),
        Some(s) => match parse_number(s.as_bytes(), 255) {
            Some(n) => {
                if n > 0 {
                    Some(n as u8)
                } else {
                    None
                }
            },
            None => None,
        },
    }
}

/// Polling timeout for TX completion (ms).
pub open spec fn tx_poll_timeout(preset: RadioPreset) -> u32 {
    match preset {
        RadioPreset::Fast => 150,
        RadioPreset::Long => 1000,
        RadioPreset::Max => 4000,
        RadioPreset::Extreme => 7500,
    }
}

/// Chip-level TX timeout (ms).
pub open spec fn tx_chip_timeout(preset: RadioPreset) -> u32 {
    match preset {
        RadioPreset::Fast => 300,
        RadioPreset::Long => 1300,
        RadioPreset::Max => 4500,
        RadioPreset::Extreme => 8200,
    }
}

/// Listening time before queued packets are sent (ms).
pub open spec fn mesh_listen_period(preset: RadioPreset) -> u32 {
    match preset {
        RadioPreset::Fast => 200,
        RadioPreset::Long => 900,
        RadioPreset::Max => 4000,
        RadioPreset::Extreme => 7000,
    }
}

/// Polling loop timeout for TX completion (ms).
///
/// `send()` blocks polling the IRQ register until `TxDone` fires or this
/// deadline is reached. Scaled per preset to cover the packet
/// on-air time (which grows ~2^SF) with headroom while still failing fast.
pub fn tx_poll_timeout_ms(preset: RadioPreset) -> (r: u32)
    ensures
        r == tx_poll_timeout(preset),
{
    match preset {
        RadioPreset::Fast => 150,
        RadioPreset::Long => 1000,
        RadioPreset::Max => 4000,
        RadioPreset::Extreme => 7500,
    }
}

/// Chip-level TX timeout passed to `SetTx` (ms).
///
/// The SX1262 will abort TX and raise a Timeout IRQ if this expires.
/// Must be longer than the polling timeout so the polling loop always
/// exits first and we remain in control of the state machine.
pub fn tx_chip_timeout_ms(preset: RadioPreset) -> (r: u32)
    ensures
        r == tx_chip_timeout(preset),
{
    match preset {
        RadioPreset::Fast => 300,
        RadioPreset::Long => 1300,
        RadioPreset::Max => 4500,
        RadioPreset::Extreme => 8200,
    }
}

/// How long the mesh node listens before transmitting queued packets (ms).
///
/// Must exceed the on-air time of the longest expected packet so that a node
/// can detect a concurrent transmission before it starts its own. Scaled per
/// preset alongside the packet airtime.
pub fn mesh_listen_period_ms(preset: RadioPreset) -> (r: u32)
    ensures
        r == mesh_listen_period(preset),
{
    match preset {
        RadioPreset::Fast => 200,
        RadioPreset::Long => 900,
        RadioPreset::Max => 4000,
        RadioPreset::Extreme => 7000,
    }
}

/// The polling loop always gives up before the chip does.
pub proof fn poll_gives_up_before_chip(preset: RadioPreset)
    ensures
        tx_poll_timeout(preset) < tx_chip_timeout(preset),
{
}

} // verus!
