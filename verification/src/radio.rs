//! SX1262 radio: how it is configured, and how a packet is received and sent.
//!
//! The driver never touches the radio: it says which operations come next, and
//! is told what came of them.

use vstd::prelude::*;
use crate::board::activity::{note_rx, note_tx, Activity};
use crate::bytes::{hi8, lo8, u16_be};
use crate::config::{
    tx_chip_timeout, tx_chip_timeout_ms, tx_poll_timeout, tx_poll_timeout_ms, RadioPreset,
};
use crate::gpslog::events::{self, pushed, Queue, RadioEvent};
use crate::subghz::{
    bw_hertz, frequency_command, irq_bit, irq_command, irq_enable_all, irq_mask, irq_none,
    lora_mod_params, lora_packet_params, mod_params_command, pa_command, pa_config,
    packet_params_command, rf_freq, tcxo_command, tcxo_mode, timeout_bits, timeout_steps,
    tx_params, tx_params_command, Bw, Cr, Frequency, IrqConfig, IrqKind, ModParams, Pa,
    PacketParams, Ramp, Sf, Tcxo, TcxoVolts, TxPower,
};

verus! {

/// A packet-oriented radio interface.
///
/// Implement this for your radio hardware to use it with the mesh layer.
pub trait PacketRadio {
    /// Error type for radio operations.
    type Error: core::fmt::Debug;

    /// Poll for a received packet (non-blocking).
    ///
    /// If a packet is available, write it into `buf` and return
    /// `Ok(Some((bytes_written, rssi_dbm)))`.
    /// If nothing is available, return `Ok(None)`.
    fn poll_recv(&mut self, buf: &mut [u8]) -> Result<Option<(usize, i16)>, Self::Error>;

    /// Transmit a raw packet. Blocks until transmission completes.
    fn send(&mut self, data: &[u8]) -> Result<(), Self::Error>;

    /// Maximum packet size in bytes.
    fn max_packet_len(&self) -> usize;
}

/// Errors from the SubGHz radio.
#[derive(Debug, Clone, Copy, PartialEq, Eq, Structural)]
pub enum Sx1262Error {
    Radio,
    Timeout,
}

/// Which way the module's antenna switch is pointed.
#[derive(Debug, Clone, Copy, PartialEq, Eq, Structural)]
pub enum RfPath {
    /// Antenna isolated from both the PA and the receiver.
    Off,
    /// Antenna to the receiver.
    Rx,
    /// Antenna to the high-power PA, the only transmit output this board
    /// uses.
    TxHp,
}

/// The module's antenna switch: the levels of its two control lines.
///
/// The radio die has no bonded DIO2, so there is no `SetDio2AsRfSwitchCtrl`
/// to hand the job to the radio the way a discrete SX1262 would: the path
/// has to be selected from the MCU before every transmit and every receive.
/// Left unconfigured the pins sit as analog inputs and the switch floats, so
/// signal reaches the antenna only through the switch's off-state isolation
/// - tens of dB down, which works across a bench and nowhere else.
///
/// Both lines low isolates the antenna, which is where the switch belongs
/// whenever the radio is neither transmitting nor listening.
#[derive(Debug, Clone, Copy, PartialEq, Eq, Structural)]
pub struct RfSwitch {
    pub ctrl1: bool,
    pub ctrl2: bool,
}

/// The control lines for a path.
pub open spec fn switch_lines(path: RfPath) -> RfSwitch {
    match path {
        RfPath::Off => RfSwitch { ctrl1: false, ctrl2: false },
        RfPath::Rx => RfSwitch { ctrl1: true, ctrl2: false },
        RfPath::TxHp => RfSwitch { ctrl1: false, ctrl2: true },
    }
}

impl RfSwitch {
    /// The switch isolated.
    pub fn new() -> (r: RfSwitch)
        ensures
            r == switch_lines(RfPath::Off),
    {
        RfSwitch { ctrl1: false, ctrl2: false }
    }

    /// Point the switch.
    pub fn set(&mut self, path: RfPath)
        ensures
            *final(self) == switch_lines(path),
    {
        let (c1, c2): (bool, bool) = match path {
            RfPath::Off => (false, false),
            RfPath::Rx => (true, false),
            RfPath::TxHp => (false, true),
        };
        self.ctrl1 = c1;
        self.ctrl2 = c2;
    }
}

/// SetRx timeout value that selects continuous RX. On the SX126x the SetRx
/// timeout doubles as a mode select: 0x000000 is single mode - the receiver
/// stays on only until it decodes one packet, then drops to the fallback
/// mode - while 0xFFFFFF keeps it in RX across packets. A node arms RX once
/// and expects to keep hearing the network, so it must be the latter; single
/// mode would leave a node that rarely transmits deaf after its first packet.
pub const RX_CONTINUOUS: u32 = 0x00FF_FFFF;

/// Payload length written into the packet params before receiving.
///
/// With an explicit header this field is not the length of anything - the
/// header carries that - it is the largest payload the receiver will accept.
/// Every transmit has to narrow it to the size of the frame being sent, so
/// receiving means putting it back.
pub const RX_MAX_PAYLOAD: u8 = 255;

/// SMPS control 0. Bit 6 enables clock detection, which has to be on before
/// the SMPS is selected; every other bit belongs to the regulator and must
/// be preserved.
pub const REG_SMPS_C0: u16 = 0x0916;

/// [`REG_SMPS_C0`] clock-detection enable.
pub const SMPS_CLK_DET_EN: u8 = 0x40;

/// TX clamp configuration. Bits 4:1 all set improves the PA's tolerance of
/// an antenna mismatch (SX1261/2 datasheet, "Better resistance of the
/// SX1262 Tx to antenna mismatch").
pub const REG_TX_CLAMP: u16 = 0x08D8;

/// TX modulation configuration. Bit 2 must be cleared for a 500 kHz LoRa
/// bandwidth and set for every other bandwidth (SX1261/2 datasheet,
/// "Modulation quality with 500 kHz LoRa bandwidth").
pub const REG_TX_MODULATION: u16 = 0x0889;

/// How long to wait for the TCXO (ms).
pub const TCXO_TIMEOUT_MS: u32 = 10;

/// All interrupt bits.
pub const ALL_IRQS: u16 = 0xFFFF;

/// A read-modify-write of a register.
#[derive(Debug, Clone, Copy, PartialEq, Eq, Structural)]
pub struct RegUpdate {
    pub addr: u16,
    /// Bits to set.
    pub set: u8,
    /// Bits to clear.
    pub clear: u8,
}

/// The frame that reads a register: opcode, address high byte first, a byte
/// during which the radio returns its status, then the value.
pub open spec fn read_reg_frame(addr: u16) -> Seq<u8> {
    seq![0x1Du8] + u16_be(addr) + seq![0u8, 0u8]
}

/// The frame that writes a register: opcode, address high byte first, value.
pub open spec fn write_reg_frame(addr: u16, value: u8) -> Seq<u8> {
    seq![0x0Du8] + u16_be(addr) + seq![value]
}

impl RegUpdate {
    /// The value that `old` becomes.
    pub open spec fn updated(self, old: u8) -> u8 {
        (old & !self.clear) | self.set
    }

    /// The frame that reads the register; its last byte comes back as the value.
    pub fn read_frame(&self) -> (r: [u8; 5])
        ensures
            r@ == read_reg_frame(self.addr),
    {
        let r: [u8; 5] = [0x1D, hi8(self.addr), lo8(self.addr), 0x00, 0x00];
        assert(r@ =~= read_reg_frame(self.addr));
        r
    }

    /// The frame that writes the register, which held `old`, back updated.
    pub fn write_frame(&self, old: u8) -> (r: [u8; 4])
        ensures
            r@ == write_reg_frame(self.addr, self.updated(old)),
    {
        let value: u8 = (old & !self.clear) | self.set;
        let r: [u8; 4] = [0x0D, hi8(self.addr), lo8(self.addr), value];
        assert(r@ =~= write_reg_frame(self.addr, self.updated(old)));
        r
    }
}

/// Image calibration bounds for operation at a frequency of `mhz` megahertz, in
/// the radio's 4 MHz units: the band that the datasheet tabulates, or the
/// 4 MHz-aligned window that brackets the frequency.
pub open spec fn image_bounds(mhz: int) -> (u8, u8) {
    if 902 <= mhz <= 928 {
        (0xE1, 0xE9)
    } else if 863 <= mhz <= 870 {
        (0xD7, 0xDB)
    } else if 779 <= mhz <= 787 {
        (0xC1, 0xC5)
    } else if 470 <= mhz <= 510 {
        (0x75, 0x81)
    } else if 430 <= mhz <= 440 {
        (0x6B, 0x6F)
    } else {
        ((mhz / 4) as u8, (mhz / 4 + 1) as u8)
    }
}

/// Image calibration bounds for operation at `freq_hz`.
///
/// Image rejection is calibrated for a band, and calibrating for a band the
/// radio is not operating in throws away the rejection - which is
/// sensitivity, and so range. Anything outside the bands the datasheet
/// tabulates gets the 4 MHz-aligned window that brackets it rather than the
/// nearest named band.
pub fn image_band(freq_hz: u32) -> (r: (u8, u8))
    requires
        freq_hz < 1020000000,
    ensures
        r == image_bounds(freq_hz as int / 1000000),
{
    let mhz: u32 = freq_hz / 1000000;
    if 902 <= mhz && mhz <= 928 {
        (0xE1, 0xE9)
    } else if 863 <= mhz && mhz <= 870 {
        (0xD7, 0xDB)
    } else if 779 <= mhz && mhz <= 787 {
        (0xC1, 0xC5)
    } else if 470 <= mhz && mhz <= 510 {
        (0x75, 0x81)
    } else if 430 <= mhz && mhz <= 440 {
        (0x6B, 0x6F)
    } else {
        ((mhz / 4) as u8, (mhz / 4 + 1) as u8)
    }
}

/// The calibrated band brackets the frequency.
pub proof fn image_band_brackets(freq_hz: u32)
    requires
        freq_hz < 1020000000,
    ensures
        ({
            let mhz = freq_hz as int / 1000000;
            let (lo, hi) = image_bounds(mhz);
            lo * 4 <= mhz < hi * 4
        }),
{
}

/// The LoRa packet params command for a payload of `payload_len` bytes: an
/// 8-symbol preamble, an explicit header, the hardware CRC on, and no IQ
/// inversion.
pub open spec fn packet_command(payload_len: u8) -> Seq<u8> {
    packet_params_command(8, true, payload_len, true, false)
}

/// The LoRa packet params this firmware always uses, for a payload of
/// `payload_len` bytes: an 8-symbol preamble, an explicit header, the
/// hardware CRC on, and no IQ inversion.
pub fn packet_params(payload_len: u8) -> (r: PacketParams)
    ensures
        r.command() == packet_command(payload_len),
{
    lora_packet_params(8, true, payload_len, true, false)
}

/// Spreading factor, bandwidth, coding rate and low data rate optimisation of a
/// preset.
pub open spec fn modulation_of(preset: RadioPreset) -> (Sf, Bw, Cr, bool) {
    match preset {
        RadioPreset::Fast => (Sf::Sf7, Bw::Bw125, Cr::Cr45, false),
        RadioPreset::Long => (Sf::Sf10, Bw::Bw125, Cr::Cr45, false),
        RadioPreset::Max => (Sf::Sf12, Bw::Bw125, Cr::Cr48, true),
        RadioPreset::Extreme => (Sf::Sf12, Bw::Bw62, Cr::Cr48, true),
    }
}

/// Spreading factor, bandwidth, coding rate and low data rate optimisation of a
/// preset.
pub fn modulation(preset: RadioPreset) -> (r: (Sf, Bw, Cr, bool))
    ensures
        r == modulation_of(preset),
{
    match preset {
        RadioPreset::Fast => (Sf::Sf7, Bw::Bw125, Cr::Cr45, false),
        RadioPreset::Long => (Sf::Sf10, Bw::Bw125, Cr::Cr45, false),
        RadioPreset::Max => (Sf::Sf12, Bw::Bw125, Cr::Cr48, true),
        RadioPreset::Extreme => (Sf::Sf12, Bw::Bw62, Cr::Cr48, true),
    }
}

/// Low data rate optimisation is on exactly where a symbol lasts longer than
/// 16.38 ms; otherwise the link is unreliable.
pub proof fn ldro_follows_symbol_time(preset: RadioPreset)
    ensures
        ({
            let (sf, bw, cr, ldro) = modulation_of(preset);
            let chips = match sf {
                Sf::Sf7 => 128int,
                Sf::Sf10 => 1024int,
                Sf::Sf12 => 4096int,
            };
            // A symbol takes `chips / bandwidth` seconds.
            ldro <==> chips * 100000 > 1638 * bw_hertz(bw)
        }),
{
}

/// An operation on the radio or its antenna switch.
pub enum RadioOp {
    /// Point the antenna switch.
    Path(RfPath),
    /// Enter standby on the RC clock.
    Standby,
    /// Wait until the radio is no longer busy: it ignores commands until then.
    WaitBusy,
    /// Read a register and write it back updated.
    Modify(RegUpdate),
    /// Use the DC-DC regulator.
    RegulatorSmps,
    /// Control the TCXO.
    Tcxo(Tcxo),
    /// Calibrate the blocks of this mask.
    Calibrate(u8),
    /// Calibrate image rejection between these bounds.
    CalibrateImage(u8, u8),
    /// Send and receive LoRa packets.
    PacketTypeLora,
    /// Tune.
    Frequency(Frequency),
    /// Configure the power amplifier.
    Pa(Pa),
    /// Set power and ramp time.
    TxPower(TxPower),
    /// Set the modulation.
    Modulation(ModParams),
    /// Set the packet params.
    Packet(PacketParams),
    /// LoRa sync word: public network (0x3444).
    SyncWordPublic,
    /// Buffer base addresses for transmit and receive.
    BufferBase(u8, u8),
    /// Route interrupts.
    Irqs(IrqConfig),
    /// Receive gain: boosted, or power saving.
    RxGain(bool),
    /// Fall back to standby after transmit and receive.
    FallbackStandby,
    /// Over-current protection at 140 mA.
    Ocp140,
    /// Clear these interrupts.
    ClearIrq(u16),
    /// Write the packet to the start of the buffer.
    WriteBuffer,
    /// Start receiving, with this timeout.
    SetRx(u32),
    /// Start transmitting, with this timeout.
    SetTx(u32),
}

/// An operation, as the contracts speak of it: parameter blocks are the
/// commands that they make.
pub enum OpView {
    Path(RfPath),
    Standby,
    WaitBusy,
    Modify(RegUpdate),
    RegulatorSmps,
    Tcxo(Seq<u8>),
    Calibrate(u8),
    CalibrateImage(u8, u8),
    PacketTypeLora,
    Frequency(Seq<u8>),
    Pa(Seq<u8>),
    TxPower(Seq<u8>),
    Modulation(Seq<u8>),
    Packet(Seq<u8>),
    SyncWordPublic,
    BufferBase(u8, u8),
    Irqs(Seq<u8>),
    RxGain(bool),
    FallbackStandby,
    Ocp140,
    ClearIrq(u16),
    WriteBuffer,
    SetRx(u32),
    SetTx(u32),
}

/// Whether a failure of the operation is a failure of what it is part of.
pub open spec fn matters(op: OpView) -> bool {
    !(op is RegulatorSmps || op is FallbackStandby || op is Ocp140 || op is RxGain
        || op is ClearIrq)
}

impl RadioOp {
    /// The operation as the contracts speak of it.
    pub open spec fn view(self) -> OpView {
        match self {
            RadioOp::Path(p) => OpView::Path(p),
            RadioOp::Standby => OpView::Standby,
            RadioOp::WaitBusy => OpView::WaitBusy,
            RadioOp::Modify(u) => OpView::Modify(u),
            RadioOp::RegulatorSmps => OpView::RegulatorSmps,
            RadioOp::Tcxo(t) => OpView::Tcxo(t.command()),
            RadioOp::Calibrate(m) => OpView::Calibrate(m),
            RadioOp::CalibrateImage(lo, hi) => OpView::CalibrateImage(lo, hi),
            RadioOp::PacketTypeLora => OpView::PacketTypeLora,
            RadioOp::Frequency(f) => OpView::Frequency(f.command()),
            RadioOp::Pa(p) => OpView::Pa(p.command()),
            RadioOp::TxPower(t) => OpView::TxPower(t.command()),
            RadioOp::Modulation(m) => OpView::Modulation(m.command()),
            RadioOp::Packet(p) => OpView::Packet(p.command()),
            RadioOp::SyncWordPublic => OpView::SyncWordPublic,
            RadioOp::BufferBase(tx, rx) => OpView::BufferBase(tx, rx),
            RadioOp::Irqs(c) => OpView::Irqs(c.command()),
            RadioOp::RxGain(b) => OpView::RxGain(b),
            RadioOp::FallbackStandby => OpView::FallbackStandby,
            RadioOp::Ocp140 => OpView::Ocp140,
            RadioOp::ClearIrq(m) => OpView::ClearIrq(m),
            RadioOp::WriteBuffer => OpView::WriteBuffer,
            RadioOp::SetRx(t) => OpView::SetRx(t),
            RadioOp::SetTx(t) => OpView::SetTx(t),
        }
    }

    /// Whether a failure of the operation is a failure of what it is part of.
    pub fn must_succeed(&self) -> (r: bool)
        ensures
            r == matters(self@),
    {
        match self {
            RadioOp::RegulatorSmps => false,
            RadioOp::FallbackStandby => false,
            RadioOp::Ocp140 => false,
            RadioOp::RxGain(_) => false,
            RadioOp::ClearIrq(_) => false,
            _ => true,
        }
    }
}

/// Some operations, as the contracts speak of them.
pub open spec fn op_views(ops: Seq<RadioOp>) -> Seq<OpView> {
    Seq::new(ops.len(), |i: int| ops[i]@)
}

/// Clock detection on, before the SMPS is selected: every other bit of the
/// regulator's configuration is preserved.
pub open spec fn smps_update() -> RegUpdate {
    RegUpdate { addr: REG_SMPS_C0, set: SMPS_CLK_DET_EN, clear: 0 }
}

/// The antenna mismatch workaround.
pub open spec fn clamp_update() -> RegUpdate {
    RegUpdate { addr: REG_TX_CLAMP, set: 0x1E, clear: 0 }
}

/// The modulation quality workaround: only 500 kHz wants the bit clear.
pub open spec fn modulation_update(bw: Bw) -> RegUpdate {
    if bw == Bw::Bw500 {
        RegUpdate { addr: REG_TX_MODULATION, set: 0, clear: 0x04 }
    } else {
        RegUpdate { addr: REG_TX_MODULATION, set: 0x04, clear: 0 }
    }
}

/// The operations that bring up the radio.
pub open spec fn init_ops(rf_frequency: u32, preset: RadioPreset, rx_boost: bool) -> Seq<OpView> {
    let (sf, bw, cr, ldro) = modulation_of(preset);
    let (lo, hi) = image_bounds(rf_frequency as int / 1000000);
    seq![
        OpView::Path(RfPath::Off),
        OpView::Standby,
        OpView::Modify(smps_update()),
        OpView::RegulatorSmps,
        OpView::Tcxo(tcxo_command(TcxoVolts::Volts1pt8, timeout_steps(TCXO_TIMEOUT_MS))),
        OpView::Calibrate(0x7F),
        OpView::WaitBusy,
        OpView::CalibrateImage(lo, hi),
        OpView::PacketTypeLora,
        OpView::Frequency(frequency_command(rf_frequency)),
        OpView::Pa(pa_command(0x04, 0x07, true)),
        OpView::TxPower(tx_params_command(0x16, Ramp::Micros200)),
        OpView::Modify(clamp_update()),
        OpView::Modulation(mod_params_command(sf, bw, cr, ldro)),
        OpView::Modify(modulation_update(bw)),
        OpView::Packet(packet_command(RX_MAX_PAYLOAD)),
        OpView::SyncWordPublic,
        OpView::BufferBase(0x00, 0x00),
        OpView::Irqs(irq_command(0x0243)),
        OpView::RxGain(rx_boost),
        OpView::FallbackStandby,
        OpView::Ocp140,
    ]
}

/// The operations that arm continuous receive, restoring the maximum acceptable
/// payload length first.
pub open spec fn enter_rx_ops() -> Seq<OpView> {
    seq![
        OpView::Path(RfPath::Off),
        OpView::Standby,
        OpView::WaitBusy,
        OpView::Packet(packet_command(RX_MAX_PAYLOAD)),
        OpView::Path(RfPath::Rx),
        OpView::SetRx(RX_CONTINUOUS),
        OpView::WaitBusy,
    ]
}

/// The operations that start transmitting a packet of `len` bytes.
pub open spec fn send_ops(len: u8, preset: RadioPreset) -> Seq<OpView> {
    seq![
        OpView::Path(RfPath::Off),
        OpView::Standby,
        OpView::WaitBusy,
        OpView::ClearIrq(ALL_IRQS),
        OpView::WriteBuffer,
        OpView::Packet(packet_command(len)),
        OpView::Path(RfPath::TxHp),
        OpView::SetTx(timeout_steps(tx_chip_timeout(preset))),
        OpView::WaitBusy,
    ]
}

/// What a packet came with.
#[derive(Debug, Clone, Copy, PartialEq, Eq, Structural)]
pub struct PacketStatus {
    /// Packet RSSI (dBm).
    pub rssi_dbm: i16,
    /// Packet SNR in quarter dB.
    pub snr_qdb: i16,
    /// RSSI of the despread signal (dBm).
    pub signal_rssi_dbm: i16,
}

/// How far a reception or transmission is.
#[derive(Debug, Clone, Copy, PartialEq, Eq, Structural)]
pub enum RadioStage {
    Idle,
    /// Receive is being armed, for a packet of up to `room` bytes.
    RecvArm { room: usize },
    /// The interrupt register is being read.
    RecvIrq { room: usize },
    /// Interrupts are being cleared; the packet is dropped.
    RecvDrop,
    /// Interrupts are being cleared.
    RecvClear { room: usize },
    /// The place of the packet in the buffer is being read.
    RecvStatus { room: usize },
    /// The packet is being read.
    RecvData { len: u8 },
    /// The packet status is being read.
    RecvPacket { len: u8 },
    /// A packet of `len` bytes is being handed to the radio.
    SendStart { len: u8 },
    /// The packet is on the air since `start`; what time is it?
    SendWait { len: u8, start: u32 },
    /// The interrupt register is being read.
    SendIrq { len: u8, start: u32 },
    /// Interrupts are being cleared.
    SendClear { len: u8, ok: bool },
    /// Receive is being armed again.
    SendRearm { len: u8, ok: bool },
}

/// What the driver asks for, as the contracts speak of it.
pub enum RadioDo {
    /// Carry out these operations, up to the first failure that matters.
    Run(Seq<OpView>),
    /// Read the interrupt register.
    ReadIrq,
    /// Feed the watchdog and look at the clock.
    Tick,
    /// Clear all interrupts.
    ClearIrq,
    /// Read the length and the place of the packet.
    BufferStatus,
    /// Read the packet.
    ReadBuffer { offset: u8, len: u8 },
    /// Read the packet status.
    PacketStatus,
    /// There is no packet.
    Nothing,
    /// There is a packet of `len` bytes.
    Received { len: u8, rssi: i16 },
    /// The packet was sent.
    Sent,
    /// It failed.
    Failed(Sx1262Error),
}

/// What the driver asks for.
pub enum RadioStep {
    /// Carry out these operations, up to the first failure that matters, then
    /// call [`Sx1262Driver::ran`].
    Run(Vec<RadioOp>),
    /// Read the interrupt register, then call [`Sx1262Driver::irq_read`].
    ReadIrq,
    /// Feed the watchdog and call [`Sx1262Driver::tick`].
    Tick,
    /// Clear all interrupts, then call [`Sx1262Driver::irq_cleared`].
    ClearIrq,
    /// Read the length and the place of the packet, then call
    /// [`Sx1262Driver::buffer_status`].
    BufferStatus,
    /// Read the packet, then call [`Sx1262Driver::buffer_read`].
    ReadBuffer { offset: u8, len: u8 },
    /// Read the packet status, then call [`Sx1262Driver::packet_status`].
    PacketStatus,
    /// There is no packet.
    Nothing,
    /// There is a packet of `len` bytes.
    Received { len: u8, rssi: i16 },
    /// The packet was sent.
    Sent,
    /// It failed.
    Failed(Sx1262Error),
}

impl RadioStep {
    /// What is asked, as the contracts speak of it.
    pub open spec fn view(self) -> RadioDo {
        match self {
            RadioStep::Run(ops) => RadioDo::Run(op_views(ops@)),
            RadioStep::ReadIrq => RadioDo::ReadIrq,
            RadioStep::Tick => RadioDo::Tick,
            RadioStep::ClearIrq => RadioDo::ClearIrq,
            RadioStep::BufferStatus => RadioDo::BufferStatus,
            RadioStep::ReadBuffer { offset, len } => RadioDo::ReadBuffer { offset, len },
            RadioStep::PacketStatus => RadioDo::PacketStatus,
            RadioStep::Nothing => RadioDo::Nothing,
            RadioStep::Received { len, rssi } => RadioDo::Received { len, rssi },
            RadioStep::Sent => RadioDo::Sent,
            RadioStep::Failed(e) => RadioDo::Failed(e),
        }
    }
}

/// SubGHz radio driver.
///
/// On the STM32WLE5 the SX1262 is integrated: the SubGHz peripheral handles
/// the internal SPI3 interface, BUSY signal, and DIO lines. The module's
/// antenna switch is the one part that is not on-die and still needs MCU pins:
/// see [`RfSwitch`].
#[derive(Debug, Clone, Copy, PartialEq, Eq, Structural)]
pub struct Sx1262Driver {
    pub preset: RadioPreset,
    pub rx_boost: bool,
    /// Continuous receive is armed.
    pub rx_active: bool,
    pub stage: RadioStage,
}

/// The end of what was under way.
pub open spec fn radio_end(d: Sx1262Driver, act: RadioDo) -> (Sx1262Driver, RadioDo) {
    (Sx1262Driver { stage: RadioStage::Idle, ..d }, act)
}

/// Is an event among those of an interrupt register?
pub open spec fn has_irq(irq: u16, kind: IrqKind) -> bool {
    irq & irq_bit(kind) != 0
}

/// A poll for a packet of up to `room` bytes begins: receive is armed first
/// where it is not.
pub open spec fn radio_poll(d: Sx1262Driver, room: usize) -> (Sx1262Driver, RadioDo) {
    if d.rx_active {
        (Sx1262Driver { stage: RadioStage::RecvIrq { room }, ..d }, RadioDo::ReadIrq)
    } else {
        (
            Sx1262Driver { stage: RadioStage::RecvArm { room }, ..d },
            RadioDo::Run(enter_rx_ops()),
        )
    }
}

/// A transmission of `len` bytes begins.
pub open spec fn radio_send(d: Sx1262Driver, len: nat) -> (Sx1262Driver, RadioDo) {
    let len = (len % 256) as u8;
    (
        Sx1262Driver { rx_active: false, stage: RadioStage::SendStart { len }, ..d },
        RadioDo::Run(send_ops(len, d.preset)),
    )
}

/// The activity flags once the operations have been carried out, or not: a
/// packet is on the air.
pub open spec fn activity_ran(d: Sx1262Driver, ok: bool, a: Activity) -> Activity {
    if d.stage is SendStart && ok {
        Activity { tx: true, ..a }
    } else {
        a
    }
}

/// The recorded events once the operations have been carried out, or not: a
/// transmission is through.
pub open spec fn events_ran(d: Sx1262Driver, q: Seq<RadioEvent>) -> Seq<RadioEvent> {
    match d.stage {
        RadioStage::SendRearm { len, ok: sent } => pushed(q, RadioEvent::Tx { len, ok: sent }),
        _ => q,
    }
}

/// The activity flags once the packet status has been read, or not.
pub open spec fn activity_received(status: Option<PacketStatus>, a: Activity) -> Activity {
    if status is Some {
        Activity { rx: true, ..a }
    } else {
        a
    }
}

/// The recorded events once the packet status has been read, or not.
pub open spec fn events_received(
    d: Sx1262Driver,
    status: Option<PacketStatus>,
    q: Seq<RadioEvent>,
) -> Seq<RadioEvent> {
    match (d.stage, status) {
        (RadioStage::RecvPacket { len }, Some(s)) => pushed(
            q,
            RadioEvent::Rx {
                len,
                rssi_dbm: s.rssi_dbm,
                snr_qdb: s.snr_qdb,
                signal_rssi_dbm: s.signal_rssi_dbm,
            },
        ),
        _ => q,
    }
}

/// The operations have been carried out, or one that matters has failed.
pub open spec fn radio_ran(d: Sx1262Driver, ok: bool, now_ms: u32) -> (Sx1262Driver, RadioDo) {
    match d.stage {
        RadioStage::RecvArm { room } => if ok {
            (
                Sx1262Driver { rx_active: true, stage: RadioStage::RecvIrq { room }, ..d },
                RadioDo::ReadIrq,
            )
        } else {
            radio_end(d, RadioDo::Failed(Sx1262Error::Radio))
        },
        RadioStage::SendStart { len } => if ok {
            (
                Sx1262Driver { stage: RadioStage::SendWait { len, start: now_ms }, ..d },
                RadioDo::Tick,
            )
        } else {
            radio_end(d, RadioDo::Failed(Sx1262Error::Radio))
        },
        RadioStage::SendRearm { len, ok: sent } => radio_end(
            Sx1262Driver { rx_active: ok || d.rx_active, ..d },
            if sent {
                RadioDo::Sent
            } else {
                RadioDo::Failed(Sx1262Error::Timeout)
            },
        ),
        _ => radio_end(d, RadioDo::Failed(Sx1262Error::Radio)),
    }
}

/// The interrupt register has been read, or could not be.
pub open spec fn radio_irq(d: Sx1262Driver, irq: Option<u16>) -> (Sx1262Driver, RadioDo) {
    match (d.stage, irq) {
        (RadioStage::RecvIrq { room }, Some(irq)) => if !has_irq(irq, IrqKind::RxDone) {
            radio_end(d, RadioDo::Nothing)
        } else if has_irq(irq, IrqKind::CrcErr) {
            // A packet with a bad CRC is still in the buffer; the mesh layer
            // does not checksum, so it is dropped here.
            (Sx1262Driver { stage: RadioStage::RecvDrop, ..d }, RadioDo::ClearIrq)
        } else {
            (Sx1262Driver { stage: RadioStage::RecvClear { room }, ..d }, RadioDo::ClearIrq)
        },
        (RadioStage::SendIrq { len, start }, Some(irq)) => if has_irq(irq, IrqKind::TxDone) {
            (
                Sx1262Driver { stage: RadioStage::SendClear { len, ok: true }, ..d },
                RadioDo::ClearIrq,
            )
        } else if has_irq(irq, IrqKind::Timeout) {
            (
                Sx1262Driver { stage: RadioStage::SendClear { len, ok: false }, ..d },
                RadioDo::ClearIrq,
            )
        } else {
            (Sx1262Driver { stage: RadioStage::SendWait { len, start }, ..d }, RadioDo::Tick)
        },
        (RadioStage::SendIrq { len, start }, None) => (
            Sx1262Driver { stage: RadioStage::SendWait { len, start }, ..d },
            RadioDo::Tick,
        ),
        _ => radio_end(d, RadioDo::Failed(Sx1262Error::Radio)),
    }
}

/// The packet has been on the air for longer than its preset allows.
pub open spec fn tx_overdue(d: Sx1262Driver, start: u32, now_ms: u32) -> bool {
    (now_ms - start) % 0x1_0000_0000 > tx_poll_timeout(d.preset)
}

/// It is now `now_ms`.
pub open spec fn radio_tick(d: Sx1262Driver, now_ms: u32) -> (Sx1262Driver, RadioDo) {
    match d.stage {
        RadioStage::SendWait { len, start } => if tx_overdue(d, start, now_ms) {
            (
                Sx1262Driver { stage: RadioStage::SendClear { len, ok: false }, ..d },
                RadioDo::ClearIrq,
            )
        } else {
            (Sx1262Driver { stage: RadioStage::SendIrq { len, start }, ..d }, RadioDo::ReadIrq)
        },
        _ => radio_end(d, RadioDo::Failed(Sx1262Error::Radio)),
    }
}

/// The interrupts have been cleared.
pub open spec fn radio_cleared(d: Sx1262Driver) -> (Sx1262Driver, RadioDo) {
    match d.stage {
        RadioStage::RecvDrop => radio_end(d, RadioDo::Nothing),
        RadioStage::RecvClear { room } => (
            Sx1262Driver { stage: RadioStage::RecvStatus { room }, ..d },
            RadioDo::BufferStatus,
        ),
        // Re-enter continuous RX immediately: the node is deaf while it
        // transmits.
        RadioStage::SendClear { len, ok } => (
            Sx1262Driver { stage: RadioStage::SendRearm { len, ok }, ..d },
            RadioDo::Run(enter_rx_ops()),
        ),
        _ => radio_end(d, RadioDo::Failed(Sx1262Error::Radio)),
    }
}

/// The length and the place of the packet have been read, or could not be.
pub open spec fn radio_buffer_status(d: Sx1262Driver, status: Option<(u8, u8)>) -> (
    Sx1262Driver,
    RadioDo,
) {
    match (d.stage, status) {
        (RadioStage::RecvStatus { room }, Some((len, offset))) => if len > room {
            radio_end(Sx1262Driver { rx_active: false, ..d }, RadioDo::Nothing)
        } else {
            (
                Sx1262Driver { stage: RadioStage::RecvData { len }, ..d },
                RadioDo::ReadBuffer { offset, len },
            )
        },
        _ => radio_end(d, RadioDo::Failed(Sx1262Error::Radio)),
    }
}

/// The packet has been read, or could not be.
pub open spec fn radio_buffer_read(d: Sx1262Driver, ok: bool) -> (Sx1262Driver, RadioDo) {
    match d.stage {
        RadioStage::RecvData { len } => if ok {
            (Sx1262Driver { stage: RadioStage::RecvPacket { len }, ..d }, RadioDo::PacketStatus)
        } else {
            radio_end(d, RadioDo::Failed(Sx1262Error::Radio))
        },
        _ => radio_end(d, RadioDo::Failed(Sx1262Error::Radio)),
    }
}

/// The packet status has been read, or could not be.
pub open spec fn radio_packet_status(d: Sx1262Driver, status: Option<PacketStatus>) -> (
    Sx1262Driver,
    RadioDo,
) {
    match (d.stage, status) {
        (RadioStage::RecvPacket { len }, Some(s)) => radio_end(
            d,
            RadioDo::Received { len, rssi: s.rssi_dbm },
        ),
        _ => radio_end(d, RadioDo::Failed(Sx1262Error::Radio)),
    }
}

impl Sx1262Driver {
    /// A driver for a radio with this preset. Call [`init`](Self::init) before
    /// use.
    pub fn new(preset: RadioPreset, rx_boost: bool) -> (r: Sx1262Driver)
        ensures
            r == (Sx1262Driver { preset, rx_boost, rx_active: false, stage: RadioStage::Idle }),
    {
        Sx1262Driver { preset, rx_boost, rx_active: false, stage: RadioStage::Idle }
    }

    /// Initialise the radio with LoRa settings: the operations that do so.
    ///
    /// `rf_frequency` is in Hz, e.g. `915_000_000` for 915 MHz.
    pub fn init(&mut self, rf_frequency: u32) -> (r: Vec<RadioOp>)
        requires
            rf_frequency < 1020000000,
        ensures
            op_views(r@) == init_ops(rf_frequency, old(self).preset, old(self).rx_boost),
            *final(self) == (Sx1262Driver { rx_active: false, ..*old(self) }),
    {
        self.rx_active = false;
        let mut ops: Vec<RadioOp> = Vec::new();

        // Nothing is on the air during configuration, and a live antenna
        // path while the PA and receiver are being reconfigured is a path
        // nobody is driving deliberately.
        ops.push(RadioOp::Path(RfPath::Off));
        // Reset the radio and enter standby
        ops.push(RadioOp::Standby);

        // Use DCDC regulator for better efficiency. Clock detection has to be
        // enabled before the SMPS is, not after.
        ops.push(
            RadioOp::Modify(RegUpdate { addr: REG_SMPS_C0, set: SMPS_CLK_DET_EN, clear: 0 }),
        );
        ops.push(RadioOp::RegulatorSmps);

        // Configure TCXO: Wio-E5 has a 32 MHz TCXO on DIO3
        ops.push(RadioOp::Tcxo(tcxo_mode(TcxoVolts::Volts1pt8, timeout_bits(TCXO_TIMEOUT_MS))));

        // Recalibrate every block now that there is a 32 MHz clock. The
        // automatic calibration at power-up ran before the TCXO was enabled,
        // so the RC64k, RC13M, PLL, ADC and image results it produced were
        // all derived from a clock that was not running - which shows up as
        // frequency error and lost sensitivity rather than as a failure.
        // 0x7F selects every block.
        ops.push(RadioOp::Calibrate(0x7F));
        ops.push(RadioOp::WaitBusy);

        // Image rejection is calibrated for the band actually in use.
        let (lo, hi): (u8, u8) = image_band(rf_frequency);
        ops.push(RadioOp::CalibrateImage(lo, hi));
        ops.push(RadioOp::PacketTypeLora);
        ops.push(RadioOp::Frequency(rf_freq(rf_frequency)));

        // PA config: +22 dBm high-power PA
        ops.push(RadioOp::Pa(pa_config(0x04, 0x07, true)));
        // TX params: 22 dBm, 200 us ramp
        ops.push(RadioOp::TxPower(tx_params(0x16, Ramp::Micros200)));

        // Applied after the PA is configured, since configuring it is what
        // this compensates for. The board's antenna is a connector and a
        // short wire, so the mismatch this guards the PA against is the
        // normal case rather than a fault.
        ops.push(RadioOp::Modify(RegUpdate { addr: REG_TX_CLAMP, set: 0x1E, clear: 0 }));

        // LoRa modulation: SF / BW / CR selected by the preset.
        let (sf, bw, cr, ldro): (Sf, Bw, Cr, bool) = modulation(self.preset);
        ops.push(RadioOp::Modulation(lora_mod_params(sf, bw, cr, ldro)));

        // Bandwidth-dependent, and the modulation params are what carry the
        // bandwidth, so this follows them. Only 500 kHz wants the bit clear;
        // every other bandwidth wants it set, which is also the reset value.
        if bw == Bw::Bw500 {
            ops.push(
                RadioOp::Modify(RegUpdate { addr: REG_TX_MODULATION, set: 0, clear: 0x04 }),
            );
        } else {
            ops.push(
                RadioOp::Modify(RegUpdate { addr: REG_TX_MODULATION, set: 0x04, clear: 0 }),
            );
        }

        // LoRa packet params: 8-sym preamble, variable header, 255-byte max
        ops.push(RadioOp::Packet(packet_params(RX_MAX_PAYLOAD)));
        ops.push(RadioOp::SyncWordPublic);
        ops.push(RadioOp::BufferBase(0x00, 0x00));

        // IRQ: route RxDone, TxDone, Err (CRC) and Timeout to all lines
        ops.push(RadioOp::Irqs(radio_irqs()));

        // RxGain is not covered by warm-start sleep retention.
        ops.push(RadioOp::RxGain(self.rx_boost));
        ops.push(RadioOp::FallbackStandby);
        ops.push(RadioOp::Ocp140);
        assert(op_views(ops@) =~= init_ops(rf_frequency, self.preset, self.rx_boost));
        ops
    }

    /// Arm continuous receive, restoring the maximum acceptable payload
    /// length first: the operations that do so.
    ///
    /// That restore is the whole reason this is more than starting to receive:
    /// a transmit leaves the packet params carrying the length of the frame it
    /// just sent, and re-entering receive with that still in place caps the
    /// receiver at the size of this node's own last transmission - so a node
    /// whose last packet was short goes deaf to every longer frame on the
    /// network.
    ///
    /// Packet params are configuration, so the radio is put back in standby
    /// to take them - the caller may be re-arming from continuous RX after
    /// dropping an oversize packet.
    fn enter_rx(&self) -> (r: Vec<RadioOp>)
        ensures
            op_views(r@) == enter_rx_ops(),
    {
        let mut ops: Vec<RadioOp> = Vec::new();
        ops.push(RadioOp::Path(RfPath::Off));
        ops.push(RadioOp::Standby);
        ops.push(RadioOp::WaitBusy);
        ops.push(RadioOp::Packet(packet_params(RX_MAX_PAYLOAD)));
        ops.push(RadioOp::Path(RfPath::Rx));
        ops.push(RadioOp::SetRx(RX_CONTINUOUS));
        ops.push(RadioOp::WaitBusy);
        assert(op_views(ops@) =~= enter_rx_ops());
        ops
    }

    /// Poll for a received packet of up to `room` bytes.
    pub fn poll_recv(&mut self, room: usize) -> (r: RadioStep)
        requires
            old(self).stage is Idle,
        ensures
            (*final(self), r@) == radio_poll(*old(self), room),
    {
        // Enter continuous RX if not already listening
        if !self.rx_active {
            self.stage = RadioStage::RecvArm { room };
            return RadioStep::Run(self.enter_rx());
        }
        self.stage = RadioStage::RecvIrq { room };
        RadioStep::ReadIrq
    }

    /// Transmit a packet of `len` bytes, whose length the radio is told on one
    /// byte.
    pub fn send(&mut self, len: usize) -> (r: RadioStep)
        requires
            old(self).stage is Idle,
        ensures
            (*final(self), r@) == radio_send(*old(self), len as nat),
    {
        self.rx_active = false;
        let len: u8 = (len % 256) as u8;
        self.stage = RadioStage::SendStart { len };
        let mut ops: Vec<RadioOp> = Vec::new();

        // Standby before TX, with the antenna isolated while the packet
        // params change under it.
        ops.push(RadioOp::Path(RfPath::Off));
        ops.push(RadioOp::Standby);
        ops.push(RadioOp::WaitBusy);
        // Clear any pending IRQs
        ops.push(RadioOp::ClearIrq(ALL_IRQS));
        ops.push(RadioOp::WriteBuffer);

        // Packet params must carry the actual payload length, or TxDone
        // never fires. `enter_rx` puts the receive ceiling back afterwards.
        ops.push(RadioOp::Packet(packet_params(len)));

        // Point the antenna at the PA before the ramp starts, never after:
        // a PA ramping into an isolated switch is the transmission that goes
        // nowhere.
        ops.push(RadioOp::Path(RfPath::TxHp));
        // Start TX with chip timeout
        ops.push(RadioOp::SetTx(timeout_bits(tx_chip_timeout_ms(self.preset))));
        ops.push(RadioOp::WaitBusy);
        assert(op_views(ops@) =~= send_ops(len, self.preset));
        RadioStep::Run(ops)
    }

    /// Maximum packet size in bytes.
    pub fn max_packet_len(&self) -> (r: usize)
        ensures
            r == 255,
    {
        255
    }

    fn finish(&mut self, step: RadioStep) -> (r: RadioStep)
        ensures
            *final(self) == (Sx1262Driver { stage: RadioStage::Idle, ..*old(self) }),
            r@ == step@,
    {
        self.stage = RadioStage::Idle;
        step
    }

    /// The operations of [`RadioStep::Run`] have been carried out, or one that
    /// matters has failed. A packet on the air lights the activity LED, and a
    /// packet that is through is recorded.
    pub fn ran(
        &mut self,
        ok: bool,
        now_ms: u32,
        activity: &mut Activity,
        queue: &mut Queue,
    ) -> (r: RadioStep)
        requires
            old(queue).wf(),
            old(self).stage is RecvArm || old(self).stage is SendStart
                || old(self).stage is SendRearm,
        ensures
            final(queue).wf(),
            (*final(self), r@) == radio_ran(*old(self), ok, now_ms),
            *final(activity) == activity_ran(*old(self), ok, *old(activity)),
            final(queue)@ == events_ran(*old(self), old(queue)@),
    {
        match self.stage {
            RadioStage::RecvArm { room } => {
                if !ok {
                    return self.finish(RadioStep::Failed(Sx1262Error::Radio));
                }
                self.rx_active = true;
                self.stage = RadioStage::RecvIrq { room };
                RadioStep::ReadIrq
            },
            RadioStage::SendStart { len } => {
                if !ok {
                    return self.finish(RadioStep::Failed(Sx1262Error::Radio));
                }
                note_tx(activity);
                self.stage = RadioStage::SendWait { len, start: now_ms };
                RadioStep::Tick
            },
            RadioStage::SendRearm { len, ok: sent } => {
                if ok {
                    self.rx_active = true;
                }
                events::note_tx(queue, len, sent);
                if sent {
                    self.finish(RadioStep::Sent)
                } else {
                    self.finish(RadioStep::Failed(Sx1262Error::Timeout))
                }
            },
            _ => self.finish(RadioStep::Failed(Sx1262Error::Radio)),
        }
    }

    /// The answer to [`RadioStep::ReadIrq`]; none where the read failed.
    pub fn irq_read(&mut self, irq: Option<u16>) -> (r: RadioStep)
        requires
            old(self).stage is RecvIrq || old(self).stage is SendIrq,
        ensures
            (*final(self), r@) == radio_irq(*old(self), irq),
    {
        match self.stage {
            RadioStage::RecvIrq { room } => match irq {
                None => self.finish(RadioStep::Failed(Sx1262Error::Radio)),
                Some(irq) => {
                    if irq & irq_mask(IrqKind::RxDone) == 0 {
                        return self.finish(RadioStep::Nothing);
                    }
                    // The SX126x raises RxDone alongside Err when a packet arrives with
                    // a bad CRC, and the payload is still sitting in the buffer. The
                    // mesh layer above does not checksum, so a corrupt packet handed up
                    // would be parsed as a real frame - drop it here.
                    if irq & irq_mask(IrqKind::CrcErr) != 0 {
                        self.stage = RadioStage::RecvDrop;
                    } else {
                        self.stage = RadioStage::RecvClear { room };
                    }
                    RadioStep::ClearIrq
                },
            },
            RadioStage::SendIrq { len, start } => {
                match irq {
                    Some(irq) => {
                        let tx_done: bool = irq & irq_mask(IrqKind::TxDone) != 0;
                        let timeout: bool = irq & irq_mask(IrqKind::Timeout) != 0;
                        if tx_done || timeout {
                            self.stage = RadioStage::SendClear { len, ok: tx_done };
                            return RadioStep::ClearIrq;
                        }
                    },
                    None => {},
                }
                self.stage = RadioStage::SendWait { len, start };
                RadioStep::Tick
            },
            _ => self.finish(RadioStep::Failed(Sx1262Error::Radio)),
        }
    }

    /// The answer to [`RadioStep::Tick`].
    ///
    /// The deadline scales with the preset and reaches 7.5 s on `extreme`
    /// against a 5 s watchdog, so a transmit that never completes would reset
    /// the board before the poll can give up. Rather than stretch the timeout,
    /// which would blunt it everywhere, the wait feeds the watchdog itself; it
    /// is bounded by the deadline either way, so this cannot hide a radio that
    /// has stopped answering.
    pub fn tick(&mut self, now_ms: u32) -> (r: RadioStep)
        requires
            old(self).stage is SendWait,
        ensures
            (*final(self), r@) == radio_tick(*old(self), now_ms),
    {
        match self.stage {
            RadioStage::SendWait { len, start } => {
                if now_ms.wrapping_sub(start) > tx_poll_timeout_ms(self.preset) {
                    self.stage = RadioStage::SendClear { len, ok: false };
                    return RadioStep::ClearIrq;
                }
                self.stage = RadioStage::SendIrq { len, start };
                RadioStep::ReadIrq
            },
            _ => self.finish(RadioStep::Failed(Sx1262Error::Radio)),
        }
    }

    /// The answer to [`RadioStep::ClearIrq`], whether or not it succeeded.
    pub fn irq_cleared(&mut self) -> (r: RadioStep)
        requires
            old(self).stage is RecvDrop || old(self).stage is RecvClear
                || old(self).stage is SendClear,
        ensures
            (*final(self), r@) == radio_cleared(*old(self)),
    {
        match self.stage {
            RadioStage::RecvDrop => self.finish(RadioStep::Nothing),
            RadioStage::RecvClear { room } => {
                self.stage = RadioStage::RecvStatus { room };
                RadioStep::BufferStatus
            },
            RadioStage::SendClear { len, ok } => {
                // Re-enter continuous RX immediately: the node is deaf while it
                // transmits, so every millisecond spent out of RX after TxDone is
                // another chance to miss someone else's transmission.
                self.stage = RadioStage::SendRearm { len, ok };
                RadioStep::Run(self.enter_rx())
            },
            _ => self.finish(RadioStep::Failed(Sx1262Error::Radio)),
        }
    }

    /// The answer to [`RadioStep::BufferStatus`]: length and place of the
    /// packet; none where the read failed.
    pub fn buffer_status(&mut self, status: Option<(u8, u8)>) -> (r: RadioStep)
        requires
            old(self).stage is RecvStatus,
        ensures
            (*final(self), r@) == radio_buffer_status(*old(self), status),
    {
        match self.stage {
            RadioStage::RecvStatus { room } => match status {
                None => self.finish(RadioStep::Failed(Sx1262Error::Radio)),
                Some((len, offset)) => {
                    if len as usize > room {
                        self.rx_active = false;
                        return self.finish(RadioStep::Nothing);
                    }
                    self.stage = RadioStage::RecvData { len };
                    RadioStep::ReadBuffer { offset, len }
                },
            },
            _ => self.finish(RadioStep::Failed(Sx1262Error::Radio)),
        }
    }

    /// The answer to [`RadioStep::ReadBuffer`].
    pub fn buffer_read(&mut self, ok: bool) -> (r: RadioStep)
        requires
            old(self).stage is RecvData,
        ensures
            (*final(self), r@) == radio_buffer_read(*old(self), ok),
    {
        match self.stage {
            RadioStage::RecvData { len } => {
                if !ok {
                    return self.finish(RadioStep::Failed(Sx1262Error::Radio));
                }
                self.stage = RadioStage::RecvPacket { len };
                RadioStep::PacketStatus
            },
            _ => self.finish(RadioStep::Failed(Sx1262Error::Radio)),
        }
    }

    /// The answer to [`RadioStep::PacketStatus`]; none where the read failed. A
    /// received packet lights the activity LED and is recorded.
    pub fn packet_status(
        &mut self,
        status: Option<PacketStatus>,
        activity: &mut Activity,
        queue: &mut Queue,
    ) -> (r: RadioStep)
        requires
            old(queue).wf(),
            old(self).stage is RecvPacket,
        ensures
            final(queue).wf(),
            (*final(self), r@) == radio_packet_status(*old(self), status),
            *final(activity) == activity_received(status, *old(activity)),
            final(queue)@ == events_received(*old(self), status, old(queue)@),
    {
        match self.stage {
            RadioStage::RecvPacket { len } => match status {
                None => self.finish(RadioStep::Failed(Sx1262Error::Radio)),
                Some(s) => {
                    note_rx(activity);
                    events::note_rx(queue, len, s.rssi_dbm, s.snr_qdb, s.signal_rssi_dbm);
                    // Stay in RX - continuous mode persists
                    self.finish(RadioStep::Received { len, rssi: s.rssi_dbm })
                },
            },
            _ => self.finish(RadioStep::Failed(Sx1262Error::Radio)),
        }
    }
}

fn radio_irqs() -> (r: IrqConfig)
    ensures
        r.command() == irq_command(0x0243),
{
    let c0: IrqConfig = irq_none();
    assert(irq_command(0) == c0.command());
    let c1: IrqConfig = irq_enable_all(c0, IrqKind::RxDone);
    assert(0u16 | 0x0002u16 == 0x0002u16) by (bit_vector);
    assert(irq_command(0x0002) == c1.command());
    let c2: IrqConfig = irq_enable_all(c1, IrqKind::TxDone);
    assert(0x0002u16 | 0x0001u16 == 0x0003u16) by (bit_vector);
    assert(irq_command(0x0003) == c2.command());
    let c3: IrqConfig = irq_enable_all(c2, IrqKind::CrcErr);
    assert(0x0003u16 | 0x0040u16 == 0x0043u16) by (bit_vector);
    assert(irq_command(0x0043) == c3.command());
    let c4: IrqConfig = irq_enable_all(c3, IrqKind::Timeout);
    assert(0x0043u16 | 0x0200u16 == 0x0243u16) by (bit_vector);
    c4
}

/// The radio and its antenna switch, as far as the order of operations matters.
pub struct RadioModel {
    /// Where the switch points.
    pub path: RfPath,
    /// The packet params that are in place.
    pub packet: Seq<u8>,
    /// The radio has been in standby since it last sent or received.
    pub standby: bool,
    /// It is receiving continuously.
    pub receiving: bool,
    /// Every transmission began with the antenna at the PA, every reception
    /// with the antenna at the receiver, and every change of packet params in
    /// standby with the antenna isolated.
    pub in_order: bool,
}

/// One operation.
pub open spec fn model_op(m: RadioModel, op: OpView) -> RadioModel {
    match op {
        OpView::Path(path) => RadioModel { path, ..m },
        OpView::Standby => RadioModel { standby: true, receiving: false, ..m },
        OpView::Packet(packet) => RadioModel {
            packet,
            in_order: m.in_order && m.standby && m.path == RfPath::Off,
            ..m
        },
        OpView::SetRx(timeout) => RadioModel {
            standby: false,
            receiving: timeout == RX_CONTINUOUS,
            in_order: m.in_order && m.path == RfPath::Rx,
            ..m
        },
        OpView::SetTx(_) => RadioModel {
            standby: false,
            receiving: false,
            in_order: m.in_order && m.path == RfPath::TxHp,
            ..m
        },
        _ => m,
    }
}

/// Some operations, one after the other.
pub open spec fn model_ops(m: RadioModel, ops: Seq<OpView>) -> RadioModel
    decreases ops.len(),
{
    if ops.len() == 0 {
        m
    } else {
        model_op(model_ops(m, ops.drop_last()), ops.last())
    }
}

proof fn model_ops_push(m: RadioModel, ops: Seq<OpView>, op: OpView)
    ensures
        model_ops(m, ops.push(op)) == model_op(model_ops(m, ops), op),
{
    assert(ops.push(op).drop_last() =~= ops);
}

proof fn model_ops_concat(m: RadioModel, a: Seq<OpView>, b: Seq<OpView>)
    ensures
        model_ops(m, a + b) == model_ops(model_ops(m, a), b),
    decreases b.len(),
{
    if b.len() == 0 {
        assert(a + b =~= a);
    } else {
        assert((a + b).drop_last() =~= a + b.drop_last());
        model_ops_concat(m, a, b.drop_last());
    }
}

/// Bringing up the radio never points the antenna anywhere: it is isolated from
/// the first operation to the last.
pub proof fn init_keeps_the_antenna_isolated(
    m: RadioModel,
    rf_frequency: u32,
    preset: RadioPreset,
    rx_boost: bool,
)
    ensures
        ({
            let ops = init_ops(rf_frequency, preset, rx_boost);
            &&& ops[0] == OpView::Path(RfPath::Off)
            &&& forall|i: int|
                0 <= i < ops.len() ==> ((#[trigger] ops[i]) is Path ==> ops[i] == OpView::Path(
                    RfPath::Off,
                ))
            &&& forall|i: int| 0 <= i < ops.len() ==> !((#[trigger] ops[i]) is SetTx) && !(
            ops[i] is SetRx)
        }),
{
}

/// Arming receive leaves the radio receiving continuously through an antenna
/// that points at the receiver, with the largest payload accepted, whatever was
/// before; and everything happens in order.
pub proof fn arming_restores_reception(m: RadioModel)
    requires
        m.in_order,
    ensures
        ({
            let n = model_ops(m, enter_rx_ops());
            &&& n.receiving
            &&& n.path == RfPath::Rx
            &&& n.packet == packet_command(RX_MAX_PAYLOAD)
            &&& n.in_order
        }),
{
    let ops = enter_rx_ops();
    let e = Seq::<OpView>::empty();
    let s1 = e.push(ops[0]);
    let s2 = s1.push(ops[1]);
    let s3 = s2.push(ops[2]);
    let s4 = s3.push(ops[3]);
    let s5 = s4.push(ops[4]);
    let s6 = s5.push(ops[5]);
    let s7 = s6.push(ops[6]);
    model_ops_push(m, e, ops[0]);
    model_ops_push(m, s1, ops[1]);
    model_ops_push(m, s2, ops[2]);
    model_ops_push(m, s3, ops[3]);
    model_ops_push(m, s4, ops[4]);
    model_ops_push(m, s5, ops[5]);
    model_ops_push(m, s6, ops[6]);
    assert(s7 =~= ops);
}

/// A transmission starts with the antenna at the PA and the packet's own length
/// in the packet params; and arming receive afterwards restores the ceiling, so
/// that a short packet does not leave the node deaf to longer ones.
pub proof fn transmission_is_undone_by_arming(m: RadioModel, len: u8, preset: RadioPreset)
    requires
        m.in_order,
    ensures
        ({
            let sent = model_ops(m, send_ops(len, preset));
            let armed = model_ops(m, send_ops(len, preset) + enter_rx_ops());
            &&& sent.path == RfPath::TxHp
            &&& sent.packet == packet_command(len)
            &&& sent.in_order
            &&& armed.receiving
            &&& armed.path == RfPath::Rx
            &&& armed.packet == packet_command(RX_MAX_PAYLOAD)
            &&& armed.in_order
        }),
{
    let ops = send_ops(len, preset);
    let e = Seq::<OpView>::empty();
    let s1 = e.push(ops[0]);
    let s2 = s1.push(ops[1]);
    let s3 = s2.push(ops[2]);
    let s4 = s3.push(ops[3]);
    let s5 = s4.push(ops[4]);
    let s6 = s5.push(ops[5]);
    let s7 = s6.push(ops[6]);
    let s8 = s7.push(ops[7]);
    let s9 = s8.push(ops[8]);
    model_ops_push(m, e, ops[0]);
    model_ops_push(m, s1, ops[1]);
    model_ops_push(m, s2, ops[2]);
    model_ops_push(m, s3, ops[3]);
    model_ops_push(m, s4, ops[4]);
    model_ops_push(m, s5, ops[5]);
    model_ops_push(m, s6, ops[6]);
    model_ops_push(m, s7, ops[7]);
    model_ops_push(m, s8, ops[8]);
    assert(s9 =~= ops);
    model_ops_concat(m, ops, enter_rx_ops());
    arming_restores_reception(model_ops(m, ops));
}

/// The register workarounds change the bits that they are about and no others.
pub proof fn workarounds_keep_other_bits(old: u8)
    ensures
        smps_update().updated(old) == old | 0x40,
        clamp_update().updated(old) == old | 0x1E,
        modulation_update(Bw::Bw125).updated(old) == old | 0x04,
        modulation_update(Bw::Bw62).updated(old) == old | 0x04,
        modulation_update(Bw::Bw500).updated(old) == old & !0x04,
{
    assert((old & !0u8) | 0x40u8 == old | 0x40u8) by (bit_vector);
    assert((old & !0u8) | 0x1Eu8 == old | 0x1Eu8) by (bit_vector);
    assert((old & !0u8) | 0x04u8 == old | 0x04u8) by (bit_vector);
    assert((old & !0x04u8) | 0u8 == old & !0x04u8) by (bit_vector);
}

/// Every transmission ends: it is given up as soon as a look at the clock finds
/// it overdue, and the node then arms receive whatever became of it.
pub proof fn transmission_ends_in_reception(d: Sx1262Driver, len: u8, start: u32, now_ms: u32)
    requires
        d.stage == (RadioStage::SendWait { len, start }),
        tx_overdue(d, start, now_ms),
    ensures
        ({
            let given_up = radio_tick(d, now_ms).0;
            let rearming = radio_cleared(given_up);
            &&& rearming.1 == RadioDo::Run(enter_rx_ops())
            &&& radio_ran(rearming.0, true, now_ms) == (
                Sx1262Driver { rx_active: true, stage: RadioStage::Idle, ..d },
                RadioDo::Failed(Sx1262Error::Timeout),
            )
        }),
{
}

/// A transmission that the radio reports over is a success exactly if the packet
/// went out, and receive is armed before either is told. Where arming fails, the
/// next poll tries again.
pub proof fn outcome_is_told_after_arming(
    d: Sx1262Driver,
    len: u8,
    start: u32,
    irq: u16,
    armed: bool,
    now_ms: u32,
)
    requires
        d.stage == (RadioStage::SendIrq { len, start }),
        has_irq(irq, IrqKind::TxDone) || has_irq(irq, IrqKind::Timeout),
        !d.rx_active,
    ensures
        ({
            let over = radio_irq(d, Some(irq));
            let rearming = radio_cleared(over.0);
            &&& over.1 is ClearIrq
            &&& rearming.1 == RadioDo::Run(enter_rx_ops())
            &&& radio_ran(rearming.0, armed, now_ms) == (
                Sx1262Driver { rx_active: armed, stage: RadioStage::Idle, ..d },
                if has_irq(irq, IrqKind::TxDone) {
                    RadioDo::Sent
                } else {
                    RadioDo::Failed(Sx1262Error::Timeout)
                },
            )
        }),
{
}

/// A packet with a bad CRC, and one too large for the buffer, are never handed
/// up; the latter makes the next poll arm receive anew.
pub proof fn bad_packets_are_dropped(d: Sx1262Driver, room: usize, irq: u16, len: u8, offset: u8)
    ensures
        d.stage == (RadioStage::RecvIrq { room }) && has_irq(irq, IrqKind::RxDone) && has_irq(
            irq,
            IrqKind::CrcErr,
        ) ==> radio_cleared(radio_irq(d, Some(irq)).0) == radio_end(d, RadioDo::Nothing),
        d.stage == (RadioStage::RecvStatus { room }) && len > room ==> radio_buffer_status(
            d,
            Some((len, offset)),
        ) == radio_end(Sx1262Driver { rx_active: false, ..d }, RadioDo::Nothing),
{
}

} // verus!
