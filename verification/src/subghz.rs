//! Parameter blocks of the SubGHz radio peripheral.
//!
//! The blocks are put together by `stm32wlxx-hal`; each is kept together with
//! the bytes of the radio command that it makes. The two come only from the
//! functions below, which read the bytes off the block.

use stm32wlxx_hal::subghz::{
    CfgIrq, CodingRate, HeaderType, Irq, LoRaBandwidth, LoRaModParams, LoRaPacketParams, PaConfig,
    PaSel, RampTime, RfFreq, SpreadingFactor, TcxoMode, TcxoTrim, Timeout, TxParams,
};
use vstd::prelude::*;
use crate::bytes::{u16_be, u32_be};

verus! {

/// LoRa packet parameters of `stm32wlxx-hal`; nothing is claimed of it.
#[verifier::external_type_specification]
#[verifier::external_body]
pub struct ExLoRaPacketParams(stm32wlxx_hal::subghz::LoRaPacketParams);

/// LoRa modulation parameters of `stm32wlxx-hal`; nothing is claimed of it.
#[verifier::external_type_specification]
#[verifier::external_body]
pub struct ExLoRaModParams(stm32wlxx_hal::subghz::LoRaModParams);

/// An RF frequency of `stm32wlxx-hal`; nothing is claimed of it.
#[verifier::external_type_specification]
#[verifier::external_body]
pub struct ExRfFreq(stm32wlxx_hal::subghz::RfFreq);

/// TCXO control of `stm32wlxx-hal`; nothing is claimed of it.
#[verifier::external_type_specification]
#[verifier::external_body]
pub struct ExTcxoMode(stm32wlxx_hal::subghz::TcxoMode);

/// Power amplifier configuration of `stm32wlxx-hal`; nothing is claimed of it.
#[verifier::external_type_specification]
#[verifier::external_body]
pub struct ExPaConfig(stm32wlxx_hal::subghz::PaConfig);

/// Transmit parameters of `stm32wlxx-hal`; nothing is claimed of it.
#[verifier::external_type_specification]
#[verifier::external_body]
pub struct ExTxParams(stm32wlxx_hal::subghz::TxParams);

/// Interrupt configuration of `stm32wlxx-hal`; nothing is claimed of it.
#[verifier::external_type_specification]
#[verifier::external_body]
pub struct ExCfgIrq(stm32wlxx_hal::subghz::CfgIrq);

/// LoRa spreading factors that the presets use.
#[derive(Debug, Clone, Copy, PartialEq, Eq, Structural)]
pub enum Sf {
    Sf7,
    Sf10,
    Sf12,
}

/// LoRa bandwidths that the radio is told apart by.
#[derive(Debug, Clone, Copy, PartialEq, Eq, Structural)]
pub enum Bw {
    Bw62,
    Bw125,
    Bw500,
}

/// LoRa coding rates that the presets use.
#[derive(Debug, Clone, Copy, PartialEq, Eq, Structural)]
pub enum Cr {
    Cr45,
    Cr48,
}

/// Events that the radio signals.
#[derive(Debug, Clone, Copy, PartialEq, Eq, Structural)]
pub enum IrqKind {
    TxDone,
    RxDone,
    /// A packet with a bad CRC.
    CrcErr,
    Timeout,
}

/// The number that the radio has for a spreading factor.
pub open spec fn sf_code(sf: Sf) -> u8 {
    match sf {
        Sf::Sf7 => 7,
        Sf::Sf10 => 10,
        Sf::Sf12 => 12,
    }
}

/// The number that the radio has for a bandwidth.
pub open spec fn bw_code(bw: Bw) -> u8 {
    match bw {
        Bw::Bw62 => 3,
        Bw::Bw125 => 4,
        Bw::Bw500 => 6,
    }
}

/// A bandwidth in hertz.
pub open spec fn bw_hertz(bw: Bw) -> int {
    match bw {
        Bw::Bw62 => 62500,
        Bw::Bw125 => 125000,
        Bw::Bw500 => 500000,
    }
}

/// The number that the radio has for a coding rate.
pub open spec fn cr_code(cr: Cr) -> u8 {
    match cr {
        Cr::Cr45 => 1,
        Cr::Cr48 => 4,
    }
}

/// The bit of an event in the radio's interrupt register.
pub open spec fn irq_bit(irq: IrqKind) -> u16 {
    match irq {
        IrqKind::TxDone => 0x0001,
        IrqKind::RxDone => 0x0002,
        IrqKind::CrcErr => 0x0040,
        IrqKind::Timeout => 0x0200,
    }
}

/// A flag as a byte.
pub open spec fn flag(b: bool) -> u8 {
    if b {
        1
    } else {
        0
    }
}

/// `ms` milliseconds in the radio's timer steps of 15.625 us, at least one and
/// at most what 24 bits hold.
pub open spec fn timeout_steps(ms: u32) -> u32 {
    if ms == 0 {
        1
    } else if ms >= 262144 {
        0x00FF_FFFF
    } else {
        (ms * 64) as u32
    }
}

/// Calls `Timeout::from_millis_sat` and `Timeout::into_bits`: the timer steps
/// that make `ms` milliseconds, exactly as [`timeout_steps`] says.
#[verifier::external_body]
pub(crate) fn timeout_bits(ms: u32) -> (r: u32)
    ensures
        r == timeout_steps(ms),
{
    Timeout::from_millis_sat(ms).into_bits()
}

/// Calls `Irq::mask`: the bit of an event in the interrupt register, exactly as
/// [`irq_bit`] says.
#[verifier::external_body]
pub(crate) fn irq_mask(irq: IrqKind) -> (r: u16)
    ensures
        r == irq_bit(irq),
{
    match irq {
        IrqKind::TxDone => Irq::TxDone.mask(),
        IrqKind::RxDone => Irq::RxDone.mask(),
        IrqKind::CrcErr => Irq::Err.mask(),
        IrqKind::Timeout => Irq::Timeout.mask(),
    }
}

/// LoRa packet parameters.
pub struct PacketParams {
    block: LoRaPacketParams,
    command: Vec<u8>,
}

impl PacketParams {
    /// The command that the block makes.
    pub closed spec fn command(self) -> Seq<u8> {
        self.command@
    }

    /// The block that makes the command.
    pub closed spec fn params(self) -> LoRaPacketParams {
        self.block
    }

    /// The block for the peripheral driver.
    pub fn block(&self) -> (r: &LoRaPacketParams)
        ensures
            *r == self.params(),
    {
        &self.block
    }

    /// The command that the block makes.
    pub fn command_bytes(&self) -> (r: &[u8])
        ensures
            r@ == self.command(),
    {
        &self.command
    }
}

/// The command that sets LoRa packet parameters: a preamble has at least one
/// symbol, and a variable header is coded as zero.
pub open spec fn packet_params_command(
    preamble_len: u16,
    variable_header: bool,
    payload_len: u8,
    crc_en: bool,
    invert_iq: bool,
) -> Seq<u8> {
    seq![0x8Cu8] + u16_be(
        if preamble_len == 0 {
            1
        } else {
            preamble_len
        },
    ) + seq![flag(!variable_header), payload_len, flag(crc_en), flag(invert_iq)]
}

/// Calls the setters of `LoRaPacketParams` and its `as_slice`: the block holds
/// the opcode 0x8C, the preamble length (one where zero is asked for) high byte
/// first, the header type (explicit is zero), the payload length, and the CRC
/// and IQ inversion flags.
#[verifier::external_body]
pub(crate) fn lora_packet_params(
    preamble_len: u16,
    variable_header: bool,
    payload_len: u8,
    crc_en: bool,
    invert_iq: bool,
) -> (r: PacketParams)
    ensures
        r.command() == packet_params_command(
            preamble_len,
            variable_header,
            payload_len,
            crc_en,
            invert_iq,
        ),
{
    let header = if variable_header { HeaderType::Variable } else { HeaderType::Fixed };
    let block = LoRaPacketParams::new()
        .set_preamble_len(preamble_len)
        .set_header_type(header)
        .set_payload_len(payload_len)
        .set_crc_en(crc_en)
        .set_invert_iq(invert_iq);
    PacketParams { command: block.as_slice().to_vec(), block }
}

/// LoRa modulation parameters.
pub struct ModParams {
    block: LoRaModParams,
    command: Vec<u8>,
}

impl ModParams {
    /// The command that the block makes.
    pub closed spec fn command(self) -> Seq<u8> {
        self.command@
    }

    /// The block that makes the command.
    pub closed spec fn params(self) -> LoRaModParams {
        self.block
    }

    /// The block for the peripheral driver.
    pub fn block(&self) -> (r: &LoRaModParams)
        ensures
            *r == self.params(),
    {
        &self.block
    }

    /// The command that the block makes.
    pub fn command_bytes(&self) -> (r: &[u8])
        ensures
            r@ == self.command(),
    {
        &self.command
    }
}

/// The command that sets LoRa modulation parameters.
pub open spec fn mod_params_command(sf: Sf, bw: Bw, cr: Cr, ldro: bool) -> Seq<u8> {
    seq![0x8Bu8, sf_code(sf), bw_code(bw), cr_code(cr), flag(ldro)]
}

/// Calls the setters of `LoRaModParams` and its `as_slice`: the block holds the
/// opcode 0x8B, the codes of spreading factor, bandwidth and coding rate, and
/// the low data rate flag.
#[verifier::external_body]
pub(crate) fn lora_mod_params(sf: Sf, bw: Bw, cr: Cr, ldro: bool) -> (r: ModParams)
    ensures
        r.command() == mod_params_command(sf, bw, cr, ldro),
{
    let s = match sf {
        Sf::Sf7 => SpreadingFactor::Sf7,
        Sf::Sf10 => SpreadingFactor::Sf10,
        Sf::Sf12 => SpreadingFactor::Sf12,
    };
    let b = match bw {
        Bw::Bw62 => LoRaBandwidth::Bw62,
        Bw::Bw125 => LoRaBandwidth::Bw125,
        Bw::Bw500 => LoRaBandwidth::Bw500,
    };
    let c = if matches!(cr, Cr::Cr45) { CodingRate::Cr45 } else { CodingRate::Cr48 };
    let block = LoRaModParams::new().set_sf(s).set_bw(b).set_cr(c).set_ldro_en(ldro);
    ModParams { command: block.as_slice().to_vec(), block }
}

/// An RF frequency.
pub struct Frequency {
    block: RfFreq,
    command: Vec<u8>,
}

impl Frequency {
    /// The command that the block makes.
    pub closed spec fn command(self) -> Seq<u8> {
        self.command@
    }

    /// The block that makes the command.
    pub closed spec fn params(self) -> RfFreq {
        self.block
    }

    /// The block for the peripheral driver.
    pub fn block(&self) -> (r: &RfFreq)
        ensures
            *r == self.params(),
    {
        &self.block
    }

    /// The command that the block makes.
    pub fn command_bytes(&self) -> (r: &[u8])
        ensures
            r@ == self.command(),
    {
        &self.command
    }
}

/// The PLL steps of a frequency: steps of 32 MHz / 2^25, on 32 bits.
pub open spec fn pll_steps(hz: u32) -> u32 {
    (hz * 33554432 / 32000000 % 0x1_0000_0000) as u32
}

/// The command that sets an RF frequency.
pub open spec fn frequency_command(hz: u32) -> Seq<u8> {
    seq![0x86u8] + u32_be(pll_steps(hz))
}

/// Calls `RfFreq::from_frequency` and `RfFreq::as_slice`: the block holds the
/// opcode 0x86 and the PLL steps, high byte first.
#[verifier::external_body]
pub(crate) fn rf_freq(hz: u32) -> (r: Frequency)
    ensures
        r.command() == frequency_command(hz),
{
    let block = RfFreq::from_frequency(hz);
    Frequency { command: block.as_slice().to_vec(), block }
}

/// TCXO supply voltage.
#[derive(Debug, Clone, Copy, PartialEq, Eq, Structural)]
pub enum TcxoVolts {
    Volts1pt7,
    Volts1pt8,
}

/// TCXO control.
pub struct Tcxo {
    block: TcxoMode,
    command: Vec<u8>,
}

impl Tcxo {
    /// The command that the block makes.
    pub closed spec fn command(self) -> Seq<u8> {
        self.command@
    }

    /// The block that makes the command.
    pub closed spec fn params(self) -> TcxoMode {
        self.block
    }

    /// The block for the peripheral driver.
    pub fn block(&self) -> (r: &TcxoMode)
        ensures
            *r == self.params(),
    {
        &self.block
    }

    /// The command that the block makes.
    pub fn command_bytes(&self) -> (r: &[u8])
        ensures
            r@ == self.command(),
    {
        &self.command
    }
}

/// The command that sets up the TCXO: its voltage, and how long to wait for it
/// in timer steps, of which 24 bits count.
pub open spec fn tcxo_command(volts: TcxoVolts, steps: u32) -> Seq<u8> {
    seq![
        0x97u8,
        match volts {
            TcxoVolts::Volts1pt7 => 1u8,
            TcxoVolts::Volts1pt8 => 2u8,
        },
    ] + u32_be((steps % 0x0100_0000) as u32).skip(1)
}

/// Calls the setters of `TcxoMode` and its `as_slice`: the block holds the
/// opcode 0x97, the code of the voltage, and the low 24 bits of the timer
/// steps, high byte first.
#[verifier::external_body]
pub(crate) fn tcxo_mode(volts: TcxoVolts, steps: u32) -> (r: Tcxo)
    ensures
        r.command() == tcxo_command(volts, steps),
{
    let trim = match volts {
        TcxoVolts::Volts1pt7 => TcxoTrim::Volts1pt7,
        TcxoVolts::Volts1pt8 => TcxoTrim::Volts1pt8,
    };
    let block = TcxoMode::new().set_txco_trim(trim).set_timeout(Timeout::from_raw(steps));
    Tcxo { command: block.as_slice().to_vec(), block }
}

/// Power amplifier configuration.
pub struct Pa {
    block: PaConfig,
    command: Vec<u8>,
}

impl Pa {
    /// The command that the block makes.
    pub closed spec fn command(self) -> Seq<u8> {
        self.command@
    }

    /// The block that makes the command.
    pub closed spec fn params(self) -> PaConfig {
        self.block
    }

    /// The block for the peripheral driver.
    pub fn block(&self) -> (r: &PaConfig)
        ensures
            *r == self.params(),
    {
        &self.block
    }

    /// The command that the block makes.
    pub fn command_bytes(&self) -> (r: &[u8])
        ensures
            r@ == self.command(),
    {
        &self.command
    }
}

/// The command that configures the power amplifier; three bits of duty cycle
/// and size count.
pub open spec fn pa_command(duty_cycle: u8, hp_max: u8, high_power: bool) -> Seq<u8> {
    seq![0x95u8, (duty_cycle % 8) as u8, (hp_max % 8) as u8, flag(!high_power), 0x01u8]
}

/// Calls the setters of `PaConfig` and its `as_slice`: the block holds the
/// opcode 0x95, the low three bits of duty cycle and size, the amplifier
/// (high power is zero) and a constant one.
#[verifier::external_body]
pub(crate) fn pa_config(duty_cycle: u8, hp_max: u8, high_power: bool) -> (r: Pa)
    ensures
        r.command() == pa_command(duty_cycle, hp_max, high_power),
{
    let sel = if high_power { PaSel::Hp } else { PaSel::Lp };
    let block = PaConfig::new().set_pa_duty_cycle(duty_cycle).set_hp_max(hp_max).set_pa(sel);
    Pa { command: block.as_slice().to_vec(), block }
}

/// How fast the power amplifier ramps up.
#[derive(Debug, Clone, Copy, PartialEq, Eq, Structural)]
pub enum Ramp {
    Micros40,
    Micros200,
}

/// Transmit parameters.
pub struct TxPower {
    block: TxParams,
    command: Vec<u8>,
}

impl TxPower {
    /// The command that the block makes.
    pub closed spec fn command(self) -> Seq<u8> {
        self.command@
    }

    /// The block that makes the command.
    pub closed spec fn params(self) -> TxParams {
        self.block
    }

    /// The block for the peripheral driver.
    pub fn block(&self) -> (r: &TxParams)
        ensures
            *r == self.params(),
    {
        &self.block
    }

    /// The command that the block makes.
    pub fn command_bytes(&self) -> (r: &[u8])
        ensures
            r@ == self.command(),
    {
        &self.command
    }
}

/// The command that sets power and ramp time.
pub open spec fn tx_params_command(power: u8, ramp: Ramp) -> Seq<u8> {
    seq![
        0x8Eu8,
        power,
        match ramp {
            Ramp::Micros40 => 2u8,
            Ramp::Micros200 => 4u8,
        },
    ]
}

/// Calls the setters of `TxParams` and its `as_slice`: the block holds the
/// opcode 0x8E, the power and the code of the ramp time.
#[verifier::external_body]
pub(crate) fn tx_params(power: u8, ramp: Ramp) -> (r: TxPower)
    ensures
        r.command() == tx_params_command(power, ramp),
{
    let time = match ramp {
        Ramp::Micros40 => RampTime::Micros40,
        Ramp::Micros200 => RampTime::Micros200,
    };
    let block = TxParams::new().set_power(power).set_ramp_time(time);
    TxPower { command: block.as_slice().to_vec(), block }
}

/// Interrupt configuration.
pub struct IrqConfig {
    block: CfgIrq,
    command: Vec<u8>,
}

impl IrqConfig {
    /// The command that the block makes.
    pub closed spec fn command(self) -> Seq<u8> {
        self.command@
    }

    /// The block that makes the command.
    pub closed spec fn params(self) -> CfgIrq {
        self.block
    }

    /// The block for the peripheral driver.
    pub fn block(&self) -> (r: &CfgIrq)
        ensures
            *r == self.params(),
    {
        &self.block
    }

    /// The command that the block makes.
    pub fn command_bytes(&self) -> (r: &[u8])
        ensures
            r@ == self.command(),
    {
        &self.command
    }
}

/// The command that routes the events of `mask` to the global interrupt and to
/// all three lines.
pub open spec fn irq_command(mask: u16) -> Seq<u8> {
    seq![0x08u8] + u16_be(mask) + u16_be(mask) + u16_be(mask) + u16_be(mask)
}

/// Calls `CfgIrq::new` and `CfgIrq::as_slice`: no event is routed anywhere.
#[verifier::external_body]
pub(crate) fn irq_none() -> (r: IrqConfig)
    ensures
        r.command() == irq_command(0),
{
    let block = CfgIrq::new();
    IrqConfig { command: block.as_slice().to_vec(), block }
}

/// Calls `CfgIrq::irq_enable_all` and `CfgIrq::as_slice`: one more event is
/// routed everywhere, beside those of any mask that was.
#[verifier::external_body]
pub(crate) fn irq_enable_all(cfg: IrqConfig, irq: IrqKind) -> (r: IrqConfig)
    ensures
        forall|mask: u16| #[trigger]
            irq_command(mask) == cfg.command() ==> r.command() == irq_command(
                mask | irq_bit(irq),
            ),
{
    let kind = match irq {
        IrqKind::TxDone => Irq::TxDone,
        IrqKind::RxDone => Irq::RxDone,
        IrqKind::CrcErr => Irq::Err,
        IrqKind::Timeout => Irq::Timeout,
    };
    let block = cfg.block.irq_enable_all(kind);
    IrqConfig { command: block.as_slice().to_vec(), block }
}

} // verus!
