//! Charger tuning constants.

use vstd::prelude::*;

verus! {

/// Battery voltage ceiling (mV): 3S NiMH at ~1.4 V/cell, matching the
/// board's "3V6-4V2" output rating. Above this the charger limits.
pub const VBAT_MAX_MV: u32 = 4200;

/// Charge current ceiling (mA): 0.5C for a 2000 mAh pack.
pub const IBAT_MAX_MA: u32 = 1000;

/// The non-synchronous buck needs the input above the battery by at
/// least this much (dropout + SS56 diode) before charging is useful.
pub const VIN_MARGIN_MV: u32 = 1000;

/// Extra input headroom required before leaving the idle state, so a
/// marginal panel does not flap between states.
pub const VIN_HYST_MV: u32 = 500;

/// Perturb & observe period (ms).
pub const MPPT_PERIOD_MS: u32 = 200;

/// P&O duty perturbation (permille): about two TIM1 counts.
pub const DUTY_STEP_PM: u32 = 13;

/// Backoff step while a voltage/current limit is active (permille).
pub const LIMIT_STEP_PM: u32 = 26;

/// Power changes below this (mW) are treated as noise and do not
/// reverse the perturb direction.
pub const POWER_HYST_MW: u32 = 40;

/// ADC sweeps averaged per MPPT step to tame shunt quantization
/// (1 LSB across the 50 mOhm shunt is ~16 mA).
pub const AVG_SAMPLES: u32 = 4;

} // verus!
