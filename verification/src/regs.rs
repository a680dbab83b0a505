//! Byte offsets of the device registers inside the mapped window.
//!
//! These are fixed by the attached hardware; they must match the device's
//! register map exactly.

use vstd::prelude::*;

verus! {

/// Control register (bit 30 gates the hash-board init step).
pub const CTRL: usize = 0x000;

/// Hash-on-plug detection.
pub const HASH_ON_PLUG: usize = 0x008;

/// I2C controller.
pub const I2C_CTRL: usize = 0x030;

/// Initialization control.
pub const INIT_CTRL: usize = 0x080;

/// PWM main channel.
pub const PWM_MAIN: usize = 0x084;

/// Initialization config.
pub const INIT_CFG: usize = 0x088;

/// PWM alternate channel.
pub const PWM_ALT: usize = 0x0A0;

} // verus!
