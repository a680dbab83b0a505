//! Hardware control library for an ASIC-mining appliance's FPGA register
//! window: bounds- and alignment-checked register access over a fixed-size
//! mapped region, the vendor power-on initialization sequence, and
//! percentage-based fan-speed control in the device's PWM encoding.
//!
//! The register surface itself is modelled as an owned array of 32-bit
//! cells together with a log of the writes performed, so that every
//! register operation, the initialization protocol and the fan-speed
//! encoding are specified and proved here. The thin layer that maps the
//! real device node and replays the planned writes onto it lives outside
//! this crate.

pub mod device_open;
pub mod fpga;
pub mod init;
pub mod regs;

pub use fpga::FpgaController;
pub use fpga::FpgaError;
