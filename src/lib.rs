//! Register-level driver for the TCS3400 color and light sensor.
//!
//! The driver turns configuration requests into register writes on a
//! two-wire bus. It keeps a copy of the enable register so that single bits
//! can be set or cleared without reading the device back.
#![allow(non_camel_case_types)]

use vstd::prelude::*;

mod configuration;
mod device;
mod laws;
mod register;
mod types;

pub use configuration::{cycles_code, high_byte, low_byte, valid_cycles};
pub use device::{transfer, Tcs3400};
pub use laws::{
    lemma_clear_after_set, lemma_persistence_codes_increase, lemma_set_bits_idempotent,
    lemma_threshold_bytes,
};
pub use register::{BitFlags, Register, DEVICE_ADDRESS};
pub use types::{Error, I2cWrite, RgbCGain, RgbCInterruptPersistence};
