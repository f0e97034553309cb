use vstd::prelude::*;

verus! {

/// Fixed bus address of the sensor.
pub const DEVICE_ADDRESS: u8 = 0x39;

/// Addresses of the registers that the driver writes.
pub struct Register;

impl Register {
    pub const ENABLE: u8 = 0x80;
    pub const ATIME: u8 = 0x81;
    pub const WTIME: u8 = 0x83;
    pub const AILTL: u8 = 0x84;
    pub const AILTH: u8 = 0x85;
    pub const AIHTL: u8 = 0x86;
    pub const AIHTH: u8 = 0x87;
    pub const APERS: u8 = 0x8C;
    pub const CONFIG: u8 = 0x8D;
    pub const CONTROL: u8 = 0x8F;
}

/// Single-bit masks within the enable and config registers.
pub struct BitFlags;

impl BitFlags {
    /// Enable register: power on.
    pub const POWER_ON: u8 = 0b0000_0001;
    /// Enable register: RGBC converter enable.
    pub const RGBC_EN: u8 = 0b0000_0010;
    /// Enable register: wait timer enable.
    pub const WAIT_EN: u8 = 0b0000_1000;
    /// Enable register: RGBC interrupt enable.
    pub const RGBC_INT_EN: u8 = 0b0001_0000;
    /// Config register: wait long.
    pub const WLONG: u8 = 0b0000_0010;
}

} // verus!
