use vstd::prelude::*;

verus! {

/// All possible errors of the driver.
#[derive(Debug)]
pub enum Error<E> {
    /// The bus reported an error.
    I2C(E),
    /// An argument was outside its allowed range.
    InvalidInputData,
}

/// A two-wire bus that can write a sequence of bytes to a device.
pub trait I2cWrite {
    type Error;

    /// Writes `bytes` to the device at `address` in one transaction.
    fn write(&mut self, address: u8, bytes: &[u8]) -> Result<(), Self::Error>;
}


/// Gain of the RGBC converter.
#[derive(Debug, Clone, Copy, PartialEq, Eq, Structural)]
pub enum RgbCGain {
    /// 1x gain.
    _1x,
    /// 4x gain.
    _4x,
    /// 16x gain.
    _16x,
    /// 60x gain.
    _60x,
}

impl RgbCGain {
    /// Value of the gain field of the control register.
    pub open spec fn code(self) -> u8 {
        match self {
            RgbCGain::_1x => 0,
            RgbCGain::_4x => 1,
            RgbCGain::_16x => 2,
            RgbCGain::_60x => 3,
        }
    }
}

/// Number of consecutive out-of-range readings that raise the RGBC interrupt.
#[derive(Debug, Clone, Copy, PartialEq, Eq, Structural)]
pub enum RgbCInterruptPersistence {
    /// Every RGBC cycle.
    Every,
    /// Any value outside the thresholds.
    Any,
    /// 2 consecutive values out of range.
    _2,
    /// 3 consecutive values out of range.
    _3,
    /// 5 consecutive values out of range.
    _5,
    /// 10 consecutive values out of range.
    _10,
    /// 15 consecutive values out of range.
    _15,
    /// 20 consecutive values out of range.
    _20,
    /// 25 consecutive values out of range.
    _25,
    /// 30 consecutive values out of range.
    _30,
    /// 35 consecutive values out of range.
    _35,
    /// 40 consecutive values out of range.
    _40,
    /// 45 consecutive values out of range.
    _45,
    /// 50 consecutive values out of range.
    _50,
    /// 55 consecutive values out of range.
    _55,
    /// 60 consecutive values out of range.
    _60,
}

impl RgbCInterruptPersistence {
    /// Value of the persistence register.
    pub open spec fn code(self) -> u8 {
        match self {
            RgbCInterruptPersistence::Every => 0,
            RgbCInterruptPersistence::Any => 1,
            RgbCInterruptPersistence::_2 => 2,
            RgbCInterruptPersistence::_3 => 3,
            RgbCInterruptPersistence::_5 => 4,
            RgbCInterruptPersistence::_10 => 5,
            RgbCInterruptPersistence::_15 => 6,
            RgbCInterruptPersistence::_20 => 7,
            RgbCInterruptPersistence::_25 => 8,
            RgbCInterruptPersistence::_30 => 9,
            RgbCInterruptPersistence::_35 => 10,
            RgbCInterruptPersistence::_40 => 11,
            RgbCInterruptPersistence::_45 => 12,
            RgbCInterruptPersistence::_50 => 13,
            RgbCInterruptPersistence::_55 => 14,
            RgbCInterruptPersistence::_60 => 15,
        }
    }

    /// The levels from the most to the least eager.
    pub open spec fn levels() -> Seq<RgbCInterruptPersistence> {
        seq![
            RgbCInterruptPersistence::Every,
            RgbCInterruptPersistence::Any,
            RgbCInterruptPersistence::_2,
            RgbCInterruptPersistence::_3,
            RgbCInterruptPersistence::_5,
            RgbCInterruptPersistence::_10,
            RgbCInterruptPersistence::_15,
            RgbCInterruptPersistence::_20,
            RgbCInterruptPersistence::_25,
            RgbCInterruptPersistence::_30,
            RgbCInterruptPersistence::_35,
            RgbCInterruptPersistence::_40,
            RgbCInterruptPersistence::_45,
            RgbCInterruptPersistence::_50,
            RgbCInterruptPersistence::_55,
            RgbCInterruptPersistence::_60,
        ]
    }
}

} // verus!
