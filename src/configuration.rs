use vstd::prelude::*;

use crate::device::{transfer, Tcs3400};
use crate::register::{BitFlags, Register};
use crate::types::{Error, I2cWrite, RgbCGain, RgbCInterruptPersistence};

verus! {

/// Byte stored for a count of 1 to 256 cycles: the count's two's complement,
/// so 256 cycles are stored as 0 and 1 cycle as 0xFF.
pub open spec fn cycles_code(cycles: u16) -> u8 {
    ((256 - cycles) % 256) as u8
}

/// Whether a cycle count lies in the range that the device accepts.
pub open spec fn valid_cycles(cycles: u16) -> bool {
    1 <= cycles <= 256
}

/// Low byte of a 16-bit threshold.
pub open spec fn low_byte(threshold: u16) -> u8 {
    (threshold & 0xff) as u8
}

/// High byte of a 16-bit threshold.
pub open spec fn high_byte(threshold: u16) -> u8 {
    ((threshold >> 8) & 0xff) as u8
}

impl<I2C> Tcs3400<I2C> {
    /// `post` follows `self` by one write of `value` to the enable register,
    /// which the bus accepted if and only if `ok`. The copy of the enable
    /// register takes `value` only if it was accepted.
    pub open spec fn enable_written(&self, post: &Self, value: u8, ok: bool) -> bool {
        &&& post.transfers() == self.transfers().push(transfer(Register::ENABLE, value, ok))
        &&& post.cached_enable() == if ok {
            value
        } else {
            self.cached_enable()
        }
    }

    /// `post` follows `self` by one write of `value` to `register`, which the
    /// bus accepted if and only if `ok`; the copy of the enable register is
    /// unchanged.
    pub open spec fn register_written(&self, post: &Self, register: u8, value: u8, ok: bool) -> bool {
        &&& post.transfers() == self.transfers().push(transfer(register, value, ok))
        &&& post.cached_enable() == self.cached_enable()
    }

    /// `post` follows `self` by a write of the low byte of `threshold` to
    /// `low_register` and, only if the bus accepted that, a write of the high
    /// byte to `high_register`. `ok` holds if and only if every attempted
    /// write was accepted; the copy of the enable register is unchanged.
    pub open spec fn threshold_written(
        &self,
        post: &Self,
        low_register: u8,
        high_register: u8,
        threshold: u16,
        ok: bool,
    ) -> bool {
        let low_sent = self.transfers().push(transfer(low_register, low_byte(threshold), true));
        &&& post.cached_enable() == self.cached_enable()
        &&& if ok {
            post.transfers() == low_sent.push(transfer(high_register, high_byte(threshold), true))
        } else {
            post.transfers() == self.transfers().push(
                transfer(low_register, low_byte(threshold), false),
            ) || post.transfers() == low_sent.push(
                transfer(high_register, high_byte(threshold), false),
            )
        }
    }
}

impl<I2C: I2cWrite> Tcs3400<I2C> {
    /// Powers the device on (idle state).
    pub fn enable(&mut self) -> (r: Result<(), Error<I2C::Error>>)
        ensures
            old(self).enable_written(
                final(self),
                old(self).cached_enable() | BitFlags::POWER_ON,
                r is Ok,
            ),
            r is Ok || r matches Err(Error::I2C(_)),
    {
        let enable = self.enable;
        self.write_enable(enable | BitFlags::POWER_ON)
    }

    /// Puts the device to sleep.
    pub fn disable(&mut self) -> (r: Result<(), Error<I2C::Error>>)
        ensures
            old(self).enable_written(
                final(self),
                old(self).cached_enable() & !BitFlags::POWER_ON,
                r is Ok,
            ),
            r is Ok || r matches Err(Error::I2C(_)),
    {
        let enable = self.enable;
        self.write_enable(enable & !BitFlags::POWER_ON)
    }

    /// Enables the RGB converter.
    pub fn enable_rgbc(&mut self) -> (r: Result<(), Error<I2C::Error>>)
        ensures
            old(self).enable_written(
                final(self),
                old(self).cached_enable() | BitFlags::RGBC_EN,
                r is Ok,
            ),
            r is Ok || r matches Err(Error::I2C(_)),
    {
        let enable = self.enable;
        self.write_enable(enable | BitFlags::RGBC_EN)
    }

    /// Disables the RGB converter.
    pub fn disable_rgbc(&mut self) -> (r: Result<(), Error<I2C::Error>>)
        ensures
            old(self).enable_written(
                final(self),
                old(self).cached_enable() & !BitFlags::RGBC_EN,
                r is Ok,
            ),
            r is Ok || r matches Err(Error::I2C(_)),
    {
        let enable = self.enable;
        self.write_enable(enable & !BitFlags::RGBC_EN)
    }

    /// Enables interrupt generation by the RGB converter.
    pub fn enable_rgbc_interrupts(&mut self) -> (r: Result<(), Error<I2C::Error>>)
        ensures
            old(self).enable_written(
                final(self),
                old(self).cached_enable() | BitFlags::RGBC_INT_EN,
                r is Ok,
            ),
            r is Ok || r matches Err(Error::I2C(_)),
    {
        let enable = self.enable;
        self.write_enable(enable | BitFlags::RGBC_INT_EN)
    }

    /// Disables interrupt generation by the RGB converter.
    pub fn disable_rgbc_interrupts(&mut self) -> (r: Result<(), Error<I2C::Error>>)
        ensures
            old(self).enable_written(
                final(self),
                old(self).cached_enable() & !BitFlags::RGBC_INT_EN,
                r is Ok,
            ),
            r is Ok || r matches Err(Error::I2C(_)),
    {
        let enable = self.enable;
        self.write_enable(enable & !BitFlags::RGBC_INT_EN)
    }

    /// Enables the wait timer.
    pub fn enable_wait(&mut self) -> (r: Result<(), Error<I2C::Error>>)
        ensures
            old(self).enable_written(
                final(self),
                old(self).cached_enable() | BitFlags::WAIT_EN,
                r is Ok,
            ),
            r is Ok || r matches Err(Error::I2C(_)),
    {
        let enable = self.enable;
        self.write_enable(enable | BitFlags::WAIT_EN)
    }

    /// Disables the wait timer.
    pub fn disable_wait(&mut self) -> (r: Result<(), Error<I2C::Error>>)
        ensures
            old(self).enable_written(
                final(self),
                old(self).cached_enable() & !BitFlags::WAIT_EN,
                r is Ok,
            ),
            r is Ok || r matches Err(Error::I2C(_)),
    {
        let enable = self.enable;
        self.write_enable(enable & !BitFlags::WAIT_EN)
    }

    /// Sets the number of wait cycles (1 to 256).
    ///
    /// Each cycle lasts 2.78 ms, or twelve times as long with *wait long*
    /// enabled (see `enable_wait_long`).
    pub fn set_wait_cycles(&mut self, cycles: u16) -> (r: Result<(), Error<I2C::Error>>)
        ensures
            !valid_cycles(cycles) <==> r matches Err(Error::InvalidInputData),
            !valid_cycles(cycles) ==> *final(self) == *old(self),
            valid_cycles(cycles) ==> old(self).register_written(
                final(self),
                Register::WTIME,
                cycles_code(cycles),
                r is Ok,
            ),
            r is Ok || r matches Err(Error::I2C(_)) || r matches Err(Error::InvalidInputData),
    {
        if cycles > 256 || cycles == 0 {
            return Err(Error::InvalidInputData);
        }
        // the device stores the count as its two's complement
        self.write_register(Register::WTIME, (256 - cycles) as u8)
    }

    /// Enables *wait long*: each wait cycle lasts twelve times as long.
    ///
    /// This overwrites the whole config register.
    pub fn enable_wait_long(&mut self) -> (r: Result<(), Error<I2C::Error>>)
        ensures
            old(self).register_written(final(self), Register::CONFIG, BitFlags::WLONG, r is Ok),
            r is Ok || r matches Err(Error::I2C(_)),
    {
        self.write_register(Register::CONFIG, BitFlags::WLONG)
    }

    /// Disables *wait long*.
    ///
    /// This overwrites the whole config register.
    pub fn disable_wait_long(&mut self) -> (r: Result<(), Error<I2C::Error>>)
        ensures
            old(self).register_written(final(self), Register::CONFIG, 0, r is Ok),
            r is Ok || r matches Err(Error::I2C(_)),
    {
        self.write_register(Register::CONFIG, 0)
    }

    /// Sets the gain of the RGB converter.
    pub fn set_rgbc_gain(&mut self, gain: RgbCGain) -> (r: Result<(), Error<I2C::Error>>)
        ensures
            old(self).register_written(final(self), Register::CONTROL, gain.code(), r is Ok),
            r is Ok || r matches Err(Error::I2C(_)),
    {
        match gain {
            RgbCGain::_1x => self.write_register(Register::CONTROL, 0),
            RgbCGain::_4x => self.write_register(Register::CONTROL, 1),
            RgbCGain::_16x => self.write_register(Register::CONTROL, 2),
            RgbCGain::_60x => self.write_register(Register::CONTROL, 3),
        }
    }

    /// Sets the number of integration cycles (1 to 256), each of 2.78 ms.
    pub fn set_integration_cycles(&mut self, cycles: u16) -> (r: Result<(), Error<I2C::Error>>)
        ensures
            !valid_cycles(cycles) <==> r matches Err(Error::InvalidInputData),
            !valid_cycles(cycles) ==> *final(self) == *old(self),
            valid_cycles(cycles) ==> old(self).register_written(
                final(self),
                Register::ATIME,
                cycles_code(cycles),
                r is Ok,
            ),
            r is Ok || r matches Err(Error::I2C(_)) || r matches Err(Error::InvalidInputData),
    {
        if cycles > 256 || cycles == 0 {
            return Err(Error::InvalidInputData);
        }
        // the device stores the count as its two's complement
        self.write_register(Register::ATIME, (256 - cycles) as u8)
    }

    /// Sets the clear-channel low threshold of the RGBC interrupt.
    pub fn set_rgbc_interrupt_low_threshold(&mut self, threshold: u16) -> (r: Result<(), Error<I2C::Error>>)
        ensures
            old(self).threshold_written(
                final(self),
                Register::AILTL,
                Register::AILTH,
                threshold,
                r is Ok,
            ),
            r is Ok || r matches Err(Error::I2C(_)),
    {
        proof {
            assert(threshold as u8 == (threshold & 0xff) as u8) by (bit_vector);
            assert((threshold >> 8) as u8 == ((threshold >> 8) & 0xff) as u8) by (bit_vector);
        }
        self.write_register(Register::AILTL, threshold as u8)?;
        self.write_register(Register::AILTH, (threshold >> 8) as u8)
    }

    /// Sets the clear-channel high threshold of the RGBC interrupt.
    pub fn set_rgbc_interrupt_high_threshold(&mut self, threshold: u16) -> (r: Result<(), Error<I2C::Error>>)
        ensures
            old(self).threshold_written(
                final(self),
                Register::AIHTL,
                Register::AIHTH,
                threshold,
                r is Ok,
            ),
            r is Ok || r matches Err(Error::I2C(_)),
    {
        proof {
            assert(threshold as u8 == (threshold & 0xff) as u8) by (bit_vector);
            assert((threshold >> 8) as u8 == ((threshold >> 8) & 0xff) as u8) by (bit_vector);
        }
        self.write_register(Register::AIHTL, threshold as u8)?;
        self.write_register(Register::AIHTH, (threshold >> 8) as u8)
    }

    /// Sets the persistence of the RGBC interrupt, which sets how often it
    /// is raised.
    pub fn set_rgbc_interrupt_persistence(&mut self, persistence: RgbCInterruptPersistence) -> (r:
        Result<(), Error<I2C::Error>>)
        ensures
            old(self).register_written(final(self), Register::APERS, persistence.code(), r is Ok),
            r is Ok || r matches Err(Error::I2C(_)),
    {
        match persistence {
            RgbCInterruptPersistence::Every => self.write_register(Register::APERS, 0),
            RgbCInterruptPersistence::Any => self.write_register(Register::APERS, 1),
            RgbCInterruptPersistence::_2 => self.write_register(Register::APERS, 2),
            RgbCInterruptPersistence::_3 => self.write_register(Register::APERS, 3),
            RgbCInterruptPersistence::_5 => self.write_register(Register::APERS, 4),
            RgbCInterruptPersistence::_10 => self.write_register(Register::APERS, 5),
            RgbCInterruptPersistence::_15 => self.write_register(Register::APERS, 6),
            RgbCInterruptPersistence::_20 => self.write_register(Register::APERS, 7),
            RgbCInterruptPersistence::_25 => self.write_register(Register::APERS, 8),
            RgbCInterruptPersistence::_30 => self.write_register(Register::APERS, 9),
            RgbCInterruptPersistence::_35 => self.write_register(Register::APERS, 10),
            RgbCInterruptPersistence::_40 => self.write_register(Register::APERS, 11),
            RgbCInterruptPersistence::_45 => self.write_register(Register::APERS, 12),
            RgbCInterruptPersistence::_50 => self.write_register(Register::APERS, 13),
            RgbCInterruptPersistence::_55 => self.write_register(Register::APERS, 14),
            RgbCInterruptPersistence::_60 => self.write_register(Register::APERS, 15),
        }
    }
}

} // verus!
