use vstd::prelude::*;

use crate::register::{Register, DEVICE_ADDRESS};
use crate::types::{Error, I2cWrite};

verus! {

/// One transfer handed to the bus: device address, bytes, and whether the bus
/// accepted it.
pub open spec fn transfer(register: u8, value: u8, acknowledged: bool) -> (u8, Seq<u8>, bool) {
    (DEVICE_ADDRESS, seq![register, value], acknowledged)
}

/// Driver of one TCS3400 device.
pub struct Tcs3400<I2C> {
    pub(crate) i2c: I2C,
    pub(crate) enable: u8,
    pub(crate) sent: Ghost<Seq<(u8, Seq<u8>, bool)>>,
}

impl<I2C> Tcs3400<I2C> {
    /// The driver's copy of the enable register.
    pub open(crate) spec fn cached_enable(&self) -> u8 {
        self.enable
    }

    /// Every transfer handed to the bus so far, in order.
    pub open(crate) spec fn transfers(&self) -> Seq<(u8, Seq<u8>, bool)> {
        self.sent@
    }

    /// Creates a driver over `i2c`; the device is taken to be powered off.
    pub fn new(i2c: I2C) -> (r: Self)
        ensures
            r.cached_enable() == 0,
            r.transfers() == Seq::<(u8, Seq<u8>, bool)>::empty(),
    {
        Tcs3400 { i2c, enable: 0, sent: Ghost(Seq::empty()) }
    }

    /// Gives the bus back.
    pub fn destroy(self) -> I2C {
        self.i2c
    }
}

impl<I2C: I2cWrite> Tcs3400<I2C> {
    /// Writes `value` to `register` in one bus transaction.
    pub(crate) fn write_register(&mut self, register: u8, value: u8) -> (r: Result<(), Error<I2C::Error>>)
        ensures
            final(self).transfers() == old(self).transfers().push(transfer(register, value, r is Ok)),
            final(self).cached_enable() == old(self).cached_enable(),
            r is Ok || r matches Err(Error::I2C(_)),
    {
        let bytes: [u8; 2] = [register, value];
        let res = self.i2c.write(DEVICE_ADDRESS, &bytes);
        proof {
            assert(bytes@ =~= seq![register, value]);
            self.sent@ = self.sent@.push((DEVICE_ADDRESS, bytes@, res is Ok));
        }
        match res {
            Ok(()) => Ok(()),
            Err(e) => Err(Error::I2C(e)),
        }
    }

    /// Writes `enable` to the enable register; the copy follows only when the
    /// bus accepted it.
    pub(crate) fn write_enable(&mut self, enable: u8) -> (r: Result<(), Error<I2C::Error>>)
        ensures
            final(self).transfers() == old(self).transfers().push(transfer(Register::ENABLE, enable, r is Ok)),
            final(self).cached_enable() == if r is Ok { enable } else { old(self).cached_enable() },
            r is Ok || r matches Err(Error::I2C(_)),
    {
        let res = self.write_register(Register::ENABLE, enable);
        if res.is_ok() {
            self.enable = enable;
        }
        res
    }
}

} // verus!
