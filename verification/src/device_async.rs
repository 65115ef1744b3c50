//! The async hub driver: the bus it owns. Its operations make the same
//! I2C writes as those of [`Usb251xb`](crate::device::Usb251xb), listed in
//! [`crate::device`].
use vstd::prelude::*;

verus! {

/// Async driver for the USB251xB/xBi hub controller.
///
/// The underlying I2C bus must be configured at or below 100 kHz
/// (SMBus frequency limit).
pub struct Usb251xbAsync<I> {
    i2c: I,
}

impl<I> Usb251xbAsync<I> {
    /// The bus the driver owns.
    pub closed spec fn bus(&self) -> I {
        self.i2c
    }

    /// Creates a new async driver instance, taking ownership of the I2C bus.
    ///
    /// The bus must be configured at or below 100 kHz.
    pub fn new(i2c: I) -> (r: Usb251xbAsync<I>)
        ensures
            r.bus() == i2c,
    {
        Usb251xbAsync { i2c }
    }

    /// The bus, for the transfers of the driver's operations.
    pub fn bus_mut(&mut self) -> (r: &mut I)
        ensures
            *r == old(self).bus(),
            final(self).bus() == *final(r),
    {
        &mut self.i2c
    }

    /// Releases the I2C bus, consuming the driver.
    pub fn release(self) -> (r: I)
        ensures
            r == self.bus(),
    {
        self.i2c
    }
}

} // verus!
