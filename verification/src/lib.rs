//! Driver logic for the Microchip USB2512B, USB2513B and USB2514B USB 2.0
//! hub controllers.
//!
//! Builds the hub configuration ([`ConfigBuilder`]), lays it out as the
//! SMBus block writes that program the hub's registers, and frames the
//! attach and reset commands. The drivers [`Usb251xb`] and
//! [`Usb251xbAsync`] own the I2C bus that carries those writes.
pub mod bits;
pub mod config;
pub mod device;
pub mod device_async;
pub mod error;
pub mod register;
pub mod smbus;
pub mod utf16;

pub use config::{Config, ConfigBuilder, Milliamps, Milliseconds, Port, StringDescriptor};
pub use device::Usb251xb;
pub use device_async::Usb251xbAsync;
pub use error::StringDescriptorError;
pub use register::{BoostLevel, CurrentSensing, LogicalPort, OcTimer, PowerSwitching, Variant};

use vstd::prelude::*;

verus! {

/// Maximum SMBus clock frequency supported by the USB251xB (Hz).
pub const SMBUS_MAX_FREQUENCY_HZ: u32 = 100_000;

} // verus!
