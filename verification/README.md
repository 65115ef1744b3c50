# usb251xb

Configuration logic for the Microchip USB2512B/USB2513B/USB2514B USB 2.0 hub
controllers, verified with Verus.

- `src/` is the verified library: the register fields (`register`, on top of
  the bit-field laws in `bits`), UTF-16 string descriptors (`utf16`,
  `config`), the configuration builder and its layout as SMBus block writes
  (`config`, `smbus`), and the I2C writes of each driver operation
  (`device`). The drivers `Usb251xb` and `Usb251xbAsync` own the bus.
- `app/` performs those writes on an `embedded-hal` or `embedded-hal-async`
  I2C bus (`Usb251xbExt`, `Usb251xbAsyncExt`) and holds the error types with
  their `Display` impls.
- `tests/` runs the library on concrete values.
