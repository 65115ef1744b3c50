use usb251xb::config::{Config, Port, StringDescriptor};
use usb251xb::error::StringDescriptorError;
use usb251xb::register::{
    LogicalPort, Variant, REG_BATTERY_CHARGING, REG_BOOST_DOWNSTREAM, REG_BOOST_UPSTREAM,
    REG_MANUFACTURER_STRING, REG_PORT_SWAP, REG_PRODUCT_STRING, REG_SERIAL_STRING,
};

type TestResult<T> = Result<T, StringDescriptorError>;

#[test]
fn string_descriptor_empty() {
    let sd = StringDescriptor::empty();
    assert_eq!(sd.len(), 0);
    assert_eq!(sd.byte_len(), 0);
    assert!(sd.is_empty());
}

#[test]
fn string_descriptor_default_is_empty() {
    let sd = StringDescriptor::default();
    assert_eq!(sd.len(), 0);
    assert!(sd.is_empty());
}

#[test]
fn string_descriptor_encode_ascii() -> TestResult<()> {
    let sd = StringDescriptor::encode("Hello")?;
    assert_eq!(sd.len(), 5);
    assert_eq!(sd.byte_len(), 10);
    assert!(!sd.is_empty());

    let mut buf = [0u8; 10];
    let n = sd.write_le_bytes(&mut buf);
    assert_eq!(n, 10);
    // "Hello" as UTF-16LE
    assert_eq!(buf, [b'H', 0, b'e', 0, b'l', 0, b'l', 0, b'o', 0]);
    Ok(())
}

#[test]
fn string_descriptor_encode_non_bmp() -> TestResult<()> {
    // U+1F600 encodes as a surrogate pair: 2 UTF-16 code units
    let sd = StringDescriptor::encode("\u{1F600}")?;
    assert_eq!(sd.len(), 2);
    assert_eq!(sd.byte_len(), 4);
    Ok(())
}

#[test]
fn string_descriptor_too_long() {
    let long = "a]".repeat(32); // 32 code units > 31 max
    let result = StringDescriptor::encode(&long);
    assert!(result.is_err());
}

#[test]
fn string_descriptor_max_length() -> TestResult<()> {
    let max = "x".repeat(31);
    let sd = StringDescriptor::encode(&max)?;
    assert_eq!(sd.len(), 31);
    assert_eq!(sd.byte_len(), 62);
    Ok(())
}

#[test]
fn for_variant_sets_product_id() {
    let c2 = Config::for_variant(Variant::Usb2512b);
    let c3 = Config::for_variant(Variant::Usb2513b);
    let c4 = Config::for_variant(Variant::Usb2514b);
    assert_eq!(c2.product_id, 0x2512);
    assert_eq!(c3.product_id, 0x2513);
    assert_eq!(c4.product_id, 0x2514);
    // Common defaults
    assert_eq!(c4.vendor_id, 0x0424);
    assert_eq!(c4.device_id, 0x0BB3);
}

#[test]
fn register_chunks_count_and_addresses() {
    let config = Config::for_variant(Variant::Usb2514b);
    let chunks = config.to_register_chunks();

    // Chunk 0: IDs + config (0x00, 22 bytes)
    assert_eq!(chunks[0].0, 0x00);
    assert_eq!(chunks[0].2, 22);

    // Chunks 1-2: Manufacturer string
    assert_eq!(chunks[1].0, REG_MANUFACTURER_STRING);
    assert_eq!(chunks[2].0, REG_MANUFACTURER_STRING.wrapping_add(32));

    // Chunks 3-4: Product string
    assert_eq!(chunks[3].0, REG_PRODUCT_STRING);

    // Chunks 5-6: Serial string
    assert_eq!(chunks[5].0, REG_SERIAL_STRING);

    // Chunk 7: Battery charging
    assert_eq!(chunks[7].0, REG_BATTERY_CHARGING);
    assert_eq!(chunks[7].2, 1);

    // Chunk 8: Boost upstream
    assert_eq!(chunks[8].0, REG_BOOST_UPSTREAM);
    assert_eq!(chunks[8].2, 1);

    // Chunk 9: Boost downstream
    assert_eq!(chunks[9].0, REG_BOOST_DOWNSTREAM);
    assert_eq!(chunks[9].2, 1);

    // Chunk 10: Port swap + maps (3 bytes)
    assert_eq!(chunks[10].0, REG_PORT_SWAP);
    assert_eq!(chunks[10].2, 3);

    // Chunk 11: unused
    assert_eq!(chunks[11].2, 0);
}

#[test]
fn register_chunks_ids_serialized_le() {
    let config = Config::for_variant(Variant::Usb2514b);
    let chunks = config.to_register_chunks();
    let buf = &chunks[0].1;

    // Vendor ID 0x0424 little-endian
    assert_eq!(buf[0], 0x24);
    assert_eq!(buf[1], 0x04);
    // Product ID 0x2514 little-endian
    assert_eq!(buf[2], 0x14);
    assert_eq!(buf[3], 0x25);
    // Device ID 0x0BB3 little-endian
    assert_eq!(buf[4], 0xB3);
    assert_eq!(buf[5], 0x0B);
    // Config byte 1: 0x9B
    assert_eq!(buf[6], 0x9B);
    // Config byte 2: 0x20
    assert_eq!(buf[7], 0x20);
}

#[test]
fn register_chunks_power_fields() {
    let mut config = Config::for_variant(Variant::Usb2514b);
    config.max_power_bus_ma = 500;
    config.power_on_time_ms = 200;

    let chunks = config.to_register_chunks();
    let buf = &chunks[0].1;

    // 500mA / 2 = 250
    assert_eq!(buf[13], 250);
    // 200ms / 2 = 100
    assert_eq!(buf[16], 100);
}

#[test]
fn register_chunks_string_lengths() -> TestResult<()> {
    let mut config = Config::for_variant(Variant::Usb2514b);
    config.manufacturer_string = StringDescriptor::encode("Test")?;

    let chunks = config.to_register_chunks();
    let buf = &chunks[0].1;

    // Manufacturer string: 4 codeunits * 2 = 8 bytes
    assert_eq!(buf[19], 8);
    // Product + serial: empty = 0
    assert_eq!(buf[20], 0);
    assert_eq!(buf[21], 0);

    // First string chunk should have 8 bytes of data
    assert_eq!(chunks[1].2, 8);
    // Second chunk empty (8 < 32)
    assert_eq!(chunks[2].2, 0);
    Ok(())
}

#[test]
fn register_chunks_long_string_splits() -> TestResult<()> {
    let mut config = Config::for_variant(Variant::Usb2514b);
    // 20 chars = 40 bytes UTF-16LE -> split into 32 + 8
    config.manufacturer_string = StringDescriptor::encode("12345678901234567890")?;

    let chunks = config.to_register_chunks();
    assert_eq!(chunks[1].2, 32);
    assert_eq!(chunks[2].2, 8);
    Ok(())
}

#[test]
fn builder_string_enables_string_enable() -> TestResult<()> {
    let config = Config::builder(Variant::Usb2514b)
        .manufacturer("Test")?
        .into_config();
    assert!(config.config3.string_enable());
    Ok(())
}

#[test]
fn builder_no_string_leaves_string_enable_off() {
    let config = Config::builder(Variant::Usb2514b).into_config();
    assert!(!config.config3.string_enable());
}

#[test]
fn builder_product_enables_string_enable() -> TestResult<()> {
    let config = Config::builder(Variant::Usb2514b)
        .product("Foo")?
        .into_config();
    assert!(config.config3.string_enable());
    Ok(())
}

#[test]
fn builder_serial_enables_string_enable() -> TestResult<()> {
    let config = Config::builder(Variant::Usb2514b)
        .serial("SN001")?
        .into_config();
    assert!(config.config3.string_enable());
    Ok(())
}

#[test]
fn builder_disabled_ports_sets_both_fields() {
    let config = Config::builder(Variant::Usb2514b)
        .disabled_ports(&[Port::Port3, Port::Port4])
        .into_config();
    assert!(!config.port_disable_self.port1());
    assert!(!config.port_disable_self.port2());
    assert!(config.port_disable_self.port3());
    assert!(config.port_disable_self.port4());
    assert!(!config.port_disable_bus.port1());
    assert!(!config.port_disable_bus.port2());
    assert!(config.port_disable_bus.port3());
    assert!(config.port_disable_bus.port4());
}

#[test]
fn builder_port_map_enables_port_map_enable() {
    let config = Config::builder(Variant::Usb2514b)
        .port_map(Port::Port1, LogicalPort::Port3)
        .into_config();
    assert!(config.config3.port_map_enable());
    assert_eq!(config.port_map_12.port1(), LogicalPort::Port3);
}

#[test]
fn builder_high_speed_inverts_hs_disable() {
    let enabled = Config::builder(Variant::Usb2514b)
        .high_speed(true)
        .into_config();
    assert!(!enabled.config1.hs_disable());

    let disabled = Config::builder(Variant::Usb2514b)
        .high_speed(false)
        .into_config();
    assert!(disabled.config1.hs_disable());
}

#[test]
fn builder_matches_manual_config() -> TestResult<()> {
    let built = Config::builder(Variant::Usb2514b)
        .manufacturer("Keystrike Inc.")?
        .compound(true)
        .non_removable_ports(&[Port::Port1])
        .disabled_ports(&[Port::Port4])
        .into_config();

    let mut manual = Config::for_variant(Variant::Usb2514b);
    manual.manufacturer_string = StringDescriptor::encode("Keystrike Inc.")?;
    manual.config3 = manual.config3.with_string_enable(true);
    manual.config2 = manual.config2.with_compound(true);
    manual.non_removable = manual.non_removable.with_port1(true);
    manual.port_disable_self = manual.port_disable_self.with_port4(true);
    manual.port_disable_bus = manual.port_disable_bus.with_port4(true);

    let built_chunks = built.to_register_chunks();
    let manual_chunks = manual.to_register_chunks();
    for i in 0..12 {
        assert_eq!(built_chunks[i].0, manual_chunks[i].0, "chunk {i} address");
        assert_eq!(built_chunks[i].2, manual_chunks[i].2, "chunk {i} length");
        let len = built_chunks[i].2 as usize;
        assert_eq!(
            &built_chunks[i].1[..len],
            &manual_chunks[i].1[..len],
            "chunk {i} data"
        );
    }
    Ok(())
}
