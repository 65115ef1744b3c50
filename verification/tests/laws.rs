use usb251xb::bits::{read_field, write_field};
use usb251xb::config::{Config, Milliamps, Milliseconds, Port, StringDescriptor};
use usb251xb::device::{attach_write, configure_writes, reset_write, Usb251xb};
use usb251xb::device_async::Usb251xbAsync;
use usb251xb::error::StringDescriptorError;
use usb251xb::register::{
    BoostLevel, BoostUpstream, ConfigByte1, ConfigByte3, CurrentSensing, LogicalPort, OcTimer,
    PortMap34, PowerSwitching, Variant, REG_STATUS_COMMAND,
};
use usb251xb::smbus::{block_read_count, block_write_payload};
use usb251xb::utf16::{char_to_utf16, utf16_len};

#[test]
fn encode_surrogate_pair_units() {
    let sd = StringDescriptor::encode("\u{1F600}").unwrap();
    let mut buf = [0u8; 4];
    assert_eq!(sd.write_le_bytes(&mut buf), 4);
    // U+1F600 = D83D DE00
    assert_eq!(buf, [0x3D, 0xD8, 0x00, 0xDE]);
}

#[test]
fn encode_bmp_char_is_one_unit() {
    let sd = StringDescriptor::encode("\u{20AC}").unwrap();
    assert_eq!(sd.len(), 1);
    let mut buf = [0u8; 2];
    sd.write_le_bytes(&mut buf);
    assert_eq!(buf, [0xAC, 0x20]);
}

#[test]
fn encode_too_long_reports_length() {
    let long = "a]".repeat(32);
    assert_eq!(
        StringDescriptor::encode(&long).unwrap_err(),
        StringDescriptorError::TooLong { len: 64, max: 31 }
    );
}

#[test]
fn encode_pair_crossing_the_limit_is_refused() {
    // 30 units, then a pair: 32 units in all.
    let s = format!("{}\u{1F600}", "x".repeat(30));
    assert_eq!(
        StringDescriptor::encode(&s).unwrap_err(),
        StringDescriptorError::TooLong { len: 32, max: 31 }
    );
    // 29 units, then a pair: exactly 31.
    let s = format!("{}\u{1F600}", "x".repeat(29));
    assert_eq!(StringDescriptor::encode(&s).unwrap().len(), 31);
}

#[test]
fn encode_empty_string() {
    let sd = StringDescriptor::encode("").unwrap();
    assert!(sd.is_empty());
    assert_eq!(sd.byte_len(), 0);
}

#[test]
fn write_le_bytes_keeps_the_rest_of_dest() {
    let sd = StringDescriptor::encode("Hi").unwrap();
    let mut buf = [0xAAu8; 8];
    assert_eq!(sd.write_le_bytes(&mut buf), 4);
    assert_eq!(buf, [b'H', 0, b'i', 0, 0xAA, 0xAA, 0xAA, 0xAA]);
}

#[test]
fn utf16_helpers() {
    assert_eq!(utf16_len("a\u{1F600}b"), 4);
    assert_eq!(char_to_utf16('A'), (1, 0x41, 0));
    assert_eq!(char_to_utf16('\u{10437}'), (2, 0xD801, 0xDC37));
}

#[test]
fn longest_string_splits_32_and_30() {
    let mut config = Config::for_variant(Variant::Usb2514b);
    let s = "abcdefghijklmnopqrstuvwxyz01234";
    config.serial_string = StringDescriptor::encode(s).unwrap();
    let chunks = config.to_register_chunks();
    assert_eq!(chunks[0].1[21], 62);
    assert_eq!(chunks[5].2, 32);
    assert_eq!(chunks[6].2, 30);
    assert_eq!(chunks[6].0, 0x92 + 32);
    let mut joined: Vec<u8> = chunks[5].1[..32].to_vec();
    joined.extend_from_slice(&chunks[6].1[..30]);
    let expected: Vec<u8> = s.bytes().flat_map(|b| [b, 0]).collect();
    assert_eq!(joined, expected);
    // bytes past the length are zero
    assert_eq!(&chunks[6].1[30..], &[0, 0]);
}

#[test]
fn header_bytes_of_defaults() {
    let config = Config::for_variant(Variant::Usb2512b);
    let chunks = config.to_register_chunks();
    let expected: [u8; 22] = [
        0x24, 0x04, 0x12, 0x25, 0xB3, 0x0B, 0x9B, 0x20, 0x00, 0x00, 0x00, 0x00, 1, 50, 50, 50,
        50, 0x04, 0x09, 0, 0, 0,
    ];
    assert_eq!(&chunks[0].1[..22], &expected);
    assert_eq!(&chunks[0].1[22..], &[0u8; 10]);
    // port swap, identity port maps
    assert_eq!(&chunks[10].1[..3], &[0x00, 0x21, 0x43]);
    assert_eq!(chunks[11].0, 0);
}

#[test]
fn halved_values_keep_their_low_byte() {
    let config = Config::builder(Variant::Usb2514b)
        .max_power_bus(Milliamps(1000))
        .hub_current_self(Milliamps(7))
        .power_on_time(Milliseconds(65535))
        .into_config();
    let chunks = config.to_register_chunks();
    assert_eq!(chunks[0].1[13], (500 % 256) as u8);
    assert_eq!(chunks[0].1[14], 3);
    assert_eq!(chunks[0].1[16], (32767 % 256) as u8);
}

#[test]
fn builder_ids_and_language() {
    let config = Config::builder(Variant::Usb2513b)
        .vendor_id(0x1234)
        .product_id(0xABCD)
        .device_id(0x0102)
        .language_id(0x0407)
        .into_config();
    let chunks = config.to_register_chunks();
    assert_eq!(&chunks[0].1[..6], &[0x34, 0x12, 0xCD, 0xAB, 0x02, 0x01]);
    assert_eq!(&chunks[0].1[17..19], &[0x04, 0x07]);
}

#[test]
fn builder_config_bits() {
    let config = Config::builder(Variant::Usb2514b)
        .self_powered(false)
        .mtt(false)
        .power_switching(PowerSwitching::Ganged)
        .current_sensing(CurrentSensing::NotSupported)
        .oc_timer(OcTimer::Ms16)
        .dynamic_power(true)
        .compound(true)
        .into_config();
    // 0x9B with bit 7 and bit 4 cleared, bit 0 cleared, bits 2:1 = 0b10
    assert_eq!(config.config1.into_bytes(), [0b0000_1100]);
    // 0x20 with bits 5:4 = 0b11, bit 7 and bit 3 set
    assert_eq!(config.config2.into_bytes(), [0b1011_1000]);
    assert_eq!(config.config1.current_sensing(), CurrentSensing::NotSupported);
    assert_eq!(config.config2.oc_timer(), OcTimer::Ms16);
}

#[test]
fn port_lists_ignore_order_and_repeats() {
    let a = Config::builder(Variant::Usb2514b)
        .non_removable_ports(&[Port::Port4, Port::Port2, Port::Port4])
        .into_config();
    let b = Config::builder(Variant::Usb2514b)
        .non_removable_ports(&[Port::Port2, Port::Port4])
        .into_config();
    assert_eq!(a.non_removable.into_bytes(), [0b0001_0100]);
    assert_eq!(a.non_removable.into_bytes(), b.non_removable.into_bytes());
    assert!(!a.non_removable.upstream());
}

#[test]
fn single_port_setters_add_to_lists() {
    let listed = Config::builder(Variant::Usb2514b)
        .battery_charging_ports(&[Port::Port1, Port::Port3])
        .port_swap(&[Port::Port2, Port::Port4])
        .disabled_ports(&[Port::Port1, Port::Port2])
        .into_config();
    let added = Config::builder(Variant::Usb2514b)
        .battery_charging_ports(&[Port::Port1])
        .battery_charging_port(Port::Port3)
        .port_swap(&[Port::Port2])
        .swap_port(Port::Port4)
        .disabled_ports(&[Port::Port1])
        .disable_port(Port::Port2)
        .into_config();
    assert_eq!(listed.battery_charging.into_bytes(), added.battery_charging.into_bytes());
    assert_eq!(listed.port_swap.into_bytes(), added.port_swap.into_bytes());
    assert_eq!(listed.port_disable_self.into_bytes(), added.port_disable_self.into_bytes());
    assert_eq!(listed.port_disable_bus.into_bytes(), [0b0000_0110]);
    assert_eq!(added.port_disable_bus.into_bytes(), [0b0000_0110]);
}

#[test]
fn list_setters_replace_earlier_lists() {
    let config = Config::builder(Variant::Usb2514b)
        .non_removable_port(Port::Port1)
        .non_removable_ports(&[Port::Port2])
        .into_config();
    assert_eq!(config.non_removable.into_bytes(), [0b0000_0100]);
}

#[test]
fn boost_and_port_map_setters() {
    let config = Config::builder(Variant::Usb2514b)
        .boost_upstream(BoostLevel::High)
        .boost_downstream_port(Port::Port3, BoostLevel::Medium)
        .port_map(Port::Port4, LogicalPort::Disabled)
        .port_map(Port::Port3, LogicalPort::Port1)
        .into_config();
    assert_eq!(config.boost_upstream.into_bytes(), [0b11]);
    assert_eq!(config.boost_downstream.into_bytes(), [0b0010_0000]);
    assert_eq!(config.port_map_34.into_bytes(), [0x01]);
    assert_eq!(config.port_map_12.into_bytes(), [0x21]);
    assert!(config.config3.port_map_enable());
    assert!(!config.config3.string_enable());
    assert_eq!(config.config3.into_bytes(), [0b0000_1000]);
}

#[test]
fn configure_writes_skip_empty_chunks() {
    let config = Config::for_variant(Variant::Usb2514b);
    let writes = configure_writes(&config);
    // header, battery charging, two boost registers, port swap + maps
    assert_eq!(writes.len(), 5);
    assert_eq!(writes[0].len(), 24);
    assert_eq!(&writes[0][..4], &[0x00, 22, 0x24, 0x04]);
    assert_eq!(writes[1], vec![0xD0, 1, 0x00]);
    assert_eq!(writes[2], vec![0xF6, 1, 0x00]);
    assert_eq!(writes[3], vec![0xF8, 1, 0x00]);
    assert_eq!(writes[4], vec![0xFA, 3, 0x00, 0x21, 0x43]);
}

#[test]
fn configure_writes_carry_strings() {
    let config = Config::builder(Variant::Usb2514b)
        .product("12345678901234567890")
        .unwrap()
        .into_config();
    let writes = configure_writes(&config);
    assert_eq!(writes.len(), 7);
    assert_eq!(writes[1][0], 0x54);
    assert_eq!(writes[1][1], 32);
    assert_eq!(writes[1].len(), 34);
    assert_eq!(writes[2][..2], [0x74, 8]);
    assert_eq!(writes[2][2..], [b'7', 0, b'8', 0, b'9', 0, b'0', 0]);
}

#[test]
fn attach_and_reset_writes() {
    assert_eq!(attach_write(), vec![REG_STATUS_COMMAND, 1, 0x01]);
    assert_eq!(reset_write(), vec![REG_STATUS_COMMAND, 1, 0x02]);
}

#[test]
fn smbus_block_framing() {
    assert_eq!(block_write_payload(0x10, &[1, 2, 3]), vec![0x10, 3, 1, 2, 3]);
    assert_eq!(block_write_payload(0x20, &[]), vec![0x20, 0]);
    assert_eq!(block_write_payload(0x16, &[7u8; 32]).len(), 34);
    assert_eq!(block_read_count(&[32, 0x24, 0x04]), 32);
}

#[test]
fn specifier_bit_patterns() {
    assert_eq!(CurrentSensing::from_bits(3), None);
    assert_eq!(CurrentSensing::from_bits(2), Some(CurrentSensing::NotSupported));
    assert_eq!(LogicalPort::from_bits(5), None);
    assert_eq!(LogicalPort::Port4.into_bits(), 4);
    assert_eq!(BoostLevel::from_bits(BoostLevel::Medium.into_bits()), Some(BoostLevel::Medium));
    assert_eq!(OcTimer::Ms0_1.into_bits(), 0);
}

#[test]
fn field_setters_keep_other_fields() {
    let byte = ConfigByte1::from_bytes([0xFF]).with_current_sensing(CurrentSensing::Ganged);
    assert_eq!(byte.into_bytes(), [0xF9]);
    assert!(byte.eop_disable());
    assert_eq!(byte.port_power(), PowerSwitching::Individual);
    // reserved bit 6 untouched by a clearing write
    let byte = byte.with_self_bus_power(false);
    assert_eq!(byte.into_bytes(), [0x79]);
    let c3 = ConfigByte3::from_bytes([0xF6]).with_string_enable(true);
    assert_eq!(c3.into_bytes(), [0xF7]);
    let pm = PortMap34::from_bytes([0x43]).with_port4(LogicalPort::Port1);
    assert_eq!(pm.port3(), LogicalPort::Port3);
    assert_eq!(pm.into_bytes(), [0x13]);
    let up = BoostUpstream::from_bytes([0xFC]).with_level(BoostLevel::Low);
    assert_eq!(up.into_bytes(), [0xFD]);
}

#[test]
fn raw_field_access() {
    assert_eq!(read_field(0b1011_0100, 2, 3), 0b101);
    assert_eq!(write_field(0b1111_1111, 2, 3, 0b010), 0b1110_1011);
    assert_eq!(write_field(0, 4, 4, 0xFF), 0xF0);
}

#[test]
fn drivers_own_their_bus() {
    let mut hub = Usb251xb::new(7u32);
    *hub.bus_mut() += 1;
    assert_eq!(hub.release(), 8);
    let mut hub = Usb251xbAsync::new(vec![1u8]);
    hub.bus_mut().push(2);
    assert_eq!(hub.release(), vec![1, 2]);
}

fn config_with_strings() -> Config {
    Config::builder(Variant::Usb2514b)
        .manufacturer("12345678901234567890")
        .unwrap()
        .product("Foo")
        .unwrap()
        .serial("abcdefghijklmnopqrstuvwxyz01234")
        .unwrap()
        .into_config()
}

#[test]
fn string_length_bytes_match_chunks() {
    let chunks = config_with_strings().to_register_chunks();
    let header = &chunks[0].1;
    assert_eq!(header[19], chunks[1].2 + chunks[2].2);
    assert_eq!(header[20], chunks[3].2 + chunks[4].2);
    assert_eq!(header[21], chunks[5].2 + chunks[6].2);
    assert_eq!((header[19], header[20], header[21]), (40, 6, 62));
}

#[test]
fn chunks_write_disjoint_ranges() {
    let chunks = config_with_strings().to_register_chunks();
    let mut end: u32 = 0;
    for chunk in chunks.iter().filter(|c| c.2 > 0) {
        let start = chunk.0 as u32;
        assert!(end <= start);
        end = start + chunk.2 as u32;
        assert!(end <= 0x100);
    }
    assert_eq!(end, 0xFD);
}

#[test]
fn written_bytes_decode_back_to_the_string() {
    for s in ["", "Hello", "Keystrike Inc.", "\u{20AC}\u{1F600}x", "abcdefghijklmnopqrstuvwxyz01234"] {
        let d = StringDescriptor::encode(s).unwrap();
        let mut buf = [0u8; 62];
        let n = d.write_le_bytes(&mut buf);
        let units: Vec<u16> = buf[..n]
            .chunks(2)
            .map(|b| u16::from_le_bytes([b[0], b[1]]))
            .collect();
        assert_eq!(String::from_utf16(&units).unwrap(), s.to_string());
    }
}
