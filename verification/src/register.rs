//! Register addresses and register values of the USB251xB/xBi.
//!
//! Each configuration register is one byte made of fields; the types here
//! read and set those fields. Bit 0 is the least significant bit, and a
//! field that the datasheet marks reserved is never touched by a setter.
use crate::bits::{
    bool_bit, field_get, field_set, fits_width, lemma_field_get_set_other, lemma_field_get_set_same,
    read_field, write_field,
};
use vstd::prelude::*;

verus! {

/// I2C slave address (7-bit, unshifted).
pub const DEVICE_ADDR: u8 = 0x2C;

pub const REG_VENDOR_ID_LSB: u8 = 0x00;

pub const REG_VENDOR_ID_MSB: u8 = 0x01;

pub const REG_PRODUCT_ID_LSB: u8 = 0x02;

pub const REG_PRODUCT_ID_MSB: u8 = 0x03;

pub const REG_DEVICE_ID_LSB: u8 = 0x04;

pub const REG_DEVICE_ID_MSB: u8 = 0x05;

pub const REG_CONFIG_BYTE_1: u8 = 0x06;

pub const REG_CONFIG_BYTE_2: u8 = 0x07;

pub const REG_CONFIG_BYTE_3: u8 = 0x08;

pub const REG_NON_REMOVABLE: u8 = 0x09;

pub const REG_PORT_DISABLE_SELF: u8 = 0x0A;

pub const REG_PORT_DISABLE_BUS: u8 = 0x0B;

pub const REG_MAX_POWER_SELF: u8 = 0x0C;

pub const REG_MAX_POWER_BUS: u8 = 0x0D;

pub const REG_HUB_CURRENT_SELF: u8 = 0x0E;

pub const REG_HUB_CURRENT_BUS: u8 = 0x0F;

pub const REG_POWER_ON_TIME: u8 = 0x10;

pub const REG_LANGUAGE_ID_HIGH: u8 = 0x11;

pub const REG_LANGUAGE_ID_LOW: u8 = 0x12;

pub const REG_MANUFACTURER_STRING_LEN: u8 = 0x13;

pub const REG_PRODUCT_STRING_LEN: u8 = 0x14;

pub const REG_SERIAL_STRING_LEN: u8 = 0x15;

pub const REG_MANUFACTURER_STRING: u8 = 0x16;

pub const REG_PRODUCT_STRING: u8 = 0x54;

pub const REG_SERIAL_STRING: u8 = 0x92;

pub const REG_BATTERY_CHARGING: u8 = 0xD0;

pub const REG_BOOST_UPSTREAM: u8 = 0xF6;

pub const REG_BOOST_DOWNSTREAM: u8 = 0xF8;

pub const REG_PORT_SWAP: u8 = 0xFA;

pub const REG_PORT_MAP_12: u8 = 0xFB;

pub const REG_PORT_MAP_34: u8 = 0xFC;

pub const REG_STATUS_COMMAND: u8 = 0xFF;

/// USB251xB variant (2, 3, or 4 downstream ports).
#[derive(Debug, Clone, Copy, PartialEq, Eq, Structural)]
pub enum Variant {
    Usb2512b,
    Usb2513b,
    Usb2514b,
}

impl Variant {
    /// The USB product ID of the variant.
    pub open spec fn spec_product_id(self) -> u16 {
        match self {
            Variant::Usb2512b => 0x2512,
            Variant::Usb2513b => 0x2513,
            Variant::Usb2514b => 0x2514,
        }
    }

    /// The USB product ID of the variant.
    pub fn product_id(self) -> (r: u16)
        ensures
            r == self.spec_product_id(),
    {
        match self {
            Variant::Usb2512b => 0x2512,
            Variant::Usb2513b => 0x2513,
            Variant::Usb2514b => 0x2514,
        }
    }
}

/// Port power switching mode.
#[derive(Debug, Clone, Copy, PartialEq, Eq, Structural)]
pub enum PowerSwitching {
    Ganged,
    Individual,
}

impl PowerSwitching {
    /// The bit pattern that stores this value in its 1-bit field.
    pub open spec fn spec_bits(self) -> u8 {
        match self {
            PowerSwitching::Ganged => 0,
            PowerSwitching::Individual => 1,
        }
    }

    /// The value stored by a bit pattern, if the pattern stands for one.
    pub open spec fn spec_from_bits(bits: u8) -> Option<PowerSwitching> {
        if bits == 0 {
            Some(PowerSwitching::Ganged)
        } else if bits == 1 {
            Some(PowerSwitching::Individual)
        } else {
            None
        }
    }

    /// The bit pattern of this value.
    pub fn into_bits(self) -> (r: u8)
        ensures
            r == self.spec_bits(),
    {
        match self {
            PowerSwitching::Ganged => 0,
            PowerSwitching::Individual => 1,
        }
    }

    /// Decodes a bit pattern; `None` where it stands for no value.
    pub fn from_bits(bits: u8) -> (r: Option<PowerSwitching>)
        ensures
            r == PowerSwitching::spec_from_bits(bits),
    {
        if bits == 0 {
            Some(PowerSwitching::Ganged)
        } else if bits == 1 {
            Some(PowerSwitching::Individual)
        } else {
            None
        }
    }

    /// Every value has a pattern that fits the field and decodes back to it.
    pub proof fn lemma_bits_roundtrip(self)
        ensures
            fits_width(self.spec_bits(), 1),
            PowerSwitching::spec_from_bits(self.spec_bits()) == Some(self),
    {
    }

    /// A pattern that decodes to a value is that value's pattern.
    pub proof fn lemma_from_bits_inverse(bits: u8)
        ensures
            PowerSwitching::spec_from_bits(bits) matches Some(v) ==> v.spec_bits() == bits,
    {
    }
}

/// Overcurrent sensing mode.
#[derive(Debug, Clone, Copy, PartialEq, Eq, Structural)]
pub enum CurrentSensing {
    Ganged,
    Individual,
    NotSupported,
}

impl CurrentSensing {
    /// The bit pattern that stores this value in its 2-bit field.
    pub open spec fn spec_bits(self) -> u8 {
        match self {
            CurrentSensing::Ganged => 0,
            CurrentSensing::Individual => 1,
            CurrentSensing::NotSupported => 2,
        }
    }

    /// The value stored by a bit pattern, if the pattern stands for one.
    pub open spec fn spec_from_bits(bits: u8) -> Option<CurrentSensing> {
        if bits == 0 {
            Some(CurrentSensing::Ganged)
        } else if bits == 1 {
            Some(CurrentSensing::Individual)
        } else if bits == 2 {
            Some(CurrentSensing::NotSupported)
        } else {
            None
        }
    }

    /// The bit pattern of this value.
    pub fn into_bits(self) -> (r: u8)
        ensures
            r == self.spec_bits(),
    {
        match self {
            CurrentSensing::Ganged => 0,
            CurrentSensing::Individual => 1,
            CurrentSensing::NotSupported => 2,
        }
    }

    /// Decodes a bit pattern; `None` where it stands for no value.
    pub fn from_bits(bits: u8) -> (r: Option<CurrentSensing>)
        ensures
            r == CurrentSensing::spec_from_bits(bits),
    {
        if bits == 0 {
            Some(CurrentSensing::Ganged)
        } else if bits == 1 {
            Some(CurrentSensing::Individual)
        } else if bits == 2 {
            Some(CurrentSensing::NotSupported)
        } else {
            None
        }
    }

    /// Every value has a pattern that fits the field and decodes back to it.
    pub proof fn lemma_bits_roundtrip(self)
        ensures
            fits_width(self.spec_bits(), 2),
            CurrentSensing::spec_from_bits(self.spec_bits()) == Some(self),
    {
    }

    /// A pattern that decodes to a value is that value's pattern.
    pub proof fn lemma_from_bits_inverse(bits: u8)
        ensures
            CurrentSensing::spec_from_bits(bits) matches Some(v) ==> v.spec_bits() == bits,
    {
    }
}

/// Overcurrent detection timer period.
#[derive(Debug, Clone, Copy, PartialEq, Eq, Structural)]
pub enum OcTimer {
    Ms0_1,
    Ms4,
    Ms8,
    Ms16,
}

impl OcTimer {
    /// The bit pattern that stores this value in its 2-bit field.
    pub open spec fn spec_bits(self) -> u8 {
        match self {
            OcTimer::Ms0_1 => 0,
            OcTimer::Ms4 => 1,
            OcTimer::Ms8 => 2,
            OcTimer::Ms16 => 3,
        }
    }

    /// The value stored by a bit pattern, if the pattern stands for one.
    pub open spec fn spec_from_bits(bits: u8) -> Option<OcTimer> {
        if bits == 0 {
            Some(OcTimer::Ms0_1)
        } else if bits == 1 {
            Some(OcTimer::Ms4)
        } else if bits == 2 {
            Some(OcTimer::Ms8)
        } else if bits == 3 {
            Some(OcTimer::Ms16)
        } else {
            None
        }
    }

    /// The bit pattern of this value.
    pub fn into_bits(self) -> (r: u8)
        ensures
            r == self.spec_bits(),
    {
        match self {
            OcTimer::Ms0_1 => 0,
            OcTimer::Ms4 => 1,
            OcTimer::Ms8 => 2,
            OcTimer::Ms16 => 3,
        }
    }

    /// Decodes a bit pattern; `None` where it stands for no value.
    pub fn from_bits(bits: u8) -> (r: Option<OcTimer>)
        ensures
            r == OcTimer::spec_from_bits(bits),
    {
        if bits == 0 {
            Some(OcTimer::Ms0_1)
        } else if bits == 1 {
            Some(OcTimer::Ms4)
        } else if bits == 2 {
            Some(OcTimer::Ms8)
        } else if bits == 3 {
            Some(OcTimer::Ms16)
        } else {
            None
        }
    }

    /// Every value has a pattern that fits the field and decodes back to it.
    pub proof fn lemma_bits_roundtrip(self)
        ensures
            fits_width(self.spec_bits(), 2),
            OcTimer::spec_from_bits(self.spec_bits()) == Some(self),
    {
    }

    /// A pattern that decodes to a value is that value's pattern.
    pub proof fn lemma_from_bits_inverse(bits: u8)
        ensures
            OcTimer::spec_from_bits(bits) matches Some(v) ==> v.spec_bits() == bits,
    {
    }
}

/// USB signal boost level for upstream or downstream ports.
#[derive(Debug, Clone, Copy, PartialEq, Eq, Structural)]
pub enum BoostLevel {
    NoBoost,
    Low,
    Medium,
    High,
}

impl BoostLevel {
    /// The bit pattern that stores this value in its 2-bit field.
    pub open spec fn spec_bits(self) -> u8 {
        match self {
            BoostLevel::NoBoost => 0,
            BoostLevel::Low => 1,
            BoostLevel::Medium => 2,
            BoostLevel::High => 3,
        }
    }

    /// The value stored by a bit pattern, if the pattern stands for one.
    pub open spec fn spec_from_bits(bits: u8) -> Option<BoostLevel> {
        if bits == 0 {
            Some(BoostLevel::NoBoost)
        } else if bits == 1 {
            Some(BoostLevel::Low)
        } else if bits == 2 {
            Some(BoostLevel::Medium)
        } else if bits == 3 {
            Some(BoostLevel::High)
        } else {
            None
        }
    }

    /// The bit pattern of this value.
    pub fn into_bits(self) -> (r: u8)
        ensures
            r == self.spec_bits(),
    {
        match self {
            BoostLevel::NoBoost => 0,
            BoostLevel::Low => 1,
            BoostLevel::Medium => 2,
            BoostLevel::High => 3,
        }
    }

    /// Decodes a bit pattern; `None` where it stands for no value.
    pub fn from_bits(bits: u8) -> (r: Option<BoostLevel>)
        ensures
            r == BoostLevel::spec_from_bits(bits),
    {
        if bits == 0 {
            Some(BoostLevel::NoBoost)
        } else if bits == 1 {
            Some(BoostLevel::Low)
        } else if bits == 2 {
            Some(BoostLevel::Medium)
        } else if bits == 3 {
            Some(BoostLevel::High)
        } else {
            None
        }
    }

    /// Every value has a pattern that fits the field and decodes back to it.
    pub proof fn lemma_bits_roundtrip(self)
        ensures
            fits_width(self.spec_bits(), 2),
            BoostLevel::spec_from_bits(self.spec_bits()) == Some(self),
    {
    }

    /// A pattern that decodes to a value is that value's pattern.
    pub proof fn lemma_from_bits_inverse(bits: u8)
        ensures
            BoostLevel::spec_from_bits(bits) matches Some(v) ==> v.spec_bits() == bits,
    {
    }
}

/// Logical port number for physical-to-logical port remapping.
#[derive(Debug, Clone, Copy, PartialEq, Eq, Structural)]
pub enum LogicalPort {
    Disabled,
    Port1,
    Port2,
    Port3,
    Port4,
}

impl LogicalPort {
    /// The bit pattern that stores this value in its 4-bit field.
    pub open spec fn spec_bits(self) -> u8 {
        match self {
            LogicalPort::Disabled => 0,
            LogicalPort::Port1 => 1,
            LogicalPort::Port2 => 2,
            LogicalPort::Port3 => 3,
            LogicalPort::Port4 => 4,
        }
    }

    /// The value stored by a bit pattern, if the pattern stands for one.
    pub open spec fn spec_from_bits(bits: u8) -> Option<LogicalPort> {
        if bits == 0 {
            Some(LogicalPort::Disabled)
        } else if bits == 1 {
            Some(LogicalPort::Port1)
        } else if bits == 2 {
            Some(LogicalPort::Port2)
        } else if bits == 3 {
            Some(LogicalPort::Port3)
        } else if bits == 4 {
            Some(LogicalPort::Port4)
        } else {
            None
        }
    }

    /// The bit pattern of this value.
    pub fn into_bits(self) -> (r: u8)
        ensures
            r == self.spec_bits(),
    {
        match self {
            LogicalPort::Disabled => 0,
            LogicalPort::Port1 => 1,
            LogicalPort::Port2 => 2,
            LogicalPort::Port3 => 3,
            LogicalPort::Port4 => 4,
        }
    }

    /// Decodes a bit pattern; `None` where it stands for no value.
    pub fn from_bits(bits: u8) -> (r: Option<LogicalPort>)
        ensures
            r == LogicalPort::spec_from_bits(bits),
    {
        if bits == 0 {
            Some(LogicalPort::Disabled)
        } else if bits == 1 {
            Some(LogicalPort::Port1)
        } else if bits == 2 {
            Some(LogicalPort::Port2)
        } else if bits == 3 {
            Some(LogicalPort::Port3)
        } else if bits == 4 {
            Some(LogicalPort::Port4)
        } else {
            None
        }
    }

    /// Every value has a pattern that fits the field and decodes back to it.
    pub proof fn lemma_bits_roundtrip(self)
        ensures
            fits_width(self.spec_bits(), 4),
            LogicalPort::spec_from_bits(self.spec_bits()) == Some(self),
    {
    }

    /// A pattern that decodes to a value is that value's pattern.
    pub proof fn lemma_from_bits_inverse(bits: u8)
        ensures
            LogicalPort::spec_from_bits(bits) matches Some(v) ==> v.spec_bits() == bits,
    {
    }
}

/// Configuration data byte 1 (register 0x06).
#[derive(Debug, Clone, Copy)]
pub struct ConfigByte1 {
    byte: u8,
}

impl View for ConfigByte1 {
    type V = u8;

    closed spec fn view(&self) -> u8 {
        self.byte
    }
}

impl ConfigByte1 {
    /// The register value whose byte is `byte`.
    pub closed spec fn from_view(byte: u8) -> ConfigByte1 {
        ConfigByte1 { byte }
    }

    /// The value built from a byte holds that byte.
    pub broadcast proof fn lemma_view_of_from_view(byte: u8)
        ensures
            #[trigger] ConfigByte1::from_view(byte)@ == byte,
    {
    }

    /// A value is determined by its byte.
    pub broadcast proof fn lemma_from_view_of_view(reg: ConfigByte1)
        ensures
            ConfigByte1::from_view(#[trigger] reg@) == reg,
    {
    }

    /// The value with every bit cleared.
    pub fn new() -> (r: ConfigByte1)
        ensures
            r@ == 0,
    {
        ConfigByte1 { byte: 0 }
    }

    /// The value held by a raw register byte.
    pub fn from_bytes(bytes: [u8; 1]) -> (r: ConfigByte1)
        ensures
            r@ == bytes@[0],
    {
        ConfigByte1 { byte: bytes[0] }
    }

    /// The raw register byte.
    pub fn into_bytes(self) -> (r: [u8; 1])
        ensures
            r@ == seq![self@],
    {
        let r = [self.byte];
        assert(r@ =~= seq![self@]);
        r
    }

    /// The `port_power` field (bits 0..1).
    pub open spec fn spec_port_power(self) -> PowerSwitching {
        PowerSwitching::spec_from_bits(field_get(self@, 0, 1)).unwrap()
    }

    /// This value with the `port_power` field set to `value`.
    pub open spec fn spec_with_port_power(self, value: PowerSwitching) -> ConfigByte1 {
        ConfigByte1::from_view(field_set(self@, 0, 1, value.spec_bits()))
    }

    /// Reads the `port_power` field.
    pub fn port_power(&self) -> (r: PowerSwitching)
        ensures
            r == self.spec_port_power(),
    {
        PowerSwitching::from_bits(read_field(self.byte, 0, 1)).unwrap()
    }

    /// Returns this value with the `port_power` field set to `value`.
    pub fn with_port_power(self, value: PowerSwitching) -> (r: ConfigByte1)
        ensures
            r == self.spec_with_port_power(value),
            r@ == field_set(self@, 0, 1, value.spec_bits()),
    {
        ConfigByte1 { byte: write_field(self.byte, 0, 1, value.into_bits()) }
    }

    /// The `current_sensing` field (bits 1..3).
    pub open spec fn spec_current_sensing(self) -> CurrentSensing {
        CurrentSensing::spec_from_bits(field_get(self@, 1, 2)).unwrap()
    }

    /// The `current_sensing` field holds a pattern that stands for a value.
    pub open spec fn current_sensing_valid(self) -> bool {
        CurrentSensing::spec_from_bits(field_get(self@, 1, 2)) is Some
    }

    /// This value with the `current_sensing` field set to `value`.
    pub open spec fn spec_with_current_sensing(self, value: CurrentSensing) -> ConfigByte1 {
        ConfigByte1::from_view(field_set(self@, 1, 2, value.spec_bits()))
    }

    /// Reads the `current_sensing` field.
    pub fn current_sensing(&self) -> (r: CurrentSensing)
        requires
            self.current_sensing_valid(),
        ensures
            r == self.spec_current_sensing(),
    {
        CurrentSensing::from_bits(read_field(self.byte, 1, 2)).unwrap()
    }

    /// Returns this value with the `current_sensing` field set to `value`.
    pub fn with_current_sensing(self, value: CurrentSensing) -> (r: ConfigByte1)
        ensures
            r == self.spec_with_current_sensing(value),
            r@ == field_set(self@, 1, 2, value.spec_bits()),
    {
        ConfigByte1 { byte: write_field(self.byte, 1, 2, value.into_bits()) }
    }

    /// The `eop_disable` field (bits 3..4).
    pub open spec fn spec_eop_disable(self) -> bool {
        field_get(self@, 3, 1) == 1
    }

    /// This value with the `eop_disable` field set to `value`.
    pub open spec fn spec_with_eop_disable(self, value: bool) -> ConfigByte1 {
        ConfigByte1::from_view(field_set(self@, 3, 1, bool_bit(value)))
    }

    /// Reads the `eop_disable` field.
    pub fn eop_disable(&self) -> (r: bool)
        ensures
            r == self.spec_eop_disable(),
    {
        read_field(self.byte, 3, 1) == 1
    }

    /// Returns this value with the `eop_disable` field set to `value`.
    pub fn with_eop_disable(self, value: bool) -> (r: ConfigByte1)
        ensures
            r == self.spec_with_eop_disable(value),
            r@ == field_set(self@, 3, 1, bool_bit(value)),
    {
        let bit: u8 = if value {
            1
        } else {
            0
        };
        ConfigByte1 { byte: write_field(self.byte, 3, 1, bit) }
    }

    /// The `mtt_enable` field (bits 4..5).
    pub open spec fn spec_mtt_enable(self) -> bool {
        field_get(self@, 4, 1) == 1
    }

    /// This value with the `mtt_enable` field set to `value`.
    pub open spec fn spec_with_mtt_enable(self, value: bool) -> ConfigByte1 {
        ConfigByte1::from_view(field_set(self@, 4, 1, bool_bit(value)))
    }

    /// Reads the `mtt_enable` field.
    pub fn mtt_enable(&self) -> (r: bool)
        ensures
            r == self.spec_mtt_enable(),
    {
        read_field(self.byte, 4, 1) == 1
    }

    /// Returns this value with the `mtt_enable` field set to `value`.
    pub fn with_mtt_enable(self, value: bool) -> (r: ConfigByte1)
        ensures
            r == self.spec_with_mtt_enable(value),
            r@ == field_set(self@, 4, 1, bool_bit(value)),
    {
        let bit: u8 = if value {
            1
        } else {
            0
        };
        ConfigByte1 { byte: write_field(self.byte, 4, 1, bit) }
    }

    /// The `hs_disable` field (bits 5..6).
    pub open spec fn spec_hs_disable(self) -> bool {
        field_get(self@, 5, 1) == 1
    }

    /// This value with the `hs_disable` field set to `value`.
    pub open spec fn spec_with_hs_disable(self, value: bool) -> ConfigByte1 {
        ConfigByte1::from_view(field_set(self@, 5, 1, bool_bit(value)))
    }

    /// Reads the `hs_disable` field.
    pub fn hs_disable(&self) -> (r: bool)
        ensures
            r == self.spec_hs_disable(),
    {
        read_field(self.byte, 5, 1) == 1
    }

    /// Returns this value with the `hs_disable` field set to `value`.
    pub fn with_hs_disable(self, value: bool) -> (r: ConfigByte1)
        ensures
            r == self.spec_with_hs_disable(value),
            r@ == field_set(self@, 5, 1, bool_bit(value)),
    {
        let bit: u8 = if value {
            1
        } else {
            0
        };
        ConfigByte1 { byte: write_field(self.byte, 5, 1, bit) }
    }

    /// The `self_bus_power` field (bits 7..8).
    pub open spec fn spec_self_bus_power(self) -> bool {
        field_get(self@, 7, 1) == 1
    }

    /// This value with the `self_bus_power` field set to `value`.
    pub open spec fn spec_with_self_bus_power(self, value: bool) -> ConfigByte1 {
        ConfigByte1::from_view(field_set(self@, 7, 1, bool_bit(value)))
    }

    /// Reads the `self_bus_power` field.
    pub fn self_bus_power(&self) -> (r: bool)
        ensures
            r == self.spec_self_bus_power(),
    {
        read_field(self.byte, 7, 1) == 1
    }

    /// Returns this value with the `self_bus_power` field set to `value`.
    pub fn with_self_bus_power(self, value: bool) -> (r: ConfigByte1)
        ensures
            r == self.spec_with_self_bus_power(value),
            r@ == field_set(self@, 7, 1, bool_bit(value)),
    {
        let bit: u8 = if value {
            1
        } else {
            0
        };
        ConfigByte1 { byte: write_field(self.byte, 7, 1, bit) }
    }

    /// Reading `port_power` after setting it gives the value set; every other field
    /// keeps its value.
    pub proof fn lemma_with_port_power(self, value: PowerSwitching)
        ensures
            self.spec_with_port_power(value).spec_port_power() == value,
            self.spec_with_port_power(value).spec_current_sensing() == self.spec_current_sensing(),
            self.spec_with_port_power(value).current_sensing_valid() == self.current_sensing_valid(),
            self.spec_with_port_power(value).spec_eop_disable() == self.spec_eop_disable(),
            self.spec_with_port_power(value).spec_mtt_enable() == self.spec_mtt_enable(),
            self.spec_with_port_power(value).spec_hs_disable() == self.spec_hs_disable(),
            self.spec_with_port_power(value).spec_self_bus_power() == self.spec_self_bus_power(),
    {
        value.lemma_bits_roundtrip();
        lemma_field_get_set_same(self@, 0, 1, value.spec_bits());
        lemma_field_get_set_other(self@, 0, 1, value.spec_bits(), 1, 2);
        lemma_field_get_set_other(self@, 0, 1, value.spec_bits(), 3, 1);
        lemma_field_get_set_other(self@, 0, 1, value.spec_bits(), 4, 1);
        lemma_field_get_set_other(self@, 0, 1, value.spec_bits(), 5, 1);
        lemma_field_get_set_other(self@, 0, 1, value.spec_bits(), 7, 1);
    }

    /// Reading `current_sensing` after setting it gives the value set; every other field
    /// keeps its value.
    pub proof fn lemma_with_current_sensing(self, value: CurrentSensing)
        ensures
            self.spec_with_current_sensing(value).spec_current_sensing() == value,
            self.spec_with_current_sensing(value).current_sensing_valid(),
            self.spec_with_current_sensing(value).spec_port_power() == self.spec_port_power(),
            self.spec_with_current_sensing(value).spec_eop_disable() == self.spec_eop_disable(),
            self.spec_with_current_sensing(value).spec_mtt_enable() == self.spec_mtt_enable(),
            self.spec_with_current_sensing(value).spec_hs_disable() == self.spec_hs_disable(),
            self.spec_with_current_sensing(value).spec_self_bus_power() == self.spec_self_bus_power(),
    {
        value.lemma_bits_roundtrip();
        lemma_field_get_set_same(self@, 1, 2, value.spec_bits());
        lemma_field_get_set_other(self@, 1, 2, value.spec_bits(), 0, 1);
        lemma_field_get_set_other(self@, 1, 2, value.spec_bits(), 3, 1);
        lemma_field_get_set_other(self@, 1, 2, value.spec_bits(), 4, 1);
        lemma_field_get_set_other(self@, 1, 2, value.spec_bits(), 5, 1);
        lemma_field_get_set_other(self@, 1, 2, value.spec_bits(), 7, 1);
    }

    /// Reading `eop_disable` after setting it gives the value set; every other field
    /// keeps its value.
    pub proof fn lemma_with_eop_disable(self, value: bool)
        ensures
            self.spec_with_eop_disable(value).spec_eop_disable() == value,
            self.spec_with_eop_disable(value).spec_port_power() == self.spec_port_power(),
            self.spec_with_eop_disable(value).spec_current_sensing() == self.spec_current_sensing(),
            self.spec_with_eop_disable(value).current_sensing_valid() == self.current_sensing_valid(),
            self.spec_with_eop_disable(value).spec_mtt_enable() == self.spec_mtt_enable(),
            self.spec_with_eop_disable(value).spec_hs_disable() == self.spec_hs_disable(),
            self.spec_with_eop_disable(value).spec_self_bus_power() == self.spec_self_bus_power(),
    {
        lemma_field_get_set_same(self@, 3, 1, bool_bit(value));
        lemma_field_get_set_other(self@, 3, 1, bool_bit(value), 0, 1);
        lemma_field_get_set_other(self@, 3, 1, bool_bit(value), 1, 2);
        lemma_field_get_set_other(self@, 3, 1, bool_bit(value), 4, 1);
        lemma_field_get_set_other(self@, 3, 1, bool_bit(value), 5, 1);
        lemma_field_get_set_other(self@, 3, 1, bool_bit(value), 7, 1);
    }

    /// Reading `mtt_enable` after setting it gives the value set; every other field
    /// keeps its value.
    pub proof fn lemma_with_mtt_enable(self, value: bool)
        ensures
            self.spec_with_mtt_enable(value).spec_mtt_enable() == value,
            self.spec_with_mtt_enable(value).spec_port_power() == self.spec_port_power(),
            self.spec_with_mtt_enable(value).spec_current_sensing() == self.spec_current_sensing(),
            self.spec_with_mtt_enable(value).current_sensing_valid() == self.current_sensing_valid(),
            self.spec_with_mtt_enable(value).spec_eop_disable() == self.spec_eop_disable(),
            self.spec_with_mtt_enable(value).spec_hs_disable() == self.spec_hs_disable(),
            self.spec_with_mtt_enable(value).spec_self_bus_power() == self.spec_self_bus_power(),
    {
        lemma_field_get_set_same(self@, 4, 1, bool_bit(value));
        lemma_field_get_set_other(self@, 4, 1, bool_bit(value), 0, 1);
        lemma_field_get_set_other(self@, 4, 1, bool_bit(value), 1, 2);
        lemma_field_get_set_other(self@, 4, 1, bool_bit(value), 3, 1);
        lemma_field_get_set_other(self@, 4, 1, bool_bit(value), 5, 1);
        lemma_field_get_set_other(self@, 4, 1, bool_bit(value), 7, 1);
    }

    /// Reading `hs_disable` after setting it gives the value set; every other field
    /// keeps its value.
    pub proof fn lemma_with_hs_disable(self, value: bool)
        ensures
            self.spec_with_hs_disable(value).spec_hs_disable() == value,
            self.spec_with_hs_disable(value).spec_port_power() == self.spec_port_power(),
            self.spec_with_hs_disable(value).spec_current_sensing() == self.spec_current_sensing(),
            self.spec_with_hs_disable(value).current_sensing_valid() == self.current_sensing_valid(),
            self.spec_with_hs_disable(value).spec_eop_disable() == self.spec_eop_disable(),
            self.spec_with_hs_disable(value).spec_mtt_enable() == self.spec_mtt_enable(),
            self.spec_with_hs_disable(value).spec_self_bus_power() == self.spec_self_bus_power(),
    {
        lemma_field_get_set_same(self@, 5, 1, bool_bit(value));
        lemma_field_get_set_other(self@, 5, 1, bool_bit(value), 0, 1);
        lemma_field_get_set_other(self@, 5, 1, bool_bit(value), 1, 2);
        lemma_field_get_set_other(self@, 5, 1, bool_bit(value), 3, 1);
        lemma_field_get_set_other(self@, 5, 1, bool_bit(value), 4, 1);
        lemma_field_get_set_other(self@, 5, 1, bool_bit(value), 7, 1);
    }

    /// Reading `self_bus_power` after setting it gives the value set; every other field
    /// keeps its value.
    pub proof fn lemma_with_self_bus_power(self, value: bool)
        ensures
            self.spec_with_self_bus_power(value).spec_self_bus_power() == value,
            self.spec_with_self_bus_power(value).spec_port_power() == self.spec_port_power(),
            self.spec_with_self_bus_power(value).spec_current_sensing() == self.spec_current_sensing(),
            self.spec_with_self_bus_power(value).current_sensing_valid() == self.current_sensing_valid(),
            self.spec_with_self_bus_power(value).spec_eop_disable() == self.spec_eop_disable(),
            self.spec_with_self_bus_power(value).spec_mtt_enable() == self.spec_mtt_enable(),
            self.spec_with_self_bus_power(value).spec_hs_disable() == self.spec_hs_disable(),
    {
        lemma_field_get_set_same(self@, 7, 1, bool_bit(value));
        lemma_field_get_set_other(self@, 7, 1, bool_bit(value), 0, 1);
        lemma_field_get_set_other(self@, 7, 1, bool_bit(value), 1, 2);
        lemma_field_get_set_other(self@, 7, 1, bool_bit(value), 3, 1);
        lemma_field_get_set_other(self@, 7, 1, bool_bit(value), 4, 1);
        lemma_field_get_set_other(self@, 7, 1, bool_bit(value), 5, 1);
    }

    /// The fields sit at their datasheet bits: each reads the bits that its
    /// mask selects in the register byte.
    pub proof fn lemma_layout(self)
        ensures
            self.spec_port_power() == PowerSwitching::spec_from_bits(self@ & 0x01).unwrap(),
            self.spec_current_sensing() == CurrentSensing::spec_from_bits((self@ & 0x06) / 2).unwrap(),
            self.spec_eop_disable() == (self@ & 0x08 != 0),
            self.spec_mtt_enable() == (self@ & 0x10 != 0),
            self.spec_hs_disable() == (self@ & 0x20 != 0),
            self.spec_self_bus_power() == (self@ & 0x80 != 0),
    {
        let b = self@;
        assert({
            &&& field_get(b, 0, 1) == (b & 0x01)
            &&& field_get(b, 1, 2) == (b & 0x06) / 2
            &&& ((field_get(b, 3, 1) == 1) == (b & 0x08 != 0))
            &&& ((field_get(b, 4, 1) == 1) == (b & 0x10 != 0))
            &&& ((field_get(b, 5, 1) == 1) == (b & 0x20 != 0))
            &&& ((field_get(b, 7, 1) == 1) == (b & 0x80 != 0))
        }) by (bit_vector);
    }

}

/// Configuration data byte 2 (register 0x07).
#[derive(Debug, Clone, Copy)]
pub struct ConfigByte2 {
    byte: u8,
}

impl View for ConfigByte2 {
    type V = u8;

    closed spec fn view(&self) -> u8 {
        self.byte
    }
}

impl ConfigByte2 {
    /// The register value whose byte is `byte`.
    pub closed spec fn from_view(byte: u8) -> ConfigByte2 {
        ConfigByte2 { byte }
    }

    /// The value built from a byte holds that byte.
    pub broadcast proof fn lemma_view_of_from_view(byte: u8)
        ensures
            #[trigger] ConfigByte2::from_view(byte)@ == byte,
    {
    }

    /// A value is determined by its byte.
    pub broadcast proof fn lemma_from_view_of_view(reg: ConfigByte2)
        ensures
            ConfigByte2::from_view(#[trigger] reg@) == reg,
    {
    }

    /// The value with every bit cleared.
    pub fn new() -> (r: ConfigByte2)
        ensures
            r@ == 0,
    {
        ConfigByte2 { byte: 0 }
    }

    /// The value held by a raw register byte.
    pub fn from_bytes(bytes: [u8; 1]) -> (r: ConfigByte2)
        ensures
            r@ == bytes@[0],
    {
        ConfigByte2 { byte: bytes[0] }
    }

    /// The raw register byte.
    pub fn into_bytes(self) -> (r: [u8; 1])
        ensures
            r@ == seq![self@],
    {
        let r = [self.byte];
        assert(r@ =~= seq![self@]);
        r
    }

    /// The `compound` field (bits 3..4).
    pub open spec fn spec_compound(self) -> bool {
        field_get(self@, 3, 1) == 1
    }

    /// This value with the `compound` field set to `value`.
    pub open spec fn spec_with_compound(self, value: bool) -> ConfigByte2 {
        ConfigByte2::from_view(field_set(self@, 3, 1, bool_bit(value)))
    }

    /// Reads the `compound` field.
    pub fn compound(&self) -> (r: bool)
        ensures
            r == self.spec_compound(),
    {
        read_field(self.byte, 3, 1) == 1
    }

    /// Returns this value with the `compound` field set to `value`.
    pub fn with_compound(self, value: bool) -> (r: ConfigByte2)
        ensures
            r == self.spec_with_compound(value),
            r@ == field_set(self@, 3, 1, bool_bit(value)),
    {
        let bit: u8 = if value {
            1
        } else {
            0
        };
        ConfigByte2 { byte: write_field(self.byte, 3, 1, bit) }
    }

    /// The `oc_timer` field (bits 4..6).
    pub open spec fn spec_oc_timer(self) -> OcTimer {
        OcTimer::spec_from_bits(field_get(self@, 4, 2)).unwrap()
    }

    /// This value with the `oc_timer` field set to `value`.
    pub open spec fn spec_with_oc_timer(self, value: OcTimer) -> ConfigByte2 {
        ConfigByte2::from_view(field_set(self@, 4, 2, value.spec_bits()))
    }

    /// Reads the `oc_timer` field.
    pub fn oc_timer(&self) -> (r: OcTimer)
        ensures
            r == self.spec_oc_timer(),
    {
        OcTimer::from_bits(read_field(self.byte, 4, 2)).unwrap()
    }

    /// Returns this value with the `oc_timer` field set to `value`.
    pub fn with_oc_timer(self, value: OcTimer) -> (r: ConfigByte2)
        ensures
            r == self.spec_with_oc_timer(value),
            r@ == field_set(self@, 4, 2, value.spec_bits()),
    {
        ConfigByte2 { byte: write_field(self.byte, 4, 2, value.into_bits()) }
    }

    /// The `dynamic_power` field (bits 7..8).
    pub open spec fn spec_dynamic_power(self) -> bool {
        field_get(self@, 7, 1) == 1
    }

    /// This value with the `dynamic_power` field set to `value`.
    pub open spec fn spec_with_dynamic_power(self, value: bool) -> ConfigByte2 {
        ConfigByte2::from_view(field_set(self@, 7, 1, bool_bit(value)))
    }

    /// Reads the `dynamic_power` field.
    pub fn dynamic_power(&self) -> (r: bool)
        ensures
            r == self.spec_dynamic_power(),
    {
        read_field(self.byte, 7, 1) == 1
    }

    /// Returns this value with the `dynamic_power` field set to `value`.
    pub fn with_dynamic_power(self, value: bool) -> (r: ConfigByte2)
        ensures
            r == self.spec_with_dynamic_power(value),
            r@ == field_set(self@, 7, 1, bool_bit(value)),
    {
        let bit: u8 = if value {
            1
        } else {
            0
        };
        ConfigByte2 { byte: write_field(self.byte, 7, 1, bit) }
    }

    /// Reading `compound` after setting it gives the value set; every other field
    /// keeps its value.
    pub proof fn lemma_with_compound(self, value: bool)
        ensures
            self.spec_with_compound(value).spec_compound() == value,
            self.spec_with_compound(value).spec_oc_timer() == self.spec_oc_timer(),
            self.spec_with_compound(value).spec_dynamic_power() == self.spec_dynamic_power(),
    {
        lemma_field_get_set_same(self@, 3, 1, bool_bit(value));
        lemma_field_get_set_other(self@, 3, 1, bool_bit(value), 4, 2);
        lemma_field_get_set_other(self@, 3, 1, bool_bit(value), 7, 1);
    }

    /// Reading `oc_timer` after setting it gives the value set; every other field
    /// keeps its value.
    pub proof fn lemma_with_oc_timer(self, value: OcTimer)
        ensures
            self.spec_with_oc_timer(value).spec_oc_timer() == value,
            self.spec_with_oc_timer(value).spec_compound() == self.spec_compound(),
            self.spec_with_oc_timer(value).spec_dynamic_power() == self.spec_dynamic_power(),
    {
        value.lemma_bits_roundtrip();
        lemma_field_get_set_same(self@, 4, 2, value.spec_bits());
        lemma_field_get_set_other(self@, 4, 2, value.spec_bits(), 3, 1);
        lemma_field_get_set_other(self@, 4, 2, value.spec_bits(), 7, 1);
    }

    /// Reading `dynamic_power` after setting it gives the value set; every other field
    /// keeps its value.
    pub proof fn lemma_with_dynamic_power(self, value: bool)
        ensures
            self.spec_with_dynamic_power(value).spec_dynamic_power() == value,
            self.spec_with_dynamic_power(value).spec_compound() == self.spec_compound(),
            self.spec_with_dynamic_power(value).spec_oc_timer() == self.spec_oc_timer(),
    {
        lemma_field_get_set_same(self@, 7, 1, bool_bit(value));
        lemma_field_get_set_other(self@, 7, 1, bool_bit(value), 3, 1);
        lemma_field_get_set_other(self@, 7, 1, bool_bit(value), 4, 2);
    }

    /// The fields sit at their datasheet bits: each reads the bits that its
    /// mask selects in the register byte.
    pub proof fn lemma_layout(self)
        ensures
            self.spec_compound() == (self@ & 0x08 != 0),
            self.spec_oc_timer() == OcTimer::spec_from_bits((self@ & 0x30) / 16).unwrap(),
            self.spec_dynamic_power() == (self@ & 0x80 != 0),
    {
        let b = self@;
        assert({
            &&& ((field_get(b, 3, 1) == 1) == (b & 0x08 != 0))
            &&& field_get(b, 4, 2) == (b & 0x30) / 16
            &&& ((field_get(b, 7, 1) == 1) == (b & 0x80 != 0))
        }) by (bit_vector);
    }

}

/// Configuration data byte 3 (register 0x08).
#[derive(Debug, Clone, Copy)]
pub struct ConfigByte3 {
    byte: u8,
}

impl View for ConfigByte3 {
    type V = u8;

    closed spec fn view(&self) -> u8 {
        self.byte
    }
}

impl ConfigByte3 {
    /// The register value whose byte is `byte`.
    pub closed spec fn from_view(byte: u8) -> ConfigByte3 {
        ConfigByte3 { byte }
    }

    /// The value built from a byte holds that byte.
    pub broadcast proof fn lemma_view_of_from_view(byte: u8)
        ensures
            #[trigger] ConfigByte3::from_view(byte)@ == byte,
    {
    }

    /// A value is determined by its byte.
    pub broadcast proof fn lemma_from_view_of_view(reg: ConfigByte3)
        ensures
            ConfigByte3::from_view(#[trigger] reg@) == reg,
    {
    }

    /// The value with every bit cleared.
    pub fn new() -> (r: ConfigByte3)
        ensures
            r@ == 0,
    {
        ConfigByte3 { byte: 0 }
    }

    /// The value held by a raw register byte.
    pub fn from_bytes(bytes: [u8; 1]) -> (r: ConfigByte3)
        ensures
            r@ == bytes@[0],
    {
        ConfigByte3 { byte: bytes[0] }
    }

    /// The raw register byte.
    pub fn into_bytes(self) -> (r: [u8; 1])
        ensures
            r@ == seq![self@],
    {
        let r = [self.byte];
        assert(r@ =~= seq![self@]);
        r
    }

    /// The `string_enable` field (bits 0..1).
    pub open spec fn spec_string_enable(self) -> bool {
        field_get(self@, 0, 1) == 1
    }

    /// This value with the `string_enable` field set to `value`.
    pub open spec fn spec_with_string_enable(self, value: bool) -> ConfigByte3 {
        ConfigByte3::from_view(field_set(self@, 0, 1, bool_bit(value)))
    }

    /// Reads the `string_enable` field.
    pub fn string_enable(&self) -> (r: bool)
        ensures
            r == self.spec_string_enable(),
    {
        read_field(self.byte, 0, 1) == 1
    }

    /// Returns this value with the `string_enable` field set to `value`.
    pub fn with_string_enable(self, value: bool) -> (r: ConfigByte3)
        ensures
            r == self.spec_with_string_enable(value),
            r@ == field_set(self@, 0, 1, bool_bit(value)),
    {
        let bit: u8 = if value {
            1
        } else {
            0
        };
        ConfigByte3 { byte: write_field(self.byte, 0, 1, bit) }
    }

    /// The `port_map_enable` field (bits 3..4).
    pub open spec fn spec_port_map_enable(self) -> bool {
        field_get(self@, 3, 1) == 1
    }

    /// This value with the `port_map_enable` field set to `value`.
    pub open spec fn spec_with_port_map_enable(self, value: bool) -> ConfigByte3 {
        ConfigByte3::from_view(field_set(self@, 3, 1, bool_bit(value)))
    }

    /// Reads the `port_map_enable` field.
    pub fn port_map_enable(&self) -> (r: bool)
        ensures
            r == self.spec_port_map_enable(),
    {
        read_field(self.byte, 3, 1) == 1
    }

    /// Returns this value with the `port_map_enable` field set to `value`.
    pub fn with_port_map_enable(self, value: bool) -> (r: ConfigByte3)
        ensures
            r == self.spec_with_port_map_enable(value),
            r@ == field_set(self@, 3, 1, bool_bit(value)),
    {
        let bit: u8 = if value {
            1
        } else {
            0
        };
        ConfigByte3 { byte: write_field(self.byte, 3, 1, bit) }
    }

    /// Reading `string_enable` after setting it gives the value set; every other field
    /// keeps its value.
    pub proof fn lemma_with_string_enable(self, value: bool)
        ensures
            self.spec_with_string_enable(value).spec_string_enable() == value,
            self.spec_with_string_enable(value).spec_port_map_enable() == self.spec_port_map_enable(),
    {
        lemma_field_get_set_same(self@, 0, 1, bool_bit(value));
        lemma_field_get_set_other(self@, 0, 1, bool_bit(value), 3, 1);
    }

    /// Reading `port_map_enable` after setting it gives the value set; every other field
    /// keeps its value.
    pub proof fn lemma_with_port_map_enable(self, value: bool)
        ensures
            self.spec_with_port_map_enable(value).spec_port_map_enable() == value,
            self.spec_with_port_map_enable(value).spec_string_enable() == self.spec_string_enable(),
    {
        lemma_field_get_set_same(self@, 3, 1, bool_bit(value));
        lemma_field_get_set_other(self@, 3, 1, bool_bit(value), 0, 1);
    }

    /// The fields sit at their datasheet bits: each reads the bits that its
    /// mask selects in the register byte.
    pub proof fn lemma_layout(self)
        ensures
            self.spec_string_enable() == (self@ & 0x01 != 0),
            self.spec_port_map_enable() == (self@ & 0x08 != 0),
    {
        let b = self@;
        assert({
            &&& ((field_get(b, 0, 1) == 1) == (b & 0x01 != 0))
            &&& ((field_get(b, 3, 1) == 1) == (b & 0x08 != 0))
        }) by (bit_vector);
    }

}

/// One bit per port: bit 0 the upstream port, bits 1 to 4 the downstream ports.
#[derive(Debug, Clone, Copy)]
pub struct PortBitfield {
    byte: u8,
}

impl View for PortBitfield {
    type V = u8;

    closed spec fn view(&self) -> u8 {
        self.byte
    }
}

impl PortBitfield {
    /// The register value whose byte is `byte`.
    pub closed spec fn from_view(byte: u8) -> PortBitfield {
        PortBitfield { byte }
    }

    /// The value built from a byte holds that byte.
    pub broadcast proof fn lemma_view_of_from_view(byte: u8)
        ensures
            #[trigger] PortBitfield::from_view(byte)@ == byte,
    {
    }

    /// A value is determined by its byte.
    pub broadcast proof fn lemma_from_view_of_view(reg: PortBitfield)
        ensures
            PortBitfield::from_view(#[trigger] reg@) == reg,
    {
    }

    /// The value with every bit cleared.
    pub fn new() -> (r: PortBitfield)
        ensures
            r@ == 0,
    {
        PortBitfield { byte: 0 }
    }

    /// The value held by a raw register byte.
    pub fn from_bytes(bytes: [u8; 1]) -> (r: PortBitfield)
        ensures
            r@ == bytes@[0],
    {
        PortBitfield { byte: bytes[0] }
    }

    /// The raw register byte.
    pub fn into_bytes(self) -> (r: [u8; 1])
        ensures
            r@ == seq![self@],
    {
        let r = [self.byte];
        assert(r@ =~= seq![self@]);
        r
    }

    /// The `upstream` field (bits 0..1).
    pub open spec fn spec_upstream(self) -> bool {
        field_get(self@, 0, 1) == 1
    }

    /// This value with the `upstream` field set to `value`.
    pub open spec fn spec_with_upstream(self, value: bool) -> PortBitfield {
        PortBitfield::from_view(field_set(self@, 0, 1, bool_bit(value)))
    }

    /// Reads the `upstream` field.
    pub fn upstream(&self) -> (r: bool)
        ensures
            r == self.spec_upstream(),
    {
        read_field(self.byte, 0, 1) == 1
    }

    /// Returns this value with the `upstream` field set to `value`.
    pub fn with_upstream(self, value: bool) -> (r: PortBitfield)
        ensures
            r == self.spec_with_upstream(value),
            r@ == field_set(self@, 0, 1, bool_bit(value)),
    {
        let bit: u8 = if value {
            1
        } else {
            0
        };
        PortBitfield { byte: write_field(self.byte, 0, 1, bit) }
    }

    /// The `port1` field (bits 1..2).
    pub open spec fn spec_port1(self) -> bool {
        field_get(self@, 1, 1) == 1
    }

    /// This value with the `port1` field set to `value`.
    pub open spec fn spec_with_port1(self, value: bool) -> PortBitfield {
        PortBitfield::from_view(field_set(self@, 1, 1, bool_bit(value)))
    }

    /// Reads the `port1` field.
    pub fn port1(&self) -> (r: bool)
        ensures
            r == self.spec_port1(),
    {
        read_field(self.byte, 1, 1) == 1
    }

    /// Returns this value with the `port1` field set to `value`.
    pub fn with_port1(self, value: bool) -> (r: PortBitfield)
        ensures
            r == self.spec_with_port1(value),
            r@ == field_set(self@, 1, 1, bool_bit(value)),
    {
        let bit: u8 = if value {
            1
        } else {
            0
        };
        PortBitfield { byte: write_field(self.byte, 1, 1, bit) }
    }

    /// The `port2` field (bits 2..3).
    pub open spec fn spec_port2(self) -> bool {
        field_get(self@, 2, 1) == 1
    }

    /// This value with the `port2` field set to `value`.
    pub open spec fn spec_with_port2(self, value: bool) -> PortBitfield {
        PortBitfield::from_view(field_set(self@, 2, 1, bool_bit(value)))
    }

    /// Reads the `port2` field.
    pub fn port2(&self) -> (r: bool)
        ensures
            r == self.spec_port2(),
    {
        read_field(self.byte, 2, 1) == 1
    }

    /// Returns this value with the `port2` field set to `value`.
    pub fn with_port2(self, value: bool) -> (r: PortBitfield)
        ensures
            r == self.spec_with_port2(value),
            r@ == field_set(self@, 2, 1, bool_bit(value)),
    {
        let bit: u8 = if value {
            1
        } else {
            0
        };
        PortBitfield { byte: write_field(self.byte, 2, 1, bit) }
    }

    /// The `port3` field (bits 3..4).
    pub open spec fn spec_port3(self) -> bool {
        field_get(self@, 3, 1) == 1
    }

    /// This value with the `port3` field set to `value`.
    pub open spec fn spec_with_port3(self, value: bool) -> PortBitfield {
        PortBitfield::from_view(field_set(self@, 3, 1, bool_bit(value)))
    }

    /// Reads the `port3` field.
    pub fn port3(&self) -> (r: bool)
        ensures
            r == self.spec_port3(),
    {
        read_field(self.byte, 3, 1) == 1
    }

    /// Returns this value with the `port3` field set to `value`.
    pub fn with_port3(self, value: bool) -> (r: PortBitfield)
        ensures
            r == self.spec_with_port3(value),
            r@ == field_set(self@, 3, 1, bool_bit(value)),
    {
        let bit: u8 = if value {
            1
        } else {
            0
        };
        PortBitfield { byte: write_field(self.byte, 3, 1, bit) }
    }

    /// The `port4` field (bits 4..5).
    pub open spec fn spec_port4(self) -> bool {
        field_get(self@, 4, 1) == 1
    }

    /// This value with the `port4` field set to `value`.
    pub open spec fn spec_with_port4(self, value: bool) -> PortBitfield {
        PortBitfield::from_view(field_set(self@, 4, 1, bool_bit(value)))
    }

    /// Reads the `port4` field.
    pub fn port4(&self) -> (r: bool)
        ensures
            r == self.spec_port4(),
    {
        read_field(self.byte, 4, 1) == 1
    }

    /// Returns this value with the `port4` field set to `value`.
    pub fn with_port4(self, value: bool) -> (r: PortBitfield)
        ensures
            r == self.spec_with_port4(value),
            r@ == field_set(self@, 4, 1, bool_bit(value)),
    {
        let bit: u8 = if value {
            1
        } else {
            0
        };
        PortBitfield { byte: write_field(self.byte, 4, 1, bit) }
    }

    /// Reading `upstream` after setting it gives the value set; every other field
    /// keeps its value.
    pub proof fn lemma_with_upstream(self, value: bool)
        ensures
            self.spec_with_upstream(value).spec_upstream() == value,
            self.spec_with_upstream(value).spec_port1() == self.spec_port1(),
            self.spec_with_upstream(value).spec_port2() == self.spec_port2(),
            self.spec_with_upstream(value).spec_port3() == self.spec_port3(),
            self.spec_with_upstream(value).spec_port4() == self.spec_port4(),
    {
        lemma_field_get_set_same(self@, 0, 1, bool_bit(value));
        lemma_field_get_set_other(self@, 0, 1, bool_bit(value), 1, 1);
        lemma_field_get_set_other(self@, 0, 1, bool_bit(value), 2, 1);
        lemma_field_get_set_other(self@, 0, 1, bool_bit(value), 3, 1);
        lemma_field_get_set_other(self@, 0, 1, bool_bit(value), 4, 1);
    }

    /// Reading `port1` after setting it gives the value set; every other field
    /// keeps its value.
    pub proof fn lemma_with_port1(self, value: bool)
        ensures
            self.spec_with_port1(value).spec_port1() == value,
            self.spec_with_port1(value).spec_upstream() == self.spec_upstream(),
            self.spec_with_port1(value).spec_port2() == self.spec_port2(),
            self.spec_with_port1(value).spec_port3() == self.spec_port3(),
            self.spec_with_port1(value).spec_port4() == self.spec_port4(),
    {
        lemma_field_get_set_same(self@, 1, 1, bool_bit(value));
        lemma_field_get_set_other(self@, 1, 1, bool_bit(value), 0, 1);
        lemma_field_get_set_other(self@, 1, 1, bool_bit(value), 2, 1);
        lemma_field_get_set_other(self@, 1, 1, bool_bit(value), 3, 1);
        lemma_field_get_set_other(self@, 1, 1, bool_bit(value), 4, 1);
    }

    /// Reading `port2` after setting it gives the value set; every other field
    /// keeps its value.
    pub proof fn lemma_with_port2(self, value: bool)
        ensures
            self.spec_with_port2(value).spec_port2() == value,
            self.spec_with_port2(value).spec_upstream() == self.spec_upstream(),
            self.spec_with_port2(value).spec_port1() == self.spec_port1(),
            self.spec_with_port2(value).spec_port3() == self.spec_port3(),
            self.spec_with_port2(value).spec_port4() == self.spec_port4(),
    {
        lemma_field_get_set_same(self@, 2, 1, bool_bit(value));
        lemma_field_get_set_other(self@, 2, 1, bool_bit(value), 0, 1);
        lemma_field_get_set_other(self@, 2, 1, bool_bit(value), 1, 1);
        lemma_field_get_set_other(self@, 2, 1, bool_bit(value), 3, 1);
        lemma_field_get_set_other(self@, 2, 1, bool_bit(value), 4, 1);
    }

    /// Reading `port3` after setting it gives the value set; every other field
    /// keeps its value.
    pub proof fn lemma_with_port3(self, value: bool)
        ensures
            self.spec_with_port3(value).spec_port3() == value,
            self.spec_with_port3(value).spec_upstream() == self.spec_upstream(),
            self.spec_with_port3(value).spec_port1() == self.spec_port1(),
            self.spec_with_port3(value).spec_port2() == self.spec_port2(),
            self.spec_with_port3(value).spec_port4() == self.spec_port4(),
    {
        lemma_field_get_set_same(self@, 3, 1, bool_bit(value));
        lemma_field_get_set_other(self@, 3, 1, bool_bit(value), 0, 1);
        lemma_field_get_set_other(self@, 3, 1, bool_bit(value), 1, 1);
        lemma_field_get_set_other(self@, 3, 1, bool_bit(value), 2, 1);
        lemma_field_get_set_other(self@, 3, 1, bool_bit(value), 4, 1);
    }

    /// Reading `port4` after setting it gives the value set; every other field
    /// keeps its value.
    pub proof fn lemma_with_port4(self, value: bool)
        ensures
            self.spec_with_port4(value).spec_port4() == value,
            self.spec_with_port4(value).spec_upstream() == self.spec_upstream(),
            self.spec_with_port4(value).spec_port1() == self.spec_port1(),
            self.spec_with_port4(value).spec_port2() == self.spec_port2(),
            self.spec_with_port4(value).spec_port3() == self.spec_port3(),
    {
        lemma_field_get_set_same(self@, 4, 1, bool_bit(value));
        lemma_field_get_set_other(self@, 4, 1, bool_bit(value), 0, 1);
        lemma_field_get_set_other(self@, 4, 1, bool_bit(value), 1, 1);
        lemma_field_get_set_other(self@, 4, 1, bool_bit(value), 2, 1);
        lemma_field_get_set_other(self@, 4, 1, bool_bit(value), 3, 1);
    }

    /// The fields sit at their datasheet bits: each reads the bits that its
    /// mask selects in the register byte.
    pub proof fn lemma_layout(self)
        ensures
            self.spec_upstream() == (self@ & 0x01 != 0),
            self.spec_port1() == (self@ & 0x02 != 0),
            self.spec_port2() == (self@ & 0x04 != 0),
            self.spec_port3() == (self@ & 0x08 != 0),
            self.spec_port4() == (self@ & 0x10 != 0),
    {
        let b = self@;
        assert({
            &&& ((field_get(b, 0, 1) == 1) == (b & 0x01 != 0))
            &&& ((field_get(b, 1, 1) == 1) == (b & 0x02 != 0))
            &&& ((field_get(b, 2, 1) == 1) == (b & 0x04 != 0))
            &&& ((field_get(b, 3, 1) == 1) == (b & 0x08 != 0))
            &&& ((field_get(b, 4, 1) == 1) == (b & 0x10 != 0))
        }) by (bit_vector);
    }

}

/// Upstream USB signal boost (register 0xF6).
#[derive(Debug, Clone, Copy)]
pub struct BoostUpstream {
    byte: u8,
}

impl View for BoostUpstream {
    type V = u8;

    closed spec fn view(&self) -> u8 {
        self.byte
    }
}

impl BoostUpstream {
    /// The register value whose byte is `byte`.
    pub closed spec fn from_view(byte: u8) -> BoostUpstream {
        BoostUpstream { byte }
    }

    /// The value built from a byte holds that byte.
    pub broadcast proof fn lemma_view_of_from_view(byte: u8)
        ensures
            #[trigger] BoostUpstream::from_view(byte)@ == byte,
    {
    }

    /// A value is determined by its byte.
    pub broadcast proof fn lemma_from_view_of_view(reg: BoostUpstream)
        ensures
            BoostUpstream::from_view(#[trigger] reg@) == reg,
    {
    }

    /// The value with every bit cleared.
    pub fn new() -> (r: BoostUpstream)
        ensures
            r@ == 0,
    {
        BoostUpstream { byte: 0 }
    }

    /// The value held by a raw register byte.
    pub fn from_bytes(bytes: [u8; 1]) -> (r: BoostUpstream)
        ensures
            r@ == bytes@[0],
    {
        BoostUpstream { byte: bytes[0] }
    }

    /// The raw register byte.
    pub fn into_bytes(self) -> (r: [u8; 1])
        ensures
            r@ == seq![self@],
    {
        let r = [self.byte];
        assert(r@ =~= seq![self@]);
        r
    }

    /// The `level` field (bits 0..2).
    pub open spec fn spec_level(self) -> BoostLevel {
        BoostLevel::spec_from_bits(field_get(self@, 0, 2)).unwrap()
    }

    /// This value with the `level` field set to `value`.
    pub open spec fn spec_with_level(self, value: BoostLevel) -> BoostUpstream {
        BoostUpstream::from_view(field_set(self@, 0, 2, value.spec_bits()))
    }

    /// Reads the `level` field.
    pub fn level(&self) -> (r: BoostLevel)
        ensures
            r == self.spec_level(),
    {
        BoostLevel::from_bits(read_field(self.byte, 0, 2)).unwrap()
    }

    /// Returns this value with the `level` field set to `value`.
    pub fn with_level(self, value: BoostLevel) -> (r: BoostUpstream)
        ensures
            r == self.spec_with_level(value),
            r@ == field_set(self@, 0, 2, value.spec_bits()),
    {
        BoostUpstream { byte: write_field(self.byte, 0, 2, value.into_bits()) }
    }

    /// Reading `level` after setting it gives the value set; every other field
    /// keeps its value.
    pub proof fn lemma_with_level(self, value: BoostLevel)
        ensures
            self.spec_with_level(value).spec_level() == value,
    {
        value.lemma_bits_roundtrip();
        lemma_field_get_set_same(self@, 0, 2, value.spec_bits());
    }

    /// The fields sit at their datasheet bits: each reads the bits that its
    /// mask selects in the register byte.
    pub proof fn lemma_layout(self)
        ensures
            self.spec_level() == BoostLevel::spec_from_bits(self@ & 0x03).unwrap(),
    {
        let b = self@;
        assert({
            &&& field_get(b, 0, 2) == (b & 0x03)
        }) by (bit_vector);
    }

}

/// Downstream USB signal boost, two bits per port (register 0xF8).
#[derive(Debug, Clone, Copy)]
pub struct BoostDownstream {
    byte: u8,
}

impl View for BoostDownstream {
    type V = u8;

    closed spec fn view(&self) -> u8 {
        self.byte
    }
}

impl BoostDownstream {
    /// The register value whose byte is `byte`.
    pub closed spec fn from_view(byte: u8) -> BoostDownstream {
        BoostDownstream { byte }
    }

    /// The value built from a byte holds that byte.
    pub broadcast proof fn lemma_view_of_from_view(byte: u8)
        ensures
            #[trigger] BoostDownstream::from_view(byte)@ == byte,
    {
    }

    /// A value is determined by its byte.
    pub broadcast proof fn lemma_from_view_of_view(reg: BoostDownstream)
        ensures
            BoostDownstream::from_view(#[trigger] reg@) == reg,
    {
    }

    /// The value with every bit cleared.
    pub fn new() -> (r: BoostDownstream)
        ensures
            r@ == 0,
    {
        BoostDownstream { byte: 0 }
    }

    /// The value held by a raw register byte.
    pub fn from_bytes(bytes: [u8; 1]) -> (r: BoostDownstream)
        ensures
            r@ == bytes@[0],
    {
        BoostDownstream { byte: bytes[0] }
    }

    /// The raw register byte.
    pub fn into_bytes(self) -> (r: [u8; 1])
        ensures
            r@ == seq![self@],
    {
        let r = [self.byte];
        assert(r@ =~= seq![self@]);
        r
    }

    /// The `port1` field (bits 0..2).
    pub open spec fn spec_port1(self) -> BoostLevel {
        BoostLevel::spec_from_bits(field_get(self@, 0, 2)).unwrap()
    }

    /// This value with the `port1` field set to `value`.
    pub open spec fn spec_with_port1(self, value: BoostLevel) -> BoostDownstream {
        BoostDownstream::from_view(field_set(self@, 0, 2, value.spec_bits()))
    }

    /// Reads the `port1` field.
    pub fn port1(&self) -> (r: BoostLevel)
        ensures
            r == self.spec_port1(),
    {
        BoostLevel::from_bits(read_field(self.byte, 0, 2)).unwrap()
    }

    /// Returns this value with the `port1` field set to `value`.
    pub fn with_port1(self, value: BoostLevel) -> (r: BoostDownstream)
        ensures
            r == self.spec_with_port1(value),
            r@ == field_set(self@, 0, 2, value.spec_bits()),
    {
        BoostDownstream { byte: write_field(self.byte, 0, 2, value.into_bits()) }
    }

    /// The `port2` field (bits 2..4).
    pub open spec fn spec_port2(self) -> BoostLevel {
        BoostLevel::spec_from_bits(field_get(self@, 2, 2)).unwrap()
    }

    /// This value with the `port2` field set to `value`.
    pub open spec fn spec_with_port2(self, value: BoostLevel) -> BoostDownstream {
        BoostDownstream::from_view(field_set(self@, 2, 2, value.spec_bits()))
    }

    /// Reads the `port2` field.
    pub fn port2(&self) -> (r: BoostLevel)
        ensures
            r == self.spec_port2(),
    {
        BoostLevel::from_bits(read_field(self.byte, 2, 2)).unwrap()
    }

    /// Returns this value with the `port2` field set to `value`.
    pub fn with_port2(self, value: BoostLevel) -> (r: BoostDownstream)
        ensures
            r == self.spec_with_port2(value),
            r@ == field_set(self@, 2, 2, value.spec_bits()),
    {
        BoostDownstream { byte: write_field(self.byte, 2, 2, value.into_bits()) }
    }

    /// The `port3` field (bits 4..6).
    pub open spec fn spec_port3(self) -> BoostLevel {
        BoostLevel::spec_from_bits(field_get(self@, 4, 2)).unwrap()
    }

    /// This value with the `port3` field set to `value`.
    pub open spec fn spec_with_port3(self, value: BoostLevel) -> BoostDownstream {
        BoostDownstream::from_view(field_set(self@, 4, 2, value.spec_bits()))
    }

    /// Reads the `port3` field.
    pub fn port3(&self) -> (r: BoostLevel)
        ensures
            r == self.spec_port3(),
    {
        BoostLevel::from_bits(read_field(self.byte, 4, 2)).unwrap()
    }

    /// Returns this value with the `port3` field set to `value`.
    pub fn with_port3(self, value: BoostLevel) -> (r: BoostDownstream)
        ensures
            r == self.spec_with_port3(value),
            r@ == field_set(self@, 4, 2, value.spec_bits()),
    {
        BoostDownstream { byte: write_field(self.byte, 4, 2, value.into_bits()) }
    }

    /// The `port4` field (bits 6..8).
    pub open spec fn spec_port4(self) -> BoostLevel {
        BoostLevel::spec_from_bits(field_get(self@, 6, 2)).unwrap()
    }

    /// This value with the `port4` field set to `value`.
    pub open spec fn spec_with_port4(self, value: BoostLevel) -> BoostDownstream {
        BoostDownstream::from_view(field_set(self@, 6, 2, value.spec_bits()))
    }

    /// Reads the `port4` field.
    pub fn port4(&self) -> (r: BoostLevel)
        ensures
            r == self.spec_port4(),
    {
        BoostLevel::from_bits(read_field(self.byte, 6, 2)).unwrap()
    }

    /// Returns this value with the `port4` field set to `value`.
    pub fn with_port4(self, value: BoostLevel) -> (r: BoostDownstream)
        ensures
            r == self.spec_with_port4(value),
            r@ == field_set(self@, 6, 2, value.spec_bits()),
    {
        BoostDownstream { byte: write_field(self.byte, 6, 2, value.into_bits()) }
    }

    /// Reading `port1` after setting it gives the value set; every other field
    /// keeps its value.
    pub proof fn lemma_with_port1(self, value: BoostLevel)
        ensures
            self.spec_with_port1(value).spec_port1() == value,
            self.spec_with_port1(value).spec_port2() == self.spec_port2(),
            self.spec_with_port1(value).spec_port3() == self.spec_port3(),
            self.spec_with_port1(value).spec_port4() == self.spec_port4(),
    {
        value.lemma_bits_roundtrip();
        lemma_field_get_set_same(self@, 0, 2, value.spec_bits());
        lemma_field_get_set_other(self@, 0, 2, value.spec_bits(), 2, 2);
        lemma_field_get_set_other(self@, 0, 2, value.spec_bits(), 4, 2);
        lemma_field_get_set_other(self@, 0, 2, value.spec_bits(), 6, 2);
    }

    /// Reading `port2` after setting it gives the value set; every other field
    /// keeps its value.
    pub proof fn lemma_with_port2(self, value: BoostLevel)
        ensures
            self.spec_with_port2(value).spec_port2() == value,
            self.spec_with_port2(value).spec_port1() == self.spec_port1(),
            self.spec_with_port2(value).spec_port3() == self.spec_port3(),
            self.spec_with_port2(value).spec_port4() == self.spec_port4(),
    {
        value.lemma_bits_roundtrip();
        lemma_field_get_set_same(self@, 2, 2, value.spec_bits());
        lemma_field_get_set_other(self@, 2, 2, value.spec_bits(), 0, 2);
        lemma_field_get_set_other(self@, 2, 2, value.spec_bits(), 4, 2);
        lemma_field_get_set_other(self@, 2, 2, value.spec_bits(), 6, 2);
    }

    /// Reading `port3` after setting it gives the value set; every other field
    /// keeps its value.
    pub proof fn lemma_with_port3(self, value: BoostLevel)
        ensures
            self.spec_with_port3(value).spec_port3() == value,
            self.spec_with_port3(value).spec_port1() == self.spec_port1(),
            self.spec_with_port3(value).spec_port2() == self.spec_port2(),
            self.spec_with_port3(value).spec_port4() == self.spec_port4(),
    {
        value.lemma_bits_roundtrip();
        lemma_field_get_set_same(self@, 4, 2, value.spec_bits());
        lemma_field_get_set_other(self@, 4, 2, value.spec_bits(), 0, 2);
        lemma_field_get_set_other(self@, 4, 2, value.spec_bits(), 2, 2);
        lemma_field_get_set_other(self@, 4, 2, value.spec_bits(), 6, 2);
    }

    /// Reading `port4` after setting it gives the value set; every other field
    /// keeps its value.
    pub proof fn lemma_with_port4(self, value: BoostLevel)
        ensures
            self.spec_with_port4(value).spec_port4() == value,
            self.spec_with_port4(value).spec_port1() == self.spec_port1(),
            self.spec_with_port4(value).spec_port2() == self.spec_port2(),
            self.spec_with_port4(value).spec_port3() == self.spec_port3(),
    {
        value.lemma_bits_roundtrip();
        lemma_field_get_set_same(self@, 6, 2, value.spec_bits());
        lemma_field_get_set_other(self@, 6, 2, value.spec_bits(), 0, 2);
        lemma_field_get_set_other(self@, 6, 2, value.spec_bits(), 2, 2);
        lemma_field_get_set_other(self@, 6, 2, value.spec_bits(), 4, 2);
    }

    /// The fields sit at their datasheet bits: each reads the bits that its
    /// mask selects in the register byte.
    pub proof fn lemma_layout(self)
        ensures
            self.spec_port1() == BoostLevel::spec_from_bits(self@ & 0x03).unwrap(),
            self.spec_port2() == BoostLevel::spec_from_bits((self@ & 0x0C) / 4).unwrap(),
            self.spec_port3() == BoostLevel::spec_from_bits((self@ & 0x30) / 16).unwrap(),
            self.spec_port4() == BoostLevel::spec_from_bits((self@ & 0xC0) / 64).unwrap(),
    {
        let b = self@;
        assert({
            &&& field_get(b, 0, 2) == (b & 0x03)
            &&& field_get(b, 2, 2) == (b & 0x0C) / 4
            &&& field_get(b, 4, 2) == (b & 0x30) / 16
            &&& field_get(b, 6, 2) == (b & 0xC0) / 64
        }) by (bit_vector);
    }

}

/// Logical port numbers of physical ports 1 and 2 (register 0xFB).
#[derive(Debug, Clone, Copy)]
pub struct PortMap12 {
    byte: u8,
}

impl View for PortMap12 {
    type V = u8;

    closed spec fn view(&self) -> u8 {
        self.byte
    }
}

impl PortMap12 {
    /// The register value whose byte is `byte`.
    pub closed spec fn from_view(byte: u8) -> PortMap12 {
        PortMap12 { byte }
    }

    /// The value built from a byte holds that byte.
    pub broadcast proof fn lemma_view_of_from_view(byte: u8)
        ensures
            #[trigger] PortMap12::from_view(byte)@ == byte,
    {
    }

    /// A value is determined by its byte.
    pub broadcast proof fn lemma_from_view_of_view(reg: PortMap12)
        ensures
            PortMap12::from_view(#[trigger] reg@) == reg,
    {
    }

    /// The value with every bit cleared.
    pub fn new() -> (r: PortMap12)
        ensures
            r@ == 0,
    {
        PortMap12 { byte: 0 }
    }

    /// The value held by a raw register byte.
    pub fn from_bytes(bytes: [u8; 1]) -> (r: PortMap12)
        ensures
            r@ == bytes@[0],
    {
        PortMap12 { byte: bytes[0] }
    }

    /// The raw register byte.
    pub fn into_bytes(self) -> (r: [u8; 1])
        ensures
            r@ == seq![self@],
    {
        let r = [self.byte];
        assert(r@ =~= seq![self@]);
        r
    }

    /// The `port1` field (bits 0..4).
    pub open spec fn spec_port1(self) -> LogicalPort {
        LogicalPort::spec_from_bits(field_get(self@, 0, 4)).unwrap()
    }

    /// The `port1` field holds a pattern that stands for a value.
    pub open spec fn port1_valid(self) -> bool {
        LogicalPort::spec_from_bits(field_get(self@, 0, 4)) is Some
    }

    /// This value with the `port1` field set to `value`.
    pub open spec fn spec_with_port1(self, value: LogicalPort) -> PortMap12 {
        PortMap12::from_view(field_set(self@, 0, 4, value.spec_bits()))
    }

    /// Reads the `port1` field.
    pub fn port1(&self) -> (r: LogicalPort)
        requires
            self.port1_valid(),
        ensures
            r == self.spec_port1(),
    {
        LogicalPort::from_bits(read_field(self.byte, 0, 4)).unwrap()
    }

    /// Returns this value with the `port1` field set to `value`.
    pub fn with_port1(self, value: LogicalPort) -> (r: PortMap12)
        ensures
            r == self.spec_with_port1(value),
            r@ == field_set(self@, 0, 4, value.spec_bits()),
    {
        PortMap12 { byte: write_field(self.byte, 0, 4, value.into_bits()) }
    }

    /// The `port2` field (bits 4..8).
    pub open spec fn spec_port2(self) -> LogicalPort {
        LogicalPort::spec_from_bits(field_get(self@, 4, 4)).unwrap()
    }

    /// The `port2` field holds a pattern that stands for a value.
    pub open spec fn port2_valid(self) -> bool {
        LogicalPort::spec_from_bits(field_get(self@, 4, 4)) is Some
    }

    /// This value with the `port2` field set to `value`.
    pub open spec fn spec_with_port2(self, value: LogicalPort) -> PortMap12 {
        PortMap12::from_view(field_set(self@, 4, 4, value.spec_bits()))
    }

    /// Reads the `port2` field.
    pub fn port2(&self) -> (r: LogicalPort)
        requires
            self.port2_valid(),
        ensures
            r == self.spec_port2(),
    {
        LogicalPort::from_bits(read_field(self.byte, 4, 4)).unwrap()
    }

    /// Returns this value with the `port2` field set to `value`.
    pub fn with_port2(self, value: LogicalPort) -> (r: PortMap12)
        ensures
            r == self.spec_with_port2(value),
            r@ == field_set(self@, 4, 4, value.spec_bits()),
    {
        PortMap12 { byte: write_field(self.byte, 4, 4, value.into_bits()) }
    }

    /// Reading `port1` after setting it gives the value set; every other field
    /// keeps its value.
    pub proof fn lemma_with_port1(self, value: LogicalPort)
        ensures
            self.spec_with_port1(value).spec_port1() == value,
            self.spec_with_port1(value).port1_valid(),
            self.spec_with_port1(value).spec_port2() == self.spec_port2(),
            self.spec_with_port1(value).port2_valid() == self.port2_valid(),
    {
        value.lemma_bits_roundtrip();
        lemma_field_get_set_same(self@, 0, 4, value.spec_bits());
        lemma_field_get_set_other(self@, 0, 4, value.spec_bits(), 4, 4);
    }

    /// Reading `port2` after setting it gives the value set; every other field
    /// keeps its value.
    pub proof fn lemma_with_port2(self, value: LogicalPort)
        ensures
            self.spec_with_port2(value).spec_port2() == value,
            self.spec_with_port2(value).port2_valid(),
            self.spec_with_port2(value).spec_port1() == self.spec_port1(),
            self.spec_with_port2(value).port1_valid() == self.port1_valid(),
    {
        value.lemma_bits_roundtrip();
        lemma_field_get_set_same(self@, 4, 4, value.spec_bits());
        lemma_field_get_set_other(self@, 4, 4, value.spec_bits(), 0, 4);
    }

    /// The fields sit at their datasheet bits: each reads the bits that its
    /// mask selects in the register byte.
    pub proof fn lemma_layout(self)
        ensures
            self.spec_port1() == LogicalPort::spec_from_bits(self@ & 0x0F).unwrap(),
            self.spec_port2() == LogicalPort::spec_from_bits((self@ & 0xF0) / 16).unwrap(),
    {
        let b = self@;
        assert({
            &&& field_get(b, 0, 4) == (b & 0x0F)
            &&& field_get(b, 4, 4) == (b & 0xF0) / 16
        }) by (bit_vector);
    }

}

/// Logical port numbers of physical ports 3 and 4 (register 0xFC).
#[derive(Debug, Clone, Copy)]
pub struct PortMap34 {
    byte: u8,
}

impl View for PortMap34 {
    type V = u8;

    closed spec fn view(&self) -> u8 {
        self.byte
    }
}

impl PortMap34 {
    /// The register value whose byte is `byte`.
    pub closed spec fn from_view(byte: u8) -> PortMap34 {
        PortMap34 { byte }
    }

    /// The value built from a byte holds that byte.
    pub broadcast proof fn lemma_view_of_from_view(byte: u8)
        ensures
            #[trigger] PortMap34::from_view(byte)@ == byte,
    {
    }

    /// A value is determined by its byte.
    pub broadcast proof fn lemma_from_view_of_view(reg: PortMap34)
        ensures
            PortMap34::from_view(#[trigger] reg@) == reg,
    {
    }

    /// The value with every bit cleared.
    pub fn new() -> (r: PortMap34)
        ensures
            r@ == 0,
    {
        PortMap34 { byte: 0 }
    }

    /// The value held by a raw register byte.
    pub fn from_bytes(bytes: [u8; 1]) -> (r: PortMap34)
        ensures
            r@ == bytes@[0],
    {
        PortMap34 { byte: bytes[0] }
    }

    /// The raw register byte.
    pub fn into_bytes(self) -> (r: [u8; 1])
        ensures
            r@ == seq![self@],
    {
        let r = [self.byte];
        assert(r@ =~= seq![self@]);
        r
    }

    /// The `port3` field (bits 0..4).
    pub open spec fn spec_port3(self) -> LogicalPort {
        LogicalPort::spec_from_bits(field_get(self@, 0, 4)).unwrap()
    }

    /// The `port3` field holds a pattern that stands for a value.
    pub open spec fn port3_valid(self) -> bool {
        LogicalPort::spec_from_bits(field_get(self@, 0, 4)) is Some
    }

    /// This value with the `port3` field set to `value`.
    pub open spec fn spec_with_port3(self, value: LogicalPort) -> PortMap34 {
        PortMap34::from_view(field_set(self@, 0, 4, value.spec_bits()))
    }

    /// Reads the `port3` field.
    pub fn port3(&self) -> (r: LogicalPort)
        requires
            self.port3_valid(),
        ensures
            r == self.spec_port3(),
    {
        LogicalPort::from_bits(read_field(self.byte, 0, 4)).unwrap()
    }

    /// Returns this value with the `port3` field set to `value`.
    pub fn with_port3(self, value: LogicalPort) -> (r: PortMap34)
        ensures
            r == self.spec_with_port3(value),
            r@ == field_set(self@, 0, 4, value.spec_bits()),
    {
        PortMap34 { byte: write_field(self.byte, 0, 4, value.into_bits()) }
    }

    /// The `port4` field (bits 4..8).
    pub open spec fn spec_port4(self) -> LogicalPort {
        LogicalPort::spec_from_bits(field_get(self@, 4, 4)).unwrap()
    }

    /// The `port4` field holds a pattern that stands for a value.
    pub open spec fn port4_valid(self) -> bool {
        LogicalPort::spec_from_bits(field_get(self@, 4, 4)) is Some
    }

    /// This value with the `port4` field set to `value`.
    pub open spec fn spec_with_port4(self, value: LogicalPort) -> PortMap34 {
        PortMap34::from_view(field_set(self@, 4, 4, value.spec_bits()))
    }

    /// Reads the `port4` field.
    pub fn port4(&self) -> (r: LogicalPort)
        requires
            self.port4_valid(),
        ensures
            r == self.spec_port4(),
    {
        LogicalPort::from_bits(read_field(self.byte, 4, 4)).unwrap()
    }

    /// Returns this value with the `port4` field set to `value`.
    pub fn with_port4(self, value: LogicalPort) -> (r: PortMap34)
        ensures
            r == self.spec_with_port4(value),
            r@ == field_set(self@, 4, 4, value.spec_bits()),
    {
        PortMap34 { byte: write_field(self.byte, 4, 4, value.into_bits()) }
    }

    /// Reading `port3` after setting it gives the value set; every other field
    /// keeps its value.
    pub proof fn lemma_with_port3(self, value: LogicalPort)
        ensures
            self.spec_with_port3(value).spec_port3() == value,
            self.spec_with_port3(value).port3_valid(),
            self.spec_with_port3(value).spec_port4() == self.spec_port4(),
            self.spec_with_port3(value).port4_valid() == self.port4_valid(),
    {
        value.lemma_bits_roundtrip();
        lemma_field_get_set_same(self@, 0, 4, value.spec_bits());
        lemma_field_get_set_other(self@, 0, 4, value.spec_bits(), 4, 4);
    }

    /// Reading `port4` after setting it gives the value set; every other field
    /// keeps its value.
    pub proof fn lemma_with_port4(self, value: LogicalPort)
        ensures
            self.spec_with_port4(value).spec_port4() == value,
            self.spec_with_port4(value).port4_valid(),
            self.spec_with_port4(value).spec_port3() == self.spec_port3(),
            self.spec_with_port4(value).port3_valid() == self.port3_valid(),
    {
        value.lemma_bits_roundtrip();
        lemma_field_get_set_same(self@, 4, 4, value.spec_bits());
        lemma_field_get_set_other(self@, 4, 4, value.spec_bits(), 0, 4);
    }

    /// The fields sit at their datasheet bits: each reads the bits that its
    /// mask selects in the register byte.
    pub proof fn lemma_layout(self)
        ensures
            self.spec_port3() == LogicalPort::spec_from_bits(self@ & 0x0F).unwrap(),
            self.spec_port4() == LogicalPort::spec_from_bits((self@ & 0xF0) / 16).unwrap(),
    {
        let b = self@;
        assert({
            &&& field_get(b, 0, 4) == (b & 0x0F)
            &&& field_get(b, 4, 4) == (b & 0xF0) / 16
        }) by (bit_vector);
    }

}

/// Status and command register (0xFF).
#[derive(Debug, Clone, Copy)]
pub struct StatusCommand {
    byte: u8,
}

impl View for StatusCommand {
    type V = u8;

    closed spec fn view(&self) -> u8 {
        self.byte
    }
}

impl StatusCommand {
    /// The register value whose byte is `byte`.
    pub closed spec fn from_view(byte: u8) -> StatusCommand {
        StatusCommand { byte }
    }

    /// The value built from a byte holds that byte.
    pub broadcast proof fn lemma_view_of_from_view(byte: u8)
        ensures
            #[trigger] StatusCommand::from_view(byte)@ == byte,
    {
    }

    /// A value is determined by its byte.
    pub broadcast proof fn lemma_from_view_of_view(reg: StatusCommand)
        ensures
            StatusCommand::from_view(#[trigger] reg@) == reg,
    {
    }

    /// The value with every bit cleared.
    pub fn new() -> (r: StatusCommand)
        ensures
            r@ == 0,
    {
        StatusCommand { byte: 0 }
    }

    /// The value held by a raw register byte.
    pub fn from_bytes(bytes: [u8; 1]) -> (r: StatusCommand)
        ensures
            r@ == bytes@[0],
    {
        StatusCommand { byte: bytes[0] }
    }

    /// The raw register byte.
    pub fn into_bytes(self) -> (r: [u8; 1])
        ensures
            r@ == seq![self@],
    {
        let r = [self.byte];
        assert(r@ =~= seq![self@]);
        r
    }

    /// The `usb_attach` field (bits 0..1).
    pub open spec fn spec_usb_attach(self) -> bool {
        field_get(self@, 0, 1) == 1
    }

    /// This value with the `usb_attach` field set to `value`.
    pub open spec fn spec_with_usb_attach(self, value: bool) -> StatusCommand {
        StatusCommand::from_view(field_set(self@, 0, 1, bool_bit(value)))
    }

    /// Reads the `usb_attach` field.
    pub fn usb_attach(&self) -> (r: bool)
        ensures
            r == self.spec_usb_attach(),
    {
        read_field(self.byte, 0, 1) == 1
    }

    /// Returns this value with the `usb_attach` field set to `value`.
    pub fn with_usb_attach(self, value: bool) -> (r: StatusCommand)
        ensures
            r == self.spec_with_usb_attach(value),
            r@ == field_set(self@, 0, 1, bool_bit(value)),
    {
        let bit: u8 = if value {
            1
        } else {
            0
        };
        StatusCommand { byte: write_field(self.byte, 0, 1, bit) }
    }

    /// The `reset` field (bits 1..2).
    pub open spec fn spec_reset(self) -> bool {
        field_get(self@, 1, 1) == 1
    }

    /// This value with the `reset` field set to `value`.
    pub open spec fn spec_with_reset(self, value: bool) -> StatusCommand {
        StatusCommand::from_view(field_set(self@, 1, 1, bool_bit(value)))
    }

    /// Reads the `reset` field.
    pub fn reset(&self) -> (r: bool)
        ensures
            r == self.spec_reset(),
    {
        read_field(self.byte, 1, 1) == 1
    }

    /// Returns this value with the `reset` field set to `value`.
    pub fn with_reset(self, value: bool) -> (r: StatusCommand)
        ensures
            r == self.spec_with_reset(value),
            r@ == field_set(self@, 1, 1, bool_bit(value)),
    {
        let bit: u8 = if value {
            1
        } else {
            0
        };
        StatusCommand { byte: write_field(self.byte, 1, 1, bit) }
    }

    /// The `intf_power_down` field (bits 2..3).
    pub open spec fn spec_intf_power_down(self) -> bool {
        field_get(self@, 2, 1) == 1
    }

    /// This value with the `intf_power_down` field set to `value`.
    pub open spec fn spec_with_intf_power_down(self, value: bool) -> StatusCommand {
        StatusCommand::from_view(field_set(self@, 2, 1, bool_bit(value)))
    }

    /// Reads the `intf_power_down` field.
    pub fn intf_power_down(&self) -> (r: bool)
        ensures
            r == self.spec_intf_power_down(),
    {
        read_field(self.byte, 2, 1) == 1
    }

    /// Returns this value with the `intf_power_down` field set to `value`.
    pub fn with_intf_power_down(self, value: bool) -> (r: StatusCommand)
        ensures
            r == self.spec_with_intf_power_down(value),
            r@ == field_set(self@, 2, 1, bool_bit(value)),
    {
        let bit: u8 = if value {
            1
        } else {
            0
        };
        StatusCommand { byte: write_field(self.byte, 2, 1, bit) }
    }

    /// Reading `usb_attach` after setting it gives the value set; every other field
    /// keeps its value.
    pub proof fn lemma_with_usb_attach(self, value: bool)
        ensures
            self.spec_with_usb_attach(value).spec_usb_attach() == value,
            self.spec_with_usb_attach(value).spec_reset() == self.spec_reset(),
            self.spec_with_usb_attach(value).spec_intf_power_down() == self.spec_intf_power_down(),
    {
        lemma_field_get_set_same(self@, 0, 1, bool_bit(value));
        lemma_field_get_set_other(self@, 0, 1, bool_bit(value), 1, 1);
        lemma_field_get_set_other(self@, 0, 1, bool_bit(value), 2, 1);
    }

    /// Reading `reset` after setting it gives the value set; every other field
    /// keeps its value.
    pub proof fn lemma_with_reset(self, value: bool)
        ensures
            self.spec_with_reset(value).spec_reset() == value,
            self.spec_with_reset(value).spec_usb_attach() == self.spec_usb_attach(),
            self.spec_with_reset(value).spec_intf_power_down() == self.spec_intf_power_down(),
    {
        lemma_field_get_set_same(self@, 1, 1, bool_bit(value));
        lemma_field_get_set_other(self@, 1, 1, bool_bit(value), 0, 1);
        lemma_field_get_set_other(self@, 1, 1, bool_bit(value), 2, 1);
    }

    /// Reading `intf_power_down` after setting it gives the value set; every other field
    /// keeps its value.
    pub proof fn lemma_with_intf_power_down(self, value: bool)
        ensures
            self.spec_with_intf_power_down(value).spec_intf_power_down() == value,
            self.spec_with_intf_power_down(value).spec_usb_attach() == self.spec_usb_attach(),
            self.spec_with_intf_power_down(value).spec_reset() == self.spec_reset(),
    {
        lemma_field_get_set_same(self@, 2, 1, bool_bit(value));
        lemma_field_get_set_other(self@, 2, 1, bool_bit(value), 0, 1);
        lemma_field_get_set_other(self@, 2, 1, bool_bit(value), 1, 1);
    }

    /// The fields sit at their datasheet bits: each reads the bits that its
    /// mask selects in the register byte.
    pub proof fn lemma_layout(self)
        ensures
            self.spec_usb_attach() == (self@ & 0x01 != 0),
            self.spec_reset() == (self@ & 0x02 != 0),
            self.spec_intf_power_down() == (self@ & 0x04 != 0),
    {
        let b = self@;
        assert({
            &&& ((field_get(b, 0, 1) == 1) == (b & 0x01 != 0))
            &&& ((field_get(b, 1, 1) == 1) == (b & 0x02 != 0))
            &&& ((field_get(b, 2, 1) == 1) == (b & 0x04 != 0))
        }) by (bit_vector);
    }

}

/// The facts that tie each register value to its byte.
pub broadcast group group_register_views {
    ConfigByte1::lemma_view_of_from_view,
    ConfigByte1::lemma_from_view_of_view,
    ConfigByte2::lemma_view_of_from_view,
    ConfigByte2::lemma_from_view_of_view,
    ConfigByte3::lemma_view_of_from_view,
    ConfigByte3::lemma_from_view_of_view,
    PortBitfield::lemma_view_of_from_view,
    PortBitfield::lemma_from_view_of_view,
    BoostUpstream::lemma_view_of_from_view,
    BoostUpstream::lemma_from_view_of_view,
    BoostDownstream::lemma_view_of_from_view,
    BoostDownstream::lemma_from_view_of_view,
    PortMap12::lemma_view_of_from_view,
    PortMap12::lemma_from_view_of_view,
    PortMap34::lemma_view_of_from_view,
    PortMap34::lemma_from_view_of_view,
    StatusCommand::lemma_view_of_from_view,
    StatusCommand::lemma_from_view_of_view,
}

} // verus!
