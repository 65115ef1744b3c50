//! Hub configuration: string descriptors, the full register image and its
//! builder.
use crate::bits::{bool_bit, field_get, field_set};
use crate::error::StringDescriptorError;
use crate::register::{
    BoostDownstream, BoostLevel, BoostUpstream, ConfigByte1, ConfigByte2, ConfigByte3,
    CurrentSensing, LogicalPort, OcTimer, PortBitfield, PortMap12, PortMap34, PowerSwitching,
    Variant, REG_BATTERY_CHARGING, REG_BOOST_DOWNSTREAM, REG_BOOST_UPSTREAM,
    REG_CONFIG_BYTE_1, REG_CONFIG_BYTE_2, REG_CONFIG_BYTE_3, REG_DEVICE_ID_LSB, REG_DEVICE_ID_MSB,
    REG_HUB_CURRENT_BUS, REG_HUB_CURRENT_SELF, REG_LANGUAGE_ID_HIGH, REG_LANGUAGE_ID_LOW,
    REG_MANUFACTURER_STRING, REG_MANUFACTURER_STRING_LEN, REG_MAX_POWER_BUS, REG_MAX_POWER_SELF,
    REG_NON_REMOVABLE, REG_PORT_DISABLE_BUS, REG_PORT_DISABLE_SELF, REG_PORT_MAP_12,
    REG_PORT_MAP_34, REG_PORT_SWAP, REG_POWER_ON_TIME, REG_PRODUCT_ID_LSB, REG_PRODUCT_ID_MSB,
    REG_PRODUCT_STRING, REG_PRODUCT_STRING_LEN, REG_SERIAL_STRING, REG_SERIAL_STRING_LEN,
    REG_VENDOR_ID_LSB, REG_VENDOR_ID_MSB,
};
use crate::utf16::{
    char_to_utf16, char_utf16, decode_utf16, encode_utf16, lemma_decode_encode_utf16,
    lemma_encode_utf16_prefix, lemma_encode_utf16_prefix_len_le,
    utf16_len,
};
use vstd::prelude::*;

verus! {

broadcast use crate::register::group_register_views;

/// Maximum number of UTF-16 code units in a string descriptor.
pub const MAX_STRING_CODEUNITS: usize = 31;

/// The little-endian bytes of a sequence of UTF-16 code units: the low byte
/// of each unit, then its high byte.
pub open spec fn utf16le_bytes(units: Seq<u16>) -> Seq<u8> {
    Seq::new(
        2 * units.len(),
        |i: int|
            if i % 2 == 0 {
                (units[i / 2] % 256) as u8
            } else {
                (units[i / 2] / 256) as u8
            },
    )
}

/// The UTF-16 code units of little-endian bytes: each pair of bytes, low
/// byte first, is one unit.
pub open spec fn le_units(bytes: Seq<u8>) -> Seq<u16> {
    Seq::new(bytes.len() / 2, |i: int| (bytes[2 * i] + 256 * bytes[2 * i + 1]) as u16)
}

/// Reading the little-endian bytes of code units back as units gives the
/// units.
pub proof fn lemma_le_units_of_utf16le_bytes(units: Seq<u16>)
    ensures
        le_units(utf16le_bytes(units)) == units,
{
    let bytes = utf16le_bytes(units);
    assert forall|i: int| 0 <= i < units.len() implies #[trigger] le_units(bytes)[i] == units[i] by {
        let u = units[i];
        assert((2 * i) % 2 == 0 && (2 * i) / 2 == i && (2 * i + 1) % 2 == 1 && (2 * i + 1) / 2 == i)
            by (nonlinear_arith);
        assert(u % 256 + 256 * (u / 256) == u) by (nonlinear_arith);
    }
    assert(le_units(bytes) =~= units);
}

/// The bytes of a string descriptor decode back to the string: reading the
/// UTF-16LE bytes that [`StringDescriptor::write_le_bytes`] writes for the
/// descriptor that [`StringDescriptor::encode`] makes of `chars` as code
/// units, and decoding those as UTF-16, gives `chars`.
pub proof fn lemma_utf16le_roundtrip(chars: Seq<char>)
    ensures
        decode_utf16(le_units(utf16le_bytes(encode_utf16(chars)))) == Some(chars),
{
    lemma_le_units_of_utf16le_bytes(encode_utf16(chars));
    lemma_decode_encode_utf16(chars);
}

/// Milliamp value for power configuration methods.
#[derive(Debug, Clone, Copy, PartialEq, Eq, Structural)]
pub struct Milliamps(pub u16);

/// Millisecond value for timing configuration methods.
#[derive(Debug, Clone, Copy, PartialEq, Eq, Structural)]
pub struct Milliseconds(pub u16);

/// Physical downstream port on the USB251xB hub.
#[derive(Debug, Clone, Copy, PartialEq, Eq, Structural)]
pub enum Port {
    Port1,
    Port2,
    Port3,
    Port4,
}

/// `port` with its bit in `bf` set to `value`.
pub open spec fn spec_set_port_bit(bf: PortBitfield, port: Port, value: bool) -> PortBitfield {
    match port {
        Port::Port1 => bf.spec_with_port1(value),
        Port::Port2 => bf.spec_with_port2(value),
        Port::Port3 => bf.spec_with_port3(value),
        Port::Port4 => bf.spec_with_port4(value),
    }
}

/// The byte of a [`PortBitfield`] in which exactly the downstream ports
/// flagged by the four booleans are set.
pub open spec fn port_flags_byte(p1: bool, p2: bool, p3: bool, p4: bool) -> u8 {
    ((if p1 {
        2int
    } else {
        0
    }) + (if p2 {
        4int
    } else {
        0
    }) + (if p3 {
        8int
    } else {
        0
    }) + (if p4 {
        16int
    } else {
        0
    })) as u8
}

/// The byte of a [`PortBitfield`] in which exactly the ports listed in
/// `ports` are set.
pub open spec fn ports_byte(ports: Seq<Port>) -> u8 {
    port_flags_byte(
        ports.contains(Port::Port1),
        ports.contains(Port::Port2),
        ports.contains(Port::Port3),
        ports.contains(Port::Port4),
    )
}

/// The [`PortBitfield`] in which exactly the ports listed in `ports` are set.
pub open spec fn spec_ports_to_bitfield(ports: Seq<Port>) -> PortBitfield {
    PortBitfield::from_view(ports_byte(ports))
}

/// The flags of [`port_flags_byte`] are the port fields of its bitfield,
/// and the upstream bit is clear.
pub proof fn lemma_port_flags_fields(p1: bool, p2: bool, p3: bool, p4: bool)
    ensures
        ({
            let bf = PortBitfield::from_view(port_flags_byte(p1, p2, p3, p4));
            &&& bf.spec_port1() == p1
            &&& bf.spec_port2() == p2
            &&& bf.spec_port3() == p3
            &&& bf.spec_port4() == p4
            &&& !bf.spec_upstream()
        }),
{
    PortBitfield::lemma_view_of_from_view(port_flags_byte(p1, p2, p3, p4));
    assert(field_get(port_flags_byte(p1, p2, p3, p4), 1, 1) == bool_bit(p1)) by (bit_vector);
    assert(field_get(port_flags_byte(p1, p2, p3, p4), 2, 1) == bool_bit(p2)) by (bit_vector);
    assert(field_get(port_flags_byte(p1, p2, p3, p4), 3, 1) == bool_bit(p3)) by (bit_vector);
    assert(field_get(port_flags_byte(p1, p2, p3, p4), 4, 1) == bool_bit(p4)) by (bit_vector);
    assert(field_get(port_flags_byte(p1, p2, p3, p4), 0, 1) == 0) by (bit_vector);
}

/// Setting one more port in the bitfield of a port list gives the bitfield
/// of the list with that port appended.
pub proof fn lemma_set_port_bit_appends(ports: Seq<Port>, port: Port)
    ensures
        spec_set_port_bit(spec_ports_to_bitfield(ports), port, true) == spec_ports_to_bitfield(
            ports.push(port),
        ),
{
    let (c1, c2, c3, c4) = (
        ports.contains(Port::Port1),
        ports.contains(Port::Port2),
        ports.contains(Port::Port3),
        ports.contains(Port::Port4),
    );
    let pushed = ports.push(port);
    assert forall|q: Port| #[trigger] pushed.contains(q) == (ports.contains(q) || q == port) by {
        if pushed.contains(q) && q != port {
            let j = choose|j: int| 0 <= j < pushed.len() && pushed[j] == q;
            assert(ports[j] == q);
        }
        if ports.contains(q) {
            let j = choose|j: int| 0 <= j < ports.len() && ports[j] == q;
            assert(pushed[j] == q);
        }
        if q == port {
            assert(pushed[ports.len() as int] == q);
        }
    }
    PortBitfield::lemma_view_of_from_view(ports_byte(ports));
    PortBitfield::lemma_view_of_from_view(ports_byte(pushed));
    match port {
        Port::Port1 => {
            assert(field_set(port_flags_byte(c1, c2, c3, c4), 1, 1, 1) == port_flags_byte(
                true,
                c2,
                c3,
                c4,
            )) by (bit_vector);
        },
        Port::Port2 => {
            assert(field_set(port_flags_byte(c1, c2, c3, c4), 2, 1, 1) == port_flags_byte(
                c1,
                true,
                c3,
                c4,
            )) by (bit_vector);
        },
        Port::Port3 => {
            assert(field_set(port_flags_byte(c1, c2, c3, c4), 3, 1, 1) == port_flags_byte(
                c1,
                c2,
                true,
                c4,
            )) by (bit_vector);
        },
        Port::Port4 => {
            assert(field_set(port_flags_byte(c1, c2, c3, c4), 4, 1, 1) == port_flags_byte(
                c1,
                c2,
                c3,
                true,
            )) by (bit_vector);
        },
    }
}

/// Returns `bf` with the bit of `port` set to `value`.
fn set_port_bit(bf: PortBitfield, port: Port, value: bool) -> (r: PortBitfield)
    ensures
        r == spec_set_port_bit(bf, port, value),
{
    match port {
        Port::Port1 => bf.with_port1(value),
        Port::Port2 => bf.with_port2(value),
        Port::Port3 => bf.with_port3(value),
        Port::Port4 => bf.with_port4(value),
    }
}

/// The bitfield in which exactly the listed ports are set.
fn ports_to_bitfield(ports: &[Port]) -> (r: PortBitfield)
    ensures
        r == spec_ports_to_bitfield(ports@),
        r.spec_port1() == ports@.contains(Port::Port1),
        r.spec_port2() == ports@.contains(Port::Port2),
        r.spec_port3() == ports@.contains(Port::Port3),
        r.spec_port4() == ports@.contains(Port::Port4),
        !r.spec_upstream(),
{
    let mut bf = PortBitfield::new();
    proof {
        assert(ports@.take(0) =~= Seq::<Port>::empty());
        assert(port_flags_byte(false, false, false, false) == 0);
        PortBitfield::lemma_from_view_of_view(bf);
    }
    let n = ports.len();
    let mut i: usize = 0;
    while i < n
        invariant
            n == ports@.len(),
            0 <= i <= n,
            bf == spec_ports_to_bitfield(ports@.take(i as int)),
        decreases n - i,
    {
        proof {
            lemma_set_port_bit_appends(ports@.take(i as int), ports@[i as int]);
            assert(ports@.take(i as int).push(ports@[i as int]) =~= ports@.take(i + 1));
        }
        bf = set_port_bit(bf, ports[i], true);
        i = i + 1;
    }
    proof {
        assert(ports@.take(n as int) =~= ports@);
        lemma_port_flags_fields(
            ports@.contains(Port::Port1),
            ports@.contains(Port::Port2),
            ports@.contains(Port::Port3),
            ports@.contains(Port::Port4),
        );
    }
    bf
}

/// USB string descriptor stored as UTF-16LE with a length prefix.
#[derive(Debug, Clone, Copy)]
pub struct StringDescriptor {
    buf: [u16; 31],
    len: u8,
}

impl StringDescriptor {
    /// At most 31 code units are in use.
    #[verifier::type_invariant]
    spec fn well_formed(self) -> bool {
        self.len <= 31
    }
}

impl View for StringDescriptor {
    /// The code units of the string.
    type V = Seq<u16>;

    closed spec fn view(&self) -> Seq<u16> {
        self.buf@.take(self.len as int)
    }
}

impl StringDescriptor {
    /// Creates an empty string descriptor.
    pub fn empty() -> (r: StringDescriptor)
        ensures
            r@ == Seq::<u16>::empty(),
    {
        let r = StringDescriptor { buf: [0u16; 31], len: 0 };
        assert(r@ =~= Seq::<u16>::empty());
        r
    }

    /// Encodes a `&str` into a USB string descriptor (UTF-16LE).
    ///
    /// Returns [`StringDescriptorError::TooLong`] if the string encodes to
    /// more than 31 UTF-16 code units.
    pub fn encode(s: &str) -> (r: Result<StringDescriptor, StringDescriptorError>)
        ensures
            r is Ok <==> encode_utf16(s@).len() <= MAX_STRING_CODEUNITS,
            r matches Ok(d) ==> d@ == encode_utf16(s@),
            r matches Err(e) ==> e == (StringDescriptorError::TooLong {
                len: encode_utf16(s@).len() as usize,
                max: MAX_STRING_CODEUNITS,
            }),
    {
        let mut buf = [0u16; 31];
        let mut i: usize = 0;
        for c in it: s.chars()
            invariant
                it.seq() == s@,
                i == encode_utf16(s@.take(it.index())).len(),
                i <= MAX_STRING_CODEUNITS,
                buf@.take(i as int) == encode_utf16(s@.take(it.index())),
        {
            proof {
                lemma_encode_utf16_prefix(s@, it.index());
            }
            let (units, first, second) = char_to_utf16(c);
            if i + units > MAX_STRING_CODEUNITS {
                proof {
                    lemma_encode_utf16_prefix_len_le(s@, it.index() + 1);
                }
                return Err(StringDescriptorError::TooLong { len: utf16_len(s), max: MAX_STRING_CODEUNITS });
            }
            let ghost before = buf@;
            buf[i] = first;
            if units == 2 {
                buf[i + 1] = second;
            }
            assert(buf@.take(i + units) =~= before.take(i as int) + char_utf16(c));
            i = i + units;
        }
        assert(s@.take(s@.len() as int) =~= s@);
        Ok(StringDescriptor { buf, len: i as u8 })
    }

    /// Number of UTF-16 code units.
    pub fn len(&self) -> (r: u8)
        ensures
            r == self@.len(),
            r <= MAX_STRING_CODEUNITS,
    {
        proof {
            use_type_invariant(self);
        }
        self.len
    }

    /// Whether the descriptor is empty.
    pub fn is_empty(&self) -> (r: bool)
        ensures
            r == (self@.len() == 0),
    {
        proof {
            use_type_invariant(self);
        }
        self.len == 0
    }

    /// Number of bytes when serialized as UTF-16LE (2 bytes per code unit).
    pub fn byte_len(&self) -> (r: u8)
        ensures
            r == 2 * self@.len(),
            r == utf16le_bytes(self@).len(),
    {
        proof {
            use_type_invariant(self);
        }
        self.len * 2
    }

    /// Writes the UTF-16LE bytes into `dest`, returning the number of bytes written.
    pub fn write_le_bytes(&self, dest: &mut [u8]) -> (r: usize)
        requires
            old(dest)@.len() >= 2 * self@.len(),
        ensures
            r == 2 * self@.len(),
            final(dest)@.len() == old(dest)@.len(),
            final(dest)@.take(r as int) == utf16le_bytes(self@),
            final(dest)@.skip(r as int) == old(dest)@.skip(r as int),
    {
        proof {
            use_type_invariant(self);
        }
        let n = self.len as usize;
        let ghost units = self@;
        let mut i: usize = 0;
        while i < n
            invariant
                n == self.len,
                n <= 31,
                units == self@,
                units.len() == n,
                0 <= i <= n,
                dest@.len() == old(dest)@.len(),
                dest@.len() >= 2 * n,
                dest@.take(2 * i) == utf16le_bytes(units).take(2 * i),
                dest@.skip(2 * n) == old(dest)@.skip(2 * n),
            decreases n - i,
        {
            let cu = self.buf[i];
            assert(cu == units[i as int]);
            let ghost before = dest@;
            dest[2 * i] = (cu % 256) as u8;
            dest[2 * i + 1] = (cu / 256) as u8;
            assert(dest@.take(2 * (i + 1)) =~= utf16le_bytes(units).take(2 * (i + 1))) by {
                assert forall|j: int| 0 <= j < 2 * (i + 1) implies #[trigger] dest@[j]
                    == utf16le_bytes(units)[j] by {
                    if j < 2 * i {
                        assert(dest@[j] == before[j]);
                        assert(before.take(2 * i)[j] == utf16le_bytes(units).take(2 * i)[j]);
                    }
                }
            }
            assert(dest@.skip(2 * n) =~= before.skip(2 * n));
            i = i + 1;
        }
        assert(utf16le_bytes(units).take(2 * n) =~= utf16le_bytes(units));
        n * 2
    }
}

impl Default for StringDescriptor {
    /// The empty descriptor.
    fn default() -> (r: StringDescriptor)
        ensures
            r@ == Seq::<u16>::empty(),
    {
        StringDescriptor::empty()
    }
}

/// A single register chunk: (start_register, data_buffer, data_length).
type Chunk = (u8, [u8; 32], u8);

/// `bytes` followed by zeros up to 32 bytes.
pub open spec fn pad32(bytes: Seq<u8>) -> Seq<u8> {
    bytes + Seq::new((32 - bytes.len()) as nat, |i: int| 0u8)
}

/// A register chunk as plain values: start register, the 32 data bytes,
/// the number of those bytes to write.
pub open spec fn chunk_view(chunk: Chunk) -> (u8, Seq<u8>, u8) {
    (chunk.0, chunk.1@, chunk.2)
}

/// The two chunks that carry a string descriptor whose code units are
/// `units`, starting at register `base`: the first 32 bytes of its UTF-16LE
/// encoding at `base`, the rest at `base + 32` (modulo 256).
pub open spec fn spec_string_chunks(units: Seq<u16>, base: u8) -> ((u8, Seq<u8>, u8), (u8, Seq<u8>, u8)) {
    let bytes = utf16le_bytes(units);
    let first = if bytes.len() <= 32 {
        bytes.len()
    } else {
        32
    };
    let second = bytes.len() - first;
    (
        (base, pad32(bytes.take(first as int)), first as u8),
        (((base + 32) % 256) as u8, pad32(bytes.subrange(first as int, bytes.len() as int)), second as u8),
    )
}

/// The two chunks of a string descriptor hold all of its UTF-16LE bytes and
/// nothing else: each has 32 data bytes, the first at most 32 to write and
/// the second at most 30, and the bytes written, taken in order, are the
/// encoded string. The second chunk starts 32 registers after the first.
pub proof fn lemma_string_chunks_reassemble(units: Seq<u16>, base: u8)
    requires
        units.len() <= MAX_STRING_CODEUNITS,
    ensures
        ({
            let (a, b) = spec_string_chunks(units, base);
            &&& a.1.len() == 32
            &&& b.1.len() == 32
            &&& a.2 <= 32
            &&& b.2 <= 30
            &&& a.2 + b.2 == 2 * units.len()
            &&& a.1.take(a.2 as int) + b.1.take(b.2 as int) == utf16le_bytes(units)
            &&& b.0 == (a.0 + 32) % 256
        }),
{
    let bytes = utf16le_bytes(units);
    let (a, b) = spec_string_chunks(units, base);
    let first = if bytes.len() <= 32 {
        bytes.len()
    } else {
        32
    };
    assert(a.1.take(a.2 as int) =~= bytes.take(first as int));
    assert(b.1.take(b.2 as int) =~= bytes.subrange(first as int, bytes.len() as int));
    assert(bytes.take(first as int) + bytes.subrange(first as int, bytes.len() as int) =~= bytes);
}

/// The low byte of a 16-bit value.
pub open spec fn lo_byte(v: u16) -> u8 {
    (v % 256) as u8
}

/// The high byte of a 16-bit value.
pub open spec fn hi_byte(v: u16) -> u8 {
    (v / 256) as u8
}

/// A milliamp or millisecond value as the register stores it: halved, then
/// cut to its low byte.
pub open spec fn halved_byte(v: u16) -> u8 {
    ((v / 2) % 256) as u8
}

/// Full configuration for a USB251xB/xBi hub controller.
#[derive(Debug, Clone)]
pub struct Config {
    pub vendor_id: u16,
    pub product_id: u16,
    pub device_id: u16,
    pub config1: ConfigByte1,
    pub config2: ConfigByte2,
    pub config3: ConfigByte3,
    pub non_removable: PortBitfield,
    pub port_disable_self: PortBitfield,
    pub port_disable_bus: PortBitfield,
    /// Maximum power draw in self-powered mode (mA). Divided by 2 on serialization.
    pub max_power_self_ma: u16,
    /// Maximum power draw in bus-powered mode (mA). Divided by 2 on serialization.
    pub max_power_bus_ma: u16,
    /// Hub controller current in self-powered mode (mA). Divided by 2 on serialization.
    pub hub_current_self_ma: u16,
    /// Hub controller current in bus-powered mode (mA). Divided by 2 on serialization.
    pub hub_current_bus_ma: u16,
    /// Power-on time (ms). Divided by 2 on serialization.
    pub power_on_time_ms: u16,
    pub language_id: u16,
    pub manufacturer_string: StringDescriptor,
    pub product_string: StringDescriptor,
    pub serial_string: StringDescriptor,
    pub battery_charging: PortBitfield,
    pub boost_upstream: BoostUpstream,
    pub boost_downstream: BoostDownstream,
    pub port_swap: PortBitfield,
    pub port_map_12: PortMap12,
    pub port_map_34: PortMap34,
}

impl Config {
    /// The datasheet defaults for `variant`: every field as the hub holds
    /// it after reset, no strings, identity port mapping.
    pub open spec fn is_default_for(self, variant: Variant) -> bool {
        &&& self.vendor_id == 0x0424
        &&& self.product_id == variant.spec_product_id()
        &&& self.device_id == 0x0BB3
        &&& self.config1@ == 0x9B
        &&& self.config2@ == 0x20
        &&& self.config3@ == 0x00
        &&& self.non_removable@ == 0
        &&& self.port_disable_self@ == 0
        &&& self.port_disable_bus@ == 0
        &&& self.max_power_self_ma == 2
        &&& self.max_power_bus_ma == 100
        &&& self.hub_current_self_ma == 100
        &&& self.hub_current_bus_ma == 100
        &&& self.power_on_time_ms == 100
        &&& self.language_id == 0x0409
        &&& self.manufacturer_string@ == Seq::<u16>::empty()
        &&& self.product_string@ == Seq::<u16>::empty()
        &&& self.serial_string@ == Seq::<u16>::empty()
        &&& self.battery_charging@ == 0
        &&& self.boost_upstream@ == 0
        &&& self.boost_downstream@ == 0
        &&& self.port_swap@ == 0
        &&& self.port_map_12@ == 0x21
        &&& self.port_map_34@ == 0x43
    }

    /// The bytes of registers 0x00 to 0x15: IDs, configuration bytes, power
    /// and timing values, language ID and the three string lengths in bytes.
    pub open spec fn spec_header_bytes(self) -> Seq<u8> {
        seq![
            lo_byte(self.vendor_id),
            hi_byte(self.vendor_id),
            lo_byte(self.product_id),
            hi_byte(self.product_id),
            lo_byte(self.device_id),
            hi_byte(self.device_id),
            self.config1@,
            self.config2@,
            self.config3@,
            self.non_removable@,
            self.port_disable_self@,
            self.port_disable_bus@,
            halved_byte(self.max_power_self_ma),
            halved_byte(self.max_power_bus_ma),
            halved_byte(self.hub_current_self_ma),
            halved_byte(self.hub_current_bus_ma),
            halved_byte(self.power_on_time_ms),
            hi_byte(self.language_id),
            lo_byte(self.language_id),
            (2 * self.manufacturer_string@.len()) as u8,
            (2 * self.product_string@.len()) as u8,
            (2 * self.serial_string@.len()) as u8,
        ]
    }

    /// The twelve register chunks of the configuration, in the order they
    /// are written; a chunk with length 0 is not written.
    pub open spec fn spec_register_chunks(self) -> Seq<(u8, Seq<u8>, u8)> {
        let manufacturer = spec_string_chunks(self.manufacturer_string@, REG_MANUFACTURER_STRING);
        let product = spec_string_chunks(self.product_string@, REG_PRODUCT_STRING);
        let serial = spec_string_chunks(self.serial_string@, REG_SERIAL_STRING);
        seq![
            (REG_VENDOR_ID_LSB, pad32(self.spec_header_bytes()), 22u8),
            manufacturer.0,
            manufacturer.1,
            product.0,
            product.1,
            serial.0,
            serial.1,
            (REG_BATTERY_CHARGING, pad32(seq![self.battery_charging@]), 1u8),
            (REG_BOOST_UPSTREAM, pad32(seq![self.boost_upstream@]), 1u8),
            (REG_BOOST_DOWNSTREAM, pad32(seq![self.boost_downstream@]), 1u8),
            (REG_PORT_SWAP, pad32(seq![self.port_swap@, self.port_map_12@, self.port_map_34@]), 3u8),
            (0u8, pad32(Seq::<u8>::empty()), 0u8),
        ]
    }

    /// Creates a [`ConfigBuilder`] initialized with the datasheet defaults for `variant`.
    pub fn builder(variant: Variant) -> (r: ConfigBuilder)
        ensures
            r@.is_default_for(variant),
    {
        ConfigBuilder::new(variant)
    }

    /// Returns the datasheet-default configuration for the given variant.
    pub fn for_variant(variant: Variant) -> (r: Config)
        ensures
            r.is_default_for(variant),
    {
        let port_map_12 = PortMap12::new().with_port1(LogicalPort::Port1).with_port2(LogicalPort::Port2);
        let port_map_34 = PortMap34::new().with_port3(LogicalPort::Port3).with_port4(LogicalPort::Port4);
        assert(field_set(field_set(0, 0, 4, 1), 4, 4, 2) == 0x21) by (bit_vector);
        assert(field_set(field_set(0, 0, 4, 3), 4, 4, 4) == 0x43) by (bit_vector);
        Config {
            vendor_id: 0x0424,
            product_id: variant.product_id(),
            device_id: 0x0BB3,
            config1: ConfigByte1::from_bytes([0x9B]),
            config2: ConfigByte2::from_bytes([0x20]),
            config3: ConfigByte3::from_bytes([0x00]),
            non_removable: PortBitfield::new(),
            port_disable_self: PortBitfield::new(),
            port_disable_bus: PortBitfield::new(),
            max_power_self_ma: 2,
            max_power_bus_ma: 100,
            hub_current_self_ma: 100,
            hub_current_bus_ma: 100,
            power_on_time_ms: 100,
            language_id: 0x0409,
            manufacturer_string: StringDescriptor::empty(),
            product_string: StringDescriptor::empty(),
            serial_string: StringDescriptor::empty(),
            battery_charging: PortBitfield::new(),
            boost_upstream: BoostUpstream::new(),
            boost_downstream: BoostDownstream::new(),
            port_swap: PortBitfield::new(),
            port_map_12,
            port_map_34,
        }
    }

    /// Serializes the configuration into register chunks for SMBus block writes.
    ///
    /// Returns an array of `(register_address, data_buffer, data_length)` tuples.
    /// Each chunk is at most 32 bytes, fitting within an SMBus block write.
    pub fn to_register_chunks(&self) -> (r: [Chunk; 12])
        ensures
            r@.map_values(|c: Chunk| chunk_view(c)) == self.spec_register_chunks(),
            forall|k: int| 0 <= k < 12 ==> #[trigger] r@[k].2 <= 32,
    {
        proof {
            use_type_invariant(&self.manufacturer_string);
            use_type_invariant(&self.product_string);
            use_type_invariant(&self.serial_string);
        }
        let header: [u8; 32] = [
            (self.vendor_id % 256) as u8,
            (self.vendor_id / 256) as u8,
            (self.product_id % 256) as u8,
            (self.product_id / 256) as u8,
            (self.device_id % 256) as u8,
            (self.device_id / 256) as u8,
            self.config1.into_bytes()[0],
            self.config2.into_bytes()[0],
            self.config3.into_bytes()[0],
            self.non_removable.into_bytes()[0],
            self.port_disable_self.into_bytes()[0],
            self.port_disable_bus.into_bytes()[0],
            ((self.max_power_self_ma / 2) % 256) as u8,
            ((self.max_power_bus_ma / 2) % 256) as u8,
            ((self.hub_current_self_ma / 2) % 256) as u8,
            ((self.hub_current_bus_ma / 2) % 256) as u8,
            ((self.power_on_time_ms / 2) % 256) as u8,
            (self.language_id / 256) as u8,
            (self.language_id % 256) as u8,
            self.manufacturer_string.byte_len(),
            self.product_string.byte_len(),
            self.serial_string.byte_len(),
            0,
            0,
            0,
            0,
            0,
            0,
            0,
            0,
            0,
            0,
        ];
        assert(header@ =~= pad32(self.spec_header_bytes()));
        let zeros = [0u8; 32];
        assert(zeros@ =~= pad32(Seq::<u8>::empty()));
        let (manufacturer_a, manufacturer_b) = string_chunks(&self.manufacturer_string, REG_MANUFACTURER_STRING);
        let (product_a, product_b) = string_chunks(&self.product_string, REG_PRODUCT_STRING);
        let (serial_a, serial_b) = string_chunks(&self.serial_string, REG_SERIAL_STRING);
        let chunks: [Chunk; 12] = [
            (REG_VENDOR_ID_LSB, header, 22),
            manufacturer_a,
            manufacturer_b,
            product_a,
            product_b,
            serial_a,
            serial_b,
            single_byte_chunk(REG_BATTERY_CHARGING, self.battery_charging.into_bytes()[0]),
            single_byte_chunk(REG_BOOST_UPSTREAM, self.boost_upstream.into_bytes()[0]),
            single_byte_chunk(REG_BOOST_DOWNSTREAM, self.boost_downstream.into_bytes()[0]),
            port_swap_chunk(
                self.port_swap.into_bytes()[0],
                self.port_map_12.into_bytes()[0],
                self.port_map_34.into_bytes()[0],
            ),
            (0, zeros, 0),
        ];
        assert(chunks@.map_values(|c: Chunk| chunk_view(c)) =~= self.spec_register_chunks());
        chunks
    }
}

impl Config {
    /// The string lengths are in range: at most 31 code units each, as every
    /// [`StringDescriptor`] holds.
    pub open spec fn strings_fit(self) -> bool {
        &&& self.manufacturer_string@.len() <= MAX_STRING_CODEUNITS
        &&& self.product_string@.len() <= MAX_STRING_CODEUNITS
        &&& self.serial_string@.len() <= MAX_STRING_CODEUNITS
    }

    /// The length byte of each string in the header chunk is the number of
    /// string bytes that its two chunks write.
    pub proof fn lemma_string_lengths_match_chunks(self)
        requires
            self.strings_fit(),
        ensures
            ({
                let chunks = self.spec_register_chunks();
                let header = chunks[0].1;
                &&& header[19] == chunks[1].2 + chunks[2].2
                &&& header[20] == chunks[3].2 + chunks[4].2
                &&& header[21] == chunks[5].2 + chunks[6].2
            }),
    {
        lemma_string_chunks_reassemble(self.manufacturer_string@, REG_MANUFACTURER_STRING);
        lemma_string_chunks_reassemble(self.product_string@, REG_PRODUCT_STRING);
        lemma_string_chunks_reassemble(self.serial_string@, REG_SERIAL_STRING);
    }

    /// The chunks write disjoint register ranges, in increasing order and
    /// without passing register 0xFF: a chunk that is written ends at or
    /// before the start of every later chunk that is written. The order of
    /// the writes therefore does not matter.
    pub proof fn lemma_chunks_disjoint(self)
        requires
            self.strings_fit(),
        ensures
            ({
                let chunks = self.spec_register_chunks();
                &&& forall|k: int| 0 <= k < 12 ==> #[trigger] chunks[k].0 + chunks[k].2 <= 0x100
                &&& forall|j: int, k: int|
                    0 <= j < k < 12 && chunks[j].2 > 0 && chunks[k].2 > 0 ==> #[trigger] chunks[j].0
                        + chunks[j].2 <= #[trigger] chunks[k].0
            }),
    {
        lemma_string_chunks_reassemble(self.manufacturer_string@, REG_MANUFACTURER_STRING);
        lemma_string_chunks_reassemble(self.product_string@, REG_PRODUCT_STRING);
        lemma_string_chunks_reassemble(self.serial_string@, REG_SERIAL_STRING);
    }
}

impl Config {
    /// The value that the configuration gives the hub register at `addr`,
    /// by the datasheet's register map: each register named in
    /// [`crate::register`] holds its field, and the three string areas hold
    /// the UTF-16LE bytes of their strings from their first register on.
    pub open spec fn register_value(self, addr: int) -> u8 {
        if addr == REG_VENDOR_ID_LSB {
            lo_byte(self.vendor_id)
        } else if addr == REG_VENDOR_ID_MSB {
            hi_byte(self.vendor_id)
        } else if addr == REG_PRODUCT_ID_LSB {
            lo_byte(self.product_id)
        } else if addr == REG_PRODUCT_ID_MSB {
            hi_byte(self.product_id)
        } else if addr == REG_DEVICE_ID_LSB {
            lo_byte(self.device_id)
        } else if addr == REG_DEVICE_ID_MSB {
            hi_byte(self.device_id)
        } else if addr == REG_CONFIG_BYTE_1 {
            self.config1@
        } else if addr == REG_CONFIG_BYTE_2 {
            self.config2@
        } else if addr == REG_CONFIG_BYTE_3 {
            self.config3@
        } else if addr == REG_NON_REMOVABLE {
            self.non_removable@
        } else if addr == REG_PORT_DISABLE_SELF {
            self.port_disable_self@
        } else if addr == REG_PORT_DISABLE_BUS {
            self.port_disable_bus@
        } else if addr == REG_MAX_POWER_SELF {
            halved_byte(self.max_power_self_ma)
        } else if addr == REG_MAX_POWER_BUS {
            halved_byte(self.max_power_bus_ma)
        } else if addr == REG_HUB_CURRENT_SELF {
            halved_byte(self.hub_current_self_ma)
        } else if addr == REG_HUB_CURRENT_BUS {
            halved_byte(self.hub_current_bus_ma)
        } else if addr == REG_POWER_ON_TIME {
            halved_byte(self.power_on_time_ms)
        } else if addr == REG_LANGUAGE_ID_HIGH {
            hi_byte(self.language_id)
        } else if addr == REG_LANGUAGE_ID_LOW {
            lo_byte(self.language_id)
        } else if addr == REG_MANUFACTURER_STRING_LEN {
            utf16le_bytes(self.manufacturer_string@).len() as u8
        } else if addr == REG_PRODUCT_STRING_LEN {
            utf16le_bytes(self.product_string@).len() as u8
        } else if addr == REG_SERIAL_STRING_LEN {
            utf16le_bytes(self.serial_string@).len() as u8
        } else if REG_MANUFACTURER_STRING <= addr < REG_PRODUCT_STRING {
            utf16le_bytes(self.manufacturer_string@)[addr - REG_MANUFACTURER_STRING]
        } else if REG_PRODUCT_STRING <= addr < REG_SERIAL_STRING {
            utf16le_bytes(self.product_string@)[addr - REG_PRODUCT_STRING]
        } else if REG_SERIAL_STRING <= addr < REG_BATTERY_CHARGING {
            utf16le_bytes(self.serial_string@)[addr - REG_SERIAL_STRING]
        } else if addr == REG_BATTERY_CHARGING {
            self.battery_charging@
        } else if addr == REG_BOOST_UPSTREAM {
            self.boost_upstream@
        } else if addr == REG_BOOST_DOWNSTREAM {
            self.boost_downstream@
        } else if addr == REG_PORT_SWAP {
            self.port_swap@
        } else if addr == REG_PORT_MAP_12 {
            self.port_map_12@
        } else if addr == REG_PORT_MAP_34 {
            self.port_map_34@
        } else {
            0
        }
    }

    /// The registers that the configuration sets: the header registers
    /// 0x00 to 0x15, the bytes of each string that its length covers, and
    /// the battery charging, boost, port swap and port map registers.
    pub open spec fn sets_register(self, addr: int) -> bool {
        ||| REG_VENDOR_ID_LSB <= addr <= REG_SERIAL_STRING_LEN
        ||| REG_MANUFACTURER_STRING <= addr < REG_MANUFACTURER_STRING + 2
            * self.manufacturer_string@.len()
        ||| REG_PRODUCT_STRING <= addr < REG_PRODUCT_STRING + 2 * self.product_string@.len()
        ||| REG_SERIAL_STRING <= addr < REG_SERIAL_STRING + 2 * self.serial_string@.len()
        ||| addr == REG_BATTERY_CHARGING
        ||| addr == REG_BOOST_UPSTREAM
        ||| addr == REG_BOOST_DOWNSTREAM
        ||| REG_PORT_SWAP <= addr <= REG_PORT_MAP_34
    }

    /// Writing the register chunks gives every register of the map its
    /// value: each byte that a chunk writes, at its chunk's start register
    /// plus its offset, is the value of that register, and every register
    /// that the configuration sets is written by some chunk.
    pub proof fn lemma_chunks_hold_register_map(self)
        requires
            self.strings_fit(),
        ensures
            ({
                let chunks = self.spec_register_chunks();
                &&& forall|k: int, j: int|
                    0 <= k < 12 && 0 <= j < chunks[k].2 ==> #[trigger] chunks[k].1[j]
                        == self.register_value(chunks[k].0 + j)
                &&& forall|addr: int|
                    #[trigger] self.sets_register(addr) ==> exists|k: int|
                        0 <= k < 12 && #[trigger] chunks[k].0 <= addr < chunks[k].0 + chunks[k].2
            }),
    {
        let chunks = self.spec_register_chunks();
        let m = utf16le_bytes(self.manufacturer_string@);
        let p = utf16le_bytes(self.product_string@);
        let s = utf16le_bytes(self.serial_string@);
        lemma_string_chunks_reassemble(self.manufacturer_string@, REG_MANUFACTURER_STRING);
        lemma_string_chunks_reassemble(self.product_string@, REG_PRODUCT_STRING);
        lemma_string_chunks_reassemble(self.serial_string@, REG_SERIAL_STRING);
        assert forall|k: int, j: int| 0 <= k < 12 && 0 <= j < chunks[k].2 implies #[trigger] chunks[k].1[j]
            == self.register_value(chunks[k].0 + j) by {
            if k == 1 || k == 2 {
                assert(chunks[1].1.take(chunks[1].2 as int) + chunks[2].1.take(chunks[2].2 as int)
                    == m);
                if k == 2 {
                    assert(m[32 + j] == chunks[2].1.take(chunks[2].2 as int)[j]);
                }
            } else if k == 3 || k == 4 {
                assert(chunks[3].1.take(chunks[3].2 as int) + chunks[4].1.take(chunks[4].2 as int)
                    == p);
                if k == 4 {
                    assert(p[32 + j] == chunks[4].1.take(chunks[4].2 as int)[j]);
                }
            } else if k == 5 || k == 6 {
                assert(chunks[5].1.take(chunks[5].2 as int) + chunks[6].1.take(chunks[6].2 as int)
                    == s);
                if k == 6 {
                    assert(s[32 + j] == chunks[6].1.take(chunks[6].2 as int)[j]);
                }
            }
        }
        assert forall|addr: int| #[trigger] self.sets_register(addr) implies exists|k: int|
            0 <= k < 12 && #[trigger] chunks[k].0 <= addr < chunks[k].0 + chunks[k].2 by {
            if REG_VENDOR_ID_LSB <= addr <= REG_SERIAL_STRING_LEN {
                assert(chunks[0].0 <= addr < chunks[0].0 + chunks[0].2);
            } else if REG_MANUFACTURER_STRING <= addr < REG_MANUFACTURER_STRING + m.len() {
                if addr < REG_MANUFACTURER_STRING + 32 {
                    assert(chunks[1].0 <= addr < chunks[1].0 + chunks[1].2);
                } else {
                    assert(chunks[2].0 <= addr < chunks[2].0 + chunks[2].2);
                }
            } else if REG_PRODUCT_STRING <= addr < REG_PRODUCT_STRING + p.len() {
                if addr < REG_PRODUCT_STRING + 32 {
                    assert(chunks[3].0 <= addr < chunks[3].0 + chunks[3].2);
                } else {
                    assert(chunks[4].0 <= addr < chunks[4].0 + chunks[4].2);
                }
            } else if REG_SERIAL_STRING <= addr < REG_SERIAL_STRING + s.len() {
                if addr < REG_SERIAL_STRING + 32 {
                    assert(chunks[5].0 <= addr < chunks[5].0 + chunks[5].2);
                } else {
                    assert(chunks[6].0 <= addr < chunks[6].0 + chunks[6].2);
                }
            } else if addr == REG_BATTERY_CHARGING {
                assert(chunks[7].0 <= addr < chunks[7].0 + chunks[7].2);
            } else if addr == REG_BOOST_UPSTREAM {
                assert(chunks[8].0 <= addr < chunks[8].0 + chunks[8].2);
            } else if addr == REG_BOOST_DOWNSTREAM {
                assert(chunks[9].0 <= addr < chunks[9].0 + chunks[9].2);
            } else {
                assert(chunks[10].0 <= addr < chunks[10].0 + chunks[10].2);
            }
        }
    }
}

/// The chunk that writes the one byte `value` at register `register`.
fn single_byte_chunk(register: u8, value: u8) -> (r: Chunk)
    ensures
        chunk_view(r) == (register, pad32(seq![value]), 1u8),
{
    let data: [u8; 32] = [
        value, 0, 0, 0, 0, 0, 0, 0, 0, 0, 0, 0, 0, 0, 0, 0,
        0, 0, 0, 0, 0, 0, 0, 0, 0, 0, 0, 0, 0, 0, 0, 0,
    ];
    assert(data@ =~= pad32(seq![value]));
    (register, data, 1)
}

/// The chunk that writes port swap and both port maps, registers 0xFA to 0xFC.
fn port_swap_chunk(swap: u8, map_12: u8, map_34: u8) -> (r: Chunk)
    ensures
        chunk_view(r) == (REG_PORT_SWAP, pad32(seq![swap, map_12, map_34]), 3u8),
{
    let data: [u8; 32] = [
        swap, map_12, map_34, 0, 0, 0, 0, 0, 0, 0, 0, 0, 0, 0, 0, 0,
        0, 0, 0, 0, 0, 0, 0, 0, 0, 0, 0, 0, 0, 0, 0, 0,
    ];
    assert(data@ =~= pad32(seq![swap, map_12, map_34]));
    (REG_PORT_SWAP, data, 3)
}

/// Splits the UTF-16LE bytes of `desc` into the chunk at `base_reg` (the
/// first 32 bytes) and the chunk at `base_reg + 32` (the rest).
fn string_chunks(desc: &StringDescriptor, base_reg: u8) -> (r: (Chunk, Chunk))
    ensures
        (chunk_view(r.0), chunk_view(r.1)) == spec_string_chunks(desc@, base_reg),
        r.0.2 <= 32,
        r.1.2 <= 30,
{
    proof {
        use_type_invariant(desc);
    }
    let ghost bytes = utf16le_bytes(desc@);
    let mut full = [0u8; 62];
    let total = desc.write_le_bytes(&mut full);
    assert(full@.take(total as int) == bytes);

    let first: usize = if total < 32 {
        total
    } else {
        32
    };
    let mut data_a = [0u8; 32];
    let mut i: usize = 0;
    while i < first
        invariant
            first <= 32,
            first <= total,
            total <= 62,
            full@.len() == 62,
            full@.take(total as int) == bytes,
            0 <= i <= first,
            data_a@.len() == 32,
            forall|j: int| 0 <= j < i ==> #[trigger] data_a@[j] == bytes[j],
            forall|j: int| i <= j < 32 ==> #[trigger] data_a@[j] == 0,
        decreases first - i,
    {
        assert(full@[i as int] == full@.take(total as int)[i as int]);
        data_a[i] = full[i];
        i = i + 1;
    }
    assert(data_a@ =~= pad32(bytes.take(first as int)));

    let second: usize = total - first;
    let mut data_b = [0u8; 32];
    let mut i: usize = 0;
    while i < second
        invariant
            first <= 32,
            second == total - first,
            second > 0 ==> first == 32,
            total <= 62,
            full@.len() == 62,
            full@.take(total as int) == bytes,
            0 <= i <= second,
            data_b@.len() == 32,
            forall|j: int| 0 <= j < i ==> #[trigger] data_b@[j] == bytes[first + j],
            forall|j: int| i <= j < 32 ==> #[trigger] data_b@[j] == 0,
        decreases second - i,
    {
        assert(full@[32 + i] == full@.take(total as int)[32 + i]);
        data_b[i] = full[32 + i];
        i = i + 1;
    }
    assert(data_b@ =~= pad32(bytes.subrange(first as int, total as int)));
    ((base_reg, data_a, first as u8), (base_reg.wrapping_add(32), data_b, second as u8))
}

/// `downstream` with the boost level of `port` set to `level`.
pub open spec fn spec_with_boost_port(downstream: BoostDownstream, port: Port, level: BoostLevel) -> BoostDownstream {
    match port {
        Port::Port1 => downstream.spec_with_port1(level),
        Port::Port2 => downstream.spec_with_port2(level),
        Port::Port3 => downstream.spec_with_port3(level),
        Port::Port4 => downstream.spec_with_port4(level),
    }
}

/// `config` with physical `port` mapped to `logical` and port remapping
/// enabled.
pub open spec fn spec_with_port_map(config: Config, port: Port, logical: LogicalPort) -> Config {
    let config3 = config.config3.spec_with_port_map_enable(true);
    match port {
        Port::Port1 => Config {
            config3,
            port_map_12: config.port_map_12.spec_with_port1(logical),
            ..config
        },
        Port::Port2 => Config {
            config3,
            port_map_12: config.port_map_12.spec_with_port2(logical),
            ..config
        },
        Port::Port3 => Config {
            config3,
            port_map_34: config.port_map_34.spec_with_port3(logical),
            ..config
        },
        Port::Port4 => Config {
            config3,
            port_map_34: config.port_map_34.spec_with_port4(logical),
            ..config
        },
    }
}

/// The boost level that `downstream` gives physical `port`.
pub open spec fn boost_level_of(downstream: BoostDownstream, port: Port) -> BoostLevel {
    match port {
        Port::Port1 => downstream.spec_port1(),
        Port::Port2 => downstream.spec_port2(),
        Port::Port3 => downstream.spec_port3(),
        Port::Port4 => downstream.spec_port4(),
    }
}

/// After the downstream boost of `port` is set to `level`, the boost of
/// `port` reads back `level` and the boost of every other port is as
/// before.
pub proof fn lemma_boost_port_reads_back(downstream: BoostDownstream, port: Port, level: BoostLevel)
    ensures
        boost_level_of(spec_with_boost_port(downstream, port, level), port) == level,
        forall|other: Port|
            other != port ==> boost_level_of(spec_with_boost_port(downstream, port, level), other)
                == boost_level_of(downstream, other),
{
    match port {
        Port::Port1 => downstream.lemma_with_port1(level),
        Port::Port2 => downstream.lemma_with_port2(level),
        Port::Port3 => downstream.lemma_with_port3(level),
        Port::Port4 => downstream.lemma_with_port4(level),
    }
}

/// The logical port that `config` maps physical `port` to.
pub open spec fn mapped_port(config: Config, port: Port) -> LogicalPort {
    match port {
        Port::Port1 => config.port_map_12.spec_port1(),
        Port::Port2 => config.port_map_12.spec_port2(),
        Port::Port3 => config.port_map_34.spec_port3(),
        Port::Port4 => config.port_map_34.spec_port4(),
    }
}

/// The port-map field of physical `port` holds a logical port number.
pub open spec fn mapped_port_valid(config: Config, port: Port) -> bool {
    match port {
        Port::Port1 => config.port_map_12.port1_valid(),
        Port::Port2 => config.port_map_12.port2_valid(),
        Port::Port3 => config.port_map_34.port3_valid(),
        Port::Port4 => config.port_map_34.port4_valid(),
    }
}

/// After physical `port` is mapped to `logical`, `port` reads back
/// `logical`, every other physical port keeps its mapping, port remapping
/// is enabled, string support is as before, and no field other than the
/// port maps and configuration byte 3 changes.
pub proof fn lemma_port_map_reads_back(config: Config, port: Port, logical: LogicalPort)
    ensures
        ({
            let r = spec_with_port_map(config, port, logical);
            &&& mapped_port(r, port) == logical
            &&& mapped_port_valid(r, port)
            &&& forall|other: Port|
                other != port ==> mapped_port(r, other) == mapped_port(config, other)
                    && mapped_port_valid(r, other) == mapped_port_valid(config, other)
            &&& r.config3.spec_port_map_enable()
            &&& r.config3.spec_string_enable() == config.config3.spec_string_enable()
            &&& r == (Config {
                config3: r.config3,
                port_map_12: r.port_map_12,
                port_map_34: r.port_map_34,
                ..config
            })
        }),
{
    config.config3.lemma_with_port_map_enable(true);
    match port {
        Port::Port1 => config.port_map_12.lemma_with_port1(logical),
        Port::Port2 => config.port_map_12.lemma_with_port2(logical),
        Port::Port3 => config.port_map_34.lemma_with_port3(logical),
        Port::Port4 => config.port_map_34.lemma_with_port4(logical),
    }
}

/// Ergonomic builder for [`Config`].
///
/// Start with [`Config::builder`], chain setters, and finish with [`into_config`](ConfigBuilder::into_config).
/// String setters return `Result` since encoding can fail; all others return `Self`.
#[derive(Debug)]
pub struct ConfigBuilder {
    config: Config,
}

impl View for ConfigBuilder {
    /// The configuration built so far.
    type V = Config;

    closed spec fn view(&self) -> Config {
        self.config
    }
}

impl ConfigBuilder {
    fn new(variant: Variant) -> (r: ConfigBuilder)
        ensures
            r@.is_default_for(variant),
    {
        ConfigBuilder { config: Config::for_variant(variant) }
    }

    /// Sets the manufacturer string and enables string support.
    pub fn manufacturer(self, s: &str) -> (r: Result<ConfigBuilder, StringDescriptorError>)
        ensures
            r is Ok <==> encode_utf16(s@).len() <= MAX_STRING_CODEUNITS,
            r matches Ok(b) ==> b@.manufacturer_string@ == encode_utf16(s@) && b@ == (Config {
                manufacturer_string: b@.manufacturer_string,
                config3: self@.config3.spec_with_string_enable(true),
                ..self@
            }),
            r matches Err(e) ==> e == (StringDescriptorError::TooLong {
                len: encode_utf16(s@).len() as usize,
                max: MAX_STRING_CODEUNITS,
            }),
    {
        let mut this = self;
        this.config.manufacturer_string = StringDescriptor::encode(s)?;
        this.config.config3 = this.config.config3.with_string_enable(true);
        Ok(this)
    }

    /// Sets the product string and enables string support.
    pub fn product(self, s: &str) -> (r: Result<ConfigBuilder, StringDescriptorError>)
        ensures
            r is Ok <==> encode_utf16(s@).len() <= MAX_STRING_CODEUNITS,
            r matches Ok(b) ==> b@.product_string@ == encode_utf16(s@) && b@ == (Config {
                product_string: b@.product_string,
                config3: self@.config3.spec_with_string_enable(true),
                ..self@
            }),
            r matches Err(e) ==> e == (StringDescriptorError::TooLong {
                len: encode_utf16(s@).len() as usize,
                max: MAX_STRING_CODEUNITS,
            }),
    {
        let mut this = self;
        this.config.product_string = StringDescriptor::encode(s)?;
        this.config.config3 = this.config.config3.with_string_enable(true);
        Ok(this)
    }

    /// Sets the serial number string and enables string support.
    pub fn serial(self, s: &str) -> (r: Result<ConfigBuilder, StringDescriptorError>)
        ensures
            r is Ok <==> encode_utf16(s@).len() <= MAX_STRING_CODEUNITS,
            r matches Ok(b) ==> b@.serial_string@ == encode_utf16(s@) && b@ == (Config {
                serial_string: b@.serial_string,
                config3: self@.config3.spec_with_string_enable(true),
                ..self@
            }),
            r matches Err(e) ==> e == (StringDescriptorError::TooLong {
                len: encode_utf16(s@).len() as usize,
                max: MAX_STRING_CODEUNITS,
            }),
    {
        let mut this = self;
        this.config.serial_string = StringDescriptor::encode(s)?;
        this.config.config3 = this.config.config3.with_string_enable(true);
        Ok(this)
    }

    pub fn vendor_id(self, id: u16) -> (r: ConfigBuilder)
        ensures
            r@ == (Config { vendor_id: id, ..self@ }),
    {
        let mut this = self;
        this.config.vendor_id = id;
        this
    }

    pub fn product_id(self, id: u16) -> (r: ConfigBuilder)
        ensures
            r@ == (Config { product_id: id, ..self@ }),
    {
        let mut this = self;
        this.config.product_id = id;
        this
    }

    pub fn device_id(self, id: u16) -> (r: ConfigBuilder)
        ensures
            r@ == (Config { device_id: id, ..self@ }),
    {
        let mut this = self;
        this.config.device_id = id;
        this
    }

    pub fn compound(self, enabled: bool) -> (r: ConfigBuilder)
        ensures
            r@ == (Config { config2: self@.config2.spec_with_compound(enabled), ..self@ }),
    {
        let mut this = self;
        this.config.config2 = this.config.config2.with_compound(enabled);
        this
    }

    pub fn self_powered(self, enabled: bool) -> (r: ConfigBuilder)
        ensures
            r@ == (Config { config1: self@.config1.spec_with_self_bus_power(enabled), ..self@ }),
    {
        let mut this = self;
        this.config.config1 = this.config.config1.with_self_bus_power(enabled);
        this
    }

    pub fn mtt(self, enabled: bool) -> (r: ConfigBuilder)
        ensures
            r@ == (Config { config1: self@.config1.spec_with_mtt_enable(enabled), ..self@ }),
    {
        let mut this = self;
        this.config.config1 = this.config.config1.with_mtt_enable(enabled);
        this
    }

    /// Enables or disables high-speed operation (inverts `hs_disable` register bit).
    pub fn high_speed(self, enabled: bool) -> (r: ConfigBuilder)
        ensures
            r@ == (Config { config1: self@.config1.spec_with_hs_disable(!enabled), ..self@ }),
    {
        let mut this = self;
        this.config.config1 = this.config.config1.with_hs_disable(!enabled);
        this
    }

    pub fn power_switching(self, mode: PowerSwitching) -> (r: ConfigBuilder)
        ensures
            r@ == (Config { config1: self@.config1.spec_with_port_power(mode), ..self@ }),
    {
        let mut this = self;
        this.config.config1 = this.config.config1.with_port_power(mode);
        this
    }

    pub fn current_sensing(self, mode: CurrentSensing) -> (r: ConfigBuilder)
        ensures
            r@ == (Config { config1: self@.config1.spec_with_current_sensing(mode), ..self@ }),
    {
        let mut this = self;
        this.config.config1 = this.config.config1.with_current_sensing(mode);
        this
    }

    pub fn oc_timer(self, timer: OcTimer) -> (r: ConfigBuilder)
        ensures
            r@ == (Config { config2: self@.config2.spec_with_oc_timer(timer), ..self@ }),
    {
        let mut this = self;
        this.config.config2 = this.config.config2.with_oc_timer(timer);
        this
    }

    pub fn dynamic_power(self, enabled: bool) -> (r: ConfigBuilder)
        ensures
            r@ == (Config { config2: self@.config2.spec_with_dynamic_power(enabled), ..self@ }),
    {
        let mut this = self;
        this.config.config2 = this.config.config2.with_dynamic_power(enabled);
        this
    }

    /// Sets the non-removable ports, replacing any previous value.
    pub fn non_removable_ports(self, ports: &[Port]) -> (r: ConfigBuilder)
        ensures
            r@ == (Config { non_removable: spec_ports_to_bitfield(ports@), ..self@ }),
    {
        let mut this = self;
        this.config.non_removable = ports_to_bitfield(ports);
        this
    }

    /// Marks a single port as non-removable (additive).
    pub fn non_removable_port(self, port: Port) -> (r: ConfigBuilder)
        ensures
            r@ == (Config {
                non_removable: spec_set_port_bit(self@.non_removable, port, true),
                ..self@
            }),
    {
        let mut this = self;
        this.config.non_removable = set_port_bit(this.config.non_removable, port, true);
        this
    }

    /// Sets the disabled ports for both self-powered and bus-powered modes,
    /// replacing any previous value.
    pub fn disabled_ports(self, ports: &[Port]) -> (r: ConfigBuilder)
        ensures
            r@ == (Config {
                port_disable_self: spec_ports_to_bitfield(ports@),
                port_disable_bus: spec_ports_to_bitfield(ports@),
                ..self@
            }),
    {
        let mut this = self;
        let bf = ports_to_bitfield(ports);
        this.config.port_disable_self = bf;
        this.config.port_disable_bus = bf;
        this
    }

    /// Disables a single port in both power modes (additive).
    pub fn disable_port(self, port: Port) -> (r: ConfigBuilder)
        ensures
            r@ == (Config {
                port_disable_self: spec_set_port_bit(self@.port_disable_self, port, true),
                port_disable_bus: spec_set_port_bit(self@.port_disable_bus, port, true),
                ..self@
            }),
    {
        let mut this = self;
        this.config.port_disable_self = set_port_bit(this.config.port_disable_self, port, true);
        this.config.port_disable_bus = set_port_bit(this.config.port_disable_bus, port, true);
        this
    }

    pub fn max_power_self(self, ma: Milliamps) -> (r: ConfigBuilder)
        ensures
            r@ == (Config { max_power_self_ma: ma.0, ..self@ }),
    {
        let mut this = self;
        this.config.max_power_self_ma = ma.0;
        this
    }

    pub fn max_power_bus(self, ma: Milliamps) -> (r: ConfigBuilder)
        ensures
            r@ == (Config { max_power_bus_ma: ma.0, ..self@ }),
    {
        let mut this = self;
        this.config.max_power_bus_ma = ma.0;
        this
    }

    pub fn hub_current_self(self, ma: Milliamps) -> (r: ConfigBuilder)
        ensures
            r@ == (Config { hub_current_self_ma: ma.0, ..self@ }),
    {
        let mut this = self;
        this.config.hub_current_self_ma = ma.0;
        this
    }

    pub fn hub_current_bus(self, ma: Milliamps) -> (r: ConfigBuilder)
        ensures
            r@ == (Config { hub_current_bus_ma: ma.0, ..self@ }),
    {
        let mut this = self;
        this.config.hub_current_bus_ma = ma.0;
        this
    }

    pub fn power_on_time(self, ms: Milliseconds) -> (r: ConfigBuilder)
        ensures
            r@ == (Config { power_on_time_ms: ms.0, ..self@ }),
    {
        let mut this = self;
        this.config.power_on_time_ms = ms.0;
        this
    }

    pub fn language_id(self, id: u16) -> (r: ConfigBuilder)
        ensures
            r@ == (Config { language_id: id, ..self@ }),
    {
        let mut this = self;
        this.config.language_id = id;
        this
    }

    /// Sets the battery charging ports, replacing any previous value.
    pub fn battery_charging_ports(self, ports: &[Port]) -> (r: ConfigBuilder)
        ensures
            r@ == (Config { battery_charging: spec_ports_to_bitfield(ports@), ..self@ }),
    {
        let mut this = self;
        this.config.battery_charging = ports_to_bitfield(ports);
        this
    }

    /// Enables battery charging on a single port (additive).
    pub fn battery_charging_port(self, port: Port) -> (r: ConfigBuilder)
        ensures
            r@ == (Config {
                battery_charging: spec_set_port_bit(self@.battery_charging, port, true),
                ..self@
            }),
    {
        let mut this = self;
        this.config.battery_charging = set_port_bit(this.config.battery_charging, port, true);
        this
    }

    /// Sets the upstream boost level; the other bits of the register are cleared.
    pub fn boost_upstream(self, level: BoostLevel) -> (r: ConfigBuilder)
        ensures
            r@ == (Config {
                boost_upstream: BoostUpstream::from_view(0).spec_with_level(level),
                ..self@
            }),
    {
        let mut this = self;
        this.config.boost_upstream = BoostUpstream::new().with_level(level);
        this
    }

    pub fn boost_downstream_port(self, port: Port, level: BoostLevel) -> (r: ConfigBuilder)
        ensures
            r@ == (Config {
                boost_downstream: spec_with_boost_port(self@.boost_downstream, port, level),
                ..self@
            }),
    {
        let mut this = self;
        this.config.boost_downstream = match port {
            Port::Port1 => this.config.boost_downstream.with_port1(level),
            Port::Port2 => this.config.boost_downstream.with_port2(level),
            Port::Port3 => this.config.boost_downstream.with_port3(level),
            Port::Port4 => this.config.boost_downstream.with_port4(level),
        };
        this
    }

    /// Maps physical `port` to `logical` and enables port remapping.
    pub fn port_map(self, port: Port, logical: LogicalPort) -> (r: ConfigBuilder)
        ensures
            r@ == spec_with_port_map(self@, port, logical),
    {
        let mut this = self;
        this.config.config3 = this.config.config3.with_port_map_enable(true);
        match port {
            Port::Port1 => {
                this.config.port_map_12 = this.config.port_map_12.with_port1(logical);
            },
            Port::Port2 => {
                this.config.port_map_12 = this.config.port_map_12.with_port2(logical);
            },
            Port::Port3 => {
                this.config.port_map_34 = this.config.port_map_34.with_port3(logical);
            },
            Port::Port4 => {
                this.config.port_map_34 = this.config.port_map_34.with_port4(logical);
            },
        }
        this
    }

    /// Sets the port swap list, replacing any previous value.
    pub fn port_swap(self, ports: &[Port]) -> (r: ConfigBuilder)
        ensures
            r@ == (Config { port_swap: spec_ports_to_bitfield(ports@), ..self@ }),
    {
        let mut this = self;
        this.config.port_swap = ports_to_bitfield(ports);
        this
    }

    /// Swaps a single port's D+/D- lines (additive).
    pub fn swap_port(self, port: Port) -> (r: ConfigBuilder)
        ensures
            r@ == (Config { port_swap: spec_set_port_bit(self@.port_swap, port, true), ..self@ }),
    {
        let mut this = self;
        this.config.port_swap = set_port_bit(this.config.port_swap, port, true);
        this
    }

    /// The configuration built.
    pub fn into_config(self) -> (r: Config)
        ensures
            r == self@,
    {
        self.config
    }
}

} // verus!
