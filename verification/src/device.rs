//! The hub driver: the bus it owns and the I2C writes that each of its
//! operations makes.
use crate::bits::field_set;
use crate::config::{chunk_view, Config};
use crate::register::{REG_STATUS_COMMAND, StatusCommand};
use crate::smbus::{block_write_payload, spec_block_write_frame};
use vstd::slice::slice_subrange;
use vstd::prelude::*;

verus! {

broadcast use crate::register::group_register_views;

/// Synchronous driver for the USB251xB/xBi hub controller.
///
/// The underlying I2C bus must be configured at or below 100 kHz
/// (SMBus frequency limit).
pub struct Usb251xb<I> {
    i2c: I,
}

impl<I> Usb251xb<I> {
    /// The bus the driver owns.
    pub closed spec fn bus(&self) -> I {
        self.i2c
    }

    /// Creates a new driver instance, taking ownership of the I2C bus.
    ///
    /// The bus must be configured at or below 100 kHz.
    pub fn new(i2c: I) -> (r: Usb251xb<I>)
        ensures
            r.bus() == i2c,
    {
        Usb251xb { i2c }
    }

    /// The bus, for the transfers of the driver's operations.
    pub fn bus_mut(&mut self) -> (r: &mut I)
        ensures
            *r == old(self).bus(),
            final(self).bus() == *final(r),
    {
        &mut self.i2c
    }

    /// Releases the I2C bus, consuming the driver.
    pub fn release(self) -> (r: I)
        ensures
            r == self.bus(),
    {
        self.i2c
    }
}


/// The I2C writes that configure the hub from `chunks`: one SMBus block
/// write per chunk whose length is not 0, in order.
pub open spec fn spec_configure_writes(chunks: Seq<(u8, Seq<u8>, u8)>) -> Seq<Seq<u8>>
    decreases chunks.len(),
{
    if chunks.len() == 0 {
        Seq::empty()
    } else {
        let rest = spec_configure_writes(chunks.drop_last());
        let chunk = chunks.last();
        if chunk.2 == 0 {
            rest
        } else {
            rest.push(spec_block_write_frame(chunk.0, chunk.1.take(chunk.2 as int)))
        }
    }
}

/// The configure writes are the SMBus block writes of the chunks whose
/// length is not 0, one each and in order, whatever their registers: the
/// write of a chunk `(reg, data, len)` is `reg`, `len`, then the first
/// `len` bytes of `data`.
pub proof fn lemma_configure_writes_are_block_writes(chunks: Seq<(u8, Seq<u8>, u8)>)
    requires
        forall|k: int| 0 <= k < chunks.len() ==> #[trigger] chunks[k].2 <= chunks[k].1.len(),
    ensures
        spec_configure_writes(chunks) == chunks.filter(|c: (u8, Seq<u8>, u8)| c.2 != 0).map_values(
            |c: (u8, Seq<u8>, u8)| seq![c.0, c.2] + c.1.take(c.2 as int),
        ),
    decreases chunks.len(),
{
    let pred = |c: (u8, Seq<u8>, u8)| c.2 != 0;
    let frame = |c: (u8, Seq<u8>, u8)| seq![c.0, c.2] + c.1.take(c.2 as int);
    reveal_with_fuel(Seq::<(u8, Seq<u8>, u8)>::filter, 1);
    if chunks.len() == 0 {
        assert(chunks.filter(pred).map_values(frame) =~= Seq::<Seq<u8>>::empty());
    } else {
        let rest = chunks.drop_last();
        assert forall|k: int| 0 <= k < rest.len() implies #[trigger] rest[k].2 <= rest[k].1.len() by {
            assert(rest[k] == chunks[k]);
        }
        lemma_configure_writes_are_block_writes(rest);
        let last = chunks.last();
        assert(last == chunks[chunks.len() - 1]);
        if last.2 != 0 {
            assert(last.1.take(last.2 as int).len() == last.2);
            assert(spec_block_write_frame(last.0, last.1.take(last.2 as int)) =~= frame(last));
            assert(rest.filter(pred).push(last).map_values(frame) =~= rest.filter(pred).map_values(
                frame,
            ).push(frame(last)));
        }
    }
}

/// The value of the status/command register that attaches the hub to USB.
pub open spec fn spec_attach_command() -> u8 {
    StatusCommand::from_view(0).spec_with_usb_attach(true)@
}

/// The value of the status/command register that resets the hub.
pub open spec fn spec_reset_command() -> u8 {
    StatusCommand::from_view(0).spec_with_reset(true)@
}

/// The I2C writes that write the full configuration to the hub controller,
/// in order: one SMBus block write per non-empty register chunk.
pub fn configure_writes(config: &Config) -> (r: Vec<Vec<u8>>)
    ensures
        r@.map_values(|w: Vec<u8>| w@) == spec_configure_writes(config.spec_register_chunks()),
        forall|k: int| 0 <= k < r@.len() ==> 3 <= #[trigger] r@[k]@.len() <= 34,
{
    let chunks = config.to_register_chunks();
    let ghost spec_chunks = config.spec_register_chunks();
    let mut writes: Vec<Vec<u8>> = Vec::new();
    let mut k: usize = 0;
    while k < 12
        invariant
            0 <= k <= 12,
            spec_chunks == config.spec_register_chunks(),
            spec_chunks.len() == 12,
            chunks@.map_values(|c: (u8, [u8; 32], u8)| chunk_view(c)) == spec_chunks,
            forall|j: int| 0 <= j < 12 ==> #[trigger] chunks@[j].2 <= 32,
            writes@.map_values(|w: Vec<u8>| w@) == spec_configure_writes(
                spec_chunks.take(k as int),
            ),
            forall|j: int| 0 <= j < writes@.len() ==> 3 <= #[trigger] writes@[j]@.len() <= 34,
        decreases 12 - k,
    {
        let (reg, data, len) = chunks[k];
        assert(chunk_view(chunks@[k as int]) == spec_chunks[k as int]);
        assert(spec_chunks.take(k + 1).drop_last() =~= spec_chunks.take(k as int));
        assert(spec_chunks.take(k + 1).last() == spec_chunks[k as int]);
        if len != 0 {
            let w = block_write_payload(reg, slice_prefix(&data, len as usize));
            let ghost before = writes@;
            writes.push(w);
            assert(writes@.map_values(|w: Vec<u8>| w@) =~= before.map_values(|w: Vec<u8>| w@).push(
                w@,
            ));
        }
        k = k + 1;
    }
    assert(spec_chunks.take(12) =~= spec_chunks);
    writes
}

/// The first `n` bytes of a chunk's data.
fn slice_prefix(data: &[u8; 32], n: usize) -> (r: &[u8])
    requires
        n <= 32,
    ensures
        r@ == data@.take(n as int),
{
    let s: &[u8] = data.as_slice();
    slice_subrange(s, 0, n)
}

/// The I2C write that triggers USB attach so the host enumerates the hub.
pub fn attach_write() -> (r: Vec<u8>)
    ensures
        r@ == spec_block_write_frame(REG_STATUS_COMMAND, seq![spec_attach_command()]),
        r@ == seq![0xFFu8, 1, 0x01],
{
    let cmd = StatusCommand::new().with_usb_attach(true);
    let bytes = cmd.into_bytes();
    assert(field_set(0, 0, 1, 1) == 1) by (bit_vector);
    let r = block_write_payload(REG_STATUS_COMMAND, bytes.as_slice());
    assert(r@ =~= seq![0xFFu8, 1, 0x01]);
    r
}

/// The I2C write that resets the hub controller.
pub fn reset_write() -> (r: Vec<u8>)
    ensures
        r@ == spec_block_write_frame(REG_STATUS_COMMAND, seq![spec_reset_command()]),
        r@ == seq![0xFFu8, 1, 0x02],
{
    let cmd = StatusCommand::new().with_reset(true);
    let bytes = cmd.into_bytes();
    assert(field_set(0, 1, 1, 1) == 2) by (bit_vector);
    let r = block_write_payload(REG_STATUS_COMMAND, bytes.as_slice());
    assert(r@ =~= seq![0xFFu8, 1, 0x02]);
    r
}

} // verus!
