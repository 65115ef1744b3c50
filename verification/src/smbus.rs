//! SMBus block transfers as I2C byte sequences.
use vstd::prelude::*;

verus! {

/// The bytes of an SMBus block write to `register`: the register, the
/// byte count, then the data.
pub open spec fn spec_block_write_frame(register: u8, data: Seq<u8>) -> Seq<u8> {
    seq![register, data.len() as u8] + data
}

/// The I2C write of an SMBus block write: `[register, byte_count, data...]`.
///
/// The data of one block is at most 32 bytes.
pub fn block_write_payload(register: u8, data: &[u8]) -> (r: Vec<u8>)
    requires
        data@.len() <= 32,
    ensures
        r@ == spec_block_write_frame(register, data@),
{
    let len = data.len();
    let mut payload: Vec<u8> = Vec::with_capacity(2 + len);
    payload.push(register);
    payload.push(len as u8);
    let mut i: usize = 0;
    while i < len
        invariant
            len == data@.len(),
            len <= 32,
            0 <= i <= len,
            payload@ == seq![register, len as u8] + data@.take(i as int),
        decreases len - i,
    {
        payload.push(data[i]);
        assert(data@.take(i + 1) =~= data@.take(i as int).push(data@[i as int]));
        i = i + 1;
    }
    assert(data@.take(len as int) =~= data@);
    payload
}

/// The byte count that an SMBus block read reports: the first byte read.
pub fn block_read_count(buf: &[u8]) -> (r: u8)
    requires
        buf@.len() >= 1,
    ensures
        r == buf@[0],
{
    buf[0]
}

} // verus!
