//! Little-endian encoding of 16-bit integers into byte buffers.

use byteorder::{ByteOrder, LittleEndian};
use vstd::prelude::*;

verus! {

/// Byte `k` (0 or 1) of the little-endian encoding of `v`.
pub open spec fn le_byte(v: u16, k: int) -> u8 {
    if k == 0 {
        (v % 256) as u8
    } else {
        (v / 256) as u8
    }
}

/// The two bytes of the little-endian encoding of `v`.
pub open spec fn le_bytes(v: u16) -> Seq<u8> {
    seq![le_byte(v, 0), le_byte(v, 1)]
}

/// The 16-bit integer stored little-endian at `off` in `b`.
pub open spec fn u16_at(b: Seq<u8>, off: int) -> u16 {
    (b[off] as int + 256 * (b[off + 1] as int)) as u16
}

/// `buffer` with its first `prefix.len()` bytes replaced by `prefix`.
pub open spec fn overwrite(buffer: Seq<u8>, prefix: Seq<u8>) -> Seq<u8> {
    prefix + buffer.subrange(prefix.len() as int, buffer.len() as int)
}

/// Decoding the two bytes of an encoding gives the value back.
pub proof fn lemma_le_round_trip(v: u16)
    ensures
        u16_at(le_bytes(v), 0) == v,
{
    assert((v % 256) as int + 256 * ((v / 256) as int) == v as int);
}

/// Relies on byteorder's `LittleEndian::read_u16`, which decodes the first two
/// bytes of the slice it is given (and panics when it has fewer).
#[verifier::external_body]
pub(crate) fn read_u16_le(buf: &[u8], off: usize) -> (r: u16)
    requires
        off + 2 <= buf@.len(),
    ensures
        r == u16_at(buf@, off as int),
{
    LittleEndian::read_u16(&buf[off..])
}

/// Relies on byteorder's `LittleEndian::write_u16`, which writes the two bytes
/// of `n.to_le_bytes()` at the start of the slice it is given and touches
/// nothing else (it panics when the slice is shorter than two bytes).
#[verifier::external_body]
pub(crate) fn write_u16_le(buf: &mut Vec<u8>, off: usize, v: u16)
    requires
        off + 2 <= old(buf)@.len(),
    ensures
        final(buf)@ == old(buf)@.update(off as int, le_byte(v, 0)).update(
            off + 1,
            le_byte(v, 1),
        ),
{
    LittleEndian::write_u16(&mut buf[off..], v)
}

} // verus!
