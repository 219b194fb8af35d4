//! Little-endian 16-bit integers, the unit of every chat link payload.
use vstd::prelude::*;

verus! {

/// The value of the two bytes `lo`, `hi` read as a little-endian `u16`.
pub open spec fn le_value(lo: u8, hi: u8) -> u16 {
    (lo as int + 256 * (hi as int)) as u16
}

/// The two bytes that encode `v` in little-endian order.
pub open spec fn le_bytes(v: u16) -> Seq<u8> {
    seq![(v % 256) as u8, (v / 256) as u8]
}

/// The `u16` stored at `pos` in `bytes`, little-endian.
pub open spec fn le_at(bytes: Seq<u8>, pos: int) -> u16 {
    le_value(bytes[pos], bytes[pos + 1])
}

/// Encoding a value and reading it back gives the value.
pub proof fn lemma_le_roundtrip(v: u16)
    ensures
        le_bytes(v).len() == 2,
        le_value(le_bytes(v)[0], le_bytes(v)[1]) == v,
{
}

/// Reading two bytes and encoding the value gives the bytes.
pub proof fn lemma_le_bytes_of_value(lo: u8, hi: u8)
    ensures
        le_bytes(le_value(lo, hi)) == seq![lo, hi],
{
    assert(le_bytes(le_value(lo, hi)) =~= seq![lo, hi]);
}

/// Reads the little-endian `u16` at `pos`, or `None` when fewer than two bytes remain.
pub fn read_u16_le(bytes: &[u8], pos: usize) -> (r: Option<u16>)
    ensures
        pos + 2 <= bytes@.len() ==> r == Some(le_at(bytes@, pos as int)),
        pos + 2 > bytes@.len() ==> r is None,
{
    if pos < bytes.len() && bytes.len() - pos >= 2 {
        let lo = bytes[pos];
        let hi = bytes[pos + 1];
        Some(lo as u16 + (hi as u16) * 256)
    } else {
        None
    }
}

/// Appends the little-endian encoding of `v`.
pub fn push_u16_le(buf: &mut Vec<u8>, v: u16)
    ensures
        final(buf)@ == old(buf)@ + le_bytes(v),
{
    buf.push((v % 256) as u8);
    buf.push((v / 256) as u8);
    assert(final(buf)@ =~= old(buf)@ + le_bytes(v));
}

} // verus!
