//! Big-endian fields, the start code, and appending to a byte buffer.
use vstd::prelude::*;

verus! {

/// The four bytes that precede every NAL unit of a start-code-delimited
/// bitstream.
pub open spec fn start_code() -> Seq<u8> {
    seq![0u8, 0u8, 0u8, 1u8]
}

/// A NAL unit in start-code-delimited layout.
pub open spec fn nal_unit(payload: Seq<u8>) -> Seq<u8> {
    start_code() + payload
}

/// The unsigned 16-bit big-endian number at `at`.
pub open spec fn be16(data: Seq<u8>, at: int) -> int {
    data[at] as int * 0x100 + data[at + 1] as int
}

/// The unsigned 32-bit big-endian number at `at`.
pub open spec fn be32(data: Seq<u8>, at: int) -> int {
    data[at] as int * 0x100_0000 + data[at + 1] as int * 0x1_0000 + data[at + 2] as int * 0x100
        + data[at + 3] as int
}

pub(crate) fn read_be16(data: &[u8], at: usize) -> (n: usize)
    requires
        at + 2 <= data@.len(),
    ensures
        n == be16(data@, at as int),
        n <= 0xFFFF,
{
    let hi: usize = data[at] as usize;
    let lo: usize = data[at + 1] as usize;
    hi * 0x100 + lo
}

pub(crate) fn read_be32(data: &[u8], at: usize) -> (n: u32)
    requires
        at + 4 <= data@.len(),
    ensures
        n == be32(data@, at as int),
{
    let b0: u32 = data[at] as u32;
    let b1: u32 = data[at + 1] as u32;
    let b2: u32 = data[at + 2] as u32;
    let b3: u32 = data[at + 3] as u32;
    b0 * 0x100_0000 + b1 * 0x1_0000 + b2 * 0x100 + b3
}

pub(crate) fn push_start_code(out: &mut Vec<u8>)
    ensures
        final(out)@ == old(out)@ + start_code(),
{
    out.push(0);
    out.push(0);
    out.push(0);
    out.push(1);
    assert(out@ =~= old(out)@ + start_code());
}

pub(crate) fn push_bytes(out: &mut Vec<u8>, bytes: &[u8])
    ensures
        final(out)@ == old(out)@ + bytes@,
{
    out.extend_from_slice(bytes);
    assert(out@ =~= old(out)@ + bytes@);
}

pub(crate) fn push_range(out: &mut Vec<u8>, data: &[u8], from: usize, to: usize)
    requires
        from <= to <= data@.len(),
    ensures
        final(out)@ == old(out)@ + data@.subrange(from as int, to as int),
{
    push_bytes(out, vstd::slice::slice_subrange(data, from, to));
}

} // verus!
