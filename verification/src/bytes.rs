//! Little-endian readers for the multi-byte numeric fields of the format.

use vstd::prelude::*;

use crate::error::DecodeError;

verus! {

/// The 32-bit value stored little-endian at offset `i` of `s`.
pub open spec fn spec_le_u32(s: Seq<u8>, i: int) -> u32
    recommends
        0 <= i,
        i + 4 <= s.len(),
{
    (s[i] + s[i + 1] * 0x100 + s[i + 2] * 0x1_0000 + s[i + 3] * 0x100_0000) as u32
}

/// The 64-bit value stored little-endian at offset `i` of `s`.
pub open spec fn spec_le_u64(s: Seq<u8>, i: int) -> u64
    recommends
        0 <= i,
        i + 8 <= s.len(),
{
    (s[i] + s[i + 1] * 0x100 + s[i + 2] * 0x1_0000 + s[i + 3] * 0x100_0000 + s[i + 4]
        * 0x1_0000_0000 + s[i + 5] * 0x100_0000_0000 + s[i + 6] * 0x1_0000_0000_0000 + s[i + 7]
        * 0x100_0000_0000_0000) as u64
}

/// The run of `n` consecutive 32-bit little-endian values that starts at
/// offset `start` of `s`.
pub open spec fn spec_le_u32_run(s: Seq<u8>, start: int, n: int) -> Seq<u32> {
    Seq::new(n as nat, |i: int| spec_le_u32(s, start + 4 * i))
}

/// Read the 32-bit little-endian field at offset `off`.
pub fn le_u32_at(buffer: &[u8], off: usize) -> (r: u32)
    requires
        off + 4 <= buffer@.len(),
    ensures
        r == spec_le_u32(buffer@, off as int),
{
    buffer[off] as u32 + buffer[off + 1] as u32 * 0x100 + buffer[off + 2] as u32 * 0x1_0000
        + buffer[off + 3] as u32 * 0x100_0000
}

/// Read the 64-bit little-endian field at offset `off`.
pub fn le_u64_at(buffer: &[u8], off: usize) -> (r: u64)
    requires
        off + 8 <= buffer@.len(),
    ensures
        r == spec_le_u64(buffer@, off as int),
{
    buffer[off] as u64 + buffer[off + 1] as u64 * 0x100 + buffer[off + 2] as u64 * 0x1_0000
        + buffer[off + 3] as u64 * 0x100_0000 + buffer[off + 4] as u64 * 0x1_0000_0000 + buffer[off
        + 5] as u64 * 0x100_0000_0000 + buffer[off + 6] as u64 * 0x1_0000_0000_0000 + buffer[off
        + 7] as u64 * 0x100_0000_0000_0000
}

/// Read a run of `n` consecutive 32-bit little-endian values starting at
/// offset `start`, or report the buffer as truncated if fewer than `4 * n`
/// bytes remain there.
pub fn read_le_u32_run(buffer: &[u8], start: usize, n: u32) -> (r: Result<Vec<u32>, DecodeError>)
    requires
        start <= buffer@.len(),
    ensures
        buffer@.len() - start >= 4 * n ==> (r matches Ok(v) && v@ == spec_le_u32_run(
            buffer@,
            start as int,
            n as int,
        )),
        buffer@.len() - start < 4 * n ==> r == Err::<Vec<u32>, DecodeError>(DecodeError::Truncated),
{
    let blen: usize = buffer.len();
    if ((blen - start) as u64) < 4 * (n as u64) {
        return Err(DecodeError::Truncated);
    }
    let mut v: Vec<u32> = Vec::new();
    let mut i: u32 = 0;
    while i < n
        invariant
            i <= n,
            blen == buffer@.len(),
            start + 4 * n <= blen,
            v@ == spec_le_u32_run(buffer@, start as int, i as int),
        decreases n - i,
    {
        v.push(le_u32_at(buffer, start + 4 * (i as usize)));
        i = i + 1;
        proof {
            assert(v@ =~= spec_le_u32_run(buffer@, start as int, i as int));
        }
    }
    Ok(v)
}

} // verus!
