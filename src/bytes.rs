//! Fixed-width little-endian field codec shared by the persisted records and
//! the instruction decoder.
use vstd::prelude::*;

verus! {

/// The eight little-endian bytes of `v`.
pub open spec fn le_bytes(v: u64) -> Seq<u8> {
    seq![
        v as u8,
        (v >> 8u64) as u8,
        (v >> 16u64) as u8,
        (v >> 24u64) as u8,
        (v >> 32u64) as u8,
        (v >> 40u64) as u8,
        (v >> 48u64) as u8,
        (v >> 56u64) as u8,
    ]
}

/// The value of eight little-endian bytes.
pub open spec fn le_value(b: Seq<u8>) -> u64
    recommends
        b.len() == 8,
{
    (b[0] as u64) | ((b[1] as u64) << 8u64) | ((b[2] as u64) << 16u64) | ((b[3] as u64)
        << 24u64) | ((b[4] as u64) << 32u64) | ((b[5] as u64) << 40u64) | ((b[6] as u64)
        << 48u64) | ((b[7] as u64) << 56u64)
}

/// The eight little-endian bytes of a signed value (two's complement).
pub open spec fn le_bytes_i64(v: i64) -> Seq<u8> {
    le_bytes(v as u64)
}

/// The signed value of eight little-endian bytes (two's complement).
pub open spec fn le_value_i64(b: Seq<u8>) -> i64
    recommends
        b.len() == 8,
{
    le_value(b) as i64
}

/// Reading back the bytes of `v` gives `v`.
pub proof fn lemma_le_round_trip(v: u64)
    ensures
        le_value(le_bytes(v)) == v,
{
    let b0 = v as u8;
    let b1 = (v >> 8u64) as u8;
    let b2 = (v >> 16u64) as u8;
    let b3 = (v >> 24u64) as u8;
    let b4 = (v >> 32u64) as u8;
    let b5 = (v >> 40u64) as u8;
    let b6 = (v >> 48u64) as u8;
    let b7 = (v >> 56u64) as u8;
    assert((b0 as u64) | ((b1 as u64) << 8u64) | ((b2 as u64) << 16u64) | ((b3 as u64)
        << 24u64) | ((b4 as u64) << 32u64) | ((b5 as u64) << 40u64) | ((b6 as u64) << 48u64)
        | ((b7 as u64) << 56u64) == v) by (bit_vector)
        requires
            b0 == v as u8,
            b1 == (v >> 8u64) as u8,
            b2 == (v >> 16u64) as u8,
            b3 == (v >> 24u64) as u8,
            b4 == (v >> 32u64) as u8,
            b5 == (v >> 40u64) as u8,
            b6 == (v >> 48u64) as u8,
            b7 == (v >> 56u64) as u8,
    ;
}

/// Reading back the bytes of a signed `v` gives `v`.
pub proof fn lemma_le_round_trip_i64(v: i64)
    ensures
        le_value_i64(le_bytes_i64(v)) == v,
{
    lemma_le_round_trip(v as u64);
    let u = v as u64;
    assert((u as i64) == v) by (bit_vector)
        requires
            u == v as u64,
    ;
}

/// Writes the little-endian bytes of `v` at `off`, leaving every other byte alone.
pub fn write_u64_le(dst: &mut [u8], off: usize, v: u64)
    requires
        off + 8 <= old(dst)@.len(),
    ensures
        final(dst)@ == old(dst)@.subrange(0, off as int) + le_bytes(v) + old(dst)@.subrange(
            off + 8,
            old(dst)@.len() as int,
        ),
{
    dst[off] = v as u8;
    dst[off + 1] = (v >> 8u64) as u8;
    dst[off + 2] = (v >> 16u64) as u8;
    dst[off + 3] = (v >> 24u64) as u8;
    dst[off + 4] = (v >> 32u64) as u8;
    dst[off + 5] = (v >> 40u64) as u8;
    dst[off + 6] = (v >> 48u64) as u8;
    dst[off + 7] = (v >> 56u64) as u8;
    assert(dst@ =~= old(dst)@.subrange(0, off as int) + le_bytes(v) + old(dst)@.subrange(
        off + 8,
        old(dst)@.len() as int,
    ));
}

/// Writes the two's complement little-endian bytes of `v` at `off`.
pub fn write_i64_le(dst: &mut [u8], off: usize, v: i64)
    requires
        off + 8 <= old(dst)@.len(),
    ensures
        final(dst)@ == old(dst)@.subrange(0, off as int) + le_bytes_i64(v) + old(
            dst,
        )@.subrange(off + 8, old(dst)@.len() as int),
{
    write_u64_le(dst, off, v as u64);
}

/// Reads the little-endian value of the eight bytes at `off`.
pub fn read_u64_le(src: &[u8], off: usize) -> (r: u64)
    requires
        off + 8 <= src@.len(),
    ensures
        r == le_value(src@.subrange(off as int, off + 8)),
{
    let ghost b = src@.subrange(off as int, off + 8);
    assert(b[0] == src@[off as int] && b[1] == src@[off + 1] && b[2] == src@[off + 2] && b[3]
        == src@[off + 3] && b[4] == src@[off + 4] && b[5] == src@[off + 5] && b[6] == src@[off
        + 6] && b[7] == src@[off + 7]);
    (src[off] as u64) | ((src[off + 1] as u64) << 8u64) | ((src[off + 2] as u64) << 16u64) | ((
    src[off + 3] as u64) << 24u64) | ((src[off + 4] as u64) << 32u64) | ((src[off + 5] as u64)
        << 40u64) | ((src[off + 6] as u64) << 48u64) | ((src[off + 7] as u64) << 56u64)
}

/// Reads the two's complement little-endian value of the eight bytes at `off`.
pub fn read_i64_le(src: &[u8], off: usize) -> (r: i64)
    requires
        off + 8 <= src@.len(),
    ensures
        r == le_value_i64(src@.subrange(off as int, off + 8)),
{
    read_u64_le(src, off) as i64
}

/// Copies the 32 bytes at `off` out of `src`.
pub fn read_bytes32(src: &[u8], off: usize) -> (r: [u8; 32])
    requires
        off + 32 <= src@.len(),
    ensures
        r@ == src@.subrange(off as int, off + 32),
{
    let n = src.len();
    let mut out = [0u8; 32];
    let mut i: usize = 0;
    while i < 32
        invariant
            i <= 32,
            off + 32 <= n,
            n == src@.len(),
            forall|j: int| 0 <= j < i ==> out@[j] == src@[off + j],
        decreases 32 - i,
    {
        out[i] = src[off + i];
        i += 1;
    }
    assert(out@ =~= src@.subrange(off as int, off + 32));
    out
}

/// Writes the 32 bytes of `b` at `off`, leaving every other byte alone.
pub fn write_bytes32(dst: &mut [u8], off: usize, b: &[u8; 32])
    requires
        off + 32 <= old(dst)@.len(),
    ensures
        final(dst)@ == old(dst)@.subrange(0, off as int) + b@ + old(dst)@.subrange(
            off + 32,
            old(dst)@.len() as int,
        ),
{
    let n = dst.len();
    let mut i: usize = 0;
    while i < 32
        invariant
            i <= 32,
            off + 32 <= n,
            n == old(dst)@.len(),
            dst@.len() == old(dst)@.len(),
            forall|j: int| 0 <= j < off ==> dst@[j] == old(dst)@[j],
            forall|j: int| off + 32 <= j < dst@.len() ==> dst@[j] == old(dst)@[j],
            forall|j: int| 0 <= j < i ==> dst@[off + j] == b@[j],
        decreases 32 - i,
    {
        dst[off + i] = b[i];
        i += 1;
    }
    assert(dst@ =~= old(dst)@.subrange(0, off as int) + b@ + old(dst)@.subrange(
        off + 32,
        old(dst)@.len() as int,
    ));
}

} // verus!
