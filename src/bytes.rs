use vstd::prelude::*;

verus! {

/// The unsigned 16-bit little-endian integer held in `b[i]`, `b[i + 1]`.
pub open spec fn le_u16(b: Seq<u8>, i: int) -> int {
    b[i] as int + 256 * (b[i + 1] as int)
}

/// The unsigned 32-bit little-endian integer held in `b[i] .. b[i + 4]`.
pub open spec fn le_u32(b: Seq<u8>, i: int) -> int {
    le_u16(b, i) + 65536 * le_u16(b, i + 2)
}

/// The two's-complement 16-bit little-endian integer held in `b[i]`, `b[i + 1]`.
pub open spec fn le_i16(b: Seq<u8>, i: int) -> int {
    let v = le_u16(b, i);
    if v < 32768 {
        v
    } else {
        v - 65536
    }
}

/// Reads a little-endian `u16` at `index`.
pub fn read_u16(buf: &Vec<u8>, index: usize) -> (r: u16)
    requires
        index + 2 <= buf.len(),
    ensures
        r as int == le_u16(buf@, index as int),
{
    let lo = buf[index] as u16;
    let hi = buf[index + 1] as u16;
    lo + hi * 256
}

/// Reads a little-endian `u32` at `index`.
pub fn read_u32(buf: &Vec<u8>, index: usize) -> (r: u32)
    requires
        index + 4 <= buf.len(),
    ensures
        r as int == le_u32(buf@, index as int),
{
    let lo = read_u16(buf, index) as u32;
    let hi = read_u16(buf, index + 2) as u32;
    assert(hi * 65536 <= 65535 * 65536) by (nonlinear_arith)
        requires
            hi <= 65535,
    ;
    lo + hi * 65536
}

/// Reads a little-endian two's-complement `i16` at `index`.
pub fn read_i16(buf: &Vec<u8>, index: usize) -> (r: i16)
    requires
        index + 2 <= buf.len(),
    ensures
        r as int == le_i16(buf@, index as int),
{
    let v = read_u16(buf, index);
    if v < 32768 {
        v as i16
    } else {
        (v as i32 - 65536) as i16
    }
}

} // verus!
