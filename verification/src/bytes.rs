//! Small helpers on bytes and byte vectors.

use vstd::prelude::*;

verus! {

/// Low byte of a 16-bit number.
pub open spec fn low_byte(x: int) -> u8 {
    (x % 256) as u8
}

/// Second byte of a number, counted from the low end.
pub open spec fn high_byte(x: int) -> u8 {
    ((x / 256) % 256) as u8
}

/// The two bytes of `x`, low byte first.
pub fn split_u16(x: u16) -> (r: (u8, u8))
    ensures
        r.0 == low_byte(x as int),
        r.1 == high_byte(x as int),
        r.0 as int + 256 * (r.1 as int) == x as int,
{
    let lo: u8 = (x & 0xFF) as u8;
    let hi: u8 = ((x >> 8) & 0xFF) as u8;
    assert(x & 0xFF == x % 256) by (bit_vector);
    assert((x >> 8) & 0xFF == x / 256) by (bit_vector);
    (lo, hi)
}

/// The two low bytes of `x`, low byte first; what lies above them is dropped.
pub fn low_two_bytes(x: u32) -> (r: (u8, u8))
    ensures
        r.0 == low_byte(x as int),
        r.1 == high_byte(x as int),
{
    let lo: u8 = (x & 0xFF) as u8;
    let hi: u8 = ((x >> 8) & 0xFF) as u8;
    assert(x & 0xFF == x % 256) by (bit_vector);
    assert((x >> 8) & 0xFF == (x / 256) % 256) by (bit_vector);
    (lo, hi)
}

/// `n` copies of `b`.
pub open spec fn repeat_byte(b: u8, n: nat) -> Seq<u8> {
    Seq::new(n, |i: int| b)
}

/// A vector of `n` copies of `b`.
pub fn repeated(b: u8, n: usize) -> (r: Vec<u8>)
    ensures
        r@ == repeat_byte(b, n as nat),
{
    let mut out: Vec<u8> = Vec::new();
    let mut i: usize = 0;
    while i < n
        invariant
            i <= n,
            out@ =~= repeat_byte(b, i as nat),
        decreases n - i,
    {
        out.push(b);
        i += 1;
    }
    out
}

/// Appends `src` to `dst`.
pub fn append_bytes(dst: &mut Vec<u8>, src: &Vec<u8>)
    ensures
        final(dst)@ == old(dst)@ + src@,
{
    dst.extend_from_slice(src.as_slice());
}

} // verus!
