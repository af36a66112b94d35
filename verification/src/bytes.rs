//! Little-endian encoding of 32-bit words into byte buffers. Material
//! uniform blocks store every scalar, vector and matrix component as the
//! four little-endian bytes of its 32-bit bit pattern.

use vstd::prelude::*;

verus! {

/// The four little-endian bytes of a 32-bit word.
pub open spec fn spec_u32_le(x: u32) -> Seq<u8> {
    seq![
        (x & 0xff) as u8,
        ((x >> 8) & 0xff) as u8,
        ((x >> 16) & 0xff) as u8,
        ((x >> 24) & 0xff) as u8,
    ]
}

/// `s` with `data` written at byte offset `off`; everything else unchanged.
pub open spec fn spec_write_bytes(s: Seq<u8>, off: int, data: Seq<u8>) -> Seq<u8> {
    Seq::new(s.len(), |i: int| if off <= i < off + data.len() {
        data[i - off]
    } else {
        s[i]
    })
}

/// Write the four little-endian bytes of `x` at `off`.
pub fn write_u32_le(buf: &mut Vec<u8>, off: usize, x: u32)
    requires
        off + 4 <= old(buf)@.len(),
    ensures
        final(buf)@ =~= spec_write_bytes(old(buf)@, off as int, spec_u32_le(x)),
        final(buf)@.len() == old(buf)@.len(),
{
    let len = buf.len();
    assert(off + 4 <= len);
    let b0 = (x & 0xff) as u8;
    let b1 = ((x >> 8) & 0xff) as u8;
    let b2 = ((x >> 16) & 0xff) as u8;
    let b3 = ((x >> 24) & 0xff) as u8;
    buf.set(off, b0);
    buf.set(off + 1, b1);
    buf.set(off + 2, b2);
    buf.set(off + 3, b3);
    proof {
        assert(buf@ =~= spec_write_bytes(old(buf)@, off as int, spec_u32_le(x)));
    }
}

/// A zero-filled byte buffer of the given length.
pub fn zero_bytes(n: usize) -> (r: Vec<u8>)
    ensures
        r@ =~= Seq::new(n as nat, |i: int| 0u8),
{
    let mut v: Vec<u8> = Vec::new();
    for i in 0..n
        invariant
            v@.len() == i,
            forall|j: int| 0 <= j < i ==> v@[j] == 0u8,
    {
        v.push(0);
    }
    v
}

/// An exact copy of a byte buffer.
pub fn copy_bytes(v: &Vec<u8>) -> (r: Vec<u8>)
    ensures
        r@ == v@,
{
    let mut out: Vec<u8> = Vec::new();
    let n = v.len();
    for i in 0..n
        invariant
            n == v@.len(),
            out@.len() == i,
            forall|j: int| 0 <= j < i ==> out@[j] == v@[j],
    {
        out.push(v[i]);
    }
    proof {
        assert(out@ =~= v@);
    }
    out
}

} // verus!
