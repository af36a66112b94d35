//! Pixel-data widening for formats the GPU cannot sample directly: RGB
//! images gain an alpha channel, 8-bit with opaque alpha 255 and 16-bit
//! half-float with opaque alpha 1.0 (little-endian bytes 0x00, 0x3C).

use vstd::prelude::*;

verus! {

/// The byte at position `j` of the widened RGBA8 image: pixel `j / 4`'s
/// channel `j % 4`, where the fourth channel is the constant alpha 255.
pub open spec fn spec_rgba8_byte(orig: Seq<u8>, j: int) -> u8 {
    if j % 4 == 3 {
        255
    } else {
        orig[3 * (j / 4) + j % 4]
    }
}

/// Widen `size` RGB8 pixels to RGBA8, alpha 255.
pub fn rgb8_to_rgba8(orig_data: &[u8], size: usize) -> (r: Vec<u8>)
    requires
        3 * size <= orig_data@.len(),
        4 * size <= usize::MAX,
    ensures
        r@.len() == 4 * size,
        forall|j: int| 0 <= j < 4 * size ==> #[trigger] r@[j] == spec_rgba8_byte(orig_data@, j),
{
    let mut data: Vec<u8> = Vec::new();
    for i in 0..size
        invariant
            3 * size <= orig_data@.len(),
            4 * size <= usize::MAX,
            data@.len() == 4 * i,
            forall|j: int|
                0 <= j < data@.len() ==> #[trigger] data@[j] == spec_rgba8_byte(orig_data@, j),
    {
        data.push(orig_data[3 * i]);
        data.push(orig_data[3 * i + 1]);
        data.push(orig_data[3 * i + 2]);
        data.push(255);
        proof {
            assert forall|j: int| 0 <= j < data@.len() implies #[trigger] data@[j]
                == spec_rgba8_byte(orig_data@, j) by {
                if j >= 4 * i {
                    assert(j / 4 == i as int && (j % 4 == j - 4 * i)) by (nonlinear_arith)
                        requires
                            4 * i <= j < 4 * i + 4,
                    ;
                }
            }
        }
    }
    data
}

/// The byte at position `j` of the widened RGBA16 image: pixel `j / 8`'s
/// byte `j % 8`, where the last two bytes are the half-float 1.0 alpha
/// (0x00, 0x3C little-endian).
pub open spec fn spec_rgba16_byte(orig: Seq<u8>, j: int) -> u8 {
    if j % 8 == 6 {
        0
    } else if j % 8 == 7 {
        60
    } else {
        orig[6 * (j / 8) + j % 8]
    }
}

/// Widen `size` RGB16 pixels (six bytes each) to RGBA16 half-float, alpha
/// 1.0.
pub fn rgb16_to_rgba16(orig_data: &[u8], size: usize) -> (r: Vec<u8>)
    requires
        6 * size <= orig_data@.len(),
        8 * size <= usize::MAX,
    ensures
        r@.len() == 8 * size,
        forall|j: int| 0 <= j < 8 * size ==> #[trigger] r@[j] == spec_rgba16_byte(orig_data@, j),
{
    let mut data: Vec<u8> = Vec::new();
    for i in 0..size
        invariant
            6 * size <= orig_data@.len(),
            8 * size <= usize::MAX,
            data@.len() == 8 * i,
            forall|j: int|
                0 <= j < data@.len() ==> #[trigger] data@[j] == spec_rgba16_byte(orig_data@, j),
    {
        data.push(orig_data[6 * i]);
        data.push(orig_data[6 * i + 1]);
        data.push(orig_data[6 * i + 2]);
        data.push(orig_data[6 * i + 3]);
        data.push(orig_data[6 * i + 4]);
        data.push(orig_data[6 * i + 5]);
        data.push(0);
        data.push(60);
        proof {
            assert forall|j: int| 0 <= j < data@.len() implies #[trigger] data@[j]
                == spec_rgba16_byte(orig_data@, j) by {
                if j >= 8 * i {
                    assert(j / 8 == i as int && (j % 8 == j - 8 * i)) by (nonlinear_arith)
                        requires
                            8 * i <= j < 8 * i + 8,
                    ;
                }
            }
        }
    }
    data
}

} // verus!
