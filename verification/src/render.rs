//! From escape counts to pixel values. The caller evaluates the escape time
//! of every pixel and hands in, for each, the whole part of its continuous
//! iteration count, or `None` for a point that stayed bounded.

use vstd::prelude::*;

verus! {

/// The value of one pixel: the colour scale times the escape count, cut to
/// 32 bits, and zero for a bounded point.
pub open spec fn pixel_value(colour: u32, level: Option<u32>) -> u32 {
    match level {
        Some(count) => ((colour as nat * count as nat) % 0x1_0000_0000) as u32,
        None => 0,
    }
}

/// The pixel values of a whole buffer of escape counts, in the same order.
pub open spec fn pixel_values(colour: u32, levels: Seq<Option<u32>>) -> Seq<u32> {
    Seq::new(levels.len(), |i: int| pixel_value(colour, levels[i]))
}

/// The value of one pixel: the colour scale times the escape count, cut to
/// 32 bits, and zero for a bounded point.
pub fn shade_pixel(colour: u32, level: Option<u32>) -> (value: u32)
    ensures
        value == pixel_value(colour, level),
{
    match level {
        Some(count) => colour.wrapping_mul(count),
        None => 0,
    }
}

/// Renders a buffer: one pixel value for each escape count, in the same
/// order.
pub fn render(colour: u32, levels: &Vec<Option<u32>>) -> (buffer: Vec<u32>)
    ensures
        buffer@ == pixel_values(colour, levels@),
{
    let mut buffer: Vec<u32> = Vec::with_capacity(levels.len());
    let mut index: usize = 0;
    while index < levels.len()
        invariant
            index <= levels.len(),
            buffer@ == pixel_values(colour, levels@.take(index as int)),
        decreases levels.len() - index,
    {
        buffer.push(shade_pixel(colour, levels[index]));
        index += 1;
        assert(buffer@ =~= pixel_values(colour, levels@.take(index as int)));
    }
    assert(levels@.take(index as int) =~= levels@);
    buffer
}

/// While the product of the colour scale and the escape count fits in 32
/// bits, the pixel value is that product.
pub proof fn lemma_pixel_value_small(colour: u32, count: u32)
    requires
        colour * count <= u32::MAX,
    ensures
        pixel_value(colour, Some(count)) == colour * count,
{
    assert(0 <= colour * count) by (nonlinear_arith);
    vstd::arithmetic::div_mod::lemma_small_mod((colour * count) as nat, 0x1_0000_0000);
}

} // verus!
