use vstd::prelude::*;
use crate::tiling::SampleOutput;

verus! {

/// An 8-bit RGBA color.
#[derive(Debug, Clone, Copy, PartialEq, Eq, Structural)]
pub struct Rgba {
    pub r: u8,
    pub g: u8,
    pub b: u8,
    pub a: u8,
}

/// Fully transparent black: what a gap, or an unavailable texture, shows.
pub open spec fn transparent() -> Rgba {
    Rgba { r: 0, g: 0, b: 0, a: 0 }
}

/// The product of two normalized 8-bit channels, rounded to nearest.
pub open spec fn channel_product(c: u8, t: u8) -> int {
    (c * t + 127) / 255
}

fn mul_channel(c: u8, t: u8) -> (r: u8)
    ensures
        r == channel_product(c, t),
{
    assert(0 <= c * t <= 255 * 255) by (nonlinear_arith)
        requires
            0 <= c <= 255,
            0 <= t <= 255,
    ;
    ((c as u32 * t as u32 + 127) / 255) as u8
}

/// Composites one sample: a gap is transparent; an inked sample shows the
/// texel `base` multiplied by `tint` channel by channel, and falls back to
/// transparent where the texture could not be sampled (`base` is `None`).
pub fn composite(s: &SampleOutput, tint: Rgba, base: Option<Rgba>) -> (r: Rgba)
    ensures
        !s.inked ==> r == transparent(),
        s.inked && base is None ==> r == transparent(),
        s.inked && base is Some ==> {
            let c = base->Some_0;
            &&& r.r == channel_product(c.r, tint.r)
            &&& r.g == channel_product(c.g, tint.g)
            &&& r.b == channel_product(c.b, tint.b)
            &&& r.a == channel_product(c.a, tint.a)
        },
{
    if !s.inked {
        return Rgba { r: 0, g: 0, b: 0, a: 0 };
    }
    match base {
        None => Rgba { r: 0, g: 0, b: 0, a: 0 },
        Some(c) => Rgba {
            r: mul_channel(c.r, tint.r),
            g: mul_channel(c.g, tint.g),
            b: mul_channel(c.b, tint.b),
            a: mul_channel(c.a, tint.a),
        },
    }
}

} // verus!
