use vstd::prelude::*;
use crate::oracle::{judge, verdict_of, CheckKind, Finding};
use crate::texel::Rgba;

verus! {

/// What a texture channel reads as when sampled: one of the stored channels,
/// or a constant.
#[derive(Clone, Copy, Debug, PartialEq, Eq, Structural)]
pub enum Source {
    Red,
    Green,
    Blue,
    Alpha,
    Zero,
    One,
}

/// A per-channel remapping applied when a texture is sampled.
#[derive(Clone, Copy, Debug, PartialEq, Eq, Structural)]
pub struct Swizzle {
    pub r: Source,
    pub g: Source,
    pub b: Source,
    pub a: Source,
}

impl Swizzle {
    pub open spec fn identity_spec() -> Swizzle {
        Swizzle { r: Source::Red, g: Source::Green, b: Source::Blue, a: Source::Alpha }
    }

    /// Every channel reads as itself.
    pub fn identity() -> (m: Swizzle)
        ensures
            m == Swizzle::identity_spec(),
    {
        Swizzle { r: Source::Red, g: Source::Green, b: Source::Blue, a: Source::Alpha }
    }

    /// Red and blue trade places; green and alpha stay. This is the mapping
    /// known to trigger the defect.
    pub fn red_blue_swap() -> (m: Swizzle)
        ensures
            m == (Swizzle { r: Source::Blue, g: Source::Green, b: Source::Red, a: Source::Alpha }),
    {
        Swizzle { r: Source::Blue, g: Source::Green, b: Source::Red, a: Source::Alpha }
    }

    pub fn is_identity(&self) -> (b: bool)
        ensures
            b == (*self == Swizzle::identity_spec()),
    {
        *self == Swizzle::identity()
    }
}

/// The texture size that the probe's shader maps to full intensity: it
/// writes `size / SIZE_SCALE` into the red and green channels.
pub const SIZE_SCALE: u32 = 64;

/// How an 8-bit normalized render target stores `n / d`: clamped to one,
/// scaled to 255 and rounded to the nearest integer.
pub open spec fn unorm8_of_ratio(n: nat, d: nat) -> u8
    recommends
        d > 0,
{
    if n >= d {
        255
    } else {
        ((510 * n + d) / (2 * d)) as u8
    }
}

/// The byte a conforming driver writes for a texture dimension of `n` texels.
pub fn encode_dimension(n: u32) -> (v: u8)
    ensures
        v == unorm8_of_ratio(n as nat, SIZE_SCALE as nat),
{
    if n >= SIZE_SCALE {
        255
    } else {
        let q = (510 * n + SIZE_SCALE) / (2 * SIZE_SCALE);
        assert(q <= 255) by (nonlinear_arith)
            requires
                q == (510 * n + 64) / 128,
                n < 64,
        ;
        q as u8
    }
}

/// The swizzle probe. A 2D array texture of `size` x `size` texels and
/// `layers` layers gets the swizzle; a shader then reads the texture's size
/// and draws it as a color over a render target of `draw_size` x
/// `draw_size`, whose center is read back.
#[derive(Clone, Copy, Debug, PartialEq, Eq, Structural)]
pub struct SwizzleScenario {
    pub size: u32,
    pub layers: u32,
    pub swizzle: Swizzle,
    pub draw_size: u32,
}

impl SwizzleScenario {
    /// The color owed by a conforming driver: the true size in red and
    /// green, no blue, full alpha. A swizzle changes how texels are sampled,
    /// never the size the shader is told.
    pub open spec fn expected(&self) -> Rgba {
        let v = unorm8_of_ratio(self.size as nat, SIZE_SCALE as nat);
        Rgba { r: v, g: v, b: 0, a: 255 }
    }

    /// A 64x64 texture of two layers with red and blue swapped, drawn to a
    /// 256x256 target.
    pub fn standard() -> (s: SwizzleScenario)
        ensures
            s == (SwizzleScenario {
                size: 64,
                layers: 2,
                swizzle: Swizzle { r: Source::Blue, g: Source::Green, b: Source::Red, a: Source::Alpha },
                draw_size: 256,
            }),
    {
        SwizzleScenario { size: 64, layers: 2, swizzle: Swizzle::red_blue_swap(), draw_size: 256 }
    }

    /// The same probe on a 512x512 texture.
    pub fn large() -> (s: SwizzleScenario)
        ensures
            s == (SwizzleScenario {
                size: 512,
                layers: 2,
                swizzle: Swizzle { r: Source::Blue, g: Source::Green, b: Source::Red, a: Source::Alpha },
                draw_size: 256,
            }),
    {
        SwizzleScenario { size: 512, layers: 2, swizzle: Swizzle::red_blue_swap(), draw_size: 256 }
    }

    pub fn expected_pixel(&self) -> (c: Rgba)
        ensures
            c == self.expected(),
    {
        let v = encode_dimension(self.size);
        Rgba { r: v, g: v, b: 0, a: 255 }
    }

    /// The pixel read back: the center of the render target.
    pub fn readback_point(&self) -> (p: (u32, u32))
        ensures
            p == (self.draw_size / 2, self.draw_size / 2),
    {
        (self.draw_size / 2, self.draw_size / 2)
    }

    /// Judges the readback; a mismatch is a driver defect.
    pub fn evaluate(&self, actual: Rgba) -> (f: Finding)
        ensures
            f == (Finding { kind: CheckKind::Defect, verdict: verdict_of(actual, self.expected()) }),
    {
        Finding { kind: CheckKind::Defect, verdict: judge(actual, self.expected_pixel()) }
    }
}

/// The size a shader is owed does not depend on the swizzle: with none
/// configured, or any other, the probe expects the texture's true size.
pub proof fn law_size_ignores_swizzle(s: SwizzleScenario, m: Swizzle)
    ensures
        (SwizzleScenario { swizzle: m, ..s }).expected() == s.expected(),
        (SwizzleScenario { swizzle: Swizzle::identity_spec(), ..s }).expected() == s.expected(),
{
}

/// A texture of at least `SIZE_SCALE` texels reads as full intensity, and a
/// smaller one as less.
pub proof fn law_full_scale_exactly_from_scale(n: nat)
    ensures
        unorm8_of_ratio(n, SIZE_SCALE as nat) == 255 <==> n >= SIZE_SCALE,
{
    if n < 64 {
        assert((510 * n + 64) / 128 < 255) by (nonlinear_arith)
            requires
                n < 64,
        ;
    }
}

} // verus!
