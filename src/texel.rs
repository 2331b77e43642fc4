use vstd::prelude::*;

verus! {

/// Bytes in one RGBA8 texel.
pub const TEXEL_BYTES: u32 = 4;

/// One RGBA8 texel or pixel, as uploaded to or read back from the driver.
#[derive(Clone, Copy, Debug, PartialEq, Eq, Structural)]
pub struct Rgba {
    pub r: u8,
    pub g: u8,
    pub b: u8,
    pub a: u8,
}

impl Rgba {
    /// Channel `i` of the texel, in memory order (red first).
    pub open spec fn channel(self, i: int) -> u8 {
        if i == 0 {
            self.r
        } else if i == 1 {
            self.g
        } else if i == 2 {
            self.b
        } else {
            self.a
        }
    }

    /// The four bytes of the texel in memory order.
    pub open spec fn bytes(self) -> Seq<u8> {
        seq![self.r, self.g, self.b, self.a]
    }

    pub fn new(r: u8, g: u8, b: u8, a: u8) -> (c: Rgba)
        ensures
            c == (Rgba { r, g, b, a }),
    {
        Rgba { r, g, b, a }
    }

    /// The texel whose four channels all hold `v`.
    pub fn splat(v: u8) -> (c: Rgba)
        ensures
            c == (Rgba { r: v, g: v, b: v, a: v }),
    {
        Rgba { r: v, g: v, b: v, a: v }
    }

    pub fn from_bytes(b: [u8; 4]) -> (c: Rgba)
        ensures
            c.bytes() == b@,
    {
        let c = Rgba { r: b[0], g: b[1], b: b[2], a: b[3] };
        assert(c.bytes() =~= b@);
        c
    }

    pub fn to_bytes(self) -> (b: [u8; 4])
        ensures
            b@ == self.bytes(),
    {
        let b = [self.r, self.g, self.b, self.a];
        assert(b@ =~= self.bytes());
        b
    }
}

/// `count` texels of one color laid end to end, as bytes.
pub open spec fn repeated(color: Rgba, count: nat) -> Seq<u8> {
    Seq::new(4 * count, |i: int| color.channel(i % 4))
}

/// The contents of a buffer of `texels` texels that all hold `color`: the
/// uniform fills that the upload probe puts in the texture and in the pixel
/// buffer.
pub fn fill_bytes(color: Rgba, texels: usize) -> (out: Vec<u8>)
    requires
        texels <= usize::MAX / 4,
    ensures
        out@ == repeated(color, texels as nat),
{
    let mut out: Vec<u8> = Vec::with_capacity(texels * 4);
    let mut i: usize = 0;
    while i < texels
        invariant
            i <= texels,
            texels <= usize::MAX / 4,
            out@ == repeated(color, i as nat),
        decreases texels - i,
    {
        out.push(color.r);
        out.push(color.g);
        out.push(color.b);
        out.push(color.a);
        assert(out@ =~= repeated(color, (i + 1) as nat));
        i = i + 1;
    }
    out
}

} // verus!
