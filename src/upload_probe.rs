use vstd::prelude::*;
use crate::oracle::{verdict_of, judge, CheckKind, Finding};
use crate::texel::{Rgba, TEXEL_BYTES};
use crate::upload::{
    check_geometry, check_result, required_texels, violates, BufferCopy, Extent3, PreconditionError,
    UploadGeometry,
};

verus! {

/// A texel to read back: its position in the texture, and what a mismatch
/// there would mean.
#[derive(Clone, Copy, Debug, PartialEq, Eq, Structural)]
pub struct Probe {
    pub kind: CheckKind,
    pub x: u32,
    pub y: u32,
    pub layer: u32,
}

/// The upload probe. The texture is filled with `background` from host
/// memory; a pixel buffer covering the whole texture footprint is filled with
/// `fill`; each copy is then uploaded from that buffer with rows
/// `stride_texels` apart, and each probe is read back.
#[derive(Clone, Debug)]
pub struct UploadScenario {
    pub texture: Extent3,
    pub background: Rgba,
    pub fill: Rgba,
    pub stride_texels: u32,
    pub copies: Vec<BufferCopy>,
    pub probes: Vec<Probe>,
}

/// Why a probe could not be planned. Either is a fault of the scenario, not
/// a finding about the driver.
#[derive(Clone, Copy, Debug, PartialEq, Eq, Structural)]
pub enum PlanError {
    /// The texture's bytes do not fit in memory.
    TooLarge,
    /// The copy at this index fails its checks.
    Copy(usize, PreconditionError),
}

/// One command of the probe, for the caller to issue in order.
#[derive(Clone, Copy, Debug, PartialEq, Eq, Structural)]
pub enum Step {
    /// Create the 2D array texture with one RGBA8 level.
    AllocateTexture(Extent3),
    /// Upload `texels` texels of `color` from host memory over the whole
    /// texture, all layers.
    FillTexture { color: Rgba, texels: usize },
    /// Attach the probe's layer for reading and read the texel at its
    /// position.
    ReadBack(Probe),
    /// Create the pixel buffer, bind it as the upload source and fill it with
    /// `texels` texels of `color`.
    FillPixelBuffer { color: Rgba, texels: usize },
    /// Set the unpack alignment and row length (in texels).
    SetUnpack { alignment: u32, row_length: u32 },
    /// Upload a region of one layer from the bound pixel buffer.
    UploadFromBuffer(BufferCopy),
}

/// Texels in the whole texture, all layers.
pub open spec fn footprint(t: Extent3) -> int {
    t.width as int * t.height as int * t.layers as int
}

/// The readback made right after the background fill, before any upload.
pub open spec fn sanity_probe() -> Probe {
    Probe { kind: CheckKind::Sanity, x: 0, y: 0, layer: 0 }
}

impl UploadScenario {
    /// The checks that one copy of this scenario must pass.
    pub open spec fn geometry(&self, c: BufferCopy) -> UploadGeometry {
        UploadGeometry {
            texture: self.texture,
            copy: c,
            stride_texels: self.stride_texels,
            texel_bytes: TEXEL_BYTES,
            buffer_texels: footprint(self.texture) as u64,
        }
    }

    /// The first `n` copies pass their checks.
    pub open spec fn copies_valid(&self, n: int) -> bool {
        forall|i: int| 0 <= i < n ==> (#[trigger] check_result(self.geometry(self.copies@[i]))) is Ok
    }

    /// Every copy passes its checks.
    pub open spec fn valid(&self) -> bool {
        self.copies_valid(self.copies@.len() as int)
    }

    /// The texture and the pixel buffer, in bytes, fit in memory.
    pub open spec fn fits(&self) -> bool {
        footprint(self.texture) * 4 <= usize::MAX
    }

    /// The readbacks in the order they are made: the sanity check, then the
    /// probes.
    pub open spec fn readbacks(&self) -> Seq<Probe> {
        seq![sanity_probe()].add(self.probes@)
    }

    /// The pixel buffer's contents, as texels.
    pub open spec fn buffer(&self) -> Seq<Rgba> {
        Seq::new(footprint(self.texture) as nat, |i: int| self.fill)
    }

    /// What a conforming driver leaves at a probe after the first `done`
    /// copies.
    pub open spec fn texel_at(&self, done: int, p: Probe) -> Rgba {
        texel_after(
            self.copies@.take(done),
            self.buffer(),
            self.background,
            self.stride_texels as int,
            p.x as int,
            p.y as int,
            p.layer as int,
        )
    }

    /// The value owed at readback `i`: the sanity check sees the texture
    /// before any upload, the probes after all of them.
    pub open spec fn expected(&self, i: int) -> Rgba {
        if i == 0 {
            self.texel_at(0, sanity_probe())
        } else {
            self.texel_at(self.copies@.len() as int, self.readbacks()[i])
        }
    }

    /// The judged readbacks, made in the order of the plan.
    pub open spec fn findings(&self, actual: Seq<Rgba>) -> Seq<Finding> {
        Seq::new(
            actual.len(),
            |i: int|
                Finding {
                    kind: self.readbacks()[i].kind,
                    verdict: verdict_of(actual[i], self.expected(i)),
                },
        )
    }

    /// The commands of the probe, in order.
    pub open spec fn plan(&self) -> Seq<Step> {
        let n = footprint(self.texture) as usize;
        seq![
            Step::AllocateTexture(self.texture),
            Step::FillTexture { color: self.background, texels: n },
            Step::ReadBack(sanity_probe()),
            Step::FillPixelBuffer { color: self.fill, texels: n },
            Step::SetUnpack { alignment: 1, row_length: self.stride_texels },
        ].add(self.copies@.map_values(|c: BufferCopy| Step::UploadFromBuffer(c))).add(
            self.probes@.map_values(|p: Probe| Step::ReadBack(p)),
        )
    }
}

/// Whether a copy writes the texel at `(x, y)` of `layer`.
pub open spec fn in_region(c: BufferCopy, x: int, y: int, layer: int) -> bool {
    c.layer == layer && c.x <= x < c.x + c.width && c.y <= y < c.y + c.height
}

/// The buffer texel that a copy writes to `(x, y)`: rows of the source start
/// `stride` texels apart, the first at the copy's byte offset.
pub open spec fn source_index(c: BufferCopy, stride: int, x: int, y: int) -> int {
    c.offset_bytes as int / TEXEL_BYTES as int + (y - c.y) * stride + (x - c.x)
}

/// The texel at `(x, y)` of `layer` after the copies, in order, from a buffer
/// into a texture that held `background` everywhere.
pub open spec fn texel_after(
    copies: Seq<BufferCopy>,
    buffer: Seq<Rgba>,
    background: Rgba,
    stride: int,
    x: int,
    y: int,
    layer: int,
) -> Rgba
    decreases copies.len(),
{
    if copies.len() == 0 {
        background
    } else if in_region(copies.last(), x, y, layer) {
        buffer[source_index(copies.last(), stride, x, y)]
    } else {
        texel_after(copies.drop_last(), buffer, background, stride, x, y, layer)
    }
}

/// A copy that passes its checks reads only texels inside the buffer.
pub proof fn law_copy_reads_inside_buffer(g: UploadGeometry, x: int, y: int)
    requires
        g.texel_bytes == TEXEL_BYTES,
        check_result(g) is Ok,
        in_region(g.copy, x, y, g.copy.layer as int),
    ensures
        0 <= source_index(g.copy, g.stride_texels as int, x, y) < g.buffer_texels,
{
    let c = g.copy;
    let s = g.stride_texels as int;
    let dy = y - c.y;
    let dx = x - c.x;
    assert(!violates(g, PreconditionError::StrideTooSmall));
    assert(!violates(g, PreconditionError::BufferTooSmall));
    assert(0 <= dx < c.width <= s);
    assert(0 <= dy < c.height);
    assert(0 <= dy * s <= (c.height - 1) * s) by (nonlinear_arith)
        requires
            0 <= dy <= c.height - 1,
            s >= 0,
    ;
    assert((c.height - 1) * s + s == c.height * s) by (nonlinear_arith);
    assert(source_index(c, s, x, y) == c.offset_bytes as int / 4 + dy * s + dx);
    assert(required_texels(g) == c.offset_bytes as int / 4 + s * c.height);
}

/// With a buffer of one color, the texel after the copies is that color
/// where some copy wrote, and the background elsewhere.
pub proof fn lemma_uniform_source(
    copies: Seq<BufferCopy>,
    buffer: Seq<Rgba>,
    fill: Rgba,
    background: Rgba,
    stride: int,
    x: int,
    y: int,
    layer: int,
)
    requires
        forall|i: int| 0 <= i < buffer.len() ==> buffer[i] == fill,
        forall|i: int|
            0 <= i < copies.len() && #[trigger] in_region(copies[i], x, y, layer) ==> 0
                <= source_index(copies[i], stride, x, y) < buffer.len(),
    ensures
        texel_after(copies, buffer, background, stride, x, y, layer) == if exists|i: int|
            0 <= i < copies.len() && #[trigger] in_region(copies[i], x, y, layer) {
            fill
        } else {
            background
        },
    decreases copies.len(),
{
    if copies.len() > 0 {
        let rest = copies.drop_last();
        if !in_region(copies.last(), x, y, layer) {
            assert forall|i: int|
                0 <= i < rest.len() && #[trigger] in_region(rest[i], x, y, layer) implies 0
                    <= source_index(rest[i], stride, x, y) < buffer.len() by {
                assert(rest[i] == copies[i]);
            }
            lemma_uniform_source(rest, buffer, fill, background, stride, x, y, layer);
            if exists|i: int| 0 <= i < copies.len() && #[trigger] in_region(copies[i], x, y, layer) {
                let i = choose|i: int|
                    0 <= i < copies.len() && #[trigger] in_region(copies[i], x, y, layer);
                assert(rest[i] == copies[i]);
            }
            if exists|i: int| 0 <= i < rest.len() && #[trigger] in_region(rest[i], x, y, layer) {
                let i = choose|i: int| 0 <= i < rest.len() && #[trigger] in_region(rest[i], x, y, layer);
                assert(rest[i] == copies[i]);
            }
        } else {
            assert(in_region(copies[copies.len() - 1], x, y, layer));
        }
    }
}

/// Whether copy `c` writes the texel that probe `p` reads.
pub fn covers(c: &BufferCopy, p: &Probe) -> (b: bool)
    ensures
        b == in_region(*c, p.x as int, p.y as int, p.layer as int),
{
    c.layer == p.layer && c.x <= p.x && (p.x as u64) < c.x as u64 + c.width as u64 && c.y <= p.y
        && (p.y as u64) < c.y as u64 + c.height as u64
}

impl UploadScenario {
    /// Texels in the whole texture, where its bytes fit in memory.
    pub fn footprint_texels(&self) -> (n: Option<usize>)
        ensures
            self.fits() <==> n is Some,
            n matches Some(k) ==> k == footprint(self.texture),
    {
        let t = self.texture;
        assert(t.width as u128 * t.height as u128 <= 0xffff_fffe_0000_0001u128) by (nonlinear_arith)
            requires
                t.width <= 0xffff_ffffu32,
                t.height <= 0xffff_ffffu32,
        ;
        let n = t.width as u128 * t.height as u128;
        assert(n * t.layers as u128 <= 0xffff_ffff_ffff_ffff_ffff_ffff_ffff_ffffu128) by (nonlinear_arith)
            requires
                n == t.width as u128 * t.height as u128,
                t.width <= 0xffff_ffffu32,
                t.height <= 0xffff_ffffu32,
                t.layers <= 0xffff_ffffu32,
        ;
        let n = n * t.layers as u128;
        if n <= (usize::MAX / 4) as u128 {
            Some(n as usize)
        } else {
            None
        }
    }

    /// Checks every copy, in order, and reports the first that fails.
    pub fn validate(&self) -> (r: Result<(), (usize, PreconditionError)>)
        requires
            self.fits(),
        ensures
            r is Ok <==> self.valid(),
            r matches Err((i, e)) ==> i < self.copies@.len() && self.copies_valid(i as int)
                && check_result(self.geometry(self.copies@[i as int])) == Err::<(), PreconditionError>(e),
    {
        let n = match self.footprint_texels() {
            Some(n) => n,
            None => 0,
        };
        let mut i: usize = 0;
        while i < self.copies.len()
            invariant
                i <= self.copies@.len(),
                self.fits(),
                n == footprint(self.texture),
                self.copies_valid(i as int),
            decreases self.copies@.len() - i,
        {
            let g = UploadGeometry {
                texture: self.texture,
                copy: self.copies[i],
                stride_texels: self.stride_texels,
                texel_bytes: TEXEL_BYTES,
                buffer_texels: n as u64,
            };
            assert(g == self.geometry(self.copies@[i as int]));
            match check_geometry(&g) {
                Ok(()) => {},
                Err(e) => {
                    return Err((i, e));
                },
            }
            i = i + 1;
        }
        Ok(())
    }

    /// The commands of the probe, once every copy has passed its checks;
    /// nothing is uploaded from a scenario that fails them.
    pub fn plan_steps(&self) -> (r: Result<Vec<Step>, PlanError>)
        ensures
            r is Ok <==> self.fits() && self.valid(),
            r matches Ok(steps) ==> steps@ == self.plan(),
            r == Err::<Vec<Step>, PlanError>(PlanError::TooLarge) <==> !self.fits(),
            r matches Err(PlanError::Copy(i, e)) ==> self.fits() && i < self.copies@.len()
                && self.copies_valid(i as int)
                && check_result(self.geometry(self.copies@[i as int])) == Err::<(), PreconditionError>(e),
    {
        let n = match self.footprint_texels() {
            Some(n) => n,
            None => {
                return Err(PlanError::TooLarge);
            },
        };
        match self.validate() {
            Ok(()) => {},
            Err((i, e)) => {
                return Err(PlanError::Copy(i, e));
            },
        }
        let mut steps: Vec<Step> = Vec::new();
        steps.push(Step::AllocateTexture(self.texture));
        steps.push(Step::FillTexture { color: self.background, texels: n });
        steps.push(Step::ReadBack(Probe { kind: CheckKind::Sanity, x: 0, y: 0, layer: 0 }));
        steps.push(Step::FillPixelBuffer { color: self.fill, texels: n });
        steps.push(Step::SetUnpack { alignment: 1, row_length: self.stride_texels });
        let ghost head = steps@;
        let mut i: usize = 0;
        while i < self.copies.len()
            invariant
                i <= self.copies@.len(),
                steps@ == head.add(
                    self.copies@.take(i as int).map_values(|c: BufferCopy| Step::UploadFromBuffer(c)),
                ),
            decreases self.copies@.len() - i,
        {
            steps.push(Step::UploadFromBuffer(self.copies[i]));
            assert(self.copies@.take(i + 1) =~= self.copies@.take(i as int).push(self.copies@[i as int]));
            assert(steps@ =~= head.add(
                self.copies@.take(i + 1).map_values(|c: BufferCopy| Step::UploadFromBuffer(c)),
            ));
            i = i + 1;
        }
        assert(self.copies@.take(i as int) =~= self.copies@);
        let ghost mid = steps@;
        let mut j: usize = 0;
        while j < self.probes.len()
            invariant
                j <= self.probes@.len(),
                steps@ == mid.add(self.probes@.take(j as int).map_values(|p: Probe| Step::ReadBack(p))),
            decreases self.probes@.len() - j,
        {
            steps.push(Step::ReadBack(self.probes[j]));
            assert(self.probes@.take(j + 1) =~= self.probes@.take(j as int).push(self.probes@[j as int]));
            assert(steps@ =~= mid.add(
                self.probes@.take(j + 1).map_values(|p: Probe| Step::ReadBack(p)),
            ));
            j = j + 1;
        }
        assert(self.probes@.take(j as int) =~= self.probes@);
        assert(steps@ =~= self.plan());
        Ok(steps)
    }

    /// The value a conforming driver shows at readback `i`.
    fn expected_one(&self, i: usize) -> (c: Rgba)
        requires
            self.fits(),
            self.valid(),
            i < self.readbacks().len(),
        ensures
            c == self.expected(i as int),
    {
        if i == 0 {
            return self.background;
        }
        let p = self.probes[i - 1];
        assert(p == self.readbacks()[i as int]);
        let ghost copies = self.copies@.take(self.copies@.len() as int);
        assert(copies =~= self.copies@);
        let mut hit = false;
        let mut k: usize = 0;
        while k < self.copies.len()
            invariant
                k <= self.copies@.len(),
                hit == exists|j: int|
                    0 <= j < k && #[trigger] in_region(self.copies@[j], p.x as int, p.y as int, p.layer as int),
            decreases self.copies@.len() - k,
        {
            if covers(&self.copies[k], &p) {
                hit = true;
            }
            k = k + 1;
        }
        proof {
            let stride = self.stride_texels as int;
            let (x, y, l) = (p.x as int, p.y as int, p.layer as int);
            let buffer = self.buffer();
            assert forall|j: int|
                0 <= j < copies.len() && #[trigger] in_region(copies[j], x, y, l) implies 0
                    <= source_index(copies[j], stride, x, y) < buffer.len() by {
                assert(check_result(self.geometry(self.copies@[j])) is Ok);
                law_copy_reads_inside_buffer(self.geometry(self.copies@[j]), x, y);
            }
            lemma_uniform_source(copies, buffer, self.fill, self.background, stride, x, y, l);
        }
        if hit {
            self.fill
        } else {
            self.background
        }
    }

    /// The value a conforming driver shows at each readback, in order.
    pub fn expected_readbacks(&self) -> (v: Vec<Rgba>)
        requires
            self.fits(),
            self.valid(),
        ensures
            v@.len() == self.readbacks().len(),
            forall|i: int| 0 <= i < v@.len() ==> v@[i] == self.expected(i),
    {
        let mut v: Vec<Rgba> = Vec::new();
        v.push(self.expected_one(0));
        let mut i: usize = 0;
        while i < self.probes.len()
            invariant
                i <= self.probes@.len(),
                v@.len() == i + 1,
                self.fits(),
                self.valid(),
                forall|j: int| 0 <= j <= i ==> v@[j] == self.expected(j),
            decreases self.probes@.len() - i,
        {
            let c = self.expected_one(i + 1);
            v.push(c);
            i = i + 1;
        }
        v
    }

    /// Judges the readbacks, made in the order of the plan, against what a
    /// conforming driver shows, each labelled with what a mismatch means.
    pub fn evaluate(&self, actual: &Vec<Rgba>) -> (f: Vec<Finding>)
        requires
            self.fits(),
            self.valid(),
            actual@.len() == self.readbacks().len(),
        ensures
            f@ == self.findings(actual@),
    {
        let mut f: Vec<Finding> = Vec::new();
        let mut i: usize = 0;
        while i < actual.len()
            invariant
                i <= actual@.len(),
                actual@.len() == self.readbacks().len(),
                f@.len() == i,
                self.fits(),
                self.valid(),
                forall|j: int|
                    0 <= j < i ==> f@[j] == (Finding {
                        kind: self.readbacks()[j].kind,
                        verdict: verdict_of(actual@[j], self.expected(j)),
                    }),
            decreases actual@.len() - i,
        {
            let kind = if i == 0 {
                CheckKind::Sanity
            } else {
                self.probes[i - 1].kind
            };
            let verdict = judge(actual[i], self.expected_one(i));
            f.push(Finding { kind, verdict });
            i = i + 1;
        }
        assert(f@ =~= self.findings(actual@));
        f
    }
}

impl UploadScenario {
    /// One texel copied into a 256x64 single-layer texture, at (128, 0),
    /// from 16384 bytes into the buffer with rows 4 texels apart.
    pub fn single_texel() -> (s: UploadScenario)
        ensures
            s.texture == (Extent3 { width: 256, height: 64, layers: 1 }),
            s.background == (Rgba { r: 255, g: 255, b: 255, a: 255 }),
            s.fill == (Rgba { r: 0, g: 255, b: 0, a: 255 }),
            s.stride_texels == 4,
            s.copies@ == seq![BufferCopy { x: 128, y: 0, layer: 0, width: 1, height: 1, offset_bytes: 16384 }],
            s.probes@ == seq![Probe { kind: CheckKind::Defect, x: 128, y: 0, layer: 0 }],
            s.fits(),
            s.valid(),
    {
        let s = UploadScenario {
            texture: Extent3 { width: 256, height: 64, layers: 1 },
            background: Rgba { r: 255, g: 255, b: 255, a: 255 },
            fill: Rgba { r: 0, g: 255, b: 0, a: 255 },
            stride_texels: 4,
            copies: vec![BufferCopy { x: 128, y: 0, layer: 0, width: 1, height: 1, offset_bytes: 16384 }],
            probes: vec![Probe { kind: CheckKind::Defect, x: 128, y: 0, layer: 0 }],
        };
        assert(256 * 64 * 1 == 16384) by (nonlinear_arith);
        assert(footprint(s.texture) == 16384);
        assert(16384u32 % 4 == 0 && 16384u32 / 4 == 4096);
        assert(check_result(s.geometry(s.copies@[0])) is Ok);
        s
    }

    /// Two rows of 16 texels copied into a 256x16 texture of two layers:
    /// one at (16, 0) of the first layer from 512 bytes into the buffer, one
    /// at the origin of the second layer from its start. The origin of the
    /// first layer is read back too, and must still hold the background.
    pub fn two_layers() -> (s: UploadScenario)
        ensures
            s.texture == (Extent3 { width: 256, height: 16, layers: 2 }),
            s.background == (Rgba { r: 255, g: 255, b: 255, a: 255 }),
            s.fill == (Rgba { r: 0, g: 255, b: 0, a: 255 }),
            s.stride_texels == 16,
            s.copies@ == seq![
                BufferCopy { x: 16, y: 0, layer: 0, width: 16, height: 1, offset_bytes: 512 },
                BufferCopy { x: 0, y: 0, layer: 1, width: 16, height: 1, offset_bytes: 0 },
            ],
            s.probes@ == seq![
                Probe { kind: CheckKind::Defect, x: 16, y: 0, layer: 0 },
                Probe { kind: CheckKind::Defect, x: 0, y: 0, layer: 1 },
                Probe { kind: CheckKind::Defect, x: 0, y: 0, layer: 0 },
            ],
            s.fits(),
            s.valid(),
    {
        let s = UploadScenario {
            texture: Extent3 { width: 256, height: 16, layers: 2 },
            background: Rgba { r: 255, g: 255, b: 255, a: 255 },
            fill: Rgba { r: 0, g: 255, b: 0, a: 255 },
            stride_texels: 16,
            copies: vec![
                BufferCopy { x: 16, y: 0, layer: 0, width: 16, height: 1, offset_bytes: 512 },
                BufferCopy { x: 0, y: 0, layer: 1, width: 16, height: 1, offset_bytes: 0 },
            ],
            probes: vec![
                Probe { kind: CheckKind::Defect, x: 16, y: 0, layer: 0 },
                Probe { kind: CheckKind::Defect, x: 0, y: 0, layer: 1 },
                Probe { kind: CheckKind::Defect, x: 0, y: 0, layer: 0 },
            ],
        };
        assert(256 * 16 * 2 == 8192) by (nonlinear_arith);
        assert(footprint(s.texture) == 8192);
        assert(512u32 % 4 == 0 && 512u32 / 4 == 128 && 0u32 % 4 == 0 && 0u32 / 4 == 0);
        assert(check_result(s.geometry(s.copies@[0])) is Ok);
        assert(check_result(s.geometry(s.copies@[1])) is Ok);
        s
    }
}

/// Before any upload, every texel reads back as the uniform background fill;
/// in particular the sanity readback at the origin is owed the background.
pub proof fn law_fill_reads_back(s: UploadScenario, p: Probe)
    ensures
        s.texel_at(0, p) == s.background,
        s.expected(0) == s.background,
{
    assert(s.copies@.take(0).len() == 0);
}

/// Judging the probe again, on the same readbacks from an unchanged driver,
/// gives the same findings: nothing is carried between runs.
pub proof fn law_rerun_same_outcome(s: UploadScenario, first: Seq<Rgba>, second: Seq<Rgba>)
    requires
        first == second,
    ensures
        s.findings(first) == s.findings(second),
{
}

} // verus!
