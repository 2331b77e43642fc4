use vstd::prelude::*;

verus! {

/// Width, height and layer count of a 2D array texture, in texels.
#[derive(Clone, Copy, Debug, PartialEq, Eq, Structural)]
pub struct Extent3 {
    pub width: u32,
    pub height: u32,
    pub layers: u32,
}

/// One upload from a pixel buffer into a single layer of the texture: the
/// destination origin, the size of the copied region, and the byte offset in
/// the buffer where its first row starts.
#[derive(Clone, Copy, Debug, PartialEq, Eq, Structural)]
pub struct BufferCopy {
    pub x: u32,
    pub y: u32,
    pub layer: u32,
    pub width: u32,
    pub height: u32,
    pub offset_bytes: u32,
}

/// Everything the checks before an upload look at: the texture, the copy,
/// the row stride of the source (in texels), the texel size and how many
/// texels the buffer holds.
#[derive(Clone, Copy, Debug, PartialEq, Eq, Structural)]
pub struct UploadGeometry {
    pub texture: Extent3,
    pub copy: BufferCopy,
    pub stride_texels: u32,
    pub texel_bytes: u32,
    pub buffer_texels: u64,
}

/// Why an upload was refused before it reached the driver.
#[derive(Clone, Copy, Debug, PartialEq, Eq, Structural)]
pub enum PreconditionError {
    /// The copy is wider than a source row.
    StrideTooSmall,
    /// The copy runs past the right edge of the texture.
    ExceedsWidth,
    /// The copy runs past the bottom edge of the texture.
    ExceedsHeight,
    /// The destination layer does not exist.
    LayerOutOfRange,
    /// The buffer offset does not fall on a texel boundary.
    MisalignedOffset,
    /// The buffer ends before the last source row does.
    BufferTooSmall,
}

/// The texels of the buffer that the copy spans: those before its offset, and
/// a full stride for each copied row.
pub open spec fn required_texels(g: UploadGeometry) -> int
    recommends
        g.texel_bytes > 0,
{
    g.copy.offset_bytes as int / g.texel_bytes as int + g.stride_texels as int
        * g.copy.height as int
}

/// Whether the geometry breaks the rule that `e` names.
pub open spec fn violates(g: UploadGeometry, e: PreconditionError) -> bool {
    match e {
        PreconditionError::StrideTooSmall => g.copy.width > g.stride_texels,
        PreconditionError::ExceedsWidth => g.copy.x + g.copy.width > g.texture.width,
        PreconditionError::ExceedsHeight => g.copy.y + g.copy.height > g.texture.height,
        PreconditionError::LayerOutOfRange => g.copy.layer >= g.texture.layers,
        PreconditionError::MisalignedOffset => g.copy.offset_bytes % g.texel_bytes != 0,
        PreconditionError::BufferTooSmall => required_texels(g) > g.buffer_texels,
    }
}

/// Every rule that the geometry breaks.
pub open spec fn violations(g: UploadGeometry) -> Set<PreconditionError> {
    Set::new(|e: PreconditionError| violates(g, e))
}

/// The rule reported for a geometry: the first broken one, in the order in
/// which the checks run.
pub open spec fn first_violation(g: UploadGeometry) -> Option<PreconditionError> {
    if violates(g, PreconditionError::StrideTooSmall) {
        Some(PreconditionError::StrideTooSmall)
    } else if violates(g, PreconditionError::ExceedsWidth) {
        Some(PreconditionError::ExceedsWidth)
    } else if violates(g, PreconditionError::ExceedsHeight) {
        Some(PreconditionError::ExceedsHeight)
    } else if violates(g, PreconditionError::LayerOutOfRange) {
        Some(PreconditionError::LayerOutOfRange)
    } else if violates(g, PreconditionError::MisalignedOffset) {
        Some(PreconditionError::MisalignedOffset)
    } else if violates(g, PreconditionError::BufferTooSmall) {
        Some(PreconditionError::BufferTooSmall)
    } else {
        None
    }
}

/// The result of checking a geometry.
pub open spec fn check_result(g: UploadGeometry) -> Result<(), PreconditionError> {
    match first_violation(g) {
        Some(e) => Err(e),
        None => Ok(()),
    }
}

/// Checks an upload before it is issued. It is refused if the copy is wider
/// than the stride, leaves the texture in any dimension, starts between two
/// texels of the buffer, or reads past the end of the buffer.
pub fn check_geometry(g: &UploadGeometry) -> (r: Result<(), PreconditionError>)
    requires
        g.texel_bytes > 0,
    ensures
        r == check_result(*g),
        r is Ok <==> violations(*g).is_empty(),
        r matches Err(e) ==> violations(*g).contains(e),
{
    proof {
        lemma_first_violation_is_a_violation(*g);
    }
    let c = &g.copy;
    if c.width > g.stride_texels {
        return Err(PreconditionError::StrideTooSmall);
    }
    if c.x as u64 + c.width as u64 > g.texture.width as u64 {
        return Err(PreconditionError::ExceedsWidth);
    }
    if c.y as u64 + c.height as u64 > g.texture.height as u64 {
        return Err(PreconditionError::ExceedsHeight);
    }
    if c.layer >= g.texture.layers {
        return Err(PreconditionError::LayerOutOfRange);
    }
    if c.offset_bytes % g.texel_bytes != 0 {
        return Err(PreconditionError::MisalignedOffset);
    }
    let stride = g.stride_texels as u64;
    let height = c.height as u64;
    assert(stride * height <= 0xffff_fffe_0000_0001u64) by (nonlinear_arith)
        requires
            stride <= 0xffff_ffffu64,
            height <= 0xffff_ffffu64,
    ;
    let rows = stride * height;
    let skipped = (c.offset_bytes / g.texel_bytes) as u64;
    if skipped + rows > g.buffer_texels {
        return Err(PreconditionError::BufferTooSmall);
    }
    Ok(())
}

/// The reported rule is one that the geometry breaks, and a geometry that
/// breaks any rule has one reported.
pub proof fn lemma_first_violation_is_a_violation(g: UploadGeometry)
    ensures
        first_violation(g) is None <==> violations(g).is_empty(),
        first_violation(g) matches Some(e) ==> violations(g).contains(e),
{
    if first_violation(g) is None {
        assert(violations(g) =~= Set::empty()) by {
            assert forall|e: PreconditionError| !violates(g, e) by {
                match e {
                    PreconditionError::StrideTooSmall => {},
                    PreconditionError::ExceedsWidth => {},
                    PreconditionError::ExceedsHeight => {},
                    PreconditionError::LayerOutOfRange => {},
                    PreconditionError::MisalignedOffset => {},
                    PreconditionError::BufferTooSmall => {},
                }
            }
        }
    } else {
        let e = first_violation(g)->Some_0;
        assert(violations(g).contains(e));
    }
}

/// Each rule is checked on its own: a geometry that breaks that rule alone is
/// refused with exactly that error.
pub proof fn law_each_rule_reported_alone(g: UploadGeometry, e: PreconditionError)
    requires
        g.texel_bytes > 0,
        violations(g) == set![e],
    ensures
        check_result(g) == Err::<(), PreconditionError>(e),
{
    lemma_first_violation_is_a_violation(g);
    let f = first_violation(g)->Some_0;
    assert(violations(g).contains(f));
}

/// A geometry that every rule accepts but one, where that rule fails.
pub open spec fn witness(e: PreconditionError) -> UploadGeometry {
    let ok = UploadGeometry {
        texture: Extent3 { width: 8, height: 8, layers: 2 },
        copy: BufferCopy { x: 0, y: 0, layer: 0, width: 2, height: 2, offset_bytes: 8 },
        stride_texels: 4,
        texel_bytes: 4,
        buffer_texels: 64,
    };
    match e {
        PreconditionError::StrideTooSmall => UploadGeometry { stride_texels: 1, ..ok },
        PreconditionError::ExceedsWidth => UploadGeometry {
            copy: BufferCopy { x: 7, ..ok.copy },
            ..ok
        },
        PreconditionError::ExceedsHeight => UploadGeometry {
            copy: BufferCopy { y: 7, ..ok.copy },
            ..ok
        },
        PreconditionError::LayerOutOfRange => UploadGeometry {
            copy: BufferCopy { layer: 2, ..ok.copy },
            ..ok
        },
        PreconditionError::MisalignedOffset => UploadGeometry {
            copy: BufferCopy { offset_bytes: 6, ..ok.copy },
            ..ok
        },
        PreconditionError::BufferTooSmall => UploadGeometry { buffer_texels: 9, ..ok },
    }
}

/// Each rule can be broken on its own, so that each error can be triggered
/// and observed independently of the others.
pub proof fn law_each_rule_triggerable(e: PreconditionError)
    ensures
        exists|g: UploadGeometry|
            g.texel_bytes > 0 && #[trigger] violations(g) == set![e] && check_result(g) == Err::<
                (),
                PreconditionError,
            >(e),
{
    let g = witness(e);
    match e {
        PreconditionError::StrideTooSmall => {
            assert forall|f: PreconditionError| violates(g, f) <==> f == e by {
                match f {
                    PreconditionError::StrideTooSmall => {},
                    PreconditionError::ExceedsWidth => {},
                    PreconditionError::ExceedsHeight => {},
                    PreconditionError::LayerOutOfRange => {},
                    PreconditionError::MisalignedOffset => {},
                    PreconditionError::BufferTooSmall => {},
                }
            }
        },
        PreconditionError::ExceedsWidth => {
            assert forall|f: PreconditionError| violates(g, f) <==> f == e by {
                match f {
                    PreconditionError::StrideTooSmall => {},
                    PreconditionError::ExceedsWidth => {},
                    PreconditionError::ExceedsHeight => {},
                    PreconditionError::LayerOutOfRange => {},
                    PreconditionError::MisalignedOffset => {},
                    PreconditionError::BufferTooSmall => {},
                }
            }
        },
        PreconditionError::ExceedsHeight => {
            assert forall|f: PreconditionError| violates(g, f) <==> f == e by {
                match f {
                    PreconditionError::StrideTooSmall => {},
                    PreconditionError::ExceedsWidth => {},
                    PreconditionError::ExceedsHeight => {},
                    PreconditionError::LayerOutOfRange => {},
                    PreconditionError::MisalignedOffset => {},
                    PreconditionError::BufferTooSmall => {},
                }
            }
        },
        PreconditionError::LayerOutOfRange => {
            assert forall|f: PreconditionError| violates(g, f) <==> f == e by {
                match f {
                    PreconditionError::StrideTooSmall => {},
                    PreconditionError::ExceedsWidth => {},
                    PreconditionError::ExceedsHeight => {},
                    PreconditionError::LayerOutOfRange => {},
                    PreconditionError::MisalignedOffset => {},
                    PreconditionError::BufferTooSmall => {},
                }
            }
        },
        PreconditionError::MisalignedOffset => {
            assert forall|f: PreconditionError| violates(g, f) <==> f == e by {
                match f {
                    PreconditionError::StrideTooSmall => {},
                    PreconditionError::ExceedsWidth => {},
                    PreconditionError::ExceedsHeight => {},
                    PreconditionError::LayerOutOfRange => {},
                    PreconditionError::MisalignedOffset => {},
                    PreconditionError::BufferTooSmall => {},
                }
            }
        },
        PreconditionError::BufferTooSmall => {
            assert forall|f: PreconditionError| violates(g, f) <==> f == e by {
                match f {
                    PreconditionError::StrideTooSmall => {},
                    PreconditionError::ExceedsWidth => {},
                    PreconditionError::ExceedsHeight => {},
                    PreconditionError::LayerOutOfRange => {},
                    PreconditionError::MisalignedOffset => {},
                    PreconditionError::BufferTooSmall => {},
                }
            }
        },
    }
    assert(violations(g) =~= set![e]);
    law_each_rule_reported_alone(g, e);
}

} // verus!
