use driver_probe::extensions::{has_extension, mentions, positions_mentioning};
use driver_probe::oracle::{judge, CheckKind, Finding, Verdict};
use driver_probe::swizzle::{encode_dimension, Source, Swizzle, SwizzleScenario};
use driver_probe::texel::{fill_bytes, Rgba};
use driver_probe::upload::{
    check_geometry, BufferCopy, Extent3, PreconditionError, UploadGeometry,
};
use driver_probe::upload_probe::{PlanError, Probe, Step, UploadScenario};

const WHITE: Rgba = Rgba { r: 255, g: 255, b: 255, a: 255 };
const GREEN: Rgba = Rgba { r: 0, g: 255, b: 0, a: 255 };

fn valid_geometry() -> UploadGeometry {
    UploadGeometry {
        texture: Extent3 { width: 256, height: 64, layers: 1 },
        copy: BufferCopy { x: 128, y: 0, layer: 0, width: 1, height: 1, offset_bytes: 16384 },
        stride_texels: 4,
        texel_bytes: 4,
        buffer_texels: 256 * 64,
    }
}

#[test]
fn texel_bytes_round_trip() {
    let c = Rgba::from_bytes([1, 2, 3, 4]);
    assert_eq!(c, Rgba::new(1, 2, 3, 4));
    assert_eq!(c.to_bytes(), [1, 2, 3, 4]);
    assert_eq!(Rgba::splat(0xFF), WHITE);
}

#[test]
fn fill_repeats_the_color() {
    assert_eq!(fill_bytes(GREEN, 3), vec![0, 255, 0, 255, 0, 255, 0, 255, 0, 255, 0, 255]);
    assert!(fill_bytes(GREEN, 0).is_empty());
}

#[test]
fn judge_is_byte_exact() {
    assert_eq!(judge(GREEN, GREEN), Verdict::Pass);
    let off_by_one = Rgba::new(0, 254, 0, 255);
    assert_eq!(judge(off_by_one, GREEN), Verdict::Fail(off_by_one));
}

#[test]
fn sanity_failure_is_a_harness_fault() {
    let f = Finding { kind: CheckKind::Sanity, verdict: Verdict::Fail(GREEN) };
    assert!(f.is_harness_fault());
    assert!(!f.is_defect());
    let d = Finding { kind: CheckKind::Defect, verdict: Verdict::Fail(GREEN) };
    assert!(d.is_defect());
    assert!(!d.is_harness_fault());
    let p = Finding { kind: CheckKind::Sanity, verdict: Verdict::Pass };
    assert!(!p.is_harness_fault());
}

#[test]
fn valid_geometry_is_accepted() {
    assert_eq!(check_geometry(&valid_geometry()), Ok(()));
}

#[test]
fn stride_smaller_than_copy_is_refused() {
    let mut g = valid_geometry();
    g.copy.width = 5;
    assert_eq!(check_geometry(&g), Err(PreconditionError::StrideTooSmall));
}

#[test]
fn copy_past_right_edge_is_refused() {
    let mut g = valid_geometry();
    g.copy.x = 255;
    g.copy.width = 2;
    assert_eq!(check_geometry(&g), Err(PreconditionError::ExceedsWidth));
}

#[test]
fn copy_past_bottom_edge_is_refused() {
    let mut g = valid_geometry();
    g.copy.y = 64;
    assert_eq!(check_geometry(&g), Err(PreconditionError::ExceedsHeight));
}

#[test]
fn missing_layer_is_refused() {
    let mut g = valid_geometry();
    g.copy.layer = 1;
    assert_eq!(check_geometry(&g), Err(PreconditionError::LayerOutOfRange));
}

#[test]
fn misaligned_offset_is_refused() {
    let mut g = valid_geometry();
    g.copy.offset_bytes = 16386;
    assert_eq!(check_geometry(&g), Err(PreconditionError::MisalignedOffset));
}

#[test]
fn short_buffer_is_refused() {
    let mut g = valid_geometry();
    g.buffer_texels = 4099;
    assert_eq!(check_geometry(&g), Err(PreconditionError::BufferTooSmall));
    g.buffer_texels = 4100;
    assert_eq!(check_geometry(&g), Ok(()));
}

#[test]
fn first_broken_rule_is_reported() {
    let mut g = valid_geometry();
    g.copy.width = 5;
    g.copy.offset_bytes = 3;
    assert_eq!(check_geometry(&g), Err(PreconditionError::StrideTooSmall));
}

#[test]
fn single_texel_plan() {
    let s = UploadScenario::single_texel();
    let steps = s.plan_steps().unwrap();
    assert_eq!(steps.len(), 7);
    assert_eq!(steps[0], Step::AllocateTexture(Extent3 { width: 256, height: 64, layers: 1 }));
    assert_eq!(steps[1], Step::FillTexture { color: WHITE, texels: 16384 });
    assert_eq!(steps[2], Step::ReadBack(Probe { kind: CheckKind::Sanity, x: 0, y: 0, layer: 0 }));
    assert_eq!(steps[3], Step::FillPixelBuffer { color: GREEN, texels: 16384 });
    assert_eq!(steps[4], Step::SetUnpack { alignment: 1, row_length: 4 });
    assert_eq!(
        steps[5],
        Step::UploadFromBuffer(BufferCopy { x: 128, y: 0, layer: 0, width: 1, height: 1, offset_bytes: 16384 })
    );
    assert_eq!(steps[6], Step::ReadBack(Probe { kind: CheckKind::Defect, x: 128, y: 0, layer: 0 }));
}

#[test]
fn single_texel_expects_buffer_fill() {
    let s = UploadScenario::single_texel();
    assert_eq!(s.expected_readbacks(), vec![WHITE, GREEN]);
}

#[test]
fn two_layers_expectations() {
    let s = UploadScenario::two_layers();
    assert!(s.plan_steps().is_ok());
    assert_eq!(s.expected_readbacks(), vec![WHITE, GREEN, GREEN, WHITE]);
}

#[test]
fn sanity_readback_expects_background() {
    let mut s = UploadScenario::single_texel();
    s.background = Rgba::new(10, 20, 30, 40);
    assert_eq!(s.expected_readbacks()[0], Rgba::new(10, 20, 30, 40));
    let f = s.evaluate(&vec![WHITE, GREEN]);
    assert!(f[0].is_harness_fault());
    assert_eq!(f[0].verdict, Verdict::Fail(WHITE));
    assert_eq!(f[1].verdict, Verdict::Pass);
}

#[test]
fn conforming_readbacks_pass() {
    let s = UploadScenario::two_layers();
    let f = s.evaluate(&vec![WHITE, GREEN, GREEN, WHITE]);
    assert!(f.iter().all(|x| x.verdict == Verdict::Pass));
}

#[test]
fn wrong_layer_write_is_a_defect() {
    let s = UploadScenario::two_layers();
    let f = s.evaluate(&vec![WHITE, GREEN, WHITE, GREEN]);
    assert_eq!(f[2], Finding { kind: CheckKind::Defect, verdict: Verdict::Fail(WHITE) });
    assert_eq!(f[3], Finding { kind: CheckKind::Defect, verdict: Verdict::Fail(GREEN) });
}

#[test]
fn rerun_gives_same_findings() {
    let s = UploadScenario::single_texel();
    let readbacks = vec![WHITE, Rgba::new(1, 2, 3, 4)];
    assert_eq!(s.evaluate(&readbacks), s.evaluate(&readbacks));
    assert_eq!(s.plan_steps(), s.plan_steps());
}

#[test]
fn bad_copy_stops_the_plan() {
    let mut s = UploadScenario::two_layers();
    s.copies[1].layer = 2;
    assert_eq!(s.plan_steps(), Err(PlanError::Copy(1, PreconditionError::LayerOutOfRange)));
}

#[test]
fn huge_texture_stops_the_plan() {
    let mut s = UploadScenario::single_texel();
    s.texture = Extent3 { width: u32::MAX, height: u32::MAX, layers: u32::MAX };
    assert_eq!(s.plan_steps(), Err(PlanError::TooLarge));
}

#[test]
fn swizzle_probe_expects_full_scale() {
    let s = SwizzleScenario::standard();
    assert_eq!(s.expected_pixel(), Rgba::new(255, 255, 0, 255));
    assert_eq!(s.readback_point(), (128, 128));
    assert_eq!(s.swizzle, Swizzle::red_blue_swap());
    assert!(!s.swizzle.is_identity());
}

#[test]
fn swizzle_mismatch_carries_bytes() {
    let s = SwizzleScenario::standard();
    let garbage = Rgba::new(3, 0, 0, 255);
    assert_eq!(s.evaluate(garbage), Finding { kind: CheckKind::Defect, verdict: Verdict::Fail(garbage) });
    assert_eq!(s.evaluate(Rgba::new(255, 255, 0, 255)).verdict, Verdict::Pass);
}

#[test]
fn size_expectation_ignores_swizzle() {
    let mut s = SwizzleScenario::large();
    let swapped = s.expected_pixel();
    s.swizzle = Swizzle::identity();
    assert!(s.swizzle.is_identity());
    assert_eq!(s.expected_pixel(), swapped);
    s.swizzle = Swizzle { r: Source::Zero, g: Source::One, b: Source::Alpha, a: Source::Red };
    assert_eq!(s.expected_pixel(), swapped);
    assert_eq!(swapped, Rgba::new(255, 255, 0, 255));
}

#[test]
fn dimension_encoding_rounds() {
    assert_eq!(encode_dimension(0), 0);
    assert_eq!(encode_dimension(1), 4);
    assert_eq!(encode_dimension(32), 128);
    assert_eq!(encode_dimension(63), 251);
    assert_eq!(encode_dimension(64), 255);
    assert_eq!(encode_dimension(512), 255);
}

#[test]
fn extension_filtering() {
    let names = vec![
        "GL_ARB_texture_swizzle".to_string(),
        "GL_KHR_debug".to_string(),
        "GL_EXT_texture_swizzle".to_string(),
    ];
    assert!(mentions("GL_ARB_texture_swizzle", "swizzle"));
    assert!(!mentions("GL_KHR_debug", "swizzle"));
    assert!(!mentions("swiz", "swizzle"));
    assert_eq!(positions_mentioning(&names, "swizzle"), vec![0, 2]);
    assert!(has_extension(&names, "GL_KHR_debug"));
    assert!(!has_extension(&names, "GL_KHR"));
}
