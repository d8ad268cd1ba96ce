use blur_element::draw::{BufferRect, FinishUniform, PhysRect, ShaderProgram};
use blur_element::element::BlurRenderElement;
use blur_element::float_bits::{f32_bits_eq, f32_bits_is_zero, f64_bits_eq, F32_ONE};
use blur_element::state::{ElementState, LogicalPoint, LogicalSize};

fn point(x: f64, y: f64) -> LogicalPoint {
    LogicalPoint { x: x.to_bits(), y: y.to_bits() }
}

fn size(w: f64, h: f64) -> LogicalSize {
    LogicalSize { w: w.to_bits(), h: h.to_bits() }
}

fn src_rect() -> BufferRect {
    BufferRect { x: 0f64.to_bits(), y: 0f64.to_bits(), w: 20f64.to_bits(), h: 10f64.to_bits() }
}

fn dst_rect() -> PhysRect {
    PhysRect { x: 3, y: 4, w: 20, h: 10 }
}

/// An element bound to output 7 with context 1 whose dirty flag is cleared.
fn settled() -> BlurRenderElement<u64> {
    let mut e = BlurRenderElement::new(11u64)
        .with_deps(1, point(2.0, 3.0), 0.25f32.to_bits(), 7);
    e.update(size(10.0, 5.0), 2.0f64.to_bits());
    e.update(size(10.0, 5.0), 2.0f64.to_bits());
    assert!(!e.is_dirty());
    e
}

#[test]
fn new_element_is_neutral() {
    let e = BlurRenderElement::new(11u64);
    let s: &ElementState = e.state();
    assert_eq!(s.size.w, 0f64.to_bits());
    assert_eq!(s.size.h, 0f64.to_bits());
    assert_eq!(s.scale, 1f64.to_bits());
    assert_eq!(s.output, None);
    assert_eq!(s.context, None);
    assert_eq!(s.corner_radius, 0f32.to_bits());
    assert_eq!(e.current_commit(), 0);
    assert!(e.is_dirty());
    assert_eq!(e.alpha(), 1f32.to_bits());
}

#[test]
fn identity_is_kept_through_changes() {
    let mut e = BlurRenderElement::new(42u64);
    e.update(size(3.0, 3.0), 1f64.to_bits());
    let e = e.with_deps(1, point(1.0, 1.0), 0f32.to_bits(), 2).with_corner_radius(4f32.to_bits());
    assert_eq!(*e.id(), 42);
}

#[test]
fn commit_counts_every_update() {
    let mut e = BlurRenderElement::new(11u64);
    let start = e.current_commit();
    for i in 0..5u32 {
        e.update(size(4.0, 4.0), 1f64.to_bits());
        assert_eq!(e.current_commit(), start + i as usize + 1);
    }
    e.update(size(8.0, 4.0), 1f64.to_bits());
    assert_eq!(e.current_commit(), start + 6);
}

#[test]
fn update_dirty_only_when_size_or_scale_changes() {
    let mut e = BlurRenderElement::new(11u64);
    e.update(size(10.0, 10.0), 1f64.to_bits());
    assert!(e.is_dirty());
    e.update(size(10.0, 10.0), 1f64.to_bits());
    assert!(!e.is_dirty());
    e.update(size(10.0, 10.0), 2f64.to_bits());
    assert!(e.is_dirty());
    e.update(size(10.0, 11.0), 2f64.to_bits());
    assert!(e.is_dirty());
    e.update(size(10.0, 11.0), 2f64.to_bits());
    assert!(!e.is_dirty());
    assert_eq!(e.state().size.h, 11f64.to_bits());
    assert_eq!(e.state().scale, 2f64.to_bits());
}

#[test]
fn update_compares_floats_as_values() {
    let mut e = BlurRenderElement::new(11u64);
    e.update(size(0.0, 0.0), 1f64.to_bits());
    assert!(!e.is_dirty());
    e.update(size(-0.0, 0.0), 1f64.to_bits());
    assert!(!e.is_dirty());
    e.update(size(f64::NAN, 0.0), 1f64.to_bits());
    assert!(e.is_dirty());
    e.update(size(f64::NAN, 0.0), 1f64.to_bits());
    assert!(e.is_dirty());
}

#[test]
fn bind_keeps_commit_and_tracks_change() {
    let e = settled();
    let commit = e.current_commit();
    let e = e.with_deps(1, point(2.0, 3.0), 0.25f32.to_bits(), 7);
    assert_eq!(e.current_commit(), commit);
    assert!(!e.is_dirty());

    let e = settled().with_deps(1, point(2.5, 3.0), 0.25f32.to_bits(), 7);
    assert!(e.is_dirty());
    assert_eq!(e.current_commit(), commit);
    assert_eq!(e.state().loc.x, 2.5f64.to_bits());

    assert!(settled().with_deps(1, point(2.0, 3.0), 0.5f32.to_bits(), 7).is_dirty());
    assert!(settled().with_deps(1, point(2.0, 3.0), 0.25f32.to_bits(), 8).is_dirty());
    assert!(settled().with_deps(2, point(2.0, 3.0), 0.25f32.to_bits(), 7).is_dirty());
}

#[test]
fn bind_does_not_clear_dirty() {
    let mut e = settled();
    e.update(size(12.0, 5.0), 2f64.to_bits());
    assert!(e.is_dirty());
    let e = e.with_deps(1, point(2.0, 3.0), 0.25f32.to_bits(), 7);
    assert!(e.is_dirty());
}

#[test]
fn first_bind_is_a_change() {
    let e = BlurRenderElement::new(11u64);
    let commit = e.current_commit();
    let e = e.with_deps(9, point(0.0, 0.0), 0f32.to_bits(), 3);
    assert!(e.is_dirty());
    assert_eq!(e.current_commit(), commit);
    assert_eq!(e.state().output, Some(3));
    assert_eq!(e.state().context, Some(9));
}

#[test]
fn corner_radius_tracks_change() {
    let e = settled().with_corner_radius(0f32.to_bits());
    assert!(!e.is_dirty());
    let e = settled().with_corner_radius(5f32.to_bits());
    assert!(e.is_dirty());
    assert_eq!(e.state().corner_radius, 5f32.to_bits());
}

#[test]
fn draw_without_output_issues_nothing() {
    let mut e = BlurRenderElement::new(11u64);
    e.update(size(10.0, 10.0), 1f64.to_bits());
    let e = e.with_corner_radius(5f32.to_bits());
    let damage = [dst_rect()];
    assert!(e.draw(src_rect(), dst_rect(), &damage, &[]).is_none());
}

#[test]
fn draw_square_corners_uses_no_program() {
    let e = settled();
    let damage = [PhysRect { x: 3, y: 4, w: 5, h: 5 }, PhysRect { x: 10, y: 4, w: 2, h: 2 }];
    let opaque = [PhysRect { x: 3, y: 4, w: 1, h: 1 }];
    let call = e.draw(src_rect(), dst_rect(), &damage, &opaque).unwrap();
    assert_eq!(call.output, 7);
    assert_eq!(call.src.w, 20f64.to_bits());
    assert_eq!(call.dst, dst_rect());
    assert_eq!(call.damage, damage.to_vec());
    assert_eq!(call.opaque_regions, opaque.to_vec());
    assert_eq!(call.alpha, 1f32.to_bits());
    assert_eq!(call.program, None);
    assert!(call.uniforms.is_empty());
}

#[test]
fn draw_negative_zero_radius_uses_no_program() {
    let e = settled().with_corner_radius((-0.0f32).to_bits());
    let call = e.draw(src_rect(), dst_rect(), &[], &[]).unwrap();
    assert_eq!(call.program, None);
    assert!(call.uniforms.is_empty());
}

#[test]
fn draw_rounded_corners_uses_finish_program() {
    let e = settled().with_corner_radius(5f32.to_bits());
    let call = e.draw(src_rect(), dst_rect(), &[dst_rect()], &[]).unwrap();
    assert_eq!(call.program, Some(ShaderProgram::BlurFinish));
    let names: Vec<&str> = call.uniforms.iter().map(|u| u.name()).collect();
    assert_eq!(names, vec!["geo", "alpha", "noise", "corner_radius"]);
    assert!(matches!(call.uniforms[0], FinishUniform::Geo(r) if r == dst_rect()));
    assert!(matches!(call.uniforms[1], FinishUniform::Alpha(a) if a == 1f32.to_bits()));
    assert!(matches!(call.uniforms[2], FinishUniform::Noise(n) if n == 0.25f32.to_bits()));
    assert!(matches!(call.uniforms[3], FinishUniform::CornerRadius(c) if c == 5f32.to_bits()));
}

#[test]
fn repeated_draws_plan_the_same_call() {
    let e = settled().with_corner_radius(5f32.to_bits());
    let damage = [PhysRect { x: 0, y: 0, w: 1, h: 1 }];
    let a = e.draw(src_rect(), dst_rect(), &damage, &damage).unwrap();
    let b = e.draw(src_rect(), dst_rect(), &damage, &damage).unwrap();
    assert_eq!(a.output, b.output);
    assert_eq!(a.dst, b.dst);
    assert_eq!(a.damage, b.damage);
    assert_eq!(a.opaque_regions, b.opaque_regions);
    assert_eq!(a.program, b.program);
    assert_eq!(a.uniforms.len(), b.uniforms.len());
}

#[test]
fn float_bits_follow_ieee_equality() {
    assert!(f64_bits_eq(0f64.to_bits(), (-0.0f64).to_bits()));
    assert!(f64_bits_eq(1.5f64.to_bits(), 1.5f64.to_bits()));
    assert!(!f64_bits_eq(f64::NAN.to_bits(), f64::NAN.to_bits()));
    assert!(!f64_bits_eq(1.0f64.to_bits(), 2.0f64.to_bits()));
    assert!(f64_bits_eq(f64::INFINITY.to_bits(), f64::INFINITY.to_bits()));
    assert!(f32_bits_eq(0f32.to_bits(), (-0.0f32).to_bits()));
    assert!(!f32_bits_eq(f32::NAN.to_bits(), f32::NAN.to_bits()));
    assert!(f32_bits_is_zero((-0.0f32).to_bits()));
    assert!(!f32_bits_is_zero(f32::MIN_POSITIVE.to_bits()));
    assert_eq!(F32_ONE, 1f32.to_bits());
}
