use pathtracer::material::{checker_is_white, SamplingFunctions};
use pathtracer::pathtracer::PathTracer;
use pathtracer::scene::{nearest_hit, BounceAction, BounceBudget, Surface};

#[test]
fn tracer_settings() {
    let t = PathTracer::new(1280, 720, 256);
    assert_eq!((t.width, t.height, t.samples), (1280, 720, 256));
    assert_eq!(t.pixel_count(), Some(921_600));
    assert_eq!(PathTracer::new(usize::MAX, 2, 1).pixel_count(), None);
}

#[test]
fn pixel_layout_is_row_major() {
    let t = PathTracer::new(4, 3, 1);
    assert_eq!(t.pixel_index(0, 0), 0);
    assert_eq!(t.pixel_index(3, 0), 3);
    assert_eq!(t.pixel_index(1, 2), 9);
    assert_eq!(t.pixel_coords(9), (1, 2));
    assert_eq!(t.pixel_coords(11), (3, 2));
    for i in 0..12 {
        let (x, y) = t.pixel_coords(i);
        assert_eq!(t.pixel_index(x, y), i);
    }
}

#[test]
fn debug_render_splits_sampling_by_half() {
    let t = PathTracer::new(10, 2, 1);
    assert_eq!(t.sampling_for(0, true), SamplingFunctions::RandomUnitVector);
    assert_eq!(t.sampling_for(4, true), SamplingFunctions::RandomUnitVector);
    assert_eq!(t.sampling_for(5, true), SamplingFunctions::CosineWeightedSample2);
    assert_eq!(t.sampling_for(9, true), SamplingFunctions::CosineWeightedSample2);
    assert_eq!(t.sampling_for(0, false), SamplingFunctions::CosineWeightedSample1);
    assert_eq!(t.sampling_for(9, false), SamplingFunctions::CosineWeightedSample1);
}

#[test]
fn checkerboard_parity() {
    assert!(!checker_is_white(0, 0));
    assert!(checker_is_white(0, 1));
    assert!(checker_is_white(3, 4));
    assert!(!checker_is_white(9, 9));
    assert!(checker_is_white(-1, 0));
}

#[test]
fn bounce_budget_runs_out_without_escape() {
    let mut b = BounceBudget::new(2);
    assert!(b.has_bounce());
    assert_eq!(b.step(Some(Surface::Diffuse)), BounceAction::Scatter);
    assert_eq!(b.step(Some(Surface::Mirror)), BounceAction::Reflect);
    assert_eq!(b.remaining, 0);
    assert!(!b.has_bounce());
}

#[test]
fn bounce_escape_ends_path_without_spending() {
    let mut b = BounceBudget::new(10);
    assert_eq!(b.step(None), BounceAction::Background);
    assert_eq!(b.remaining, 10);
    assert!(!BounceBudget::new(0).has_bounce());
}

#[test]
fn nearest_hit_prefers_smallest_then_first() {
    assert_eq!(nearest_hit(&vec![]), None);
    assert_eq!(nearest_hit(&vec![None, None]), None);
    assert_eq!(nearest_hit(&vec![Some(7), None, Some(3), Some(5)]), Some(2));
    assert_eq!(nearest_hit(&vec![None, Some(4), Some(4)]), Some(1));
    let far = 4.0f64.to_bits();
    let near = 0.5f64.to_bits();
    assert_eq!(nearest_hit(&vec![Some(far), Some(near)]), Some(1));
}
