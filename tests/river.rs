use rand::SeedableRng;
use rand_chacha::ChaCha8Rng;
use terrain_fields::raster::Rgba;
use terrain_fields::river::{
    draw_end_side, draw_start_side, nearest_point_candidates, river_pixel, CurveParameter, Side,
    GUESS_STEPS,
};

#[test]
fn sides_are_numbered_top_bottom_left_right() {
    assert_eq!(Side::from_index(0), Some(Side::Top));
    assert_eq!(Side::from_index(1), Some(Side::Bottom));
    assert_eq!(Side::from_index(2), Some(Side::Left));
    assert_eq!(Side::from_index(3), Some(Side::Right));
    assert_eq!(Side::from_index(4), None);
}

#[test]
fn side_geometry() {
    assert!(Side::Top.runs_along_x() && !Side::Top.at_far_edge());
    assert!(Side::Bottom.runs_along_x() && Side::Bottom.at_far_edge());
    assert!(!Side::Left.runs_along_x() && !Side::Left.at_far_edge());
    assert!(!Side::Right.runs_along_x() && Side::Right.at_far_edge());
}

#[test]
fn end_side_differs_from_start_side() {
    for seed in 0..50u64 {
        let mut rng = ChaCha8Rng::seed_from_u64(seed);
        let start = draw_start_side(&mut rng);
        let end = draw_end_side(&mut rng, start).unwrap();
        assert_ne!(start, end);
    }
}

#[test]
fn sides_are_reproducible_from_seed() {
    let mut a = ChaCha8Rng::seed_from_u64(42);
    let mut b = ChaCha8Rng::seed_from_u64(42);
    let sa = draw_start_side(&mut a);
    let sb = draw_start_side(&mut b);
    assert_eq!(sa, sb);
    assert_eq!(draw_end_side(&mut a, sa).unwrap(), draw_end_side(&mut b, sb).unwrap());
}

#[test]
fn candidates_include_both_endpoints() {
    let c = nearest_point_candidates(GUESS_STEPS);
    assert_eq!(c.len(), GUESS_STEPS + 3);
    assert_eq!(c[0], CurveParameter::Start);
    assert_eq!(c[GUESS_STEPS + 2], CurveParameter::End);
    assert_eq!(c[1], CurveParameter::Guess { step: 0, steps: 5 });
    assert_eq!(c[6], CurveParameter::Guess { step: 5, steps: 5 });
}

#[test]
fn river_pixel_is_red() {
    assert_eq!(river_pixel(Some(255)), Rgba { r: 255, g: 0, b: 0, a: 255 });
    assert_eq!(river_pixel(None), Rgba { r: 0, g: 0, b: 0, a: 255 });
}
