use rand::SeedableRng;
use rand_chacha::ChaCha8Rng;
use terrain_fields::error::ConfigurationError;
use terrain_fields::raster::Rgba;
use terrain_fields::resource::{resource_pixel, Center, SplatLayout};

fn dist_sq(a: Center, b: Center) -> u64 {
    let dx = (a.x as i64 - b.x as i64).unsigned_abs();
    let dy = (a.y as i64 - b.y as i64).unsigned_abs();
    dx * dx + dy * dy
}

fn layout(seed: u64, splats: usize, size: u32, min_sq: u64) -> SplatLayout {
    let mut rng = ChaCha8Rng::seed_from_u64(seed);
    let mut l = SplatLayout::new(size, min_sq).unwrap();
    for _ in 0..splats {
        l.place_center(&mut rng).unwrap();
    }
    l
}

#[test]
fn empty_texture_is_refused() {
    assert!(matches!(SplatLayout::new(0, 4), Err(ConfigurationError::EmptyTexture)));
}

#[test]
fn single_splat_lands_inside_texture() {
    let l = layout(7, 1, 64, 100);
    assert_eq!(l.len(), 1);
    let c = l.center(0);
    assert!(c.x < 64 && c.y < 64);
}

#[test]
fn same_seed_gives_same_centers() {
    let a = layout(7, 6, 256, 40 * 40);
    let b = layout(7, 6, 256, 40 * 40);
    assert_eq!(a.len(), 6);
    for i in 0..6 {
        assert_eq!(a.center(i), b.center(i));
    }
}

#[test]
fn accepted_centers_are_separated() {
    let min_sq = 30 * 30;
    let l = layout(3, 8, 200, min_sq);
    for i in 0..l.len() {
        for j in 0..l.len() {
            if i != j {
                assert!(dist_sq(l.center(i), l.center(j)) >= min_sq);
            }
        }
    }
}

#[test]
fn unsatisfiable_separation_gives_up_and_keeps_layout() {
    let mut rng = ChaCha8Rng::seed_from_u64(1);
    let mut l = SplatLayout::new(1, 1).unwrap();
    assert_eq!(l.place_center(&mut rng).unwrap(), Center { x: 0, y: 0 });
    assert!(matches!(l.place_center(&mut rng), Err(ConfigurationError::SeparationUnsatisfiable)));
    assert_eq!(l.len(), 1);
}

#[test]
fn is_clear_checks_every_center() {
    let mut rng = ChaCha8Rng::seed_from_u64(9);
    let mut l = SplatLayout::new(1, 0).unwrap();
    l.place_center(&mut rng).unwrap();
    l.place_center(&mut rng).unwrap();
    assert!(l.is_clear(Center { x: 0, y: 0 }));
    let strict = SplatLayout::new(10, 4).unwrap();
    assert!(strict.is_clear(Center { x: 3, y: 3 }));
}

#[test]
fn is_clear_rejects_close_candidate() {
    let mut rng = ChaCha8Rng::seed_from_u64(11);
    let mut l = SplatLayout::new(50, 25).unwrap();
    let c = l.place_center(&mut rng).unwrap();
    assert!(!l.is_clear(c));
    let far = Center { x: if c.x >= 25 { c.x - 5 } else { c.x + 5 }, y: c.y };
    assert!(l.is_clear(far));
    let near = Center { x: if c.x >= 25 { c.x - 4 } else { c.x + 4 }, y: c.y };
    assert!(!l.is_clear(near));
}

#[test]
fn resource_pixel_marks_green_inside() {
    assert_eq!(resource_pixel(Some(255)), Rgba { r: 255, g: 255, b: 0, a: 255 });
    assert_eq!(resource_pixel(Some(17)), Rgba { r: 17, g: 255, b: 0, a: 255 });
    assert_eq!(resource_pixel(None), Rgba { r: 0, g: 0, b: 0, a: 255 });
}
