use terrain_fields::error::ConfigurationError;
use terrain_fields::noise::{forward_terms, octave_seeds, reverse_terms, OctaveTerm};

#[test]
fn seeds_are_offset_by_octave() {
    assert_eq!(octave_seeds(10, 3).unwrap(), vec![10, 11, 12]);
    assert_eq!(octave_seeds(0, 1).unwrap(), vec![0]);
    assert_eq!(octave_seeds(u64::MAX, 1).unwrap(), vec![u64::MAX]);
}

#[test]
fn zero_octaves_are_refused() {
    assert!(matches!(octave_seeds(5, 0), Err(ConfigurationError::ZeroOctaves)));
}

#[test]
fn seed_overflow_is_refused() {
    assert!(matches!(octave_seeds(u64::MAX, 2), Err(ConfigurationError::SeedOverflow)));
}

#[test]
fn forward_terms_double_frequency() {
    let t = forward_terms(3);
    assert_eq!(
        t,
        vec![
            OctaveTerm { grid: 0, frequency_exponent: 0, amplitude_exponent: 0 },
            OctaveTerm { grid: 1, frequency_exponent: 1, amplitude_exponent: 1 },
            OctaveTerm { grid: 2, frequency_exponent: 2, amplitude_exponent: 2 },
        ]
    );
    assert!(forward_terms(0).is_empty());
}

#[test]
fn reverse_terms_start_from_lowest_frequency() {
    let t = reverse_terms(3);
    assert_eq!(
        t,
        vec![
            OctaveTerm { grid: 0, frequency_exponent: -2, amplitude_exponent: 0 },
            OctaveTerm { grid: 1, frequency_exponent: -1, amplitude_exponent: 1 },
            OctaveTerm { grid: 2, frequency_exponent: 0, amplitude_exponent: 2 },
        ]
    );
    assert_eq!(reverse_terms(1), forward_terms(1));
}
