use vstd::prelude::*;
use crate::error::ConfigurationError;

verus! {

/// One term of a fractal noise sum: the lattice of octave `grid` is sampled at the
/// point scaled by `2^frequency_exponent` and weighted by
/// `persistence^amplitude_exponent`.
#[derive(Clone, Copy, Debug, PartialEq, Eq, Structural)]
pub struct OctaveTerm {
    pub grid: usize,
    pub frequency_exponent: i64,
    pub amplitude_exponent: u32,
}

/// The seeds of the octaves' lattices: the field's seed offset by each octave index.
pub fn octave_seeds(seed: u64, octaves: usize) -> (r: Result<Vec<u64>, ConfigurationError>)
    ensures
        octaves == 0 <==> r == Err::<Vec<u64>, ConfigurationError>(
            ConfigurationError::ZeroOctaves,
        ),
        octaves > 0 && seed + octaves - 1 > u64::MAX <==> r == Err::<Vec<u64>, ConfigurationError>(
            ConfigurationError::SeedOverflow,
        ),
        octaves > 0 && seed + octaves - 1 <= u64::MAX ==> r is Ok,
        r matches Ok(v) ==> v@.len() == octaves && forall|i: int|
            0 <= i < octaves ==> #[trigger] v@[i] == seed + i,
{
    if octaves == 0 {
        return Err(ConfigurationError::ZeroOctaves);
    }
    if (octaves - 1) as u64 > u64::MAX - seed {
        return Err(ConfigurationError::SeedOverflow);
    }
    let mut v: Vec<u64> = Vec::with_capacity(octaves);
    let mut i: usize = 0;
    while i < octaves
        invariant
            seed + octaves - 1 <= u64::MAX,
            i <= octaves,
            v@.len() == i,
            forall|j: int| 0 <= j < i ==> #[trigger] v@[j] == seed + j,
        decreases octaves - i,
    {
        v.push(seed + i as u64);
        i = i + 1;
    }
    Ok(v)
}

/// The terms of the fractal sum in order of rising frequency: octave `i` samples
/// its own lattice at `2^i` times the point, weighted by `persistence^i`.
pub fn forward_terms(octaves: u32) -> (r: Vec<OctaveTerm>)
    ensures
        r@.len() == octaves,
        forall|i: int|
            0 <= i < octaves ==> #[trigger] r@[i] == (OctaveTerm {
                grid: i as usize,
                frequency_exponent: i as i64,
                amplitude_exponent: i as u32,
            }),
{
    let mut v: Vec<OctaveTerm> = Vec::new();
    let mut i: u32 = 0;
    while i < octaves
        invariant
            i <= octaves,
            v@.len() == i,
            forall|j: int|
                0 <= j < i ==> #[trigger] v@[j] == (OctaveTerm {
                    grid: j as usize,
                    frequency_exponent: j as i64,
                    amplitude_exponent: j as u32,
                }),
        decreases octaves - i,
    {
        v.push(OctaveTerm { grid: i as usize, frequency_exponent: i as i64, amplitude_exponent: i });
        i = i + 1;
    }
    v
}

/// The same sum traversed from the other end of the frequency range: octave `i`
/// samples its own lattice at the point divided by `2^(octaves - 1 - i)`, weighted by
/// `persistence^i`.
pub fn reverse_terms(octaves: u32) -> (r: Vec<OctaveTerm>)
    ensures
        r@.len() == octaves,
        forall|i: int|
            0 <= i < octaves ==> #[trigger] r@[i] == (OctaveTerm {
                grid: i as usize,
                frequency_exponent: (i - (octaves - 1)) as i64,
                amplitude_exponent: i as u32,
            }),
{
    let mut v: Vec<OctaveTerm> = Vec::new();
    let mut i: u32 = 0;
    while i < octaves
        invariant
            i <= octaves,
            v@.len() == i,
            forall|j: int|
                0 <= j < i ==> #[trigger] v@[j] == (OctaveTerm {
                    grid: j as usize,
                    frequency_exponent: (j - (octaves - 1)) as i64,
                    amplitude_exponent: j as u32,
                }),
        decreases octaves - i,
    {
        let shift: i64 = i as i64 - (octaves as i64 - 1);
        v.push(OctaveTerm { grid: i as usize, frequency_exponent: shift, amplitude_exponent: i });
        i = i + 1;
    }
    v
}

} // verus!
