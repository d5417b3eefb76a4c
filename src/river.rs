use vstd::prelude::*;
use rand_chacha::ChaCha8Rng;
use crate::draw::draw_below;
use crate::error::ConfigurationError;
use crate::raster::Rgba;

verus! {

/// Side draws for the river's end before its construction gives up.
pub const MAX_SIDE_DRAWS: u32 = 10000;

/// Newton steps taken from each guess of the nearest curve parameter.
pub const NEWTON_ITERATIONS: usize = 5;

/// The parameter range `[0, 1]` is split into this many steps for the guesses.
pub const GUESS_STEPS: usize = 5;

/// Evenly spaced curve samples used to skip pixels far from the river.
pub const COARSE_SAMPLES: usize = 20;

/// A side of the square terrain on which a river ends.
#[derive(Clone, Copy, Debug, PartialEq, Eq, Structural)]
pub enum Side {
    /// `y = 0`, the offset runs along `x`.
    Top,
    /// `y = terrain_size`, the offset runs along `x`.
    Bottom,
    /// `x = 0`, the offset runs along `y`.
    Left,
    /// `x = terrain_size`, the offset runs along `y`.
    Right,
}

/// The side numbered `i`, in the order top, bottom, left, right.
pub open spec fn side_of(i: int) -> Option<Side> {
    if i == 0 {
        Some(Side::Top)
    } else if i == 1 {
        Some(Side::Bottom)
    } else if i == 2 {
        Some(Side::Left)
    } else if i == 3 {
        Some(Side::Right)
    } else {
        None
    }
}

impl Side {
    /// The side numbered `i`, in the order top, bottom, left, right.
    pub fn from_index(i: u32) -> (r: Option<Side>)
        ensures
            r == side_of(i as int),
    {
        match i {
            0 => Some(Side::Top),
            1 => Some(Side::Bottom),
            2 => Some(Side::Left),
            3 => Some(Side::Right),
            _ => None,
        }
    }

    /// Whether a point on this side has its offset along `x` (its `y` is fixed).
    pub fn runs_along_x(&self) -> (r: bool)
        ensures
            r <==> (*self == Side::Top || *self == Side::Bottom),
    {
        match self {
            Side::Top | Side::Bottom => true,
            _ => false,
        }
    }

    /// Whether the fixed coordinate of a point on this side is `terrain_size` (else 0).
    pub fn at_far_edge(&self) -> (r: bool)
        ensures
            r <==> (*self == Side::Bottom || *self == Side::Right),
    {
        match self {
            Side::Bottom | Side::Right => true,
            _ => false,
        }
    }
}

/// Draws the side on which the river starts, uniformly among the four.
pub fn draw_start_side(rng: &mut ChaCha8Rng) -> (r: Side) {
    let i = draw_below(rng, 4);
    match Side::from_index(i) {
        Some(s) => s,
        None => Side::Top,
    }
}

/// Draws sides until one differs from `start`; that is where the river ends.
/// Gives up after `MAX_SIDE_DRAWS` draws.
pub fn draw_end_side(rng: &mut ChaCha8Rng, start: Side) -> (r: Result<Side, ConfigurationError>)
    ensures
        match r {
            Ok(s) => s != start,
            Err(e) => e == ConfigurationError::NoDistinctSide,
        },
{
    let mut draws: u32 = 0;
    while draws < MAX_SIDE_DRAWS
        decreases MAX_SIDE_DRAWS - draws,
    {
        let i = draw_below(rng, 4);
        if let Some(s) = Side::from_index(i) {
            if s != start {
                return Ok(s);
            }
        }
        draws = draws + 1;
    }
    Err(ConfigurationError::NoDistinctSide)
}

/// The river field's pixel: opaque, with the intensity in red where the pixel is
/// within the river, black elsewhere.
pub fn river_pixel(intensity: Option<u8>) -> (r: Rgba)
    ensures
        r == (match intensity {
            Some(v) => Rgba { r: v, g: 0, b: 0, a: 255 },
            None => Rgba { r: 0, g: 0, b: 0, a: 255 },
        }),
{
    match intensity {
        Some(v) => Rgba { r: v, g: 0, b: 0, a: 255 },
        None => Rgba { r: 0, g: 0, b: 0, a: 255 },
    }
}

/// A candidate for the curve parameter nearest to a pixel.
#[derive(Clone, Copy, Debug, PartialEq, Eq, Structural)]
pub enum CurveParameter {
    /// `t = 0`, taken as it is.
    Start,
    /// `t = step / steps`, refined by Newton's method before use.
    Guess { step: usize, steps: usize },
    /// `t = 1`, taken as it is.
    End,
}

/// The candidate parameters whose curve points are measured against each pixel:
/// the start of the curve, `steps + 1` evenly spaced guesses from 0 to 1 that are
/// refined, and the end of the curve.
pub fn nearest_point_candidates(steps: usize) -> (r: Vec<CurveParameter>)
    requires
        steps >= 1,
        steps + 3 <= usize::MAX,
    ensures
        r@.len() == steps + 3,
        r@[0] == CurveParameter::Start,
        r@[steps + 2] == CurveParameter::End,
        forall|k: int|
            0 <= k <= steps ==> #[trigger] r@[k + 1] == (CurveParameter::Guess {
                step: k as usize,
                steps,
            }),
{
    let mut v: Vec<CurveParameter> = Vec::with_capacity(steps + 3);
    v.push(CurveParameter::Start);
    let mut k: usize = 0;
    while k <= steps
        invariant
            steps + 3 <= usize::MAX,
            k <= steps + 1,
            v@.len() == k + 1,
            v@[0] == CurveParameter::Start,
            forall|j: int|
                0 <= j < k ==> #[trigger] v@[j + 1] == (CurveParameter::Guess {
                    step: j as usize,
                    steps,
                }),
        decreases steps + 1 - k,
    {
        v.push(CurveParameter::Guess { step: k, steps });
        k = k + 1;
    }
    v.push(CurveParameter::End);
    v
}

} // verus!
