use vstd::prelude::*;
use rand_chacha::ChaCha8Rng;
use crate::draw::draw_below;
use crate::error::ConfigurationError;
use crate::raster::Rgba;

verus! {

/// Candidates drawn for one cluster center before placement gives up.
pub const MAX_PLACEMENT_ATTEMPTS: u32 = 100000;

/// A cluster center, in texture pixels.
#[derive(Clone, Copy, Debug, PartialEq, Eq, Structural)]
pub struct Center {
    pub x: u32,
    pub y: u32,
}

/// Squared Euclidean distance between two centers.
pub open spec fn dist_sq(a: Center, b: Center) -> int {
    (a.x - b.x) * (a.x - b.x) + (a.y - b.y) * (a.y - b.y)
}

/// `c` lies at least the minimum separation (given squared) from every center of `cs`.
pub open spec fn clear_of(cs: Seq<Center>, c: Center, min_sq: nat) -> bool {
    forall|i: int| 0 <= i < cs.len() ==> dist_sq(#[trigger] cs[i], c) >= min_sq
}

/// Any two centers of `cs` lie at least the minimum separation (given squared) apart.
pub open spec fn pairwise_separated(cs: Seq<Center>, min_sq: nat) -> bool {
    forall|i: int, j: int|
        0 <= i < cs.len() && 0 <= j < cs.len() && i != j ==> dist_sq(#[trigger] cs[i], #[trigger] cs[j])
            >= min_sq
}

/// Every center of `cs` lies in the texture `[0, size)²`.
pub open spec fn inside(cs: Seq<Center>, size: nat) -> bool {
    forall|i: int| 0 <= i < cs.len() ==> #[trigger] cs[i].x < size && cs[i].y < size
}

/// The accepted cluster centers of a resource field, in order of acceptance.
/// Any two of them are at least the minimum separation apart.
pub struct SplatLayout {
    centers: Vec<Center>,
    texture_size: u32,
    min_separation_sq: u64,
}

impl View for SplatLayout {
    type V = Seq<Center>;

    closed spec fn view(&self) -> Seq<Center> {
        self.centers@
    }
}

impl SplatLayout {
    pub closed spec fn spec_texture_size(&self) -> nat {
        self.texture_size as nat
    }

    /// The minimum separation between centers, squared.
    pub closed spec fn spec_min_separation_sq(&self) -> nat {
        self.min_separation_sq as nat
    }

    pub open spec fn wf(&self) -> bool {
        &&& self.spec_texture_size() > 0
        &&& pairwise_separated(self@, self.spec_min_separation_sq())
        &&& inside(self@, self.spec_texture_size())
    }

    /// An empty layout over the texture `[0, texture_size)²` whose centers must lie
    /// at least `sqrt(min_separation_sq)` apart.
    pub fn new(texture_size: u32, min_separation_sq: u64) -> (r: Result<
        SplatLayout,
        ConfigurationError,
    >)
        ensures
            texture_size == 0 <==> r == Err::<SplatLayout, ConfigurationError>(
                ConfigurationError::EmptyTexture,
            ),
            texture_size > 0 ==> r is Ok,
            r matches Ok(l) ==> {
                &&& l.wf()
                &&& l@ == Seq::<Center>::empty()
                &&& l.spec_texture_size() == texture_size
                &&& l.spec_min_separation_sq() == min_separation_sq
            },
    {
        if texture_size == 0 {
            return Err(ConfigurationError::EmptyTexture);
        }
        Ok(SplatLayout { centers: Vec::new(), texture_size, min_separation_sq })
    }

    /// Whether `candidate` respects the minimum separation from every accepted
    /// center. Each call checks against all of them from the first.
    pub fn is_clear(&self, candidate: Center) -> (r: bool)
        ensures
            r == clear_of(self@, candidate, self.spec_min_separation_sq()),
    {
        let mut j: usize = 0;
        while j < self.centers.len()
            invariant
                j <= self.centers@.len(),
                clear_of(self.centers@.subrange(0, j as int), candidate, self.min_separation_sq as nat),
            decreases self.centers@.len() - j,
        {
            let c = self.centers[j];
            let dx: u64 = if c.x >= candidate.x {
                (c.x - candidate.x) as u64
            } else {
                (candidate.x - c.x) as u64
            };
            let dy: u64 = if c.y >= candidate.y {
                (c.y - candidate.y) as u64
            } else {
                (candidate.y - c.y) as u64
            };
            proof {
                assert((dx as int) * (dx as int) <= 0xffff_ffff_ffff_ffff) by (nonlinear_arith)
                    requires
                        dx <= 0xffff_ffff,
                ;
                assert((dy as int) * (dy as int) <= 0xffff_ffff_ffff_ffff) by (nonlinear_arith)
                    requires
                        dy <= 0xffff_ffff,
                ;
                assert((dx as int) * (dx as int) == (c.x - candidate.x) * (c.x - candidate.x))
                    by (nonlinear_arith)
                    requires
                        dx == c.x - candidate.x || dx == candidate.x - c.x,
                ;
                assert((dy as int) * (dy as int) == (c.y - candidate.y) * (c.y - candidate.y))
                    by (nonlinear_arith)
                    requires
                        dy == c.y - candidate.y || dy == candidate.y - c.y,
                ;
            }
            let d: u128 = (dx as u128) * (dx as u128) + (dy as u128) * (dy as u128);
            if d < self.min_separation_sq as u128 {
                assert(!clear_of(self.centers@, candidate, self.min_separation_sq as nat)) by {
                    assert(dist_sq(self.centers@[j as int], candidate) < self.min_separation_sq);
                }
                return false;
            }
            proof {
                assert forall|i: int| 0 <= i < j + 1 implies dist_sq(
                    #[trigger] self.centers@.subrange(0, j + 1)[i],
                    candidate,
                ) >= self.min_separation_sq by {
                    if i < j {
                        assert(self.centers@.subrange(0, j + 1)[i] == self.centers@.subrange(
                            0,
                            j as int,
                        )[i]);
                    }
                }
            }
            j = j + 1;
        }
        assert(self.centers@.subrange(0, j as int) =~= self.centers@);
        true
    }

    /// Draws candidate centers, each as a column then a row uniformly in the
    /// texture, until one is clear of every accepted center, and accepts it.
    /// Gives up after `MAX_PLACEMENT_ATTEMPTS` candidates and leaves the layout as it was.
    pub fn place_center(&mut self, rng: &mut ChaCha8Rng) -> (r: Result<
        Center,
        ConfigurationError,
    >)
        requires
            old(self).wf(),
        ensures
            final(self).wf(),
            final(self).spec_texture_size() == old(self).spec_texture_size(),
            final(self).spec_min_separation_sq() == old(self).spec_min_separation_sq(),
            old(self)@.len() == 0 || old(self).spec_min_separation_sq() == 0 ==> r is Ok,
            match r {
                Ok(c) => {
                    &&& final(self)@ == old(self)@.push(c)
                    &&& c.x < old(self).spec_texture_size()
                    &&& c.y < old(self).spec_texture_size()
                    &&& clear_of(old(self)@, c, old(self).spec_min_separation_sq())
                },
                Err(e) => {
                    &&& e == ConfigurationError::SeparationUnsatisfiable
                    &&& final(self)@ == old(self)@
                },
            },
    {
        let mut attempts: u32 = 0;
        while attempts < MAX_PLACEMENT_ATTEMPTS
            invariant
                *self == *old(self),
                self.wf(),
                attempts > 0 ==> !(self@.len() == 0 || self.min_separation_sq == 0),
            decreases MAX_PLACEMENT_ATTEMPTS - attempts,
        {
            let x = draw_below(rng, self.texture_size);
            let y = draw_below(rng, self.texture_size);
            let candidate = Center { x, y };
            if self.is_clear(candidate) {
                let ghost prev = self.centers@;
                self.centers.push(candidate);
                proof {
                    assert(self.centers@ == prev.push(candidate));
                    assert forall|i: int, j: int|
                        0 <= i < self.centers@.len() && 0 <= j < self.centers@.len() && i != j
                            implies dist_sq(
                            #[trigger] self.centers@[i],
                            #[trigger] self.centers@[j],
                        ) >= self.min_separation_sq by {
                        if i < prev.len() && j < prev.len() {
                            assert(self.centers@[i] == prev[i]);
                            assert(self.centers@[j] == prev[j]);
                            assert(dist_sq(prev[i], prev[j]) >= self.min_separation_sq);
                        } else if i < prev.len() {
                            assert(self.centers@[i] == prev[i]);
                            assert(self.centers@[j] == candidate);
                            assert(dist_sq(prev[i], candidate) >= self.min_separation_sq);
                        } else {
                            assert(self.centers@[i] == candidate);
                            assert(self.centers@[j] == prev[j]);
                            let a = prev[j];
                            assert(dist_sq(a, candidate) >= self.min_separation_sq);
                            assert((a.x - candidate.x) * (a.x - candidate.x) == (candidate.x - a.x)
                                * (candidate.x - a.x)) by (nonlinear_arith);
                            assert((a.y - candidate.y) * (a.y - candidate.y) == (candidate.y - a.y)
                                * (candidate.y - a.y)) by (nonlinear_arith);
                        }
                    }
                    assert(inside(self.centers@, self.texture_size as nat));
                }
                return Ok(candidate);
            }
            proof {
                if self@.len() == 0 {
                    assert(clear_of(self@, candidate, self.min_separation_sq as nat));
                }
                if self.min_separation_sq == 0 {
                    assert forall|i: int| 0 <= i < self@.len() implies dist_sq(
                        #[trigger] self@[i],
                        candidate,
                    ) >= 0 by {
                        let a = self@[i];
                        assert((a.x - candidate.x) * (a.x - candidate.x) >= 0) by (nonlinear_arith);
                        assert((a.y - candidate.y) * (a.y - candidate.y) >= 0) by (nonlinear_arith);
                    }
                }
            }
            attempts = attempts + 1;
        }
        Err(ConfigurationError::SeparationUnsatisfiable)
    }

    /// Number of accepted centers.
    pub fn len(&self) -> (r: usize)
        ensures
            r == self@.len(),
    {
        self.centers.len()
    }

    /// The accepted center at position `i`.
    pub fn center(&self, i: usize) -> (r: Center)
        requires
            i < self@.len(),
        ensures
            r == self@[i as int],
    {
        self.centers[i]
    }
}

/// The resource field's pixel: opaque, with the intensity in red and a full green
/// marker where the pixel is within reach of a deposit, black elsewhere.
pub fn resource_pixel(intensity: Option<u8>) -> (r: Rgba)
    ensures
        r == (match intensity {
            Some(v) => Rgba { r: v, g: 255, b: 0, a: 255 },
            None => Rgba { r: 0, g: 0, b: 0, a: 255 },
        }),
{
    match intensity {
        Some(v) => Rgba { r: v, g: 255, b: 0, a: 255 },
        None => Rgba { r: 0, g: 0, b: 0, a: 255 },
    }
}

/// Any two accepted cluster centers lie at least the minimum separation apart.
pub proof fn lemma_centers_separated(layout: SplatLayout, i: int, j: int)
    requires
        layout.wf(),
        0 <= i < layout@.len(),
        0 <= j < layout@.len(),
        i != j,
    ensures
        dist_sq(layout@[i], layout@[j]) >= layout.spec_min_separation_sq(),
{
}

} // verus!
