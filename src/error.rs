use vstd::prelude::*;

verus! {

/// Parameters with which a generator cannot be built.
#[derive(Clone, Copy, Debug, PartialEq, Eq, Structural)]
pub enum ConfigurationError {
    /// A gradient lattice needs at least one cell per side.
    ZeroLatticeSize,
    /// A noise field needs at least one octave.
    ZeroOctaves,
    /// The lattice has more cells than memory can index.
    LatticeTooLarge,
    /// More octaves than the frequency and amplitude exponents can express.
    TooManyOctaves,
    /// Sub-points are jittered around their cluster center over an empty spread.
    EmptySplatSpread,
    /// Offsetting the seed by the octave index leaves the range of `u64`.
    SeedOverflow,
    /// The gradient samples do not fill the lattice exactly.
    SampleCountMismatch,
    /// Cluster centers are drawn from an empty texture.
    EmptyTexture,
    /// No candidate respected the minimum separation within the attempt budget.
    SeparationUnsatisfiable,
    /// No end side distinct from the start side came up within the attempt budget.
    NoDistinctSide,
}

/// A lattice query that falls outside the lattice.
#[derive(Clone, Copy, Debug, PartialEq, Eq, Structural)]
pub enum QueryError {
    OutOfBounds,
}

/// A pixel buffer whose pixels do not fill its declared extent.
#[derive(Clone, Copy, Debug, PartialEq, Eq, Structural)]
pub enum BufferError {
    SizeMismatch,
    TooLarge,
}

} // verus!
