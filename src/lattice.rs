use vstd::prelude::*;
use crate::error::{ConfigurationError, QueryError};

verus! {

/// Index into a lattice of `size + 2` rows or columns after wrap-around
/// duplication: the last one repeats the first.
pub open spec fn wrap(i: int, size: int) -> int {
    if i == size + 1 {
        0
    } else {
        i
    }
}

/// The four lattice values around one cell.
#[derive(Clone, Copy, Debug)]
pub struct Corners<T> {
    pub top_left: T,
    pub top_right: T,
    pub bottom_left: T,
    pub bottom_right: T,
}

/// A `(size + 2) × (size + 2)` lattice of gradient values whose last row equals
/// its first row and whose last column equals its first column.
pub struct GradientGrid<T> {
    cells: Vec<Vec<T>>,
    size: usize,
}

impl<T: Copy> GradientGrid<T> {
    /// The lattice resolution `N`; the grid has `N + 2` rows and columns.
    pub closed spec fn spec_size(&self) -> nat {
        self.size as nat
    }

    /// The value at row `r`, column `c`.
    pub closed spec fn cell(&self, r: int, c: int) -> T {
        self.cells@[r]@[c]
    }

    pub closed spec fn wf(&self) -> bool {
        &&& self.size >= 1
        &&& self.cells@.len() == self.size + 2
        &&& forall|r: int| 0 <= r < self.size + 2 ==> (#[trigger] self.cells@[r])@.len() == self.size + 2
        &&& forall|r: int, c: int|
            0 <= r < self.size + 2 && 0 <= c < self.size + 2 ==> #[trigger] self.cell(r, c)
                == self.cell(wrap(r, self.size as int), wrap(c, self.size as int))
    }

    /// Builds a lattice of resolution `size` from `(size + 2)²` values in row-major
    /// order, then copies the first column over the last and the first row over the
    /// last, so that sampling across the boundary is seamless.
    pub fn from_samples(size: usize, samples: &Vec<T>) -> (r: Result<
        GradientGrid<T>,
        ConfigurationError,
    >)
        ensures
            size == 0 <==> r == Err::<GradientGrid<T>, ConfigurationError>(
                ConfigurationError::ZeroLatticeSize,
            ),
            size > 0 && (size + 2) * (size + 2) > usize::MAX <==> r == Err::<
                GradientGrid<T>,
                ConfigurationError,
            >(ConfigurationError::LatticeTooLarge),
            size > 0 && (size + 2) * (size + 2) <= usize::MAX && samples@.len() != (size + 2) * (
            size + 2) <==> r == Err::<GradientGrid<T>, ConfigurationError>(
                ConfigurationError::SampleCountMismatch,
            ),
            size > 0 && (size + 2) * (size + 2) <= usize::MAX && samples@.len() == (size + 2) * (
            size + 2) ==> r is Ok,
            r matches Ok(g) ==> {
                &&& g.wf()
                &&& g.spec_size() == size
                &&& forall|row: int, col: int|
                    0 <= row < size + 2 && 0 <= col < size + 2 ==> #[trigger] g.cell(row, col)
                        == samples@[wrap(row, size as int) * (size + 2) + wrap(col, size as int)]
            },
    {
        if size == 0 {
            return Err(ConfigurationError::ZeroLatticeSize);
        }
        let side: usize = match size.checked_add(2) {
            Some(s) => s,
            None => {
                proof {
                    assert((size + 2) * (size + 2) > usize::MAX) by (nonlinear_arith)
                        requires
                            size + 2 > usize::MAX,
                    ;
                }
                return Err(ConfigurationError::LatticeTooLarge);
            },
        };
        let count: usize = match side.checked_mul(side) {
            Some(n) => n,
            None => {
                return Err(ConfigurationError::LatticeTooLarge);
            },
        };
        if samples.len() != count {
            return Err(ConfigurationError::SampleCountMismatch);
        }
        let ghost sz = size as int;
        let mut cells: Vec<Vec<T>> = Vec::with_capacity(side);
        let mut r: usize = 0;
        while r < side
            invariant
                sz == size,
                side == size + 2,
                count == side * side,
                samples@.len() == count,
                r <= side,
                cells@.len() == r,
                forall|i: int| 0 <= i < r ==> (#[trigger] cells@[i])@.len() == side,
                forall|i: int, c: int|
                    0 <= i < r && 0 <= c < side ==> #[trigger] cells@[i]@[c] == samples@[wrap(
                        i,
                        sz,
                    ) * side + wrap(c, sz)],
            decreases side - r,
        {
            let src_row: usize = if r == side - 1 {
                0
            } else {
                r
            };
            let mut row: Vec<T> = Vec::with_capacity(side);
            let mut c: usize = 0;
            while c < side
                invariant
                    sz == size,
                    side == size + 2,
                    count == side * side,
                    samples@.len() == count,
                    r < side,
                    src_row == wrap(r as int, sz),
                    c <= side,
                    row@.len() == c,
                    forall|k: int|
                        0 <= k < c ==> #[trigger] row@[k] == samples@[src_row * side + wrap(k, sz)],
                decreases side - c,
            {
                let src_col: usize = if c == side - 1 {
                    0
                } else {
                    c
                };
                proof {
                    assert(src_row * side + src_col < side * side) by (nonlinear_arith)
                        requires
                            src_row < side,
                            src_col < side,
                    ;
                }
                row.push(samples[src_row * side + src_col]);
                c = c + 1;
            }
            cells.push(row);
            r = r + 1;
        }
        let g = GradientGrid { cells, size };
        proof {
            assert forall|row: int, col: int|
                0 <= row < sz + 2 && 0 <= col < sz + 2 implies #[trigger] g.cell(row, col)
                == g.cell(wrap(row, sz), wrap(col, sz)) by {
                assert(g.cells@[row]@[col] == samples@[wrap(row, sz) * side + wrap(col, sz)]);
                assert(g.cells@[wrap(row, sz)]@[wrap(col, sz)] == samples@[wrap(wrap(row, sz), sz)
                    * side + wrap(wrap(col, sz), sz)]);
            }
        }
        Ok(g)
    }

    /// The lattice resolution `N`.
    pub fn size(&self) -> (r: usize)
        ensures
            r == self.spec_size(),
    {
        self.size
    }

    /// The four lattice values around the cell whose top-left corner is at column
    /// `x_floor`, row `y_floor`. A cell that reaches past the lattice is out of bounds.
    pub fn corners(&self, x_floor: usize, y_floor: usize) -> (r: Result<Corners<T>, QueryError>)
        requires
            self.wf(),
        ensures
            x_floor > self.spec_size() || y_floor > self.spec_size() <==> r == Err::<
                Corners<T>,
                QueryError,
            >(QueryError::OutOfBounds),
            r matches Ok(k) ==> {
                &&& k.top_left == self.cell(y_floor as int, x_floor as int)
                &&& k.top_right == self.cell(y_floor as int, x_floor + 1)
                &&& k.bottom_left == self.cell(y_floor + 1, x_floor as int)
                &&& k.bottom_right == self.cell(y_floor + 1, x_floor + 1)
            },
    {
        let rows: usize = self.cells.len();
        if x_floor >= rows - 1 || y_floor >= rows - 1 {
            return Err(QueryError::OutOfBounds);
        }
        let top = &self.cells[y_floor];
        let bottom = &self.cells[y_floor + 1];
        Ok(
            Corners {
                top_left: top[x_floor],
                top_right: top[x_floor + 1],
                bottom_left: bottom[x_floor],
                bottom_right: bottom[x_floor + 1],
            },
        )
    }
}

/// The lattice wraps around: the last column repeats the first and the last row
/// repeats the first, so the right edge of the rightmost cells and the bottom edge of
/// the bottom cells carry the same gradients as the left and top edge of the first.
pub proof fn lemma_seams_match<T: Copy>(g: GradientGrid<T>, i: int)
    requires
        g.wf(),
        0 <= i < g.spec_size() + 2,
    ensures
        g.cell(i, g.spec_size() + 1int) == g.cell(i, 0),
        g.cell(g.spec_size() + 1int, i) == g.cell(0, i),
{
    let n = g.spec_size() as int;
    assert(g.cell(i, n + 1) == g.cell(wrap(i, n), 0));
    assert(g.cell(i, 0) == g.cell(wrap(i, n), 0));
    assert(g.cell(n + 1, i) == g.cell(0, wrap(i, n)));
    assert(g.cell(0, i) == g.cell(0, wrap(i, n)));
}

} // verus!
