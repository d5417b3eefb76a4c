use vstd::prelude::*;

verus! {

/// Index `k` of the six that draw quad `q` as two triangles over its four
/// vertices `4q .. 4q + 3`: `(0, 1, 2)` and `(0, 2, 3)`.
pub open spec fn quad_index(q: int, k: int) -> int {
    let corner: int = if k == 0 || k == 3 {
        0
    } else if k == 1 {
        1
    } else if k == 2 || k == 4 {
        2
    } else {
        3
    };
    4 * q + corner
}

/// Index buffer for `quads` quads whose vertices are stored four per quad in order:
/// two triangles per quad, six indices.
pub fn quad_indices(quads: u32) -> (r: Vec<u32>)
    requires
        4 * (quads as int) <= u32::MAX + 1,
        6 * (quads as int) <= usize::MAX,
    ensures
        r@.len() == 6 * quads,
        forall|q: int, k: int|
            0 <= q < quads && 0 <= k < 6 ==> #[trigger] r@[6 * q + k] == quad_index(q, k),
{
    let mut v: Vec<u32> = Vec::with_capacity(6 * quads as usize);
    let mut q: u32 = 0;
    while q < quads
        invariant
            4 * (quads as int) <= u32::MAX + 1,
            q <= quads,
            v@.len() == 6 * q,
            forall|p: int, k: int|
                0 <= p < q && 0 <= k < 6 ==> #[trigger] v@[6 * p + k] == quad_index(p, k),
        decreases quads - q,
    {
        let base: u32 = 4 * q;
        let ghost before = v@;
        v.push(base);
        v.push(base + 1);
        v.push(base + 2);
        v.push(base);
        v.push(base + 2);
        v.push(base + 3);
        proof {
            assert forall|p: int, k: int| 0 <= p < q + 1 && 0 <= k < 6 implies #[trigger] v@[6
                * p + k] == quad_index(p, k) by {
                if p < q {
                    assert(v@[6 * p + k] == before[6 * p + k]);
                }
            }
        }
        q = q + 1;
    }
    v
}

} // verus!
