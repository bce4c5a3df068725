//! A fixed-shape grid of adjustment data.

use vstd::prelude::*;

verus! {

/// A `W` by `H` grid of values (depth `D` and time `C` name the full shape
/// an adjustment may address; this store keeps one plane of it).
#[derive(Debug, Clone)]
pub struct ArrayGrid<T, const W: usize, const H: usize, const D: usize, const C: usize> {
    cells: Vec<T>,
}

impl<T: Copy, const W: usize, const H: usize, const D: usize, const C: usize> ArrayGrid<
    T,
    W,
    H,
    D,
    C,
> {
    /// The cells, row by row.
    pub closed spec fn spec_cells(&self) -> Seq<T> {
        self.cells@
    }

    /// Structural soundness: one cell per grid position.
    pub open spec fn wf(&self) -> bool {
        self.spec_cells().len() == W * H
    }

    /// A grid filled with one value.
    pub fn new(fill: T) -> (g: ArrayGrid<T, W, H, D, C>)
        requires
            W * H <= usize::MAX,
        ensures
            g.wf(),
            forall|i: int| 0 <= i < g.spec_cells().len() ==> g.spec_cells()[i] == fill,
    {
        let count = W * H;
        let mut cells: Vec<T> = Vec::new();
        let mut i: usize = 0;
        while i < count
            invariant
                i <= count,
                cells@.len() == i,
                forall|j: int| 0 <= j < i ==> cells@[j] == fill,
            decreases count - i,
        {
            cells.push(fill);
            i += 1;
        }
        ArrayGrid { cells }
    }

    /// The value at row `y`, column `x` of the two-dimensional plane.
    pub fn get_2d(&self, x: usize, y: usize) -> (v: T)
        requires
            self.wf(),
            x < W,
            y < H,
        ensures
            v == self.spec_cells()[y * W + x],
    {
        let total = self.cells.len();
        proof {
            assert(y * W + x < W * H) by (nonlinear_arith)
                requires
                    x < W,
                    y < H,
            ;
        }
        self.cells[y * W + x]
    }

    /// Sets the value at row `y`, column `x` of the two-dimensional plane.
    pub fn set_2d(&mut self, x: usize, y: usize, value: T)
        requires
            old(self).wf(),
            x < W,
            y < H,
        ensures
            final(self).wf(),
            final(self).spec_cells() == old(self).spec_cells().update(
                (y * W + x) as int,
                value,
            ),
    {
        let total = self.cells.len();
        proof {
            assert(y * W + x < W * H) by (nonlinear_arith)
                requires
                    x < W,
                    y < H,
            ;
        }
        self.cells[y * W + x] = value;
    }
}

} // verus!
