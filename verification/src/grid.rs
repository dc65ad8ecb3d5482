use vstd::prelude::*;

verus! {

/// The sides for which a grid can be held and rendered: four bytes per cell
/// must be addressable.
pub open spec fn fits(width: nat, height: nat) -> bool {
    4 * (width * height) <= isize::MAX
}

/// Position of cell `(x, y)` in row-major order.
pub open spec fn cell_index(x: int, y: int, width: int) -> int {
    y * width + x
}

/// Distinct cells of a grid have distinct positions, all under the number
/// of cells.
pub proof fn lemma_cell_index(x: int, y: int, width: int, height: int)
    requires
        0 <= x < width,
        0 <= y < height,
    ensures
        0 <= y * width <= cell_index(x, y, width) < width * height,
        forall|u: int, v: int|
            0 <= u < width && 0 <= v < height && (u != x || v != y) ==> cell_index(u, v, width)
                != cell_index(x, y, width),
{
    assert(0 <= y * width && y * width + width <= width * height) by (nonlinear_arith)
        requires
            0 <= y < height,
            0 < width,
    ;
    assert forall|u: int, v: int|
        0 <= u < width && 0 <= v < height && (u != x || v != y) implies cell_index(u, v, width)
        != cell_index(x, y, width) by {
        if v < y {
            assert(v * width + width <= y * width) by (nonlinear_arith)
                requires
                    v < y,
                    0 < width,
            ;
        } else if y < v {
            assert(y * width + width <= v * width) by (nonlinear_arith)
                requires
                    y < v,
                    0 < width,
            ;
        }
    }
}

/// The iteration counts of one frame, a count for every pixel.
pub struct CountGrid {
    width: u32,
    height: u32,
    cells: Vec<u32>,
}

impl CountGrid {
    /// Number of columns.
    pub closed spec fn cols(&self) -> nat {
        self.width as nat
    }

    /// Number of rows.
    pub closed spec fn rows(&self) -> nat {
        self.height as nat
    }

    /// The count held for pixel `(x, y)`.
    pub closed spec fn at(&self, x: int, y: int) -> u32 {
        self.cells@[cell_index(x, y, self.width as int)]
    }

    /// There is one cell for each pixel, and the grid fits.
    pub closed spec fn wf(&self) -> bool {
        &&& self.cells@.len() == self.width * self.height
        &&& fits(self.width as nat, self.height as nat)
    }

    /// A grid that fits has sides that fit.
    pub proof fn lemma_fits(&self)
        requires
            self.wf(),
        ensures
            fits(self.cols(), self.rows()),
    {
    }

    /// A grid of the given sides with every count zero, or `None` where
    /// such a grid does not fit.
    pub fn new(width: u32, height: u32) -> (made: Option<CountGrid>)
        ensures
            made.is_some() == fits(width as nat, height as nat),
            made matches Some(grid) ==> {
                &&& grid.wf()
                &&& grid.cols() == width
                &&& grid.rows() == height
                &&& forall|x: int, y: int|
                    0 <= x < width && 0 <= y < height ==> #[trigger] grid.at(x, y) == 0
            },
    {
        assert(width * height <= 0xffff_ffff * 0xffff_ffff) by (nonlinear_arith)
            requires
                width <= 0xffff_ffff,
                height <= 0xffff_ffff,
        ;
        let cells_wanted: u128 = (width as u128) * (height as u128);
        if 4 * cells_wanted > isize::MAX as u128 {
            return None;
        }
        let cells: Vec<u32> = vec![0u32; cells_wanted as usize];
        let grid = CountGrid { width, height, cells };
        assert forall|x: int, y: int| 0 <= x < width && 0 <= y < height implies #[trigger] grid.at(
            x,
            y,
        ) == 0 by {
            lemma_cell_index(x, y, width as int, height as int);
        }
        Some(grid)
    }

    /// Number of columns.
    pub fn width(&self) -> (w: u32)
        ensures
            w == self.cols(),
    {
        self.width
    }

    /// Number of rows.
    pub fn height(&self) -> (h: u32)
        ensures
            h == self.rows(),
    {
        self.height
    }

    /// The count held for pixel `(x, y)`.
    pub fn get(&self, x: u32, y: u32) -> (count: u32)
        requires
            self.wf(),
            x < self.cols(),
            y < self.rows(),
        ensures
            count == self.at(x as int, y as int),
    {
        proof {
            lemma_cell_index(x as int, y as int, self.width as int, self.height as int);
        }
        self.cells[(y as usize) * (self.width as usize) + (x as usize)]
    }

    /// Sets the count of pixel `(x, y)` and leaves every other pixel's.
    pub fn set(&mut self, x: u32, y: u32, count: u32)
        requires
            old(self).wf(),
            x < old(self).cols(),
            y < old(self).rows(),
        ensures
            final(self).wf(),
            final(self).cols() == old(self).cols(),
            final(self).rows() == old(self).rows(),
            final(self).at(x as int, y as int) == count,
            forall|u: int, v: int|
                0 <= u < old(self).cols() && 0 <= v < old(self).rows() && (u != x || v != y)
                    ==> #[trigger] final(self).at(u, v) == old(self).at(u, v),
    {
        proof {
            lemma_cell_index(x as int, y as int, self.width as int, self.height as int);
        }
        let index: usize = (y as usize) * (self.width as usize) + (x as usize);
        self.cells.set(index, count);
        assert forall|u: int, v: int|
            0 <= u < old(self).cols() && 0 <= v < old(self).rows() && (u != x || v != y) implies (
        #[trigger] self.at(u, v)) == old(self).at(u, v) by {
            lemma_cell_index(u, v, self.width as int, self.height as int);
        }
    }
}

} // verus!
