//! The text console surface: a fixed-size array of 16-bit display cells,
//! each cell holding a character code in its low byte and a display
//! attribute in its high byte, addressed by a linear index.

use vstd::prelude::*;

verus! {

/// The 16-bit cell that clearing with a background attribute leaves
/// behind: the attribute in the high byte, no character in the low byte.
pub open spec fn cleared_cell(background: u8) -> u16 {
    (background as u16) << 8
}

/// A console surface of `rows * width` cells. The capacity is always a
/// whole number of rows, which the newline handling of the keyboard state
/// machine relies on.
pub struct Console {
    pub cells: Vec<u16>,
    pub width: usize,
}

impl Console {
    /// Well-formedness: at least one column, at least one cell, and the
    /// cell count a multiple of the row width.
    pub open spec fn wf(self) -> bool {
        &&& 0 < self.width
        &&& 0 < self.cells@.len()
        &&& self.cells@.len() % (self.width as nat) == 0
    }

    /// Number of cells on the surface.
    pub open spec fn capacity(self) -> int {
        self.cells@.len() as int
    }

    /// Makes a surface of `rows` rows of `width` cells, every cell cleared
    /// with the given background attribute.
    pub fn new(rows: usize, width: usize, background: u8) -> (r: Console)
        requires
            0 < rows,
            0 < width,
            rows * width <= usize::MAX,
        ensures
            r.wf(),
            r.width == width,
            r.capacity() == rows * width,
            forall|i: int| 0 <= i < r.capacity() ==> r.cells@[i] == cleared_cell(background),
    {
        let total: usize = rows * width;
        let mut cells: Vec<u16> = Vec::new();
        let cell: u16 = (background as u16) << 8;
        let mut i: usize = 0;
        while i < total
            invariant
                i <= total,
                total == rows * width,
                cell == cleared_cell(background),
                cells@.len() == i,
                forall|j: int| 0 <= j < i ==> cells@[j] == cleared_cell(background),
            decreases total - i,
        {
            cells.push(cell);
            i = i + 1;
        }
        proof {
            assert(total as nat % (width as nat) == 0 && 0 < total) by (nonlinear_arith)
                requires
                    total == rows * width,
                    0 < width,
                    0 < rows,
            ;
        }
        Console { cells, width }
    }

    /// Overwrites every cell with the cleared cell for the given
    /// background attribute; the geometry is unchanged.
    pub fn clear(&mut self, background: u8)
        requires
            old(self).wf(),
        ensures
            final(self).wf(),
            final(self).width == old(self).width,
            final(self).capacity() == old(self).capacity(),
            forall|i: int|
                0 <= i < final(self).capacity() ==> final(self).cells@[i] == cleared_cell(
                    background,
                ),
    {
        let total: usize = self.cells.len();
        let cell: u16 = (background as u16) << 8;
        let mut i: usize = 0;
        while i < total
            invariant
                i <= total,
                self.cells@.len() == total,
                self.width == old(self).width,
                cell == cleared_cell(background),
                old(self).wf(),
                forall|j: int| 0 <= j < i ==> self.cells@[j] == cleared_cell(background),
            decreases total - i,
        {
            self.cells[i] = cell;
            i = i + 1;
        }
    }
}

} // verus!
