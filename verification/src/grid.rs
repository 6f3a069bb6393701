//! The pixel grid: a row-major buffer of `width * height` pixels, in which the
//! pixel in column `x` of row `y` has the index `y * width + x`.

use vstd::prelude::*;

verus! {

/// The pixel dimensions of the window.
#[derive(Clone, Copy, Debug)]
pub struct PixelGrid {
    pub width: usize,
    pub height: usize,
}

impl PixelGrid {
    /// Both dimensions are positive and the pixel count fits in a `usize`.
    pub open spec fn wf(&self) -> bool {
        &&& self.width > 0
        &&& self.height > 0
        &&& self.width * self.height <= usize::MAX
    }

    /// The number of pixels.
    pub open spec fn pixel_count(&self) -> int {
        self.width * self.height
    }

    /// The column of the pixel with this index.
    pub open spec fn column_of(&self, index: int) -> int {
        index % (self.width as int)
    }

    /// The row of the pixel with this index.
    pub open spec fn row_of(&self, index: int) -> int {
        index / (self.width as int)
    }

    /// A grid of the given dimensions, or `None` where one of them is zero
    /// or the pixel count does not fit in a `usize`.
    pub fn new(width: usize, height: usize) -> (grid: Option<PixelGrid>)
        ensures
            grid is Some <==> width > 0 && height > 0 && width * height <= usize::MAX,
            grid matches Some(g) ==> g.width == width && g.height == height && g.wf(),
    {
        if width == 0 || height == 0 {
            return None;
        }
        match width.checked_mul(height) {
            Some(_) => Some(PixelGrid { width, height }),
            None => None,
        }
    }

    /// Whether both dimensions are positive and the pixel count fits in a
    /// `usize`, which is what the other methods ask of a grid.
    pub fn is_valid(&self) -> (valid: bool)
        ensures
            valid == self.wf(),
    {
        self.width > 0 && self.height > 0 && self.width.checked_mul(self.height).is_some()
    }

    /// The number of pixels, which is the length of the pixel buffer.
    pub fn len(&self) -> (n: usize)
        requires
            self.wf(),
        ensures
            n == self.pixel_count(),
    {
        self.width * self.height
    }

    /// The column and the row of the pixel with the given index. The
    /// fractional position of the pixel in the window is the column over the
    /// width and the row over the height. An index past the buffer lands in
    /// a row below the window.
    pub fn index_to_pixel(&self, index: usize) -> (pixel: (usize, usize))
        requires
            self.wf(),
        ensures
            pixel.0 == self.column_of(index as int),
            pixel.1 == self.row_of(index as int),
            pixel.0 < self.width,
            pixel.1 * self.width + pixel.0 == index,
            index < self.pixel_count() <==> pixel.1 < self.height,
    {
        proof {
            lemma_column_and_row(index as int, self.width as int, self.height as int);
        }
        (index % self.width, index / self.width)
    }

    /// The index of the pixel in the given column and row, or `None` where
    /// the window has no such pixel.
    pub fn pixel_to_index(&self, column: usize, row: usize) -> (index: Option<usize>)
        requires
            self.wf(),
        ensures
            index is Some <==> column < self.width && row < self.height,
            index matches Some(i) ==> i == row * self.width + column && i < self.pixel_count(),
    {
        if column < self.width && row < self.height {
            proof {
                lemma_index_bound(
                    column as int,
                    row as int,
                    self.width as int,
                    self.height as int,
                );
            }
            Some(row * self.width + column)
        } else {
            None
        }
    }

    /// The pixel at the middle of the window: half the width, half the
    /// height, each rounded down.
    pub fn middle(&self) -> (pixel: (usize, usize))
        ensures
            pixel.0 == self.width / 2,
            pixel.1 == self.height / 2,
    {
        (self.width / 2, self.height / 2)
    }
}

/// Splitting an index into a column and a row loses nothing, the column lies
/// inside the row, and the row lies inside the window exactly when the index
/// lies inside the buffer.
pub proof fn lemma_column_and_row(index: int, width: int, height: int)
    requires
        0 <= index,
        0 < width,
        0 < height,
    ensures
        0 <= index % width < width,
        0 <= index / width,
        (index / width) * width + index % width == index,
        index < width * height <==> index / width < height,
{
    vstd::arithmetic::div_mod::lemma_fundamental_div_mod(index, width);
    vstd::arithmetic::div_mod::lemma_mod_bound(index, width);
    vstd::arithmetic::div_mod::lemma_div_pos_is_pos(index, width);
    let q = index / width;
    assert(width * q == q * width) by (nonlinear_arith);
    if q < height {
        assert(q * width + width <= height * width) by (nonlinear_arith)
            requires
                q + 1 <= height,
                0 < width,
        ;
        assert(height * width == width * height) by (nonlinear_arith);
    } else {
        assert(q * width >= height * width) by (nonlinear_arith)
            requires
                q >= height,
                0 < width,
        ;
        assert(height * width == width * height) by (nonlinear_arith);
    }
}

/// A pixel inside the window has an index inside the buffer.
pub proof fn lemma_index_bound(column: int, row: int, width: int, height: int)
    requires
        0 <= column < width,
        0 <= row < height,
    ensures
        0 <= row * width + column < width * height,
{
    assert(row * width + width <= height * width) by (nonlinear_arith)
        requires
            row + 1 <= height,
            0 < width,
    ;
    assert(0 <= row * width) by (nonlinear_arith)
        requires
            0 <= row,
            0 < width,
    ;
    assert(height * width == width * height) by (nonlinear_arith);
}

/// The index of a pixel inside the window splits back into that pixel's
/// column and row.
pub proof fn lemma_pixel_round_trip(grid: PixelGrid, column: int, row: int)
    requires
        grid.wf(),
        0 <= column < grid.width,
        0 <= row < grid.height,
    ensures
        grid.column_of(row * grid.width + column) == column,
        grid.row_of(row * grid.width + column) == row,
{
    let width = grid.width as int;
    assert(row * width == width * row) by (nonlinear_arith);
    vstd::arithmetic::div_mod::lemma_fundamental_div_mod_converse(
        row * width + column,
        width,
        row,
        column,
    );
}

/// The first index is the pixel in the top left corner of the window, and
/// the last index is the pixel in the last column of the last row.
pub proof fn lemma_corner_pixels(grid: PixelGrid)
    requires
        grid.wf(),
    ensures
        grid.column_of(0) == 0,
        grid.row_of(0) == 0,
        grid.column_of(grid.pixel_count() - 1) == grid.width - 1,
        grid.row_of(grid.pixel_count() - 1) == grid.height - 1,
{
    let width = grid.width as int;
    let height = grid.height as int;
    lemma_pixel_round_trip(grid, 0, 0);
    lemma_pixel_round_trip(grid, width - 1, height - 1);
    assert((height - 1) * width + (width - 1) == width * height - 1) by (nonlinear_arith);
    assert(0 * width + 0 == 0);
}

} // verus!
