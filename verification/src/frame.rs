//! One frame: from the samples of every screen cell to the draw calls that
//! the terminal carries out.
//!
//! A cell is three terminal columns wide and one row high. Cells are taken
//! in row-major order: cell `i` of a grid with `cols` columns stands in
//! column `i % cols` of row `i / cols`. Sampling the field is the caller's
//! part; the classification of every cell and its place on the screen are
//! decided here.

use vstd::prelude::*;
use crate::biome::{band_color, band_of, color, Color};
use crate::marcher::{case_index, glyph, march};
use crate::scalar::Scalar;

verus! {

/// The width of a cell in terminal columns: the width of a glyph.
pub const CELL_WIDTH: usize = 3;

/// The samples taken for one cell.
#[derive(Clone, Copy, Debug)]
pub struct Cell {
    /// The field at the cell's four corners, in the marcher's corner order.
    pub corners: [Scalar; 4],
    /// The biome channel at the cell's own point.
    pub biome: Scalar,
}

/// One call to the terminal: a glyph, where it goes and its colour.
#[derive(Clone, Copy, Debug)]
pub struct DrawCall {
    pub column: usize,
    pub row: usize,
    pub glyph: &'static str,
    pub color: Color,
}

/// The number of whole cells that fit in a row of the terminal.
pub open spec fn grid_cols(width: int) -> int {
    width / 3
}

/// The number of cells that a frame draws: those handed in, as far as the
/// terminal has room for them.
pub open spec fn cells_drawn(count: int, width: int, height: int) -> int {
    let room = grid_cols(width) * height;
    if count < room {
        count
    } else {
        room
    }
}

/// `call` draws cell number `index` of a grid with `cols` columns.
pub open spec fn draws(
    call: DrawCall,
    cell: Cell,
    index: int,
    cols: int,
    threshold: Scalar,
    unicode: bool,
) -> bool {
    &&& call.column == 3 * (index % cols)
    &&& call.row == index / cols
    &&& call.glyph@ == glyph(unicode, case_index(cell.corners, threshold))
    &&& call.color == band_color(band_of(cell.biome))
}

/// The grid of a terminal: columns and rows of cells.
pub fn grid_size(width: usize, height: usize) -> (size: (usize, usize))
    ensures
        size.0 == grid_cols(width as int),
        size.1 == height,
{
    (width / CELL_WIDTH, height)
}

/// Turns the samples of a frame into draw calls, one per cell and in the
/// cells' order. Cells beyond the terminal's last row are not drawn.
pub fn render_frame(
    cells: &Vec<Cell>,
    width: usize,
    height: usize,
    threshold: Scalar,
    unicode: bool,
) -> (calls: Vec<DrawCall>)
    ensures
        calls.len() == cells_drawn(cells.len() as int, width as int, height as int),
        forall|i: int|
            0 <= i < calls.len() ==> draws(
                #[trigger] calls[i],
                cells[i],
                i,
                grid_cols(width as int),
                threshold,
                unicode,
            ),
{
    let cols: usize = width / CELL_WIDTH;
    let mut calls: Vec<DrawCall> = Vec::new();
    if cols == 0 {
        return calls;
    }
    let mut i: usize = 0;
    while i < cells.len() && i / cols < height
        invariant
            cols == grid_cols(width as int),
            cols > 0,
            i <= cells.len(),
            i <= cols * height,
            calls.len() == i,
            forall|j: int|
                0 <= j < i ==> draws(
                    #[trigger] calls[j],
                    cells[j],
                    j,
                    cols as int,
                    threshold,
                    unicode,
                ),
        decreases cells.len() - i,
    {
        proof {
            lemma_row_in_grid(i as int, cols as int, height as int);
        }
        let cell: Cell = cells[i];
        let call = DrawCall {
            column: CELL_WIDTH * (i % cols),
            row: i / cols,
            glyph: march(&cell.corners, threshold, unicode),
            color: color(cell.biome),
        };
        calls.push(call);
        i = i + 1;
    }
    proof {
        if i < cells.len() {
            lemma_row_in_grid(i as int, cols as int, height as int);
        }
    }
    calls
}

/// A cell's row lies in the grid exactly when the cell's number is below
/// the number of cells in the grid.
pub proof fn lemma_row_in_grid(index: int, cols: int, rows: int)
    requires
        0 <= index,
        0 < cols,
        0 <= rows,
    ensures
        index / cols < rows <==> index < cols * rows,
        0 <= index % cols < cols,
{
    assert(index == cols * (index / cols) + index % cols && 0 <= index % cols < cols)
        by (nonlinear_arith)
        requires
            0 < cols,
    ;
    let q = index / cols;
    if q < rows {
        assert(cols * (q + 1) <= cols * rows) by (nonlinear_arith)
            requires
                q + 1 <= rows,
                0 < cols,
        ;
        assert(cols * (q + 1) == cols * q + cols) by (nonlinear_arith);
    } else {
        assert(cols * q >= cols * rows) by (nonlinear_arith)
            requires
                q >= rows,
                0 < cols,
        ;
    }
}

} // verus!
