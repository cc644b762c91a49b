//! The materialized cell grid: one row of cells per data row, one cell per
//! column.

use vstd::prelude::*;
use crate::column::{Rgba, TableDescription};
use crate::row::TableRow;

verus! {

/// A materialized cell: the text it shows, the fixed width of its box and
/// its background, if any.
#[derive(Clone, Debug)]
pub struct Cell {
    pub text: String,
    pub width: u32,
    pub background: Option<Rgba>,
}

/// `c` is the cell that column `j`, described by `col`, makes for `row`.
pub open spec fn cell_of<U: TableRow>(c: Cell, col: TableDescription, row: U, j: int) -> bool {
    &&& c.text@ == row.cell_text(j)
    &&& c.width == col.width
    &&& c.background == row.background_of(j)
}

/// `cells` is the row of cells that the columns make for `row`.
pub open spec fn row_of<U: TableRow>(cells: Seq<Cell>, cols: Seq<TableDescription>, row: U) -> bool {
    &&& cells.len() == cols.len()
    &&& forall|j: int| 0 <= j < cols.len() ==> #[trigger] cell_of(cells[j], cols[j], row, j)
}

/// `grid` holds, in data order, the rows of cells that the columns make for
/// each data row.
pub open spec fn grid_of<U: TableRow>(grid: Seq<Vec<Cell>>, cols: Seq<TableDescription>, data: Seq<U>) -> bool {
    &&& grid.len() == data.len()
    &&& forall|i: int| 0 <= i < data.len() ==> #[trigger] row_of(grid[i]@, cols, data[i])
}

/// Makes the cells of one data row, left to right.
pub fn build_row<U: TableRow>(cols: &Vec<TableDescription>, row: &U) -> (r: Vec<Cell>)
    ensures
        row_of(r@, cols@, *row),
{
    let mut r: Vec<Cell> = Vec::new();
    let mut j: usize = 0;
    while j < cols.len()
        invariant
            j <= cols.len(),
            r@.len() == j,
            forall|k: int| 0 <= k < j ==> #[trigger] cell_of(r@[k], cols@[k], *row, k),
        decreases cols.len() - j,
    {
        let cell = Cell { text: row.cell(j), width: cols[j].width, background: row.background(j) };
        r.push(cell);
        j = j + 1;
    }
    r
}

/// Makes the whole grid, one row of cells per data row, in data order.
pub fn build_grid<U: TableRow>(cols: &Vec<TableDescription>, data: &Vec<U>) -> (r: Vec<Vec<Cell>>)
    ensures
        grid_of(r@, cols@, data@),
{
    let mut r: Vec<Vec<Cell>> = Vec::with_capacity(data.len());
    let mut i: usize = 0;
    while i < data.len()
        invariant
            i <= data.len(),
            r@.len() == i,
            forall|k: int| 0 <= k < i ==> #[trigger] row_of(r@[k]@, cols@, data@[k]),
        decreases data.len() - i,
    {
        let row = build_row(cols, &data[i]);
        r.push(row);
        i = i + 1;
    }
    r
}

} // verus!
