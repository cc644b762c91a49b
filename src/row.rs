//! What the table needs of a row: the text of each of its cells, the full
//! text of each cell for the expand bar, and an optional background.

use vstd::prelude::*;
use crate::column::Rgba;

verus! {

/// A row type that the table can show. Column `c` of the table renders
/// column `c` of each row.
pub trait TableRow {
    /// Text shown in the row's cell of column `column`.
    spec fn cell_text(&self, column: int) -> Seq<char>;

    /// Full text that the expand bar shows for that cell.
    spec fn expanded_text(&self, column: int) -> Seq<char>;

    /// Background of that cell, if it has one.
    spec fn background_of(&self, column: int) -> Option<Rgba>;

    fn cell(&self, column: usize) -> (r: String)
        ensures
            r@ == self.cell_text(column as int),
    ;

    fn expand_cell(&self, column: usize) -> (r: String)
        ensures
            r@ == self.expanded_text(column as int),
    ;

    fn background(&self, column: usize) -> (r: Option<Rgba>)
        ensures
            r == self.background_of(column as int),
    ;
}

} // verus!
