//! The table: expand bar, header strip and content grid, with the shared
//! hover state.

use vstd::prelude::*;
use crate::column::{total_width, width_full, lemma_span_monotonic, TableDescription};
use crate::geometry::{Point, Rect};
use crate::grid::{build_grid, grid_of, Cell};
use crate::hit::{first_header, header_hot, lemma_header_priority, resolve, resolves, Hover};
use crate::layout::{
    cell_rect, header_rect, layout_cells, layout_headers, total_height, PADDING_VERTICAL,
};
use crate::row::TableRow;

verus! {

/// Width and height of a laid-out table.
#[derive(Clone, Copy, Debug, PartialEq, Eq, Structural)]
pub struct Size {
    pub width: i64,
    pub height: i64,
}

/// The table's state as mathematical values.
pub struct TableView {
    pub columns: Seq<TableDescription>,
    pub width_full: int,
    pub expand_text: Seq<char>,
    pub hover: Hover,
    pub cells: Seq<Vec<Cell>>,
    pub observed_len: nat,
    pub header_rects: Seq<Rect>,
    pub cell_rects: Seq<Vec<Rect>>,
    pub expand_rect: Rect,
    pub content_top: int,
    pub height: int,
}

impl TableView {
    /// The columns fix the full width; the grid has one row of cells per
    /// observed data row and one cell per column; header and cell
    /// rectangles match them.
    pub open spec fn wf(self) -> bool {
        &&& self.width_full == total_width(self.columns)
        &&& self.width_full <= i64::MAX
        &&& self.cells.len() == self.observed_len
        &&& forall|i: int| 0 <= i < self.cells.len() ==> (#[trigger] self.cells[i])@.len() == self.columns.len()
        &&& self.header_rects.len() == self.columns.len()
        &&& self.cell_rects.len() == self.cells.len()
        &&& forall|i: int| 0 <= i < self.cell_rects.len() ==> (#[trigger] self.cell_rects[i])@.len() == self.columns.len()
        &&& 0 <= self.content_top <= self.height <= i64::MAX
    }

    /// Area the table covers, in its own coordinates.
    pub open spec fn bounds(self) -> Rect {
        Rect { x0: 0, y0: 0, x1: self.width_full as i64, y1: self.height as i64 }
    }

    /// Area of the scrolled content region.
    pub open spec fn viewport(self) -> Rect {
        Rect { x0: 0, y0: self.content_top as i64, x1: self.width_full as i64, y1: self.height as i64 }
    }
}

/// The text that the expand bar shows for a hover.
pub open spec fn expand_text_of<U: TableRow>(cols: Seq<TableDescription>, data: Seq<U>, h: Hover) -> Seq<char> {
    match h {
        Hover::Nothing => Seq::empty(),
        Hover::Header(j) => cols[j as int].expand_header@,
        Hover::Cell(i, j) => data[i as int].expanded_text(j as int),
    }
}

/// When the pointer is over the table and over some header, the expand text
/// is the full text of the first hot header, never a cell's, whatever cells
/// the pointer is also over.
pub proof fn lemma_header_text_priority<U: TableRow>(
    h: Hover,
    cols: Seq<TableDescription>,
    data: Seq<U>,
    headers: Seq<Rect>,
    hx: int,
    hy: int,
    content_hot: bool,
    cells: Seq<Vec<Rect>>,
    rows: int,
    cx: int,
    cy: int,
    j: int,
)
    requires
        header_hot(headers, hx, hy, j),
        resolves(h, true, headers, hx, hy, content_hot, cells, rows, cx, cy),
    ensures
        exists|k: int| 0 <= k <= j && first_header(headers, hx, hy, k)
            && expand_text_of(cols, data, h) == cols[k].expand_header@,
{
    lemma_header_priority(h, headers, hx, hy, content_hot, cells, rows, cx, cy, j);
    if let Hover::Header(k) = h {
        assert(0 <= k as int <= j && first_header(headers, hx, hy, k as int));
    }
}

/// A table over rows of a caller's type, with a fixed list of columns.
pub struct Table {
    columns: Vec<TableDescription>,
    width_full: i64,
    expand_text: String,
    hover: Hover,
    cells: Vec<Vec<Cell>>,
    observed_len: usize,
    header_rects: Vec<Rect>,
    cell_rects: Vec<Vec<Rect>>,
    expand_rect: Rect,
    content_top: i64,
    height: i64,
}

impl View for Table {
    type V = TableView;

    closed spec fn view(&self) -> TableView {
        TableView {
            columns: self.columns@,
            width_full: self.width_full as int,
            expand_text: self.expand_text@,
            hover: self.hover,
            cells: self.cells@,
            observed_len: self.observed_len as nat,
            header_rects: self.header_rects@,
            cell_rects: self.cell_rects@,
            expand_rect: self.expand_rect,
            content_top: self.content_top as int,
            height: self.height as int,
        }
    }
}

/// Empty rectangles, one per column, for headers not yet laid out.
fn unplaced(n: usize) -> (r: Vec<Rect>)
    ensures
        r@.len() == n,
        forall|j: int| 0 <= j < n ==> #[trigger] r@[j] == Rect::zero_spec(),
{
    let mut r: Vec<Rect> = Vec::new();
    let mut j: usize = 0;
    while j < n
        invariant
            j <= n,
            r@.len() == j,
            forall|k: int| 0 <= k < j ==> #[trigger] r@[k] == Rect::zero_spec(),
        decreases n - j,
    {
        r.push(Rect::zero());
        j = j + 1;
    }
    r
}

/// Empty rectangles for each cell of a freshly built grid.
fn unplaced_grid(rows: usize, n: usize) -> (r: Vec<Vec<Rect>>)
    ensures
        r@.len() == rows,
        forall|i: int| 0 <= i < rows ==> (#[trigger] r@[i])@.len() == n,
        forall|i: int, j: int| 0 <= i < rows && 0 <= j < n ==> #[trigger] r@[i]@[j] == Rect::zero_spec(),
{
    let mut r: Vec<Vec<Rect>> = Vec::new();
    let mut i: usize = 0;
    while i < rows
        invariant
            i <= rows,
            r@.len() == i,
            forall|k: int| 0 <= k < i ==> (#[trigger] r@[k])@.len() == n,
            forall|k: int, j: int| 0 <= k < i && 0 <= j < n ==> #[trigger] r@[k]@[j] == Rect::zero_spec(),
        decreases rows - i,
    {
        r.push(unplaced(n));
        i = i + 1;
    }
    r
}

impl Table {
    /// Makes a table with the given columns. No row is materialized yet:
    /// that waits for the first update with data.
    pub fn new(table_description: Vec<TableDescription>) -> (t: Table)
        requires
            total_width(table_description@) <= i64::MAX,
        ensures
            t@.wf(),
            t@.columns == table_description@,
            t@.width_full == total_width(table_description@),
            t@.expand_text == Seq::<char>::empty(),
            t@.hover == Hover::Nothing,
            t@.cells.len() == 0,
            t@.observed_len == 0,
            t@.height == 0,
            t@.content_top == 0,
            t@.expand_rect == Rect::zero_spec(),
            forall|j: int| 0 <= j < table_description@.len() ==> #[trigger] t@.header_rects[j] == Rect::zero_spec(),
    {
        let w = width_full(&table_description);
        proof {
            lemma_span_monotonic(table_description@, 0, table_description@.len() as int);
        }
        let n = table_description.len();
        Table {
            columns: table_description,
            width_full: w,
            expand_text: String::new(),
            hover: Hover::Nothing,
            cells: Vec::new(),
            observed_len: 0,
            header_rects: unplaced(n),
            cell_rects: Vec::new(),
            expand_rect: Rect::zero(),
            content_top: 0,
            height: 0,
        }
    }
    /// Brings the grid in line with the data. When the number of rows
    /// differs from the one last seen, the grid is discarded and rebuilt,
    /// one row of cells per data row in data order, and `true` is returned;
    /// otherwise nothing changes.
    pub fn update<U: TableRow>(&mut self, data: &Vec<U>) -> (rebuilt: bool)
        requires
            old(self)@.wf(),
        ensures
            final(self)@.wf(),
            rebuilt == (data@.len() != old(self)@.observed_len),
            !rebuilt ==> final(self)@ == old(self)@,
            rebuilt ==> grid_of(final(self)@.cells, old(self)@.columns, data@),
            rebuilt ==> final(self)@.observed_len == data@.len(),
            rebuilt ==> forall|i: int, j: int| 0 <= i < data@.len() && 0 <= j < old(self)@.columns.len()
                ==> #[trigger] final(self)@.cell_rects[i]@[j] == Rect::zero_spec(),
            rebuilt ==> final(self)@ == (TableView {
                cells: final(self)@.cells,
                observed_len: final(self)@.observed_len,
                cell_rects: final(self)@.cell_rects,
                ..old(self)@
            }),
    {
        if data.len() == self.observed_len {
            return false;
        }
        let cells = build_grid(&self.columns, data);
        let rects = unplaced_grid(data.len(), self.columns.len());
        assert forall|i: int| 0 <= i < cells@.len() implies (#[trigger] cells@[i])@.len() == self.columns@.len() by {
            assert(crate::grid::row_of(cells@[i]@, self.columns@, data@[i]));
        }
        self.cells = cells;
        self.cell_rects = rects;
        self.observed_len = data.len();
        true
    }

    /// Lays the table out from the top: the expand bar, a gap, the header
    /// strip and a gap when there are columns, then the content grid. The
    /// host supplies the measured heights of the expand bar, of the header
    /// labels and of each materialized row.
    pub fn layout(&mut self, expand_height: u32, header_height: u32, row_heights: &Vec<u32>) -> (size: Size)
        requires
            old(self)@.wf(),
            row_heights@.len() == old(self)@.cells.len(),
            expand_height + header_height + 2 * PADDING_VERTICAL + total_height(row_heights@) <= i64::MAX,
        ensures
            final(self)@.wf(),
            final(self)@ == (TableView {
                header_rects: final(self)@.header_rects,
                cell_rects: final(self)@.cell_rects,
                expand_rect: final(self)@.expand_rect,
                content_top: final(self)@.content_top,
                height: final(self)@.height,
                ..old(self)@
            }),
            final(self)@.expand_rect == (Rect { x0: 0, y0: 0, x1: old(self)@.width_full as i64, y1: expand_height as i64 }),
            forall|j: int| 0 <= j < old(self)@.columns.len() ==> #[trigger] final(self)@.header_rects[j]
                == header_rect(old(self)@.columns, j, expand_height + PADDING_VERTICAL, header_height as int),
            final(self)@.content_top == expand_height + PADDING_VERTICAL
                + (if old(self)@.columns.len() > 0 { header_height + PADDING_VERTICAL } else { 0 }),
            forall|i: int, j: int| 0 <= i < row_heights@.len() && 0 <= j < old(self)@.columns.len()
                ==> #[trigger] final(self)@.cell_rects[i]@[j] == cell_rect(old(self)@.columns, row_heights@, i, j),
            final(self)@.height == final(self)@.content_top + total_height(row_heights@),
            size == (Size { width: old(self)@.width_full as i64, height: final(self)@.height as i64 }),
    {
        proof {
            crate::layout::lemma_row_top_monotonic(row_heights@, 0, row_heights@.len() as int);
        }
        let header_top: i64 = expand_height as i64 + PADDING_VERTICAL as i64;
        let headers = layout_headers(&self.columns, header_top, header_height);
        let content_top: i64 = if self.columns.len() > 0 {
            header_top + header_height as i64 + PADDING_VERTICAL as i64
        } else {
            header_top
        };
        let grid = layout_cells(&self.columns, row_heights);
        let content_height = grid_height(row_heights);
        self.expand_rect = Rect { x0: 0, y0: 0, x1: self.width_full, y1: expand_height as i64 };
        self.header_rects = headers;
        self.cell_rects = grid;
        self.content_top = content_top;
        self.height = content_top + content_height;
        Size { width: self.width_full, height: self.height }
    }

    /// Handles a pointer move to `pos`, in table coordinates, while the
    /// content region is scrolled down by `scroll_y`. Off the table nothing
    /// is hovered; else the headers are tested first and, when none is hot
    /// and the pointer is over the content region, the cells. The expand
    /// text becomes the hovered item's full text, or empty. A grid that has
    /// not been rebuilt for the data's current number of rows is not hit
    /// tested: nothing is hovered until the next update. Returns whether the
    /// expand text changed.
    pub fn pointer_move<U: TableRow>(&mut self, data: &Vec<U>, pos: Point, scroll_y: i64) -> (changed: bool)
        requires
            old(self)@.wf(),
        ensures
            final(self)@.wf(),
            final(self)@ == (TableView {
                hover: final(self)@.hover,
                expand_text: final(self)@.expand_text,
                ..old(self)@
            }),
            old(self)@.observed_len != data@.len() ==> final(self)@.hover == Hover::Nothing,
            old(self)@.observed_len == data@.len() ==> resolves(
                final(self)@.hover,
                old(self)@.bounds().holds(pos.x as int, pos.y as int),
                old(self)@.header_rects,
                pos.x as int,
                pos.y as int,
                old(self)@.viewport().holds(pos.x as int, pos.y as int),
                old(self)@.cell_rects,
                old(self)@.cells.len() as int,
                pos.x as int,
                pos.y - old(self)@.content_top + scroll_y,
            ),
            final(self)@.expand_text == expand_text_of(old(self)@.columns, data@, final(self)@.hover),
            changed == (final(self)@.expand_text != old(self)@.expand_text),
            !old(self)@.bounds().holds(pos.x as int, pos.y as int) ==> final(self)@.hover == Hover::Nothing
                && final(self)@.expand_text == Seq::<char>::empty(),
    {
        if self.observed_len != data.len() {
            let empty = String::new();
            let changed = !(empty == self.expand_text);
            self.hover = Hover::Nothing;
            self.expand_text = empty;
            return changed;
        }
        let bounds = Rect { x0: 0, y0: 0, x1: self.width_full, y1: self.height };
        let viewport = Rect { x0: 0, y0: self.content_top, x1: self.width_full, y1: self.height };
        let table_hot = bounds.contains(pos);
        let content_hot = viewport.contains(pos);
        let rows: usize = self.cells.len();
        let cy: i128 = pos.y as i128 - self.content_top as i128 + scroll_y as i128;
        let hover = if i64::MIN as i128 <= cy && cy <= i64::MAX as i128 {
            let q = Point { x: pos.x, y: cy as i64 };
            resolve(table_hot, &self.header_rects, pos, content_hot, &self.cell_rects, rows, q)
        } else {
            let h = resolve(table_hot, &self.header_rects, pos, false, &self.cell_rects, rows, pos);
            proof {
                assert forall|i: int, j: int|
                    !#[trigger] crate::hit::cell_hot(self.cell_rects@, rows as int, pos.x as int, cy as int, i, j) by {
                    if crate::hit::cell_hot(self.cell_rects@, rows as int, pos.x as int, cy as int, i, j) {
                        let r = self.cell_rects@[i]@[j];
                        assert(r.y0 <= cy < r.y1);
                    }
                }
            }
            h
        };
        let text = match hover {
            Hover::Nothing => String::new(),
            Hover::Header(j) => self.columns[j].expand_header.clone(),
            Hover::Cell(i, j) => data[i].expand_cell(j),
        };
        let changed = !(text == self.expand_text);
        self.hover = hover;
        self.expand_text = text;
        changed
    }

    /// The text that the expand bar shows.
    pub fn expand_text(&self) -> (r: &String)
        ensures
            r@ == self@.expand_text,
    {
        &self.expand_text
    }

    /// What the pointer was last found over.
    pub fn hover(&self) -> (r: Hover)
        ensures
            r == self@.hover,
    {
        self.hover
    }

    /// The columns, in order.
    pub fn columns(&self) -> (r: &Vec<TableDescription>)
        ensures
            r@ == self@.columns,
    {
        &self.columns
    }

    /// Sum of the widths and paddings of all columns.
    pub fn width_full(&self) -> (r: i64)
        ensures
            r == self@.width_full,
    {
        self.width_full
    }

    /// The materialized grid, one row of cells per data row.
    pub fn cells(&self) -> (r: &Vec<Vec<Cell>>)
        ensures
            r@ == self@.cells,
    {
        &self.cells
    }

    /// Where the expand bar stands.
    pub fn expand_rect(&self) -> (r: Rect)
        ensures
            r == self@.expand_rect,
    {
        self.expand_rect
    }

    /// Where each header stands.
    pub fn header_rects(&self) -> (r: &Vec<Rect>)
        ensures
            r@ == self@.header_rects,
    {
        &self.header_rects
    }

    /// Where each cell stands, in the content grid's coordinates.
    pub fn cell_rects(&self) -> (r: &Vec<Vec<Rect>>)
        ensures
            r@ == self@.cell_rects,
    {
        &self.cell_rects
    }

    /// Top edge of the content region.
    pub fn content_top(&self) -> (r: i64)
        ensures
            r == self@.content_top,
    {
        self.content_top
    }
}

/// Sum of the row heights.
fn grid_height(heights: &Vec<u32>) -> (r: i64)
    requires
        total_height(heights@) <= i64::MAX,
    ensures
        r == total_height(heights@),
{
    let mut acc: i64 = 0;
    let mut i: usize = 0;
    while i < heights.len()
        invariant
            i <= heights.len(),
            total_height(heights@) <= i64::MAX,
            acc == crate::layout::row_top(heights@, i as int),
        decreases heights.len() - i,
    {
        proof {
            crate::layout::lemma_row_top_monotonic(heights@, i as int + 1, heights@.len() as int);
        }
        acc = acc + heights[i] as i64;
        i = i + 1;
    }
    acc
}

} // verus!
