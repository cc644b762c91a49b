//! Placement of headers and cells.
//!
//! Columns sit side by side, each taking its width and padding. Rows are
//! stacked from the top, each as tall as the height measured for it.

use vstd::prelude::*;
use crate::column::{span, stride, total_width, lemma_span_monotonic, TableDescription};
use crate::geometry::Rect;

verus! {

/// Vertical gap below the expand bar and below the header strip.
pub const PADDING_VERTICAL: u32 = 5;

/// Top edge of row `i`: the heights of the rows above it.
pub open spec fn row_top(heights: Seq<u32>, i: int) -> int
    decreases i,
{
    if i <= 0 || heights.len() == 0 {
        0
    } else if i > heights.len() {
        row_top(heights, heights.len() as int)
    } else {
        row_top(heights, i - 1) + heights[i - 1]
    }
}

/// Height of all rows together.
pub open spec fn total_height(heights: Seq<u32>) -> int {
    row_top(heights, heights.len() as int)
}

pub proof fn lemma_row_top_monotonic(heights: Seq<u32>, m: int, n: int)
    requires
        0 <= m <= n <= heights.len(),
    ensures
        0 <= row_top(heights, m) <= row_top(heights, n),
    decreases n,
{
    if m < n {
        lemma_row_top_monotonic(heights, m, n - 1);
    } else if n > 0 {
        lemma_row_top_monotonic(heights, n - 1, n - 1);
    }
}

/// Header `j` of a strip whose top is `top`: as wide as the column's width
/// and padding together.
pub open spec fn header_rect(cols: Seq<TableDescription>, j: int, top: int, height: int) -> Rect {
    Rect {
        x0: span(cols, j) as i64,
        y0: top as i64,
        x1: span(cols, j + 1) as i64,
        y1: (top + height) as i64,
    }
}

/// Cell `(i, j)` of the grid, in the grid's own coordinates: as wide as the
/// column's width, as tall as its row.
pub open spec fn cell_rect(cols: Seq<TableDescription>, heights: Seq<u32>, i: int, j: int) -> Rect {
    Rect {
        x0: span(cols, j) as i64,
        y0: row_top(heights, i) as i64,
        x1: (span(cols, j) + cols[j].width) as i64,
        y1: (row_top(heights, i) + heights[i]) as i64,
    }
}

/// The header strip spans the full width of the table: the first header
/// starts at the left edge, each header is as wide as its column's width and
/// padding and starts where the one before it ends, and the last one ends at
/// the full width.
pub proof fn lemma_header_strip_spans(cols: Seq<TableDescription>, top: int, height: int)
    requires
        cols.len() > 0,
        total_width(cols) <= i64::MAX,
    ensures
        header_rect(cols, 0, top, height).x0 == 0,
        header_rect(cols, cols.len() - 1, top, height).x1 == total_width(cols),
        forall|j: int| 0 <= j < cols.len() ==> #[trigger] header_rect(cols, j, top, height).x1
            - header_rect(cols, j, top, height).x0 == stride(cols[j]),
        forall|j: int| 0 <= j < cols.len() - 1 ==> #[trigger] header_rect(cols, j, top, height).x1
            == header_rect(cols, j + 1, top, height).x0,
{
    lemma_span_monotonic(cols, 0, cols.len() as int);
    assert(span(cols, cols.len() - 1 + 1) == total_width(cols));
    assert forall|j: int| 0 <= j < cols.len() implies #[trigger] header_rect(cols, j, top, height).x1
        - header_rect(cols, j, top, height).x0 == stride(cols[j]) by {
        lemma_span_monotonic(cols, j, j + 1);
        lemma_span_monotonic(cols, j + 1, cols.len() as int);
    }
    assert forall|j: int| 0 <= j < cols.len() - 1 implies #[trigger] header_rect(cols, j, top, height).x1
        == header_rect(cols, j + 1, top, height).x0 by {
        lemma_span_monotonic(cols, j + 1, cols.len() as int);
    }
}

/// Lays out the header strip left to right.
pub fn layout_headers(cols: &Vec<TableDescription>, top: i64, height: u32) -> (r: Vec<Rect>)
    requires
        total_width(cols@) <= i64::MAX,
        top + height <= i64::MAX,
    ensures
        r@.len() == cols@.len(),
        forall|j: int| 0 <= j < cols@.len() ==> #[trigger] r@[j] == header_rect(cols@, j, top as int, height as int),
{
    let mut r: Vec<Rect> = Vec::new();
    let mut x: i64 = 0;
    let mut j: usize = 0;
    while j < cols.len()
        invariant
            j <= cols.len(),
            total_width(cols@) <= i64::MAX,
            top + height <= i64::MAX,
            x == span(cols@, j as int),
            r@.len() == j,
            forall|k: int| 0 <= k < j ==> #[trigger] r@[k] == header_rect(cols@, k, top as int, height as int),
        decreases cols.len() - j,
    {
        proof {
            lemma_span_monotonic(cols@, j as int + 1, cols.len() as int);
        }
        let next: i64 = x + cols[j].width as i64 + cols[j].padding as i64;
        r.push(Rect { x0: x, y0: top, x1: next, y1: top + height as i64 });
        x = next;
        j = j + 1;
    }
    r
}

/// Lays out one row of cells whose top edge is `top`.
fn layout_row(cols: &Vec<TableDescription>, heights: &Vec<u32>, i: usize, top: i64) -> (r: Vec<Rect>)
    requires
        total_width(cols@) <= i64::MAX,
        total_height(heights@) <= i64::MAX,
        i < heights@.len(),
        top == row_top(heights@, i as int),
    ensures
        r@.len() == cols@.len(),
        forall|j: int| 0 <= j < cols@.len() ==> #[trigger] r@[j] == cell_rect(cols@, heights@, i as int, j),
{
    proof {
        lemma_row_top_monotonic(heights@, i as int + 1, heights@.len() as int);
    }
    let bottom: i64 = top + heights[i] as i64;
    let mut r: Vec<Rect> = Vec::new();
    let mut x: i64 = 0;
    let mut j: usize = 0;
    while j < cols.len()
        invariant
            j <= cols.len(),
            total_width(cols@) <= i64::MAX,
            i < heights@.len(),
            top == row_top(heights@, i as int),
            bottom == row_top(heights@, i as int) + heights@[i as int],
            x == span(cols@, j as int),
            r@.len() == j,
            forall|k: int| 0 <= k < j ==> #[trigger] r@[k] == cell_rect(cols@, heights@, i as int, k),
        decreases cols.len() - j,
    {
        proof {
            lemma_span_monotonic(cols@, j as int + 1, cols.len() as int);
        }
        r.push(Rect { x0: x, y0: top, x1: x + cols[j].width as i64, y1: bottom });
        x = x + cols[j].width as i64 + cols[j].padding as i64;
        j = j + 1;
    }
    r
}

/// Lays out the grid: one row of cells per measured row height.
pub fn layout_cells(cols: &Vec<TableDescription>, heights: &Vec<u32>) -> (r: Vec<Vec<Rect>>)
    requires
        total_width(cols@) <= i64::MAX,
        total_height(heights@) <= i64::MAX,
    ensures
        r@.len() == heights@.len(),
        forall|i: int| 0 <= i < heights@.len() ==> (#[trigger] r@[i])@.len() == cols@.len(),
        forall|i: int, j: int| 0 <= i < heights@.len() && 0 <= j < cols@.len()
            ==> #[trigger] r@[i]@[j] == cell_rect(cols@, heights@, i, j),
{
    let mut r: Vec<Vec<Rect>> = Vec::new();
    let mut top: i64 = 0;
    let mut i: usize = 0;
    while i < heights.len()
        invariant
            i <= heights.len(),
            total_width(cols@) <= i64::MAX,
            total_height(heights@) <= i64::MAX,
            top == row_top(heights@, i as int),
            r@.len() == i,
            forall|k: int| 0 <= k < i ==> (#[trigger] r@[k])@.len() == cols@.len(),
            forall|k: int, j: int| 0 <= k < i && 0 <= j < cols@.len()
                ==> #[trigger] r@[k]@[j] == cell_rect(cols@, heights@, k, j),
        decreases heights.len() - i,
    {
        proof {
            lemma_row_top_monotonic(heights@, i as int + 1, heights@.len() as int);
        }
        let row = layout_row(cols, heights, i, top);
        r.push(row);
        top = top + heights[i] as i64;
        i = i + 1;
    }
    r
}

} // verus!
