//! Hit testing: which header or cell the pointer is over.
//!
//! Headers are tested before cells. In both, the first rectangle of a row
//! acts as a gate: a pointer outside its vertical band skips the row without
//! testing the others, and the first rectangle that holds the pointer wins.

use vstd::prelude::*;
use crate::geometry::{Point, Rect};

verus! {

/// What the pointer is over.
#[derive(Clone, Copy, Debug, PartialEq, Eq, Structural)]
pub enum Hover {
    Nothing,
    /// A header, by column.
    Header(usize),
    /// A cell, by row and column.
    Cell(usize, usize),
}

/// Header `j` is hot: the pointer lies in the first header's band and in
/// header `j`.
pub open spec fn header_hot(rects: Seq<Rect>, x: int, y: int, j: int) -> bool {
    0 <= j < rects.len() && rects[0].spans_y(y) && rects[j].holds(x, y)
}

pub open spec fn any_header_hot(rects: Seq<Rect>, x: int, y: int) -> bool {
    exists|j: int| header_hot(rects, x, y, j)
}

/// Header `j` is the hot header of lowest index.
pub open spec fn first_header(rects: Seq<Rect>, x: int, y: int, j: int) -> bool {
    header_hot(rects, x, y, j) && forall|k: int| 0 <= k < j ==> !header_hot(rects, x, y, k)
}

/// Cell `(i, j)` is hot: row `i` is one of the first `rows` rows, the
/// pointer lies in the band of the row's first cell and in cell `(i, j)`.
pub open spec fn cell_hot(rects: Seq<Vec<Rect>>, rows: int, x: int, y: int, i: int, j: int) -> bool {
    0 <= i < rows && i < rects.len() && 0 <= j < rects[i]@.len() && rects[i]@[0].spans_y(y)
        && rects[i]@[j].holds(x, y)
}

pub open spec fn any_cell_hot(rects: Seq<Vec<Rect>>, rows: int, x: int, y: int) -> bool {
    exists|i: int, j: int| cell_hot(rects, rows, x, y, i, j)
}

/// `(i2, j2)` comes before `(i, j)` in row-major order.
pub open spec fn precedes(i2: int, j2: int, i: int, j: int) -> bool {
    i2 < i || (i2 == i && j2 < j)
}

/// Cell `(i, j)` is the first hot cell in row-major order.
pub open spec fn first_cell(rects: Seq<Vec<Rect>>, rows: int, x: int, y: int, i: int, j: int) -> bool {
    &&& cell_hot(rects, rows, x, y, i, j)
    &&& forall|i2: int, j2: int|
        precedes(i2, j2, i, j) ==> !#[trigger] cell_hot(rects, rows, x, y, i2, j2)
}

/// The hover that a pointer event resolves to. The pointer is at `(hx, hy)`
/// in table coordinates and at `(cx, cy)` in the content grid's coordinates;
/// `table_hot` and `content_hot` say whether it is over the table and over
/// the grid's viewport.
pub open spec fn resolves(
    h: Hover,
    table_hot: bool,
    headers: Seq<Rect>,
    hx: int,
    hy: int,
    content_hot: bool,
    cells: Seq<Vec<Rect>>,
    rows: int,
    cx: int,
    cy: int,
) -> bool {
    match h {
        Hover::Nothing => !table_hot || (!any_header_hot(headers, hx, hy) && (!content_hot
            || !any_cell_hot(cells, rows, cx, cy))),
        Hover::Header(j) => table_hot && first_header(headers, hx, hy, j as int),
        Hover::Cell(i, j) => table_hot && !any_header_hot(headers, hx, hy) && content_hot
            && first_cell(cells, rows, cx, cy, i as int, j as int),
    }
}

/// Tests the headers left to right. A pointer outside the first header's
/// band ends the test at once.
pub fn hit_headers(rects: &Vec<Rect>, p: Point) -> (r: Option<usize>)
    ensures
        match r {
            Some(j) => first_header(rects@, p.x as int, p.y as int, j as int),
            None => !any_header_hot(rects@, p.x as int, p.y as int),
        },
{
    if rects.len() == 0 || !rects[0].band_contains(p.y) {
        return None;
    }
    let mut j: usize = 0;
    while j < rects.len()
        invariant
            j <= rects.len(),
            rects@.len() > 0 && rects@[0].spans_y(p.y as int),
            forall|k: int| 0 <= k < j ==> !header_hot(rects@, p.x as int, p.y as int, k),
        decreases rects.len() - j,
    {
        if rects[j].contains(p) {
            return Some(j);
        }
        j = j + 1;
    }
    None
}

/// Tests the cells of the first `rows` rows, row by row and left to right
/// within a row, and stops at the first hot cell. A row whose first cell's
/// band does not hold the pointer is skipped.
pub fn hit_cells(rects: &Vec<Vec<Rect>>, rows: usize, p: Point) -> (r: Option<(usize, usize)>)
    ensures
        match r {
            Some((i, j)) => first_cell(rects@, rows as int, p.x as int, p.y as int, i as int, j as int),
            None => !any_cell_hot(rects@, rows as int, p.x as int, p.y as int),
        },
{
    let mut i: usize = 0;
    while i < rows && i < rects.len()
        invariant
            forall|i2: int, j2: int| i2 < i ==> !#[trigger] cell_hot(rects@, rows as int, p.x as int, p.y as int, i2, j2),
        decreases rects.len() - i,
    {
        let row: &Vec<Rect> = &rects[i];
        if row.len() > 0 && row[0].band_contains(p.y) {
            let mut j: usize = 0;
            while j < rects[i].len()
                invariant
                    i < rows && i < rects.len(),
                    j <= rects@[i as int]@.len(),
                    rects@[i as int]@.len() > 0 && rects@[i as int]@[0].spans_y(p.y as int),
                    forall|i2: int, j2: int|
                        precedes(i2, j2, i as int, j as int) ==> !#[trigger] cell_hot(rects@, rows as int, p.x as int, p.y as int, i2, j2),
                decreases rects[i as int].len() - j,
            {
                if rects[i][j].contains(p) {
                    return Some((i, j));
                }
                j = j + 1;
            }
            assert forall|i2: int, j2: int| i2 < i + 1 implies !#[trigger] cell_hot(rects@, rows as int, p.x as int, p.y as int, i2, j2) by {
                if i2 == i && j2 < j {
                    assert(precedes(i2, j2, i as int, j as int));
                }
            }
        }
        i = i + 1;
    }
    None
}

/// Resolves a pointer event: nothing off the table, else the first hot
/// header, else the first hot cell while the pointer is over the grid.
pub fn resolve(
    table_hot: bool,
    headers: &Vec<Rect>,
    p: Point,
    content_hot: bool,
    cells: &Vec<Vec<Rect>>,
    rows: usize,
    q: Point,
) -> (h: Hover)
    ensures
        resolves(h, table_hot, headers@, p.x as int, p.y as int, content_hot, cells@, rows as int, q.x as int, q.y as int),
{
    if !table_hot {
        return Hover::Nothing;
    }
    match hit_headers(headers, p) {
        Some(j) => Hover::Header(j),
        None => {
            if !content_hot {
                Hover::Nothing
            } else {
                match hit_cells(cells, rows, q) {
                    Some((i, j)) => Hover::Cell(i, j),
                    None => Hover::Nothing,
                }
            }
        },
    }
}

/// At most one header or cell is hot at a time: a pointer event resolves to
/// a single hover.
pub proof fn lemma_single_match(
    h1: Hover,
    h2: Hover,
    table_hot: bool,
    headers: Seq<Rect>,
    hx: int,
    hy: int,
    content_hot: bool,
    cells: Seq<Vec<Rect>>,
    rows: int,
    cx: int,
    cy: int,
)
    requires
        resolves(h1, table_hot, headers, hx, hy, content_hot, cells, rows, cx, cy),
        resolves(h2, table_hot, headers, hx, hy, content_hot, cells, rows, cx, cy),
    ensures
        h1 == h2,
{
    match (h1, h2) {
        (Hover::Header(a), Hover::Header(b)) => {
            if a < b {
                assert(!header_hot(headers, hx, hy, a as int));
            } else if b < a {
                assert(!header_hot(headers, hx, hy, b as int));
            }
        },
        (Hover::Cell(a, b), Hover::Cell(c, d)) => {
            if precedes(a as int, b as int, c as int, d as int) {
                assert(!cell_hot(cells, rows, cx, cy, a as int, b as int));
            } else if precedes(c as int, d as int, a as int, b as int) {
                assert(!cell_hot(cells, rows, cx, cy, c as int, d as int));
            }
        },
        (Hover::Header(a), Hover::Nothing) => {
            assert(header_hot(headers, hx, hy, a as int));
        },
        (Hover::Nothing, Hover::Header(a)) => {
            assert(header_hot(headers, hx, hy, a as int));
        },
        (Hover::Cell(a, b), Hover::Nothing) => {
            assert(cell_hot(cells, rows, cx, cy, a as int, b as int));
        },
        (Hover::Nothing, Hover::Cell(a, b)) => {
            assert(cell_hot(cells, rows, cx, cy, a as int, b as int));
        },
        (Hover::Header(a), Hover::Cell(_, _)) => {
            assert(header_hot(headers, hx, hy, a as int));
        },
        (Hover::Cell(_, _), Hover::Header(a)) => {
            assert(header_hot(headers, hx, hy, a as int));
        },
        _ => {},
    }
}

/// Headers take priority: when the pointer is over the table and over some
/// header, the event resolves to the first hot header, whatever cells the
/// pointer is also over.
pub proof fn lemma_header_priority(
    h: Hover,
    headers: Seq<Rect>,
    hx: int,
    hy: int,
    content_hot: bool,
    cells: Seq<Vec<Rect>>,
    rows: int,
    cx: int,
    cy: int,
    j: int,
)
    requires
        header_hot(headers, hx, hy, j),
        resolves(h, true, headers, hx, hy, content_hot, cells, rows, cx, cy),
    ensures
        h matches Hover::Header(k) && first_header(headers, hx, hy, k as int) && k <= j,
{
    assert(any_header_hot(headers, hx, hy));
    if let Hover::Header(k) = h {
        if k > j {
            assert(!header_hot(headers, hx, hy, j));
        }
    }
}

} // verus!
