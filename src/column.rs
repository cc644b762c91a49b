//! Column descriptors and the horizontal extents they give.

use vstd::prelude::*;

verus! {

/// A background colour as red, green, blue and alpha channels.
#[derive(Clone, Copy, Debug, PartialEq, Eq, Structural)]
pub struct Rgba {
    pub r: u8,
    pub g: u8,
    pub b: u8,
    pub a: u8,
}

/// The fixed description of one column: its narrow header label, the full
/// header text that the expand bar shows, the width of its cells and the
/// padding that follows them.
#[derive(Clone, Debug)]
pub struct TableDescription {
    pub expand_header: String,
    pub header: String,
    pub width: u32,
    pub padding: u32,
}

/// Horizontal space that column `c` occupies: its width and its padding.
pub open spec fn stride(c: TableDescription) -> int {
    c.width + c.padding
}

/// Left edge of column `n`: the strides of the columns before it.
pub open spec fn span(cols: Seq<TableDescription>, n: int) -> int
    decreases n,
{
    if n <= 0 || cols.len() == 0 {
        0
    } else if n > cols.len() {
        span(cols, cols.len() as int)
    } else {
        span(cols, n - 1) + stride(cols[n - 1])
    }
}

/// Width of the whole table: the strides of all columns.
pub open spec fn total_width(cols: Seq<TableDescription>) -> int {
    span(cols, cols.len() as int)
}

/// Left edges grow from column to column.
pub proof fn lemma_span_monotonic(cols: Seq<TableDescription>, m: int, n: int)
    requires
        0 <= m <= n <= cols.len(),
    ensures
        0 <= span(cols, m) <= span(cols, n),
    decreases n,
{
    if m < n {
        lemma_span_monotonic(cols, m, n - 1);
    } else if n > 0 {
        lemma_span_monotonic(cols, n - 1, n - 1);
    }
}

/// Whether the full width of the columns fits in an `i64`, as a table
/// needs.
pub fn total_width_fits(cols: &Vec<TableDescription>) -> (r: bool)
    ensures
        r == (total_width(cols@) <= i64::MAX),
{
    let mut acc: u128 = 0;
    let mut k: usize = 0;
    while k < cols.len()
        invariant
            k <= cols.len(),
            acc == span(cols@, k as int),
            acc <= i64::MAX,
        decreases cols.len() - k,
    {
        acc = acc + cols[k].width as u128 + cols[k].padding as u128;
        k = k + 1;
        if acc > i64::MAX as u128 {
            proof {
                lemma_span_monotonic(cols@, k as int, cols.len() as int);
            }
            return false;
        }
    }
    true
}

/// Sums `width + padding` over the columns.
pub fn width_full(cols: &Vec<TableDescription>) -> (r: i64)
    requires
        total_width(cols@) <= i64::MAX,
    ensures
        r == total_width(cols@),
{
    let mut acc: i64 = 0;
    let mut k: usize = 0;
    while k < cols.len()
        invariant
            k <= cols.len(),
            acc == span(cols@, k as int),
            total_width(cols@) <= i64::MAX,
        decreases cols.len() - k,
    {
        proof {
            lemma_span_monotonic(cols@, k as int + 1, cols.len() as int);
        }
        acc = acc + cols[k].width as i64 + cols[k].padding as i64;
        k = k + 1;
    }
    acc
}

} // verus!
