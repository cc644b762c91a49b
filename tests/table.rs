use tree_table::column::{total_width_fits, width_full, TableDescription};
use tree_table::geometry::{Point, Rect};
use tree_table::hit::{hit_cells, hit_headers, resolve, Hover};
use tree_table::row::TableRow;
use tree_table::table::{Size, Table};
use tree_table::tree::{decimal, tree_columns, Tree};

fn col(header: &str, expand_header: &str, width: u32, padding: u32) -> TableDescription {
    TableDescription {
        expand_header: expand_header.to_string(),
        header: header.to_string(),
        width,
        padding,
    }
}

fn tree(name: &'static str, latin: &'static str, height: Option<u8>) -> Tree {
    Tree {
        name_english: name,
        name_latin: latin,
        typical_height_m: height,
        identifiable_features: "leaves",
    }
}

fn pt(x: i64, y: i64) -> Point {
    Point { x, y }
}

fn rect(x0: i64, y0: i64, x1: i64, y1: i64) -> Rect {
    Rect { x0, y0, x1, y1 }
}

#[test]
fn scenario_header_hover() {
    let mut t = Table::new(vec![col("Name", "Name (English)", 70, 0)]);
    let data: Vec<Tree> = Vec::new();
    assert!(!t.update(&data));
    let size = t.layout(20, 20, &Vec::new());
    assert_eq!(size, Size { width: 70, height: 50 });
    assert_eq!(t.header_rects()[0], rect(0, 25, 70, 45));
    assert!(t.pointer_move(&data, pt(10, 30), 0));
    assert_eq!(t.expand_text().as_str(), "Name (English)");
    assert_eq!(t.hover(), Hover::Header(0));
}

#[test]
fn scenario_cell_hover() {
    let mut t = Table::new(vec![col("Name", "Name (English)", 70, 0)]);
    let data = vec![tree("Oak", "Quercus", Some(25))];
    assert!(t.update(&data));
    t.layout(20, 20, &vec![20]);
    assert_eq!(t.content_top(), 50);
    assert_eq!(t.cell_rects()[0][0], rect(0, 0, 70, 20));
    assert!(t.pointer_move(&data, pt(10, 55), 0));
    assert_eq!(t.hover(), Hover::Cell(0, 0));
    assert_eq!(t.expand_text().as_str(), "Oak");
}

#[test]
fn scenario_append_rebuilds_before_hover() {
    let mut t = Table::new(tree_columns());
    let mut data: Vec<Tree> = Vec::new();
    assert!(!t.update(&data));
    assert_eq!(t.cells().len(), 0);
    data.push(tree("Oak", "Quercus", Some(25)));
    assert!(t.update(&data));
    assert_eq!(t.cells().len(), 1);
    assert_eq!(t.cells()[0].len(), 4);
    assert_eq!(t.cells()[0][0].text, "Oak");
    assert_eq!(t.hover(), Hover::Nothing);
    assert_eq!(t.expand_text().as_str(), "");
}

#[test]
fn scenario_below_headers_falls_through_to_cells() {
    let mut t = Table::new(tree_columns());
    let data = vec![tree("Oak", "Quercus", Some(25)), tree("Ash", "Fraxinus", None)];
    t.update(&data);
    t.layout(20, 20, &vec![20, 20]);
    // Below the header band, inside the second row's Latin cell.
    t.pointer_move(&data, pt(100, 75), 0);
    assert_eq!(t.hover(), Hover::Cell(1, 1));
    assert_eq!(t.expand_text().as_str(), "Fraxinus");
    // Below the header band, in the gap above the grid: nothing is hot.
    t.pointer_move(&data, pt(100, 47), 0);
    assert_eq!(t.hover(), Hover::Nothing);
    assert_eq!(t.expand_text().as_str(), "");
}

#[test]
fn scenario_five_columns_full_width() {
    let cols = vec![
        col("A", "Alpha", 10, 1),
        col("B", "Beta", 20, 2),
        col("C", "Gamma", 30, 3),
        col("D", "Delta", 40, 4),
        col("E", "Epsilon", 50, 5),
    ];
    assert_eq!(width_full(&cols), 165);
    let mut t = Table::new(cols);
    assert_eq!(t.width_full(), 165);
    let data = vec![tree("Oak", "Quercus", None)];
    t.update(&data);
    let size = t.layout(12, 14, &vec![16]);
    assert_eq!(size.width, 165);
    assert_eq!(t.expand_rect(), rect(0, 0, 165, 12));
    let headers = t.header_rects().clone();
    assert_eq!(headers[0].x0, 0);
    assert_eq!(headers[4].x1, 165);
    for k in 0..4 {
        assert_eq!(headers[k].x1, headers[k + 1].x0);
    }
    t.pointer_move(&data, pt(5, 50), 40);
    assert_eq!(t.expand_rect(), rect(0, 0, 165, 12));
    assert_eq!(t.header_rects(), &headers);
}

#[test]
fn update_with_same_row_count_keeps_grid() {
    let mut t = Table::new(tree_columns());
    let data = vec![tree("Oak", "Quercus", Some(25))];
    assert!(t.update(&data));
    t.layout(20, 20, &vec![20]);
    let rects = t.cell_rects().clone();
    // Same length, different contents: no rebuild.
    let edited = vec![tree("Elm", "Ulmus", Some(30))];
    assert!(!t.update(&edited));
    assert_eq!(t.cells()[0][0].text, "Oak");
    assert_eq!(t.cell_rects(), &rects);
}

#[test]
fn update_rebuilds_one_row_per_data_row() {
    let mut t = Table::new(tree_columns());
    let data = vec![
        tree("Oak", "Quercus", Some(25)),
        tree("Ash", "Fraxinus", None),
        tree("Elm", "Ulmus", Some(30)),
    ];
    assert!(t.update(&data));
    assert_eq!(t.cells().len(), 3);
    for row in t.cells() {
        assert_eq!(row.len(), 4);
    }
    assert_eq!(t.cells()[0][0].text, "Oak");
    assert_eq!(t.cells()[1][0].text, "Ash");
    assert_eq!(t.cells()[2][1].text, "Ulmus");
    assert_eq!(t.cells()[0][2].text, "25");
    assert_eq!(t.cells()[1][2].text, "");
    assert_eq!(t.cells()[0][3].width, 500);
    assert_eq!(t.cells()[0][0].background, None);
    // Shrinking rebuilds too.
    let fewer = vec![tree("Ash", "Fraxinus", None)];
    assert!(t.update(&fewer));
    assert_eq!(t.cells().len(), 1);
    assert_eq!(t.cells()[0][0].text, "Ash");
}

#[test]
fn header_wins_over_overlapping_cell() {
    let headers = vec![rect(0, 0, 50, 10)];
    let cells = vec![vec![rect(0, 0, 50, 10)]];
    let h = resolve(true, &headers, pt(5, 5), true, &cells, 1, pt(5, 5));
    assert_eq!(h, Hover::Header(0));
    let none_hot = resolve(false, &headers, pt(5, 5), true, &cells, 1, pt(5, 5));
    assert_eq!(none_hot, Hover::Nothing);
}

#[test]
fn first_match_wins() {
    // Overlapping headers: the lowest index wins.
    let headers = vec![rect(0, 0, 50, 10), rect(20, 0, 70, 10)];
    assert_eq!(hit_headers(&headers, pt(30, 5)), Some(0));
    assert_eq!(hit_headers(&headers, pt(60, 5)), Some(1));
    // Outside the first header's band, no header is tested.
    let tall = vec![rect(0, 0, 50, 10), rect(50, 0, 100, 40)];
    assert_eq!(hit_headers(&tall, pt(60, 20)), None);
    // On the border between two rows, the band of the upper row holds the
    // pointer but its cells do not, so the lower row wins.
    let cells = vec![
        vec![rect(0, 0, 50, 10), rect(50, 0, 100, 10)],
        vec![rect(0, 10, 50, 20), rect(50, 10, 100, 20)],
    ];
    assert_eq!(hit_cells(&cells, 2, pt(60, 10)), Some((1, 1)));
    assert_eq!(hit_cells(&cells, 2, pt(10, 5)), Some((0, 0)));
    // Rows without a data row to pair with are not tested.
    assert_eq!(hit_cells(&cells, 1, pt(60, 15)), None);
    assert_eq!(hit_cells(&cells, 2, pt(200, 15)), None);
}

#[test]
fn leaving_the_table_clears_expand_text() {
    let mut t = Table::new(tree_columns());
    let data = vec![tree("Oak", "Quercus", Some(25))];
    t.update(&data);
    t.layout(20, 20, &vec![20]);
    assert!(t.pointer_move(&data, pt(150, 55), 0));
    assert_eq!(t.expand_text().as_str(), "25 m");
    assert!(t.pointer_move(&data, pt(-5, -5), 0));
    assert_eq!(t.expand_text().as_str(), "");
    assert_eq!(t.hover(), Hover::Nothing);
    assert!(!t.pointer_move(&data, pt(1000, 1000), 0));
}

#[test]
fn same_text_reports_no_change() {
    let mut t = Table::new(tree_columns());
    let data = vec![tree("Oak", "Quercus", Some(25))];
    t.update(&data);
    t.layout(20, 20, &vec![20]);
    assert!(t.pointer_move(&data, pt(10, 30), 0));
    assert!(!t.pointer_move(&data, pt(20, 30), 0));
    assert_eq!(t.expand_text().as_str(), "Name (English)");
}

#[test]
fn scroll_offset_shifts_cells() {
    let mut t = Table::new(tree_columns());
    let data = vec![tree("Oak", "Quercus", None), tree("Ash", "Fraxinus", None)];
    t.update(&data);
    t.layout(20, 20, &vec![20, 20]);
    // Viewport position 55 is content position 5 unscrolled, 25 scrolled by 20.
    t.pointer_move(&data, pt(10, 55), 0);
    assert_eq!(t.expand_text().as_str(), "Oak");
    t.pointer_move(&data, pt(10, 55), 20);
    assert_eq!(t.expand_text().as_str(), "Ash");
    t.pointer_move(&data, pt(10, 55), i64::MAX);
    assert_eq!(t.hover(), Hover::Nothing);
}

#[test]
fn layout_places_headers_and_rows() {
    let mut t = Table::new(vec![col("A", "Alpha", 30, 5), col("B", "Beta", 40, 0)]);
    let data = vec![tree("Oak", "Quercus", None), tree("Ash", "Fraxinus", None)];
    t.update(&data);
    let size = t.layout(10, 12, &vec![15, 25]);
    assert_eq!(size, Size { width: 75, height: 10 + 5 + 12 + 5 + 40 });
    assert_eq!(t.header_rects()[0], rect(0, 15, 35, 27));
    assert_eq!(t.header_rects()[1], rect(35, 15, 75, 27));
    assert_eq!(t.content_top(), 32);
    assert_eq!(t.cell_rects()[0][0], rect(0, 0, 30, 15));
    assert_eq!(t.cell_rects()[0][1], rect(35, 0, 75, 15));
    assert_eq!(t.cell_rects()[1][0], rect(0, 15, 30, 40));
    assert_eq!(t.cell_rects()[1][1], rect(35, 15, 75, 40));
}

#[test]
fn layout_without_columns_has_no_header_band() {
    let mut t = Table::new(Vec::new());
    let data: Vec<Tree> = Vec::new();
    t.update(&data);
    let size = t.layout(10, 12, &Vec::new());
    assert_eq!(t.content_top(), 15);
    assert_eq!(size, Size { width: 0, height: 15 });
    assert_eq!(t.width_full(), 0);
}

#[test]
fn tree_columns_render_tree_fields() {
    let oak = tree("Oak", "Quercus", Some(25));
    let ash = tree("Ash", "Fraxinus", None);
    let tall = tree("Redwood", "Sequoia", Some(115));
    assert_eq!(oak.cell(0), "Oak");
    assert_eq!(oak.cell(1), "Quercus");
    assert_eq!(oak.cell(2), "25");
    assert_eq!(oak.expand_cell(2), "25 m");
    assert_eq!(tall.cell(2), "115");
    assert_eq!(tall.expand_cell(2), "115 m");
    assert_eq!(ash.cell(2), "");
    assert_eq!(ash.expand_cell(2), "No Data");
    assert_eq!(oak.cell(3), "leaves");
    assert_eq!(oak.expand_cell(3), "leaves");
    assert_eq!(oak.cell(4), "");
    assert_eq!(oak.background(0), None);
    let cols = tree_columns();
    assert_eq!(cols.len(), 4);
    assert_eq!(cols[2].header, "Height");
    assert_eq!(cols[2].expand_header, "Typical Height (m)");
    assert_eq!(width_full(&cols), 690);
}

#[test]
fn not_laid_out_table_is_never_hot() {
    let mut t = Table::new(tree_columns());
    let data = vec![tree("Oak", "Quercus", None)];
    t.update(&data);
    assert!(!t.pointer_move(&data, pt(0, 0), 0));
    assert_eq!(t.hover(), Hover::Nothing);
}

#[test]
fn total_width_fits_for_wide_columns() {
    assert!(total_width_fits(&Vec::new()));
    assert!(total_width_fits(&tree_columns()));
    let wide: Vec<TableDescription> = (0..3).map(|_| col("W", "Wide", u32::MAX, u32::MAX)).collect();
    assert!(total_width_fits(&wide));
    assert_eq!(width_full(&wide), 6 * (u32::MAX as i64));
}

#[test]
fn out_of_step_grid_highlights_nothing() {
    let mut t = Table::new(vec![col("Name", "Name (English)", 70, 0)]);
    let one = vec![tree("Oak", "Quercus", Some(25))];
    t.update(&one);
    t.layout(20, 20, &vec![20]);
    assert!(t.pointer_move(&one, pt(10, 55), 0));
    assert_eq!(t.expand_text().as_str(), "Oak");
    // A row was added but the grid has not been rebuilt yet.
    let two = vec![tree("Oak", "Quercus", Some(25)), tree("Ash", "Fraxinus", None)];
    assert!(t.pointer_move(&two, pt(10, 55), 0));
    assert_eq!(t.hover(), Hover::Nothing);
    assert_eq!(t.expand_text().as_str(), "");
    // Headers are not tested either.
    assert!(!t.pointer_move(&two, pt(10, 30), 0));
    assert_eq!(t.hover(), Hover::Nothing);
}

#[test]
fn rebuilt_cells_are_not_hot_before_layout() {
    let mut t = Table::new(vec![col("Name", "Name (English)", 70, 0)]);
    let one = vec![tree("Oak", "Quercus", Some(25))];
    t.update(&one);
    t.layout(20, 20, &vec![20]);
    let two = vec![tree("Oak", "Quercus", Some(25)), tree("Ash", "Fraxinus", None)];
    assert!(t.update(&two));
    for row in t.cell_rects() {
        for r in row {
            assert_eq!(*r, rect(0, 0, 0, 0));
        }
    }
    t.pointer_move(&two, pt(10, 55), 0);
    assert_eq!(t.hover(), Hover::Nothing);
}

#[test]
fn new_table_has_unplaced_headers() {
    let t = Table::new(tree_columns());
    assert_eq!(t.header_rects().len(), 4);
    for r in t.header_rects() {
        assert_eq!(*r, rect(0, 0, 0, 0));
    }
    assert_eq!(t.expand_rect(), rect(0, 0, 0, 0));
}

#[test]
fn decimal_notation() {
    assert_eq!(decimal(0), "0");
    assert_eq!(decimal(7), "7");
    assert_eq!(decimal(10), "10");
    assert_eq!(decimal(99), "99");
    assert_eq!(decimal(100), "100");
    assert_eq!(decimal(205), "205");
    assert_eq!(decimal(255), "255");
}
