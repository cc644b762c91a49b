//! Trees as table rows, and the four columns that show them.

use vstd::prelude::*;
use vstd::string::StringExecFns;
use crate::column::{Rgba, TableDescription};
use crate::row::TableRow;

verus! {

/// One kind of tree.
#[derive(Clone, Debug)]
pub struct Tree {
    pub name_english: &'static str,
    pub name_latin: &'static str,
    pub typical_height_m: Option<u8>,
    pub identifiable_features: &'static str,
}

/// The character of a decimal digit.
pub open spec fn digit_char(d: nat) -> char {
    seq!['0', '1', '2', '3', '4', '5', '6', '7', '8', '9'][d as int]
}

/// Decimal notation of `n`, without sign or leading zeros.
pub open spec fn decimal_digits(n: nat) -> Seq<char>
    decreases n,
{
    if n < 10 {
        seq![digit_char(n)]
    } else {
        decimal_digits(n / 10).push(digit_char(n % 10))
    }
}

/// The one-character string of a decimal digit.
fn digit_str(d: u8) -> (r: &'static str)
    requires
        d < 10,
    ensures
        r@ == seq![digit_char(d as nat)],
{
    proof {
        reveal_strlit("0");
        reveal_strlit("1");
        reveal_strlit("2");
        reveal_strlit("3");
        reveal_strlit("4");
        reveal_strlit("5");
        reveal_strlit("6");
        reveal_strlit("7");
        reveal_strlit("8");
        reveal_strlit("9");
    }
    if d == 0 {
        "0"
    } else if d == 1 {
        "1"
    } else if d == 2 {
        "2"
    } else if d == 3 {
        "3"
    } else if d == 4 {
        "4"
    } else if d == 5 {
        "5"
    } else if d == 6 {
        "6"
    } else if d == 7 {
        "7"
    } else if d == 8 {
        "8"
    } else {
        "9"
    }
}

/// Decimal notation of `n`.
pub fn decimal(n: u8) -> (r: String)
    ensures
        r@ == decimal_digits(n as nat),
{
    if n < 10 {
        String::from_str(digit_str(n))
    } else if n < 100 {
        let r = String::from_str(digit_str(n / 10)).concat(digit_str(n % 10));
        proof {
            assert(decimal_digits((n / 10) as nat) == seq![digit_char((n / 10) as nat)]);
            assert(r@ =~= decimal_digits(n as nat));
        }
        r
    } else {
        let r = String::from_str(digit_str(n / 100)).concat(digit_str((n / 10) % 10)).concat(digit_str(n % 10));
        proof {
            assert((n / 10) as nat / 10 == (n / 100) as nat);
            assert(decimal_digits((n / 100) as nat) == seq![digit_char((n / 100) as nat)]);
            assert(decimal_digits((n / 10) as nat) =~= seq![digit_char((n / 100) as nat)].push(
                digit_char(((n / 10) % 10) as nat)));
            assert(r@ =~= decimal_digits(n as nat));
        }
        r
    }
}

/// The height column's cell: the height in metres, or nothing.
pub open spec fn height_text(h: Option<u8>) -> Seq<char> {
    match h {
        Some(m) => decimal_digits(m as nat),
        None => Seq::empty(),
    }
}

/// The height column's full text: the height with its unit, or a note that
/// it is unknown.
pub open spec fn height_expanded(h: Option<u8>) -> Seq<char> {
    match h {
        Some(m) => decimal_digits(m as nat) + " m"@,
        None => "No Data"@,
    }
}

impl TableRow for Tree {
    open spec fn cell_text(&self, column: int) -> Seq<char> {
        if column == 0 {
            self.name_english@
        } else if column == 1 {
            self.name_latin@
        } else if column == 2 {
            height_text(self.typical_height_m)
        } else if column == 3 {
            self.identifiable_features@
        } else {
            Seq::empty()
        }
    }

    open spec fn expanded_text(&self, column: int) -> Seq<char> {
        if column == 2 {
            height_expanded(self.typical_height_m)
        } else {
            self.cell_text(column)
        }
    }

    open spec fn background_of(&self, column: int) -> Option<Rgba> {
        None
    }

    fn cell(&self, column: usize) -> (r: String) {
        if column == 0 {
            self.name_english.to_owned()
        } else if column == 1 {
            self.name_latin.to_owned()
        } else if column == 2 {
            match self.typical_height_m {
                Some(m) => decimal(m),
                None => String::new(),
            }
        } else if column == 3 {
            self.identifiable_features.to_owned()
        } else {
            String::new()
        }
    }

    fn expand_cell(&self, column: usize) -> (r: String) {
        if column == 2 {
            match self.typical_height_m {
                Some(m) => decimal(m).concat(" m"),
                None => String::from_str("No Data"),
            }
        } else {
            self.cell(column)
        }
    }

    fn background(&self, column: usize) -> (r: Option<Rgba>) {
        None
    }
}

/// The four columns of the tree table: English name, Latin name, typical
/// height and identifiable features.
pub fn tree_columns() -> (r: Vec<TableDescription>)
    ensures
        r@.len() == 4,
        r@[0].header@ == "Name"@ && r@[0].expand_header@ == "Name (English)"@,
        r@[1].header@ == "Latin"@ && r@[1].expand_header@ == "Name (Latin)"@,
        r@[2].header@ == "Height"@ && r@[2].expand_header@ == "Typical Height (m)"@,
        r@[3].header@ == "Features"@ && r@[3].expand_header@ == "Identifiable Features"@,
        r@[0].width == 70 && r@[1].width == 70 && r@[2].width == 50 && r@[3].width == 500,
        forall|k: int| 0 <= k < 4 ==> #[trigger] r@[k].padding == 0,
{
    let mut cols: Vec<TableDescription> = Vec::new();
    cols.push(column("Name", "Name (English)", 70));
    cols.push(column("Latin", "Name (Latin)", 70));
    cols.push(column("Height", "Typical Height (m)", 50));
    cols.push(column("Features", "Identifiable Features", 500));
    cols
}

fn column(header: &str, expand_header: &str, width: u32) -> (r: TableDescription)
    ensures
        r.header@ == header@,
        r.expand_header@ == expand_header@,
        r.width == width,
        r.padding == 0,
{
    TableDescription {
        expand_header: String::from_str(expand_header),
        header: String::from_str(header),
        width,
        padding: 0,
    }
}

} // verus!
