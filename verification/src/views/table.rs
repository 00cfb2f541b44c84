//! Columns of text read for a table view, one per component, and their cells.

use crate::text::{parse_u64, parse_usize, parsed_u64, parsed_usize};
use crate::util::string_views;
use vstd::prelude::*;

verus! {

/// The text in row `i` of a column, or the empty text when the column is shorter.
pub open spec fn text_at(col: Seq<Seq<char>>, i: int) -> Seq<char> {
    if 0 <= i < col.len() {
        col[i]
    } else {
        Seq::empty()
    }
}

/// The count in row `i` of a column: the cell parsed as a `usize`, or 0 when the
/// column is shorter or the cell is not a count.
pub open spec fn count_at(col: Seq<Seq<char>>, i: int) -> usize {
    if 0 <= i < col.len() {
        match parsed_usize(col[i]) {
            Some(n) => n,
            None => 0,
        }
    } else {
        0
    }
}

/// The cell in row `i` of a column parsed as a `usize`, if the column has that row
/// and the cell is a count.
pub open spec fn parsed_at(col: Seq<Seq<char>>, i: int) -> Option<usize> {
    if 0 <= i < col.len() {
        parsed_usize(col[i])
    } else {
        None
    }
}

/// The cell in row `i` of a column parsed as a `u64`, if the column has that row and
/// the cell is a count.
pub open spec fn parsed_u64_at(col: Seq<Seq<char>>, i: int) -> Option<u64> {
    if 0 <= i < col.len() {
        parsed_u64(col[i])
    } else {
        None
    }
}

/// Copies the text in row `i` of a column, or gives an empty string.
pub fn cell_text(col: &Vec<String>, i: usize) -> (s: String)
    ensures
        s@ == text_at(string_views(col@), i as int),
{
    if i < col.len() {
        col[i].clone()
    } else {
        String::new()
    }
}

/// Parses the text in row `i` of a column as a count.
pub fn cell_parsed(col: &Vec<String>, i: usize) -> (n: Option<usize>)
    ensures
        n == parsed_at(string_views(col@), i as int),
{
    if i < col.len() {
        parse_usize(col[i].as_str())
    } else {
        None
    }
}

/// Parses the text in row `i` of a column as a count, or gives 0.
pub fn cell_count(col: &Vec<String>, i: usize) -> (n: usize)
    ensures
        n == count_at(string_views(col@), i as int),
{
    match cell_parsed(col, i) {
        Some(n) => n,
        None => 0,
    }
}

/// What a table cell shows: a text, or a count written in decimal.
pub enum Cell {
    Text(String),
    Count(usize),
}

/// The value of a [`Cell`].
pub enum CellView {
    Text(Seq<char>),
    Count(usize),
}

impl View for Cell {
    type V = CellView;

    open spec fn view(&self) -> CellView {
        match self {
            Cell::Text(t) => CellView::Text(t@),
            Cell::Count(n) => CellView::Count(*n),
        }
    }
}

/// The text columns of a table, one per component of the table, in component order.
pub struct Columns {
    columns: Vec<Vec<String>>,
}

/// The number of rows of a table: the length of its first column.
pub open spec fn row_count_of(cols: Seq<Seq<Seq<char>>>) -> nat {
    if cols.len() == 0 {
        0
    } else {
        cols[0].len()
    }
}

/// Column `c` of a table, empty when the table has no such column.
pub open spec fn column_of(cols: Seq<Seq<Seq<char>>>, c: int) -> Seq<Seq<char>> {
    if 0 <= c < cols.len() {
        cols[c]
    } else {
        Seq::empty()
    }
}

impl View for Columns {
    type V = Seq<Seq<Seq<char>>>;

    closed spec fn view(&self) -> Seq<Seq<Seq<char>>> {
        self.columns@.map_values(|c: Vec<String>| string_views(c@))
    }
}

impl Columns {
    /// A table with the given text columns.
    pub fn new(columns: Vec<Vec<String>>) -> (t: Columns)
        ensures
            t@ == columns@.map_values(|c: Vec<String>| string_views(c@)),
    {
        Columns { columns }
    }

    /// The number of rows: the length of the first column.
    pub fn row_count(&self) -> (n: usize)
        ensures
            n == row_count_of(self@),
    {
        if self.columns.len() == 0 {
            0
        } else {
            self.columns[0].len()
        }
    }

    /// The text in column `col`, row `row`, or an empty string.
    pub fn text(&self, col: usize, row: usize) -> (s: String)
        ensures
            s@ == text_at(column_of(self@, col as int), row as int),
    {
        if col < self.columns.len() {
            cell_text(&self.columns[col], row)
        } else {
            String::new()
        }
    }

    /// The text in column `col`, row `row`, parsed as a `u64`, if it is one.
    pub fn parse_u64(&self, col: usize, row: usize) -> (n: Option<u64>)
        ensures
            n == parsed_u64_at(column_of(self@, col as int), row as int),
    {
        if col < self.columns.len() && row < self.columns[col].len() {
            parse_u64(self.columns[col][row].as_str())
        } else {
            None
        }
    }

    /// The text in column `col`, row `row`, parsed as a count, if it is one.
    pub fn parse_count(&self, col: usize, row: usize) -> (n: Option<usize>)
        ensures
            n == parsed_at(column_of(self@, col as int), row as int),
    {
        if col < self.columns.len() {
            cell_parsed(&self.columns[col], row)
        } else {
            None
        }
    }
}

/// Law: the view of a cell is its text or its count.
pub proof fn law_cell_view(c: Cell)
    ensures
        c matches Cell::Text(t) ==> c@ == CellView::Text(t@),
        c matches Cell::Count(n) ==> c@ == CellView::Count(n),
{
}

} // verus!
