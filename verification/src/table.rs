//! The table view model: a bordered grid over the record store with a
//! distinctly styled header row, alternating-background striping of body
//! rows, and three composable highlight layers (row, column, cell), the
//! cell highlight dominating where row and column selection intersect.

use vstd::prelude::*;
use vstd::string::StringExecFns;
use crate::records::Data;

verus! {

/// Number of display columns; matches the fixed field arity of `Data`.
pub const COLUMN_COUNT: usize = 3;

/// The highlight layer a cell falls in, strongest first: the selected cell
/// itself, the rest of the selected row, the rest of the selected column,
/// or no highlight at all.
#[derive(Clone, Copy, Debug, PartialEq, Eq, Structural)]
pub enum Highlight {
    Cell,
    Row,
    Column,
    Plain,
}

/// One cell of the body grid.
pub struct TableCell {
    pub content: String,
    pub highlight: Highlight,
}

/// One body row: its cells, its stripe parity, and whether it carries the
/// selected-row gutter marker.
pub struct TableRow {
    pub cells: Vec<TableCell>,
    pub even: bool,
    pub selected: bool,
}

/// The full grid handed to the renderer: a header row plus the body rows.
pub struct TableGrid {
    pub header: Vec<String>,
    pub rows: Vec<TableRow>,
}

/// Which highlight applies at position `(row, col)` for the given
/// selection.  The cell highlight wins at the intersection of a selected
/// row and a selected column.
pub open spec fn highlight_spec(
    sel_row: Option<usize>,
    sel_col: Option<usize>,
    row: int,
    col: int,
) -> Highlight {
    let on_row = sel_row matches Some(sr) && sr == row;
    let on_col = sel_col matches Some(sc) && sc == col;
    if on_row && on_col {
        Highlight::Cell
    } else if on_row {
        Highlight::Row
    } else if on_col {
        Highlight::Column
    } else {
        Highlight::Plain
    }
}

/// Does the optional selection index point exactly at `v`?
fn opt_eq(o: &Option<usize>, v: usize) -> (r: bool)
    ensures
        r == (o matches Some(x) && x == v),
{
    match o {
        Some(x) => *x == v,
        None => false,
    }
}

/// Compute the highlight layer of one cell.
pub fn highlight_for(
    sel_row: &Option<usize>,
    sel_col: &Option<usize>,
    row: usize,
    col: usize,
) -> (r: Highlight)
    ensures
        r == highlight_spec(*sel_row, *sel_col, row as int, col as int),
{
    let on_row = opt_eq(sel_row, row);
    let on_col = opt_eq(sel_col, col);
    if on_row && on_col {
        Highlight::Cell
    } else if on_row {
        Highlight::Row
    } else if on_col {
        Highlight::Column
    } else {
        Highlight::Plain
    }
}

/// What it means for one built row to model record `d` at row index `i`:
/// the three cells carry the record's display fields in column order, the
/// stripe follows the row parity, the gutter marker sits exactly on the
/// selected row, and each cell carries its computed highlight layer.
pub open spec fn row_models(
    row: TableRow,
    d: Data,
    i: int,
    sel_row: Option<usize>,
    sel_col: Option<usize>,
) -> bool {
    &&& row.cells@.len() == COLUMN_COUNT
    &&& row.cells@[0].content@ == d.name@
    &&& row.cells@[1].content@ == d.address@
    &&& row.cells@[2].content@ == d.email@
    &&& row.even == (i % 2 == 0)
    &&& row.selected == (sel_row matches Some(sr) && sr == i)
    &&& forall|j: int|
        0 <= j < COLUMN_COUNT ==> (#[trigger] row.cells@[j]).highlight == highlight_spec(
            sel_row,
            sel_col,
            i,
            j,
        )
}

/// Build the grid model for the visible records and current selection.
/// The header is always present; the body has exactly one row per record,
/// so an empty store yields a header-only grid and no selection is ever
/// dereferenced against it.
pub fn build_grid(items: &Vec<Data>, sel_row: &Option<usize>, sel_col: &Option<usize>) -> (r:
    TableGrid)
    requires
        sel_row matches Some(sr) ==> sr < items@.len(),
        sel_col matches Some(sc) ==> sc < COLUMN_COUNT,
    ensures
        r.header@.len() == COLUMN_COUNT,
        r.header@[0]@ == "Name"@,
        r.header@[1]@ == "Address"@,
        r.header@[2]@ == "Email"@,
        r.rows@.len() == items@.len(),
        forall|i: int|
            0 <= i < items@.len() ==> row_models(
                #[trigger] r.rows@[i],
                items@[i],
                i,
                *sel_row,
                *sel_col,
            ),
{
    let mut header: Vec<String> = Vec::new();
    header.push(String::from_str("Name"));
    header.push(String::from_str("Address"));
    header.push(String::from_str("Email"));
    let mut rows: Vec<TableRow> = Vec::new();
    let mut i: usize = 0;
    while i < items.len()
        invariant
            i <= items@.len(),
            rows@.len() == i,
            sel_row matches Some(sr) ==> sr < items@.len(),
            sel_col matches Some(sc) ==> sc < COLUMN_COUNT,
            forall|k: int|
                0 <= k < i ==> row_models(#[trigger] rows@[k], items@[k], k, *sel_row, *sel_col),
        decreases items@.len() - i,
    {
        let d = &items[i];
        let mut cells: Vec<TableCell> = Vec::new();
        cells.push(TableCell { content: d.name.clone(), highlight: highlight_for(sel_row, sel_col, i, 0) });
        cells.push(
            TableCell { content: d.address.clone(), highlight: highlight_for(sel_row, sel_col, i, 1) },
        );
        cells.push(TableCell { content: d.email.clone(), highlight: highlight_for(sel_row, sel_col, i, 2) });
        let row = TableRow { cells, even: i % 2 == 0, selected: opt_eq(sel_row, i) };
        rows.push(row);
        i += 1;
    }
    TableGrid { header, rows }
}

/// Column widths for a table pane of the given total width: the first two
/// columns keep their fixed minimum widths (name 11, address 21, each
/// including one padding cell) and the last column absorbs whatever width
/// remains, or nothing when the pane is narrower than the minimums.
pub fn column_widths(total: u16) -> (r: [u16; 3])
    ensures
        r[0] == 11,
        r[1] == 21,
        total >= 32 ==> r[2] == total - 32,
        total < 32 ==> r[2] == 0,
{
    let rest: u16 = if total >= 32 { total - 32 } else { 0 };
    [11, 21, rest]
}

} // verus!
