//! The read pipeline: turning raw cell grids of a workbook into the
//! canonical model.
//!
//! A raw grid is what the file layer hands over for one sheet: every cell of
//! the sheet already converted to its display string, row by row, together
//! with the grid width reported by the source. The functions here derive the
//! header row, build the addressable row/cell structure, and look sheets up
//! by name. Opening the workbook file and enumerating its ranges is file
//! I/O and stays outside this crate.

use vstd::prelude::*;

use crate::error::ExcelError;
use crate::model::{CellData, CellView, ExcelData, RowData, RowView, SheetData, SheetView,
    WorkbookView};

verus! {

/// A read handle for one workbook file: it only records the path; all file
/// access happens in the unverified file layer.
pub struct ExcelParser {
    file_path: String,
}

impl ExcelParser {
    /// The path this parser records, as the contracts speak of it.
    pub closed spec fn spec_path(&self) -> Seq<char> {
        self.file_path@
    }

    /// Makes a parser for the workbook at `file_path`.
    pub fn new(file_path: String) -> (p: ExcelParser)
        ensures
            p.spec_path() == file_path@,
    {
        ExcelParser { file_path }
    }

    /// The path this parser was made for.
    pub fn path(&self) -> (r: &String)
        ensures
            r@ == self.spec_path(),
    {
        &self.file_path
    }
}

/// One sheet as the file layer hands it over: the sheet's name, every cell
/// as its display string, and the width the source grid reported.
pub struct SheetGrid {
    pub name: String,
    pub cells: Vec<Vec<String>>,
    pub width: u32,
}

/// The header row of a grid: its first row, or empty if the grid has no
/// rows.
pub open spec fn spec_headers_of(grid: Seq<Seq<Seq<char>>>) -> Seq<Seq<char>> {
    if grid.len() == 0 {
        Seq::empty()
    } else {
        grid[0]
    }
}

/// The cells built for one data row: one cell per column position that has
/// a corresponding header entry; positions beyond the header are dropped.
pub open spec fn spec_row_cells(headers: Seq<Seq<char>>, row: Seq<Seq<char>>) -> Seq<CellView> {
    Seq::new(
        vstd::math::min(row.len() as int, headers.len() as int) as nat,
        |c: int| CellView { column_name: headers[c], value: row[c] },
    )
}

/// The sheet the reader produces from a raw grid: the first row as column
/// names, every later row as a data row with 1-based index, `total_rows` as
/// the count of data rows, and `total_columns` as the reported grid width.
pub open spec fn spec_sheet_from_grid(
    name: Seq<char>,
    grid: Seq<Seq<Seq<char>>>,
    grid_width: int,
) -> SheetView {
    let headers = spec_headers_of(grid);
    let n_data = if grid.len() == 0 { 0int } else { grid.len() - 1 };
    SheetView {
        name: name,
        column_names: headers,
        rows: Seq::new(
            n_data as nat,
            |i: int| RowView { cells: spec_row_cells(headers, grid[i + 1]), row_index: i + 1 },
        ),
        total_rows: n_data,
        total_columns: grid_width,
    }
}

/// Ragged rows are truncated to the header width: a data row yields exactly
/// one cell per column position that has a header entry, pairing the header
/// string with the row's value there; positions beyond the header are
/// dropped, and a row shorter than the header yields only its own cells.
pub proof fn lemma_row_truncation(headers: Seq<Seq<char>>, row: Seq<Seq<char>>)
    ensures
        spec_row_cells(headers, row).len() == vstd::math::min(
            row.len() as int,
            headers.len() as int,
        ),
        forall|c: int|
            0 <= c < spec_row_cells(headers, row).len() ==> (#[trigger] spec_row_cells(
                headers,
                row,
            )[c]).column_name == headers[c] && spec_row_cells(headers, row)[c].value == row[c],
{
}

/// A sheet with zero rows yields no column names, no rows, and a zero row
/// count.
pub proof fn lemma_empty_sheet(name: Seq<char>, grid: Seq<Seq<Seq<char>>>, width: int)
    requires
        grid.len() == 0,
    ensures
        spec_sheet_from_grid(name, grid, width).column_names == Seq::<Seq<char>>::empty(),
        spec_sheet_from_grid(name, grid, width).rows == Seq::<RowView>::empty(),
        spec_sheet_from_grid(name, grid, width).total_rows == 0,
{
    assert(spec_sheet_from_grid(name, grid, width).rows =~= Seq::<RowView>::empty());
}

/// Copies a vector of strings.
pub(crate) fn clone_string_vec(v: &Vec<String>) -> (r: Vec<String>)
    ensures
        r@ =~= v@,
{
    let mut r: Vec<String> = Vec::new();
    let mut i: usize = 0;
    while i < v.len()
        invariant
            i <= v.len(),
            r@ =~= v@.subrange(0, i as int),
        decreases v.len() - i,
    {
        r.push(v[i].clone());
        assert(r@ =~= v@.subrange(0, (i + 1) as int));
        i = i + 1;
    }
    r
}

/// The header list of one sheet: the first row of its grid, converted cell
/// by cell to text by the file layer; empty if the sheet has no rows.
pub fn headers_from_grid(grid: &Vec<Vec<String>>) -> (r: Vec<String>)
    ensures
        r.deep_view() == spec_headers_of(grid.deep_view()),
{
    let r = if grid.len() == 0 {
        Vec::new()
    } else {
        clone_string_vec(&grid[0])
    };
    assert(r.deep_view() =~= spec_headers_of(grid.deep_view()));
    r
}

/// The header read of a whole workbook: a workbook with zero sheets is
/// refused with [`ExcelError::NoWorksheets`]; otherwise the first sheet's
/// grid yields the header row (empty when that sheet has no rows). The
/// caller passes `None` exactly when the workbook has no sheets.
pub fn headers_from_workbook(first_grid: Option<&Vec<Vec<String>>>) -> (r: Result<
    Vec<String>,
    ExcelError,
>)
    ensures
        match first_grid {
            Some(g) => r matches Ok(h) && h.deep_view() == spec_headers_of(g.deep_view()),
            None => r matches Err(e) && e is NoWorksheets,
        },
{
    match first_grid {
        Some(g) => Ok(headers_from_grid(g)),
        None => Err(ExcelError::NoWorksheets),
    }
}

/// Builds the canonical sheet for one raw grid: header derivation, ragged
/// row truncation, 1-based data row indexing, and the two counts.
pub fn sheet_from_grid(name: &String, grid: &Vec<Vec<String>>, grid_width: u32) -> (s: SheetData)
    requires
        grid@.len() <= u32::MAX,
    ensures
        s@ == spec_sheet_from_grid(name@, grid.deep_view(), grid_width as int),
{
    let ghost gv = grid.deep_view();
    let ghost hv = spec_headers_of(gv);
    let headers = headers_from_grid(grid);

    let mut rows: Vec<RowData> = Vec::new();
    let mut i: usize = 1;
    while i < grid.len()
        invariant
            grid@.len() <= u32::MAX,
            1 <= i,
            grid@.len() == 0 ==> i == 1,
            grid@.len() > 0 ==> i <= grid@.len(),
            headers.deep_view() == hv,
            gv == grid.deep_view(),
            hv == spec_headers_of(gv),
            rows@.len() == i - 1,
            forall|k: int| 0 <= k < rows@.len() ==> #[trigger] rows@[k]@ == (RowView {
                cells: spec_row_cells(hv, gv[k + 1]),
                row_index: k + 1,
            }),
        decreases grid.len() - i,
    {
        let row = &grid[i];
        let n = if row.len() < headers.len() {
            row.len()
        } else {
            headers.len()
        };
        let mut cells: Vec<CellData> = Vec::new();
        let mut c: usize = 0;
        while c < n
            invariant
                n == vstd::math::min(row@.len() as int, headers@.len() as int),
                c <= n,
                headers.deep_view() == hv,
                row.deep_view() == gv[i as int],
                (i as int) < gv.len(),
                cells@.len() == c,
                forall|k: int| 0 <= k < c ==> #[trigger] cells@[k]@ == (CellView {
                    column_name: hv[k],
                    value: gv[i as int][k],
                }),
            decreases n - c,
        {
            cells.push(CellData { column_name: headers[c].clone(), value: row[c].clone() });
            c = c + 1;
        }
        let rd = RowData { cells, row_index: i as u32 };
        assert(rd@ =~= RowView { cells: spec_row_cells(hv, gv[i as int]), row_index: i as int });
        rows.push(rd);
        i = i + 1;
    }

    let total_rows: u32 = if grid.len() == 0 {
        0
    } else {
        (grid.len() - 1) as u32
    };
    let s = SheetData {
        name: name.clone(),
        column_names: headers,
        rows,
        total_rows,
        total_columns: grid_width,
    };
    assert(s@ =~= spec_sheet_from_grid(name@, gv, grid_width as int));
    s
}

/// Builds the whole canonical workbook from the raw grids of its sheets, in
/// source order.
pub fn workbook_from_grids(grids: &Vec<SheetGrid>) -> (wb: ExcelData)
    requires
        forall|i: int| 0 <= i < grids@.len() ==> #[trigger] grids@[i].cells@.len() <= u32::MAX,
    ensures
        wb@ == (WorkbookView {
            sheets: Seq::new(
                grids@.len(),
                |i: int| spec_sheet_from_grid(
                    grids@[i].name@,
                    grids@[i].cells.deep_view(),
                    grids@[i].width as int,
                ),
            ),
        }),
{
    let mut sheets: Vec<SheetData> = Vec::new();
    let mut i: usize = 0;
    while i < grids.len()
        invariant
            i <= grids@.len(),
            forall|k: int| 0 <= k < grids@.len() ==> #[trigger] grids@[k].cells@.len() <= u32::MAX,
            sheets@.len() == i,
            forall|k: int| 0 <= k < i ==> #[trigger] sheets@[k]@ == spec_sheet_from_grid(
                grids@[k].name@,
                grids@[k].cells.deep_view(),
                grids@[k].width as int,
            ),
        decreases grids.len() - i,
    {
        let g = &grids[i];
        let s = sheet_from_grid(&g.name, &g.cells, g.width);
        sheets.push(s);
        i = i + 1;
    }
    let wb = ExcelData { sheets };
    assert(wb@.sheets =~= Seq::new(
        grids@.len(),
        |i: int| spec_sheet_from_grid(
            grids@[i].name@,
            grids@[i].cells.deep_view(),
            grids@[i].width as int,
        ),
    ));
    assert(wb@ =~= WorkbookView { sheets: wb@.sheets });
    wb
}

/// Looks a sheet up by name: the first sheet whose name matches, or `None`
/// if no sheet of the workbook carries the name.
pub fn find_sheet<'a>(data: &'a ExcelData, name: &String) -> (r: Option<&'a SheetData>)
    ensures
        match r {
            Some(s) => exists|i: int|
                0 <= i < data@.sheets.len() && s@ == data@.sheets[i]
                    && data@.sheets[i].name == name@
                    && (forall|j: int| 0 <= j < i ==> #[trigger] data@.sheets[j].name != name@),
            None => forall|i: int|
                0 <= i < data@.sheets.len() ==> #[trigger] data@.sheets[i].name != name@,
        },
{
    let mut i: usize = 0;
    while i < data.sheets.len()
        invariant
            i <= data.sheets@.len(),
            forall|j: int| 0 <= j < i ==> #[trigger] data@.sheets[j].name != name@,
        decreases data.sheets.len() - i,
    {
        if data.sheets[i].name == *name {
            assert(data@.sheets[i as int].name == name@);
            return Some(&data.sheets[i]);
        }
        i = i + 1;
    }
    None
}

} // verus!
