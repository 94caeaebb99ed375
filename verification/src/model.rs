//! The canonical in-memory model for spreadsheet content, and the write
//! specification consumed by the writer.
//!
//! Every cell value is kept as its display string; type information of the
//! source cell is not preserved. Each type carries a mathematical view used
//! by the contracts of the reader, writer and codec.

use vstd::prelude::*;

verus! {

/// One cell of a data row: the owning column's header string and the cell's
/// display value.
#[derive(Debug, Clone, PartialEq, Eq)]
pub struct CellData {
    pub column_name: String,
    pub value: String,
}

/// Mathematical view of a [`CellData`].
#[verifier::ext_equal]
pub ghost struct CellView {
    pub column_name: Seq<char>,
    pub value: Seq<char>,
}

impl View for CellData {
    type V = CellView;

    open spec fn view(&self) -> CellView {
        CellView { column_name: self.column_name@, value: self.value@ }
    }
}

/// One data row: its cells in column order and its 1-based index among the
/// data rows (the header row is never materialized as a row).
#[derive(Debug, Clone, PartialEq, Eq)]
pub struct RowData {
    pub cells: Vec<CellData>,
    pub row_index: u32,
}

/// Mathematical view of a [`RowData`].
#[verifier::ext_equal]
pub ghost struct RowView {
    pub cells: Seq<CellView>,
    pub row_index: int,
}

impl View for RowData {
    type V = RowView;

    open spec fn view(&self) -> RowView {
        RowView {
            cells: Seq::new(self.cells@.len(), |i: int| self.cells@[i]@),
            row_index: self.row_index as int,
        }
    }
}

/// One sheet of a workbook: its name, the header strings of its first row,
/// its data rows, and the counts reported alongside them.
#[derive(Debug, Clone, PartialEq, Eq)]
pub struct SheetData {
    pub name: String,
    pub column_names: Vec<String>,
    pub rows: Vec<RowData>,
    pub total_rows: u32,
    pub total_columns: u32,
}

/// Mathematical view of a [`SheetData`].
#[verifier::ext_equal]
pub ghost struct SheetView {
    pub name: Seq<char>,
    pub column_names: Seq<Seq<char>>,
    pub rows: Seq<RowView>,
    pub total_rows: int,
    pub total_columns: int,
}

impl View for SheetData {
    type V = SheetView;

    open spec fn view(&self) -> SheetView {
        SheetView {
            name: self.name@,
            column_names: Seq::new(self.column_names@.len(), |i: int| self.column_names@[i]@),
            rows: Seq::new(self.rows@.len(), |i: int| self.rows@[i]@),
            total_rows: self.total_rows as int,
            total_columns: self.total_columns as int,
        }
    }
}

/// A whole workbook as read from a file: its sheets in source order.
#[derive(Debug, Clone, PartialEq, Eq)]
pub struct ExcelData {
    pub sheets: Vec<SheetData>,
}

/// Mathematical view of an [`ExcelData`].
#[verifier::ext_equal]
pub ghost struct WorkbookView {
    pub sheets: Seq<SheetView>,
}

impl View for ExcelData {
    type V = WorkbookView;

    open spec fn view(&self) -> WorkbookView {
        WorkbookView { sheets: Seq::new(self.sheets@.len(), |i: int| self.sheets@[i]@) }
    }
}

/// One column of a write specification: the header text, an optional column
/// width in character units, and an optional number-format string applied to
/// the column's data cells.
#[derive(Debug, Clone, PartialEq, Eq)]
pub struct HeaderConfig {
    pub name: String,
    pub width: Option<u32>,
    pub format: Option<String>,
}

/// Mathematical view of a [`HeaderConfig`].
#[verifier::ext_equal]
pub ghost struct HeaderView {
    pub name: Seq<char>,
    pub width: Option<u32>,
    pub format: Option<Seq<char>>,
}

impl View for HeaderConfig {
    type V = HeaderView;

    open spec fn view(&self) -> HeaderView {
        HeaderView {
            name: self.name@,
            width: self.width,
            format: match self.format {
                Some(f) => Some(f@),
                None => None,
            },
        }
    }
}

/// A write specification for one sheet: the sheet's name, its column headers
/// and its data rows. A data row may be shorter or longer than the header
/// list; format lookup is by positional column index into `headers`.
#[derive(Debug, Clone, PartialEq, Eq)]
pub struct WriteConfig {
    pub sheet_name: String,
    pub headers: Vec<HeaderConfig>,
    pub data: Vec<Vec<String>>,
}

/// Mathematical view of a [`WriteConfig`].
#[verifier::ext_equal]
pub ghost struct ConfigView {
    pub sheet_name: Seq<char>,
    pub headers: Seq<HeaderView>,
    pub data: Seq<Seq<Seq<char>>>,
}

impl View for WriteConfig {
    type V = ConfigView;

    open spec fn view(&self) -> ConfigView {
        ConfigView {
            sheet_name: self.sheet_name@,
            headers: Seq::new(self.headers@.len(), |i: int| self.headers@[i]@),
            data: Seq::new(
                self.data@.len(),
                |i: int| Seq::new(self.data@[i]@.len(), |j: int| self.data@[i]@[j]@),
            ),
        }
    }
}

} // verus!
