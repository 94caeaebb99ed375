//! The binary codec: lossless structural encode/decode between the
//! canonical model (or a write specification) and a byte buffer, in a
//! self-describing binary map/array format with the field order fixed by
//! declaration order.
//!
//! The byte-level container format comes from the `rmp_serde` crate and is
//! a trusted primitive here: each encoding is named by an uninterpreted
//! function of the encoded value's view, the encoder is trusted to produce
//! exactly that byte sequence, and the decoder is trusted to restore the
//! encoded value from it. The structural work — flattening the model into
//! the plain shape the container format carries and rebuilding it — is
//! verified.

use vstd::prelude::*;

use crate::error::ExcelError;
use crate::model::{CellData, CellView, ConfigView, ExcelData, HeaderConfig, HeaderView, RowData,
    RowView, SheetData, SheetView, WorkbookView, WriteConfig};

verus! {

/// The binary codec over the canonical model and write specifications.
pub struct MessagePackConverter;

/// The plain shape one cell crosses the container format in: column name
/// and value.
type RawCell = (String, String);

/// The plain shape of one row: its cells and its 1-based row index.
type RawRow = (Vec<RawCell>, u32);

/// The plain shape of one sheet: name, column names, rows, total rows and
/// total columns, in declaration order.
type RawSheet = (String, Vec<String>, Vec<RawRow>, u32, u32);

/// The plain shape of one header configuration: name, optional width,
/// optional format string.
type RawHeader = (String, Option<u32>, Option<String>);

/// The plain shape of one write specification: sheet name, headers, data
/// rows.
type RawConfig = (String, Vec<RawHeader>, Vec<Vec<String>>);

/// The view a raw cell stands for.
spec fn raw_cell_view(c: RawCell) -> CellView {
    CellView { column_name: c.0@, value: c.1@ }
}

/// The view a raw row stands for.
spec fn raw_row_view(r: RawRow) -> RowView {
    RowView {
        cells: Seq::new(r.0@.len(), |i: int| raw_cell_view(r.0@[i])),
        row_index: r.1 as int,
    }
}

/// The view a raw sheet stands for.
spec fn raw_sheet_view(s: RawSheet) -> SheetView {
    SheetView {
        name: s.0@,
        column_names: Seq::new(s.1@.len(), |i: int| s.1@[i]@),
        rows: Seq::new(s.2@.len(), |i: int| raw_row_view(s.2@[i])),
        total_rows: s.3 as int,
        total_columns: s.4 as int,
    }
}

/// The view a raw sheet list stands for.
spec fn raw_workbook_view(sheets: Seq<RawSheet>) -> WorkbookView {
    WorkbookView { sheets: Seq::new(sheets.len(), |i: int| raw_sheet_view(sheets[i])) }
}

/// The view a raw header configuration stands for.
spec fn raw_header_view(h: RawHeader) -> HeaderView {
    HeaderView {
        name: h.0@,
        width: h.1,
        format: match h.2 {
            Some(f) => Some(f@),
            None => None,
        },
    }
}

/// The view a raw write specification stands for.
spec fn raw_config_view(c: RawConfig) -> ConfigView {
    ConfigView {
        sheet_name: c.0@,
        headers: Seq::new(c.1@.len(), |i: int| raw_header_view(c.1@[i])),
        data: Seq::new(c.2@.len(), |i: int| Seq::new(c.2@[i]@.len(), |j: int| c.2@[i]@[j]@)),
    }
}

/// The views a raw write specification list stands for.
spec fn raw_configs_view(cs: Seq<RawConfig>) -> Seq<ConfigView> {
    Seq::new(cs.len(), |i: int| raw_config_view(cs[i]))
}

/// The string sequences a string list stands for.
pub open spec fn strings_deep(s: Seq<String>) -> Seq<Seq<char>> {
    Seq::new(s.len(), |i: int| s[i]@)
}

/// A string the container format can carry faithfully: its length prefix
/// is 32 bits of byte count, and a character takes at most four bytes, so
/// strings under 2^30 characters surely fit.
pub open spec fn bounded_str(s: Seq<char>) -> bool {
    s.len() < 0x40000000
}

/// A sequence length the container format's 32-bit element count carries
/// faithfully.
pub open spec fn bounded_len(n: nat) -> bool {
    n < 0x100000000
}

/// A cell the container format carries faithfully.
pub open spec fn bounded_cell(c: CellView) -> bool {
    bounded_str(c.column_name) && bounded_str(c.value)
}

/// A row the container format carries faithfully.
pub open spec fn bounded_row(r: RowView) -> bool {
    &&& bounded_len(r.cells.len())
    &&& forall|i: int| 0 <= i < r.cells.len() ==> bounded_cell(#[trigger] r.cells[i])
}

/// A sheet the container format carries faithfully.
pub open spec fn bounded_sheet(s: SheetView) -> bool {
    &&& bounded_str(s.name)
    &&& bounded_len(s.column_names.len())
    &&& forall|i: int| 0 <= i < s.column_names.len() ==> bounded_str(#[trigger] s.column_names[i])
    &&& bounded_len(s.rows.len())
    &&& forall|i: int| 0 <= i < s.rows.len() ==> bounded_row(#[trigger] s.rows[i])
}

/// A workbook the container format carries faithfully: every length stays
/// under the format's 32-bit length prefixes. Longer contents encode with
/// truncated prefixes and are not owed a decode.
pub open spec fn bounded_workbook(w: WorkbookView) -> bool {
    &&& bounded_len(w.sheets.len())
    &&& forall|i: int| 0 <= i < w.sheets.len() ==> bounded_sheet(#[trigger] w.sheets[i])
}

/// A header string list the container format carries faithfully.
pub open spec fn bounded_header_list(h: Seq<Seq<char>>) -> bool {
    &&& bounded_len(h.len())
    &&& forall|i: int| 0 <= i < h.len() ==> bounded_str(#[trigger] h[i])
}

/// A header configuration the container format carries faithfully.
pub open spec fn bounded_header(h: HeaderView) -> bool {
    &&& bounded_str(h.name)
    &&& (h.format matches Some(f) ==> bounded_str(f))
}

/// A write specification the container format carries faithfully.
pub open spec fn bounded_config(c: ConfigView) -> bool {
    &&& bounded_str(c.sheet_name)
    &&& bounded_len(c.headers.len())
    &&& forall|i: int| 0 <= i < c.headers.len() ==> bounded_header(#[trigger] c.headers[i])
    &&& bounded_len(c.data.len())
    &&& forall|i: int| 0 <= i < c.data.len() ==> bounded_len((#[trigger] c.data[i]).len())
    &&& forall|i: int, j: int|
        0 <= i < c.data.len() && 0 <= j < c.data[i].len() ==> bounded_str(#[trigger] c.data[i][j])
}

/// A write specification list the container format carries faithfully.
pub open spec fn bounded_config_list(cs: Seq<ConfigView>) -> bool {
    &&& bounded_len(cs.len())
    &&& forall|i: int| 0 <= i < cs.len() ==> bounded_config(#[trigger] cs[i])
}

/// The byte encoding of a workbook. The container format is deterministic,
/// so the bytes are a function of the workbook's view alone.
pub uninterp spec fn wb_encoding(w: WorkbookView) -> Seq<u8>;

/// The byte encoding of a single sheet.
pub uninterp spec fn sheet_encoding(s: SheetView) -> Seq<u8>;

/// The byte encoding of a header string list.
pub uninterp spec fn headers_encoding(h: Seq<Seq<char>>) -> Seq<u8>;

/// The byte encoding of a single write specification.
pub uninterp spec fn config_encoding(c: ConfigView) -> Seq<u8>;

/// The byte encoding of a write specification list.
pub uninterp spec fn configs_encoding(cs: Seq<ConfigView>) -> Seq<u8>;

/// Relies on `rmp_serde::to_vec`: the encoder is deterministic, so the
/// bytes are exactly the encoding of the given workbook; and it writes
/// through an infallible in-memory writer with no error path for these
/// field shapes, so it succeeds.
#[verifier::external_body]
fn encode_workbook_raw(sheets: &Vec<RawSheet>) -> (r: Result<Vec<u8>, String>)
    ensures
        r is Ok,
        (r matches Ok(b) ==> b@ == wb_encoding(raw_workbook_view(sheets@))),
{
    rmp_serde::to_vec(&(sheets,)).map_err(|e| e.to_string())
}

/// Relies on `rmp_serde::from_slice`: decoding inverts encoding, so bytes
/// that are the encoding of some bounded workbook decode to exactly that
/// workbook. The bound matters: the encoder truncates lengths to its
/// 32-bit prefixes, so only contents under them are encoded faithfully.
/// Other inputs decode to whatever the container format admits, or fail.
#[verifier::external_body]
fn decode_workbook_raw(bytes: &[u8]) -> (r: Result<Vec<RawSheet>, String>)
    ensures
        (exists|w: WorkbookView| bounded_workbook(w) && bytes@ == wb_encoding(w)) ==> r is Ok,
        (r matches Ok(v) ==> forall|w: WorkbookView|
            bounded_workbook(w) && bytes@ == wb_encoding(w) ==> raw_workbook_view(v@) == w),
{
    rmp_serde::from_slice::<(Vec<RawSheet>,)>(bytes).map(|t| t.0).map_err(|e| e.to_string())
}

/// Relies on `rmp_serde::to_vec`, as [`encode_workbook_raw`] does, for a
/// single sheet.
#[verifier::external_body]
fn encode_sheet_raw(sheet: &RawSheet) -> (r: Result<Vec<u8>, String>)
    ensures
        r is Ok,
        (r matches Ok(b) ==> b@ == sheet_encoding(raw_sheet_view(*sheet))),
{
    rmp_serde::to_vec(sheet).map_err(|e| e.to_string())
}

/// Relies on `rmp_serde::from_slice`, as [`decode_workbook_raw`] does, for
/// a single sheet.
#[verifier::external_body]
fn decode_sheet_raw(bytes: &[u8]) -> (r: Result<RawSheet, String>)
    ensures
        (exists|s: SheetView| bounded_sheet(s) && bytes@ == sheet_encoding(s)) ==> r is Ok,
        (r matches Ok(v) ==> forall|s: SheetView|
            bounded_sheet(s) && bytes@ == sheet_encoding(s) ==> raw_sheet_view(v) == s),
{
    rmp_serde::from_slice::<RawSheet>(bytes).map_err(|e| e.to_string())
}

/// Relies on `rmp_serde::to_vec`, as [`encode_workbook_raw`] does, for a
/// header string list.
#[verifier::external_body]
fn encode_headers_raw(headers: &[String]) -> (r: Result<Vec<u8>, String>)
    ensures
        r is Ok,
        (r matches Ok(b) ==> b@ == headers_encoding(strings_deep(headers@))),
{
    rmp_serde::to_vec(headers).map_err(|e| e.to_string())
}

/// Relies on `rmp_serde::from_slice`, as [`decode_workbook_raw`] does, for
/// a header string list.
#[verifier::external_body]
fn decode_headers_raw(bytes: &[u8]) -> (r: Result<Vec<String>, String>)
    ensures
        (exists|h: Seq<Seq<char>>| bounded_header_list(h) && bytes@ == headers_encoding(h))
            ==> r is Ok,
        (r matches Ok(v) ==> forall|h: Seq<Seq<char>>|
            bounded_header_list(h) && bytes@ == headers_encoding(h) ==> strings_deep(v@) == h),
{
    rmp_serde::from_slice::<Vec<String>>(bytes).map_err(|e| e.to_string())
}

/// Relies on `rmp_serde::to_vec`, as [`encode_workbook_raw`] does, for a
/// single write specification.
#[verifier::external_body]
fn encode_config_raw(config: &RawConfig) -> (r: Result<Vec<u8>, String>)
    ensures
        r is Ok,
        (r matches Ok(b) ==> b@ == config_encoding(raw_config_view(*config))),
{
    rmp_serde::to_vec(config).map_err(|e| e.to_string())
}

/// Relies on `rmp_serde::from_slice`, as [`decode_workbook_raw`] does, for
/// a single write specification.
#[verifier::external_body]
fn decode_config_raw(bytes: &[u8]) -> (r: Result<RawConfig, String>)
    ensures
        (exists|c: ConfigView| bounded_config(c) && bytes@ == config_encoding(c)) ==> r is Ok,
        (r matches Ok(v) ==> forall|c: ConfigView|
            bounded_config(c) && bytes@ == config_encoding(c) ==> raw_config_view(v) == c),
{
    rmp_serde::from_slice::<RawConfig>(bytes).map_err(|e| e.to_string())
}

/// Relies on `rmp_serde::to_vec`, as [`encode_workbook_raw`] does, for a
/// write specification list.
#[verifier::external_body]
fn encode_configs_raw(configs: &Vec<RawConfig>) -> (r: Result<Vec<u8>, String>)
    ensures
        r is Ok,
        (r matches Ok(b) ==> b@ == configs_encoding(raw_configs_view(configs@))),
{
    rmp_serde::to_vec(configs).map_err(|e| e.to_string())
}

/// Relies on `rmp_serde::from_slice`, as [`decode_workbook_raw`] does, for
/// a write specification list.
#[verifier::external_body]
fn decode_configs_raw(bytes: &[u8]) -> (r: Result<Vec<RawConfig>, String>)
    ensures
        (exists|cs: Seq<ConfigView>| bounded_config_list(cs) && bytes@ == configs_encoding(cs))
            ==> r is Ok,
        (r matches Ok(v) ==> forall|cs: Seq<ConfigView>|
            bounded_config_list(cs) && bytes@ == configs_encoding(cs) ==> raw_configs_view(v@)
                == cs),
{
    rmp_serde::from_slice::<Vec<RawConfig>>(bytes).map_err(|e| e.to_string())
}

/// Copies a raw cell list.
fn clone_raw_cells(v: &Vec<RawCell>) -> (r: Vec<RawCell>)
    ensures
        r@.len() == v@.len(),
        forall|k: int| 0 <= k < v@.len() ==> raw_cell_view(#[trigger] r@[k]) == raw_cell_view(
            v@[k],
        ),
{
    let mut r: Vec<RawCell> = Vec::new();
    let mut i: usize = 0;
    while i < v.len()
        invariant
            i <= v@.len(),
            r@.len() == i,
            forall|k: int| 0 <= k < i ==> raw_cell_view(#[trigger] r@[k]) == raw_cell_view(v@[k]),
        decreases v@.len() - i,
    {
        r.push((v[i].0.clone(), v[i].1.clone()));
        i = i + 1;
    }
    r
}

/// Flattens one row into its raw shape.
fn row_to_raw(row: &RowData) -> (r: RawRow)
    ensures
        raw_row_view(r) == row@,
{
    let mut cells: Vec<RawCell> = Vec::new();
    let mut i: usize = 0;
    while i < row.cells.len()
        invariant
            i <= row.cells@.len(),
            cells@.len() == i,
            forall|k: int| 0 <= k < i ==> raw_cell_view(#[trigger] cells@[k]) == row.cells@[k]@,
        decreases row.cells@.len() - i,
    {
        cells.push((row.cells[i].column_name.clone(), row.cells[i].value.clone()));
        i = i + 1;
    }
    let r = (cells, row.row_index);
    assert(raw_row_view(r) =~= row@);
    r
}

/// Rebuilds one row from its raw shape.
fn row_from_raw(raw: RawRow) -> (row: RowData)
    ensures
        row@ == raw_row_view(raw),
{
    let ghost rv = raw;
    let raw_cells = raw.0;
    let mut cells: Vec<CellData> = Vec::new();
    let mut i: usize = 0;
    while i < raw_cells.len()
        invariant
            i <= raw_cells@.len(),
            cells@.len() == i,
            forall|k: int| 0 <= k < i ==> #[trigger] cells@[k]@ == raw_cell_view(raw_cells@[k]),
        decreases raw_cells@.len() - i,
    {
        cells.push(CellData {
            column_name: raw_cells[i].0.clone(),
            value: raw_cells[i].1.clone(),
        });
        i = i + 1;
    }
    let row = RowData { cells, row_index: raw.1 };
    assert(row@ =~= raw_row_view(rv));
    row
}

/// Flattens one sheet into its raw shape.
fn sheet_to_raw(sheet: &SheetData) -> (r: RawSheet)
    ensures
        raw_sheet_view(r) == sheet@,
{
    let mut columns: Vec<String> = Vec::new();
    let mut i: usize = 0;
    while i < sheet.column_names.len()
        invariant
            i <= sheet.column_names@.len(),
            columns@.len() == i,
            forall|k: int| 0 <= k < i ==> #[trigger] columns@[k]@ == sheet.column_names@[k]@,
        decreases sheet.column_names@.len() - i,
    {
        columns.push(sheet.column_names[i].clone());
        i = i + 1;
    }
    let mut rows: Vec<RawRow> = Vec::new();
    let mut j: usize = 0;
    while j < sheet.rows.len()
        invariant
            j <= sheet.rows@.len(),
            rows@.len() == j,
            forall|k: int| 0 <= k < j ==> raw_row_view(#[trigger] rows@[k]) == sheet.rows@[k]@,
        decreases sheet.rows@.len() - j,
    {
        rows.push(row_to_raw(&sheet.rows[j]));
        j = j + 1;
    }
    let r = (sheet.name.clone(), columns, rows, sheet.total_rows, sheet.total_columns);
    assert(raw_sheet_view(r) =~= sheet@);
    r
}

/// Rebuilds one sheet from its raw shape.
fn sheet_from_raw(raw: RawSheet) -> (sheet: SheetData)
    ensures
        sheet@ == raw_sheet_view(raw),
{
    let ghost rv = raw;
    let (name, columns, raw_rows, total_rows, total_columns): RawSheet = raw;
    let mut rows: Vec<RowData> = Vec::new();
    let mut i: usize = 0;
    while i < raw_rows.len()
        invariant
            i <= raw_rows@.len(),
            rows@.len() == i,
            forall|k: int| 0 <= k < i ==> #[trigger] rows@[k]@ == raw_row_view(raw_rows@[k]),
        decreases raw_rows@.len() - i,
    {
        let raw_row = (clone_raw_cells(&raw_rows[i].0), raw_rows[i].1);
        assert(raw_row_view(raw_row) =~~= raw_row_view(raw_rows@[i as int]));
        rows.push(row_from_raw(raw_row));
        i = i + 1;
    }
    let sheet = SheetData { name, column_names: columns, rows, total_rows, total_columns };
    assert(sheet@ =~= raw_sheet_view(rv));
    sheet
}

/// Flattens one write specification into its raw shape.
fn config_to_raw(config: &WriteConfig) -> (r: RawConfig)
    ensures
        raw_config_view(r) == config@,
{
    let mut headers: Vec<RawHeader> = Vec::new();
    let mut i: usize = 0;
    while i < config.headers.len()
        invariant
            i <= config.headers@.len(),
            headers@.len() == i,
            forall|k: int| 0 <= k < i ==> raw_header_view(#[trigger] headers@[k])
                == config.headers@[k]@,
        decreases config.headers@.len() - i,
    {
        let h = &config.headers[i];
        let fmt = match &h.format {
            Some(f) => Some(f.clone()),
            None => None,
        };
        headers.push((h.name.clone(), h.width, fmt));
        i = i + 1;
    }
    let mut data: Vec<Vec<String>> = Vec::new();
    let mut j: usize = 0;
    while j < config.data.len()
        invariant
            j <= config.data@.len(),
            data@.len() == j,
            forall|k: int| 0 <= k < j ==> #[trigger] data@[k]@ =~= config.data@[k]@,
        decreases config.data@.len() - j,
    {
        data.push(crate::reader::clone_string_vec(&config.data[j]));
        j = j + 1;
    }
    let r = (config.sheet_name.clone(), headers, data);
    assert(raw_config_view(r) =~= config@);
    r
}

/// Rebuilds one write specification from its raw shape.
fn config_from_raw(raw: RawConfig) -> (config: WriteConfig)
    ensures
        config@ == raw_config_view(raw),
{
    let ghost rv = raw;
    let (sheet_name, raw_headers, data): RawConfig = raw;
    let mut headers: Vec<HeaderConfig> = Vec::new();
    let mut i: usize = 0;
    while i < raw_headers.len()
        invariant
            i <= raw_headers@.len(),
            headers@.len() == i,
            forall|k: int| 0 <= k < i ==> #[trigger] headers@[k]@ == raw_header_view(
                raw_headers@[k],
            ),
        decreases raw_headers@.len() - i,
    {
        let h = &raw_headers[i];
        let fmt = match &h.2 {
            Some(f) => Some(f.clone()),
            None => None,
        };
        headers.push(HeaderConfig { name: h.0.clone(), width: h.1, format: fmt });
        i = i + 1;
    }
    let config = WriteConfig { sheet_name, headers, data };
    assert(config@ =~= raw_config_view(rv));
    config
}

impl MessagePackConverter {
    /// Encodes a whole workbook; the bytes are exactly the workbook's
    /// encoding.
    pub fn to_bytes(excel_data: &ExcelData) -> (r: Result<Vec<u8>, ExcelError>)
        ensures
            r is Ok,
            (r matches Ok(b) ==> b@ == wb_encoding(excel_data@)),
    {
        let mut sheets: Vec<RawSheet> = Vec::new();
        let mut i: usize = 0;
        while i < excel_data.sheets.len()
            invariant
                i <= excel_data.sheets@.len(),
                sheets@.len() == i,
                forall|k: int| 0 <= k < i ==> raw_sheet_view(#[trigger] sheets@[k])
                    == excel_data.sheets@[k]@,
            decreases excel_data.sheets@.len() - i,
        {
            sheets.push(sheet_to_raw(&excel_data.sheets[i]));
            i = i + 1;
        }
        assert(raw_workbook_view(sheets@) =~= excel_data@);
        match encode_workbook_raw(&sheets) {
            Ok(b) => Ok(b),
            Err(e) => Err(ExcelError::Encode(e)),
        }
    }

    /// Decodes a whole workbook: bytes that are the encoding of some
    /// bounded workbook yield exactly that workbook; anything else yields
    /// whatever structure the container format admits, or a decode error.
    pub fn from_bytes(bytes: &[u8]) -> (r: Result<ExcelData, ExcelError>)
        ensures
            forall|w: WorkbookView|
                bounded_workbook(w) && bytes@ == wb_encoding(w) ==> (r matches Ok(d) && d@ == w),
            (r matches Err(e) ==> e is Decode),
    {
        let raw = match decode_workbook_raw(bytes) {
            Ok(v) => v,
            Err(e) => {
                return Err(ExcelError::Decode(e));
            },
        };
        let mut sheets: Vec<SheetData> = Vec::new();
        let mut i: usize = 0;
        while i < raw.len()
            invariant
                i <= raw@.len(),
                sheets@.len() == i,
                forall|k: int| 0 <= k < i ==> #[trigger] sheets@[k]@ == raw_sheet_view(raw@[k]),
            decreases raw@.len() - i,
        {
            let s = (
                raw[i].0.clone(),
                crate::reader::clone_string_vec(&raw[i].1),
                Self::clone_raw_rows(&raw[i].2),
                raw[i].3,
                raw[i].4,
            );
            assert(raw_sheet_view(s) =~= raw_sheet_view(raw@[i as int]));
            sheets.push(sheet_from_raw(s));
            i = i + 1;
        }
        let d = ExcelData { sheets };
        assert(d@ =~= raw_workbook_view(raw@));
        Ok(d)
    }

    /// Copies a raw row list.
    fn clone_raw_rows(rows: &Vec<RawRow>) -> (r: Vec<RawRow>)
        ensures
            forall|k: int| 0 <= k < rows@.len() ==> raw_row_view(#[trigger] r@[k])
                == raw_row_view(rows@[k]),
            r@.len() == rows@.len(),
    {
        let mut out: Vec<RawRow> = Vec::new();
        let mut i: usize = 0;
        while i < rows.len()
            invariant
                i <= rows@.len(),
                out@.len() == i,
                forall|k: int| 0 <= k < i ==> raw_row_view(#[trigger] out@[k])
                    == raw_row_view(rows@[k]),
            decreases rows@.len() - i,
        {
            let c = (clone_raw_cells(&rows[i].0), rows[i].1);
            assert(raw_row_view(c) =~~= raw_row_view(rows@[i as int]));
            out.push(c);
            i = i + 1;
        }
        out
    }

    /// Encodes a single sheet.
    pub fn sheet_to_bytes(sheet: &SheetData) -> (r: Result<Vec<u8>, ExcelError>)
        ensures
            r is Ok,
            (r matches Ok(b) ==> b@ == sheet_encoding(sheet@)),
    {
        let raw = sheet_to_raw(sheet);
        match encode_sheet_raw(&raw) {
            Ok(b) => Ok(b),
            Err(e) => Err(ExcelError::Encode(e)),
        }
    }

    /// Decodes a single sheet; the encoding of a bounded sheet yields
    /// exactly that sheet.
    pub fn sheet_from_bytes(bytes: &[u8]) -> (r: Result<SheetData, ExcelError>)
        ensures
            forall|s: SheetView|
                bounded_sheet(s) && bytes@ == sheet_encoding(s) ==> (r matches Ok(d) && d@ == s),
            (r matches Err(e) ==> e is Decode),
    {
        match decode_sheet_raw(bytes) {
            Ok(raw) => Ok(sheet_from_raw(raw)),
            Err(e) => Err(ExcelError::Decode(e)),
        }
    }

    /// Encodes a header string list.
    pub fn headers_to_bytes(headers: &[String]) -> (r: Result<Vec<u8>, ExcelError>)
        ensures
            r is Ok,
            (r matches Ok(b) ==> b@ == headers_encoding(strings_deep(headers@))),
    {
        match encode_headers_raw(headers) {
            Ok(b) => Ok(b),
            Err(e) => Err(ExcelError::Encode(e)),
        }
    }

    /// Decodes a header string list; the encoding of a bounded header list
    /// yields exactly that list.
    pub fn headers_from_bytes(bytes: &[u8]) -> (r: Result<Vec<String>, ExcelError>)
        ensures
            forall|h: Seq<Seq<char>>|
                bounded_header_list(h) && bytes@ == headers_encoding(h) ==> (r matches Ok(v)
                    && strings_deep(v@) == h),
            (r matches Err(e) ==> e is Decode),
    {
        match decode_headers_raw(bytes) {
            Ok(v) => Ok(v),
            Err(e) => Err(ExcelError::Decode(e)),
        }
    }

    /// Encodes a single write specification.
    pub fn write_config_to_bytes(config: &WriteConfig) -> (r: Result<Vec<u8>, ExcelError>)
        ensures
            r is Ok,
            (r matches Ok(b) ==> b@ == config_encoding(config@)),
    {
        let raw = config_to_raw(config);
        match encode_config_raw(&raw) {
            Ok(b) => Ok(b),
            Err(e) => Err(ExcelError::Encode(e)),
        }
    }

    /// Decodes a single write specification; the encoding of a bounded
    /// specification yields exactly that specification.
    pub fn write_config_from_bytes(bytes: &[u8]) -> (r: Result<WriteConfig, ExcelError>)
        ensures
            forall|c: ConfigView|
                bounded_config(c) && bytes@ == config_encoding(c) ==> (r matches Ok(d) && d@ == c),
            (r matches Err(e) ==> e is Decode),
    {
        match decode_config_raw(bytes) {
            Ok(raw) => Ok(config_from_raw(raw)),
            Err(e) => Err(ExcelError::Decode(e)),
        }
    }

    /// Encodes a write specification list.
    pub fn write_configs_to_bytes(configs: &Vec<WriteConfig>) -> (r: Result<Vec<u8>, ExcelError>)
        ensures
            r is Ok,
            (r matches Ok(b) ==> b@ == configs_encoding(
                Seq::new(configs@.len(), |i: int| configs@[i]@),
            )),
    {
        let mut raws: Vec<RawConfig> = Vec::new();
        let mut i: usize = 0;
        while i < configs.len()
            invariant
                i <= configs@.len(),
                raws@.len() == i,
                forall|k: int| 0 <= k < i ==> raw_config_view(#[trigger] raws@[k])
                    == configs@[k]@,
            decreases configs@.len() - i,
        {
            raws.push(config_to_raw(&configs[i]));
            i = i + 1;
        }
        assert(raw_configs_view(raws@) =~= Seq::new(configs@.len(), |i: int| configs@[i]@));
        match encode_configs_raw(&raws) {
            Ok(b) => Ok(b),
            Err(e) => Err(ExcelError::Encode(e)),
        }
    }

    /// Decodes a write specification list; the encoding of a bounded list
    /// yields exactly that list.
    pub fn write_configs_from_bytes(bytes: &[u8]) -> (r: Result<Vec<WriteConfig>, ExcelError>)
        ensures
            forall|cs: Seq<ConfigView>|
                bounded_config_list(cs) && bytes@ == configs_encoding(cs) ==> (r matches Ok(v)
                    && Seq::new(v@.len(), |i: int| v@[i]@) == cs),
            (r matches Err(e) ==> e is Decode),
    {
        let raws = match decode_configs_raw(bytes) {
            Ok(v) => v,
            Err(e) => {
                return Err(ExcelError::Decode(e));
            },
        };
        let mut configs: Vec<WriteConfig> = Vec::new();
        let mut i: usize = 0;
        while i < raws.len()
            invariant
                i <= raws@.len(),
                configs@.len() == i,
                forall|k: int| 0 <= k < i ==> #[trigger] configs@[k]@ == raw_config_view(raws@[k]),
            decreases raws@.len() - i,
        {
            let raw = &raws[i];
            let mut hs: Vec<RawHeader> = Vec::new();
            let mut j: usize = 0;
            while j < raw.1.len()
                invariant
                    j <= raw.1@.len(),
                    hs@.len() == j,
                    forall|k: int| 0 <= k < j ==> raw_header_view(#[trigger] hs@[k])
                        == raw_header_view(raw.1@[k]),
                decreases raw.1@.len() - j,
            {
                let h = &raw.1[j];
                let fmt = match &h.2 {
                    Some(f) => Some(f.clone()),
                    None => None,
                };
                hs.push((h.0.clone(), h.1, fmt));
                j = j + 1;
            }
            let mut data: Vec<Vec<String>> = Vec::new();
            let mut k: usize = 0;
            while k < raw.2.len()
                invariant
                    k <= raw.2@.len(),
                    data@.len() == k,
                    forall|m: int| 0 <= m < k ==> #[trigger] data@[m]@ =~= raw.2@[m]@,
                decreases raw.2@.len() - k,
            {
                data.push(crate::reader::clone_string_vec(&raw.2[k]));
                k = k + 1;
            }
            let copy = (raw.0.clone(), hs, data);
            assert(raw_config_view(copy) =~= raw_config_view(raws@[i as int]));
            configs.push(config_from_raw(copy));
            i = i + 1;
        }
        assert(Seq::new(configs@.len(), |i: int| configs@[i]@) =~= raw_configs_view(raws@));
        Ok(configs)
    }
}

} // verus!
