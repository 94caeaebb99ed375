//! The write pipeline: turning write specifications into an in-memory
//! workbook, with header styling and per-column number formatting.
//!
//! The workbook and worksheet objects come from the `rust_xlsxwriter` crate
//! and are opaque here; what they hold is tracked through the uninterpreted
//! content functions below, and every call into the crate goes through a
//! trusted wrapper whose contract states, over those functions, what the
//! call does. Saving the finished workbook to disk is file I/O and stays
//! outside this crate.

use vstd::prelude::*;

use rust_xlsxwriter::{Format, FormatAlign, Workbook, Worksheet};

use crate::error::ExcelError;
use crate::model::{ConfigView, HeaderView, WriteConfig};

verus! {

/// A write handle for one workbook file: it only records the target path;
/// saving the built workbook to disk happens in the unverified file layer.
pub struct ExcelWriter {
    file_path: String,
}

impl ExcelWriter {
    /// The target path this writer records, as the contracts speak of it.
    pub closed spec fn spec_path(&self) -> Seq<char> {
        self.file_path@
    }

    /// Makes a writer that will target the workbook file at `file_path`.
    pub fn new(file_path: String) -> (w: ExcelWriter)
        ensures
            w.spec_path() == file_path@,
    {
        ExcelWriter { file_path }
    }

    /// The path this writer was made for.
    pub fn path(&self) -> (r: &String)
        ensures
            r@ == self.spec_path(),
    {
        &self.file_path
    }
}

/// The background color of the fixed header style, as an RGB value.
pub const HEADER_BACKGROUND_RGB: u32 = 0xD3D3D3;

#[verifier::external_type_specification]
#[verifier::external_body]
pub struct ExWorksheet(Worksheet);

#[verifier::external_type_specification]
#[verifier::external_body]
pub struct ExWorkbook(Workbook);

/// One cell write accepted by a worksheet: row, column, the text written,
/// the number-format string applied (if any), and whether the cell was
/// written with the fixed header style (bold, centered, gray background).
pub type CellWrite = (int, int, Seq<char>, Option<Seq<char>>, bool);

/// The cell writes a worksheet has accepted, in call order. A write of an
/// empty string without a format is ignored by the worksheet and does not
/// appear here; a formatted write of an empty string stores a formatted
/// blank cell and does.
pub uninterp spec fn ws_writes(ws: Worksheet) -> Seq<CellWrite>;

/// The column-width settings a worksheet has accepted, in call order, as
/// (column, width in character units) pairs; width 0 hides the column.
pub uninterp spec fn ws_widths(ws: Worksheet) -> Seq<(int, int)>;

/// The name a worksheet currently carries.
pub uninterp spec fn ws_title(ws: Worksheet) -> Seq<char>;

/// The sheets a workbook holds, in order: each sheet's name, its accepted
/// cell writes, and its accepted column-width settings.
pub uninterp spec fn wb_model(wb: Workbook) -> Seq<(Seq<char>, Seq<CellWrite>, Seq<(int, int)>)>;

/// A character the workbook library refuses inside a sheet name.
pub open spec fn spec_invalid_name_char(c: char) -> bool {
    c == '*' || c == '?' || c == ':' || c == '[' || c == ']' || c == '\\' || c == '/'
}

/// The sheet-name rule the workbook library enforces: non-empty, at most 31
/// characters, no refused character, and no apostrophe at either end.
pub open spec fn spec_valid_sheet_name(name: Seq<char>) -> bool {
    &&& name.len() != 0
    &&& name.len() <= 31
    &&& forall|i: int| 0 <= i < name.len() ==> !spec_invalid_name_char(#[trigger] name[i])
    &&& name[0] != '\''
    &&& name[name.len() - 1] != '\''
}

/// Relies on `rust_xlsxwriter::Worksheet::new`: a fresh worksheet holds no
/// cells and no column settings.
#[verifier::external_body]
fn ws_new() -> (ws: Worksheet)
    ensures
        ws_writes(ws) == Seq::<CellWrite>::empty(),
        ws_widths(ws) == Seq::<(int, int)>::empty(),
{
    Worksheet::new()
}

/// Relies on `rust_xlsxwriter::Worksheet::set_name`: it validates the name
/// (non-empty, at most 31 characters, none of `* ? : [ ] \ /`, no leading
/// or trailing apostrophe) and on success stores it, leaving the cells and
/// column settings unchanged.
#[verifier::external_body]
fn ws_set_name(ws: &mut Worksheet, name: &String) -> (r: Result<(), String>)
    ensures
        r is Ok <==> spec_valid_sheet_name(name@),
        r is Ok ==> ws_title(*final(ws)) == name@,
        ws_writes(*final(ws)) == ws_writes(*old(ws)),
        ws_widths(*final(ws)) == ws_widths(*old(ws)),
{
    match ws.set_name(name.as_str()) {
        Ok(_) => Ok(()),
        Err(e) => Err(e.to_string()),
    }
}

/// Relies on `rust_xlsxwriter::Worksheet::write_string`: it stores the cell
/// on success; it succeeds exactly when the string is empty (such a write
/// is ignored) or the cell lies inside the grid (row below 1048576, column
/// below 16384) and the string has at most 32767 characters.
#[verifier::external_body]
fn ws_write_string(ws: &mut Worksheet, row: u32, col: u16, val: &String) -> (r: Result<
    (),
    String,
>)
    ensures
        r is Ok <==> (val@.len() == 0 || (row < 1048576 && col < 16384 && val@.len() <= 32767)),
        r is Ok ==> ws_writes(*final(ws)) == (if val@.len() == 0 {
            ws_writes(*old(ws))
        } else {
            ws_writes(*old(ws)).push((row as int, col as int, val@, None::<Seq<char>>, false))
        }),
        r is Err ==> ws_writes(*final(ws)) == ws_writes(*old(ws)),
        ws_widths(*final(ws)) == ws_widths(*old(ws)),
        ws_title(*final(ws)) == ws_title(*old(ws)),
{
    match ws.write_string(row, col, val.as_str()) {
        Ok(_) => Ok(()),
        Err(e) => Err(e.to_string()),
    }
}

/// Relies on `rust_xlsxwriter::Worksheet::write_string_with_format` and
/// `rust_xlsxwriter::Format::set_num_format`: the cell is stored with the
/// given number format (an empty string becomes a formatted blank cell); it
/// succeeds exactly when the cell lies inside the grid and the string has
/// at most 32767 characters.
#[verifier::external_body]
fn ws_write_string_with_num_format(
    ws: &mut Worksheet,
    row: u32,
    col: u16,
    val: &String,
    num_format: &String,
) -> (r: Result<(), String>)
    ensures
        r is Ok <==> (row < 1048576 && col < 16384 && val@.len() <= 32767),
        r is Ok ==> ws_writes(*final(ws)) == ws_writes(*old(ws)).push(
            (row as int, col as int, val@, Some(num_format@), false),
        ),
        r is Err ==> ws_writes(*final(ws)) == ws_writes(*old(ws)),
        ws_widths(*final(ws)) == ws_widths(*old(ws)),
        ws_title(*final(ws)) == ws_title(*old(ws)),
{
    let format = Format::new().set_num_format(num_format.as_str());
    match ws.write_string_with_format(row, col, val.as_str(), &format) {
        Ok(_) => Ok(()),
        Err(e) => Err(e.to_string()),
    }
}

/// Relies on `rust_xlsxwriter::Worksheet::write_string_with_format` and the
/// `rust_xlsxwriter::Format` builders `set_bold`, `set_align` (center) and
/// `set_background_color`: the cell is stored with the fixed header style
/// (bold, centered, background `bg_rgb`); it succeeds exactly when the cell
/// lies inside the grid and the string has at most 32767 characters.
#[verifier::external_body]
fn ws_write_header_cell(ws: &mut Worksheet, row: u32, col: u16, name: &String, bg_rgb: u32) -> (r:
    Result<(), String>)
    ensures
        r is Ok <==> (row < 1048576 && col < 16384 && name@.len() <= 32767),
        r is Ok ==> ws_writes(*final(ws)) == ws_writes(*old(ws)).push(
            (row as int, col as int, name@, None::<Seq<char>>, true),
        ),
        r is Err ==> ws_writes(*final(ws)) == ws_writes(*old(ws)),
        ws_widths(*final(ws)) == ws_widths(*old(ws)),
        ws_title(*final(ws)) == ws_title(*old(ws)),
{
    let format = Format::new().set_bold().set_align(FormatAlign::Center).set_background_color(
        bg_rgb,
    );
    match ws.write_string_with_format(row, col, name.as_str(), &format) {
        Ok(_) => Ok(()),
        Err(e) => Err(e.to_string()),
    }
}

/// Relies on `rust_xlsxwriter::Worksheet::set_column_width`: the width is
/// stored for the column on success, and success is owed whenever the
/// column lies inside the grid and the width is at least 1 (a width of 0
/// hides the column instead).
#[verifier::external_body]
fn ws_set_column_width(ws: &mut Worksheet, col: u16, width: u32) -> (r: Result<(), String>)
    ensures
        (col < 16384 && width >= 1) ==> r is Ok,
        r is Ok ==> ws_widths(*final(ws)) == ws_widths(*old(ws)).push((col as int, width as int)),
        r is Err ==> ws_widths(*final(ws)) == ws_widths(*old(ws)),
        ws_writes(*final(ws)) == ws_writes(*old(ws)),
        ws_title(*final(ws)) == ws_title(*old(ws)),
{
    match ws.set_column_width(col, width) {
        Ok(_) => Ok(()),
        Err(e) => Err(e.to_string()),
    }
}

/// Relies on `rust_xlsxwriter::Workbook::new`: a fresh workbook holds no
/// sheets.
#[verifier::external_body]
fn wb_new() -> (wb: Workbook)
    ensures
        wb_model(wb) == Seq::<(Seq<char>, Seq<CellWrite>, Seq<(int, int)>)>::empty(),
{
    Workbook::new()
}

/// Relies on `rust_xlsxwriter::Workbook::push_worksheet`: the worksheet is
/// appended to the workbook's sheets. A worksheet with an empty name would
/// be renamed on push, so one is not handed over.
#[verifier::external_body]
fn wb_push_worksheet(wb: &mut Workbook, ws: Worksheet)
    requires
        ws_title(ws).len() != 0,
    ensures
        wb_model(*final(wb)) == wb_model(*old(wb)).push((ws_title(ws), ws_writes(ws), ws_widths(ws))),
{
    wb.push_worksheet(ws)
}

/// The number-format string handed to the workbook library for a requested
/// format: the two date tokens are rewritten to the library's spelling,
/// every other string (recognized or not) passes through verbatim.
pub open spec fn spec_resolve_format(f: Seq<char>) -> Seq<char> {
    if f == "yyyy-MM-dd"@ {
        "yyyy-mm-dd"@
    } else if f == "yyyy-MM-dd HH:mm:ss"@ {
        "yyyy-mm-dd hh:mm:ss"@
    } else {
        f
    }
}

/// Resolves a requested format string to the number-format string actually
/// applied: a closed table of recognized tokens, with unknown strings
/// passed through verbatim as custom patterns.
pub fn resolve_format(f: &String) -> (r: String)
    ensures
        r@ == spec_resolve_format(f@),
{
    proof {
        reveal_strlit("@");
        reveal_strlit("#,##0");
        reveal_strlit("#,##0.00");
        reveal_strlit("yyyy-MM-dd");
        reveal_strlit("yyyy-mm-dd");
        reveal_strlit("yyyy-MM-dd HH:mm:ss");
        reveal_strlit("yyyy-mm-dd hh:mm:ss");
    }
    if *f == "@".to_owned() {
        f.clone()
    } else if *f == "#,##0".to_owned() {
        f.clone()
    } else if *f == "#,##0.00".to_owned() {
        f.clone()
    } else if *f == "yyyy-MM-dd".to_owned() {
        "yyyy-mm-dd".to_owned()
    } else if *f == "yyyy-MM-dd HH:mm:ss".to_owned() {
        "yyyy-mm-dd hh:mm:ss".to_owned()
    } else {
        f.clone()
    }
}

/// The header-row writes of one sheet: each header name at row 0 in its
/// column, with the fixed header style.
pub open spec fn spec_header_events(headers: Seq<HeaderView>) -> Seq<CellWrite> {
    Seq::new(headers.len(), |c: int| (0int, c, headers[c].name, None::<Seq<char>>, true))
}

/// The column-width settings requested by the first `n` headers, in order.
pub open spec fn spec_width_events_upto(headers: Seq<HeaderView>, n: int) -> Seq<(int, int)>
    decreases n,
{
    if n <= 0 {
        Seq::empty()
    } else {
        spec_width_events_upto(headers, n - 1) + (match headers[n - 1].width {
            Some(w) => seq![(n - 1, w as int)],
            None => Seq::<(int, int)>::empty(),
        })
    }
}

/// The column-width settings requested by a header list.
pub open spec fn spec_width_events(headers: Seq<HeaderView>) -> Seq<(int, int)> {
    spec_width_events_upto(headers, headers.len() as int)
}

/// The number format applied to data cells of column `c`: the resolved form
/// of the column's requested format, or none when the column has no header
/// entry or no requested format.
pub open spec fn spec_column_format(headers: Seq<HeaderView>, c: int) -> Option<Seq<char>> {
    if 0 <= c < headers.len() {
        match headers[c].format {
            Some(f) => Some(spec_resolve_format(f)),
            None => None,
        }
    } else {
        None
    }
}

/// The writes one data cell causes: data row `r` (0-based) lands in grid
/// row `r + 1`; an empty value without a column format causes none.
pub open spec fn spec_cell_events(
    headers: Seq<HeaderView>,
    row: Seq<Seq<char>>,
    r: int,
    c: int,
) -> Seq<CellWrite> {
    match spec_column_format(headers, c) {
        Some(f) => seq![(r + 1, c, row[c], Some(f), false)],
        None => if row[c].len() == 0 {
            Seq::empty()
        } else {
            seq![(r + 1, c, row[c], None::<Seq<char>>, false)]
        },
    }
}

/// The writes the first `n` cells of data row `r` cause, in column order.
pub open spec fn spec_row_events_upto(
    headers: Seq<HeaderView>,
    row: Seq<Seq<char>>,
    r: int,
    n: int,
) -> Seq<CellWrite>
    decreases n,
{
    if n <= 0 {
        Seq::empty()
    } else {
        spec_row_events_upto(headers, row, r, n - 1) + spec_cell_events(headers, row, r, n - 1)
    }
}

/// The writes the first `n` data rows cause, row by row.
pub open spec fn spec_rows_events_upto(
    headers: Seq<HeaderView>,
    data: Seq<Seq<Seq<char>>>,
    n: int,
) -> Seq<CellWrite>
    decreases n,
{
    if n <= 0 {
        Seq::empty()
    } else {
        spec_rows_events_upto(headers, data, n - 1) + spec_row_events_upto(
            headers,
            data[n - 1],
            n - 1,
            data[n - 1].len() as int,
        )
    }
}

/// Every write one sheet's specification causes: the styled header row,
/// then the data rows in order.
pub open spec fn spec_sheet_events(cfg: ConfigView) -> Seq<CellWrite> {
    spec_header_events(cfg.headers) + spec_rows_events_upto(cfg.headers, cfg.data, cfg.data.len() as int)
}

/// The inputs on which building a sheet is owed to succeed: a valid sheet
/// name, and every header and cell within the grid and size limits the
/// workbook library enforces.
pub open spec fn spec_sheet_writable(cfg: ConfigView) -> bool {
    &&& spec_valid_sheet_name(cfg.sheet_name)
    &&& cfg.headers.len() <= 16384
    &&& forall|c: int| 0 <= c < cfg.headers.len() ==> (#[trigger] cfg.headers[c]).name.len()
        <= 32767
    &&& forall|c: int| 0 <= c < cfg.headers.len() ==> ((#[trigger] cfg.headers[c]).width matches
        Some(w) ==> w >= 1)
    &&& cfg.data.len() + 1 <= 1048576
    &&& forall|r: int| 0 <= r < cfg.data.len() ==> (#[trigger] cfg.data[r]).len() <= 16384
    &&& forall|r: int, c: int|
        0 <= r < cfg.data.len() && 0 <= c < cfg.data[r].len() ==> (#[trigger] cfg.data[r][c]).len()
            <= 32767
}

/// Builds the worksheet one write specification describes: the sheet name
/// is validated and set, the headers are written at row 0 with the fixed
/// header style and their optional widths, and every data cell is written
/// with its column's resolved number format, or unformatted where the
/// column has none. A failure reported by the workbook library aborts the
/// build.
pub fn build_worksheet(config: &WriteConfig) -> (r: Result<Worksheet, ExcelError>)
    requires
        config@.headers.len() <= u16::MAX,
        config@.data.len() < u32::MAX,
        forall|i: int| 0 <= i < config@.data.len() ==> (#[trigger] config@.data[i]).len()
            <= u16::MAX,
    ensures
        (r matches Ok(ws) ==> {
            &&& ws_title(ws) == config@.sheet_name
            &&& spec_valid_sheet_name(config@.sheet_name)
            &&& ws_writes(ws) == spec_sheet_events(config@)
            &&& ws_widths(ws) == spec_width_events(config@.headers)
        }),
        !spec_valid_sheet_name(config@.sheet_name) ==> r is Err,
        spec_sheet_writable(config@) ==> r is Ok,
{
    let ghost cfg = config@;
    let mut ws = ws_new();
    match ws_set_name(&mut ws, &config.sheet_name) {
        Ok(()) => {},
        Err(e) => {
            return Err(ExcelError::Write(e));
        },
    }

    let mut c: usize = 0;
    while c < config.headers.len()
        invariant
            c <= cfg.headers.len(),
            cfg == config@,
            cfg.headers.len() <= u16::MAX,
            spec_valid_sheet_name(cfg.sheet_name),
            ws_title(ws) == cfg.sheet_name,
            ws_writes(ws) =~= spec_header_events(cfg.headers).subrange(0, c as int),
            ws_widths(ws) == spec_width_events_upto(cfg.headers, c as int),
        decreases cfg.headers.len() - c,
    {
        let h = &config.headers[c];
        match ws_write_header_cell(&mut ws, 0, c as u16, &h.name, HEADER_BACKGROUND_RGB) {
            Ok(()) => {},
            Err(e) => {
                proof {
                    if spec_sheet_writable(cfg) {
                        assert(cfg.headers[c as int].name.len() <= 32767);
                        assert((c as int) < 16384);
                        assert(false);
                    }
                }
                return Err(ExcelError::Write(e));
            },
        }
        assert(ws_writes(ws) =~= spec_header_events(cfg.headers).subrange(0, c + 1));
        if let Some(w) = h.width {
            match ws_set_column_width(&mut ws, c as u16, w) {
                Ok(()) => {},
                Err(e) => {
                    proof {
                        if spec_sheet_writable(cfg) {
                            assert(cfg.headers[c as int].width matches Some(wd) ==> wd >= 1);
                            assert(false);
                        }
                    }
                    return Err(ExcelError::Write(e));
                },
            }
        }
        assert(ws_widths(ws) == spec_width_events_upto(cfg.headers, c + 1));
        c = c + 1;
    }
    assert(spec_header_events(cfg.headers).subrange(0, cfg.headers.len() as int) =~= spec_header_events(cfg.headers));
    assert(ws_writes(ws) == spec_header_events(cfg.headers));

    let ghost hdr = spec_header_events(cfg.headers);
    let mut r_idx: usize = 0;
    while r_idx < config.data.len()
        invariant
            r_idx <= cfg.data.len(),
            cfg == config@,
            cfg.headers.len() <= u16::MAX,
            cfg.data.len() < u32::MAX,
            forall|i: int| 0 <= i < cfg.data.len() ==> (#[trigger] cfg.data[i]).len() <= u16::MAX,
            spec_valid_sheet_name(cfg.sheet_name),
            ws_title(ws) == cfg.sheet_name,
            hdr == spec_header_events(cfg.headers),
            ws_writes(ws) == hdr + spec_rows_events_upto(cfg.headers, cfg.data, r_idx as int),
            ws_widths(ws) == spec_width_events(cfg.headers),
        decreases cfg.data.len() - r_idx,
    {
        let row = &config.data[r_idx];
        proof {
            assert(cfg.data[r_idx as int].len() <= u16::MAX);
            assert(row.deep_view() =~= cfg.data[r_idx as int]);
            assert(row@.len() == cfg.data[r_idx as int].len());
        }
        let ghost base = hdr + spec_rows_events_upto(cfg.headers, cfg.data, r_idx as int);
        let mut col: usize = 0;
        while col < row.len()
            invariant
                col <= row@.len(),
                cfg == config@,
                cfg.headers.len() <= u16::MAX,
                cfg.data.len() < u32::MAX,
                (r_idx as int) < cfg.data.len(),
                row@.len() <= u16::MAX,
                row.deep_view() == cfg.data[r_idx as int],
                spec_valid_sheet_name(cfg.sheet_name),
                ws_title(ws) == cfg.sheet_name,
                ws_writes(ws) == base + spec_row_events_upto(
                    cfg.headers,
                    cfg.data[r_idx as int],
                    r_idx as int,
                    col as int,
                ),
                ws_widths(ws) == spec_width_events(cfg.headers),
            decreases row@.len() - col,
        {
            let row_num: u32 = (r_idx + 1) as u32;
            let col_num: u16 = col as u16;
            let has_format = col < config.headers.len() && config.headers[col].format.is_some();
            let wr = if has_format {
                let fs = config.headers[col].format.as_ref().unwrap();
                let nf = resolve_format(fs);
                ws_write_string_with_num_format(&mut ws, row_num, col_num, &row[col], &nf)
            } else {
                ws_write_string(&mut ws, row_num, col_num, &row[col])
            };
            match wr {
                Ok(()) => {},
                Err(e) => {
                    proof {
                        if spec_sheet_writable(cfg) {
                            assert(cfg.data[r_idx as int][col as int].len() <= 32767);
                            assert((col as int) < cfg.data[r_idx as int].len() <= 16384);
                            assert(r_idx + 1 < 1048576);
                            assert(false);
                        }
                    }
                    return Err(ExcelError::Write(e));
                },
            }
            proof {
                let rv = cfg.data[r_idx as int];
                assert(rv[col as int] == row@[col as int]@);
                assert(spec_row_events_upto(cfg.headers, rv, r_idx as int, col + 1)
                    =~= spec_row_events_upto(cfg.headers, rv, r_idx as int, col as int)
                        + spec_cell_events(cfg.headers, rv, r_idx as int, col as int));
                assert(ws_writes(ws) =~= base + spec_row_events_upto(
                    cfg.headers,
                    rv,
                    r_idx as int,
                    col + 1,
                ));
            }
            col = col + 1;
        }
        proof {
            assert(spec_rows_events_upto(cfg.headers, cfg.data, r_idx + 1)
                =~= spec_rows_events_upto(cfg.headers, cfg.data, r_idx as int)
                    + spec_row_events_upto(
                    cfg.headers,
                    cfg.data[r_idx as int],
                    r_idx as int,
                    cfg.data[r_idx as int].len() as int,
                ));
            assert(ws_writes(ws) =~= hdr + spec_rows_events_upto(cfg.headers, cfg.data, r_idx + 1));
        }
        r_idx = r_idx + 1;
    }
    assert(ws_writes(ws) == spec_sheet_events(cfg));
    Ok(ws)
}

/// Builds the workbook one write specification describes: a single sheet,
/// built as [`build_worksheet`] states. The caller saves the result to its
/// target file; nothing is saved here, so a failed build leaves any
/// existing file untouched.
pub fn build_workbook(config: &WriteConfig) -> (r: Result<Workbook, ExcelError>)
    requires
        config@.headers.len() <= u16::MAX,
        config@.data.len() < u32::MAX,
        forall|i: int| 0 <= i < config@.data.len() ==> (#[trigger] config@.data[i]).len()
            <= u16::MAX,
    ensures
        (r matches Ok(wb) ==> wb_model(wb) =~= seq![
            (config@.sheet_name, spec_sheet_events(config@), spec_width_events(config@.headers)),
        ]),
        r is Ok ==> spec_valid_sheet_name(config@.sheet_name),
        !spec_valid_sheet_name(config@.sheet_name) ==> r is Err,
        spec_sheet_writable(config@) ==> r is Ok,
{
    let ws = match build_worksheet(config) {
        Ok(ws) => ws,
        Err(e) => {
            return Err(e);
        },
    };
    let mut wb = wb_new();
    wb_push_worksheet(&mut wb, ws);
    Ok(wb)
}

/// Builds one workbook holding every given specification's sheet, in input
/// order, each built as [`build_worksheet`] states. A failure on any sheet
/// aborts the whole build, so the caller saves either all sheets or
/// nothing.
pub fn build_multiple_sheets(configs: &Vec<WriteConfig>) -> (r: Result<Workbook, ExcelError>)
    requires
        forall|k: int| 0 <= k < configs@.len() ==> (#[trigger] configs@[k]@).headers.len()
            <= u16::MAX,
        forall|k: int| 0 <= k < configs@.len() ==> (#[trigger] configs@[k]@).data.len() < u32::MAX,
        forall|k: int, i: int|
            0 <= k < configs@.len() && 0 <= i < configs@[k]@.data.len()
                ==> (#[trigger] configs@[k]@.data[i]).len() <= u16::MAX,
    ensures
        (r matches Ok(wb) ==> wb_model(wb) =~= Seq::new(
            configs@.len(),
            |k: int| (
                configs@[k]@.sheet_name,
                spec_sheet_events(configs@[k]@),
                spec_width_events(configs@[k]@.headers),
            ),
        )),
        (exists|k: int|
            0 <= k < configs@.len() && !spec_valid_sheet_name(
                (#[trigger] configs@[k])@.sheet_name,
            )) ==> r is Err,
        (forall|k: int| 0 <= k < configs@.len() ==> spec_sheet_writable(#[trigger] configs@[k]@))
            ==> r is Ok,
{
    let mut wb = wb_new();
    let mut k: usize = 0;
    while k < configs.len()
        invariant
            k <= configs@.len(),
            forall|j: int| 0 <= j < configs@.len() ==> (#[trigger] configs@[j]@).headers.len()
                <= u16::MAX,
            forall|j: int| 0 <= j < configs@.len() ==> (#[trigger] configs@[j]@).data.len()
                < u32::MAX,
            forall|j: int, i: int|
                0 <= j < configs@.len() && 0 <= i < configs@[j]@.data.len()
                    ==> (#[trigger] configs@[j]@.data[i]).len() <= u16::MAX,
            forall|j: int| 0 <= j < k ==> spec_valid_sheet_name(
                (#[trigger] configs@[j])@.sheet_name,
            ),
            wb_model(wb) =~= Seq::new(
                k as nat,
                |j: int| (
                    configs@[j]@.sheet_name,
                    spec_sheet_events(configs@[j]@),
                    spec_width_events(configs@[j]@.headers),
                ),
            ),
        decreases configs@.len() - k,
    {
        let ws = match build_worksheet(&configs[k]) {
            Ok(ws) => ws,
            Err(e) => {
                proof {
                    if forall|j: int| 0 <= j < configs@.len() ==> spec_sheet_writable(
                        #[trigger] configs@[j]@,
                    ) {
                        assert(spec_sheet_writable(configs@[k as int]@));
                        assert(false);
                    }
                }
                return Err(e);
            },
        };
        wb_push_worksheet(&mut wb, ws);
        assert(wb_model(wb) =~= Seq::new(
            (k + 1) as nat,
            |j: int| (
                configs@[j]@.sheet_name,
                spec_sheet_events(configs@[j]@),
                spec_width_events(configs@[j]@.headers),
            ),
        ));
        k = k + 1;
    }
    proof {
        if exists|j: int|
            0 <= j < configs@.len() && !spec_valid_sheet_name((#[trigger] configs@[j])@.sheet_name) {
            let j = choose|j: int|
                0 <= j < configs@.len() && !spec_valid_sheet_name(
                    (#[trigger] configs@[j])@.sheet_name,
                );
            assert(spec_valid_sheet_name(configs@[j]@.sheet_name));
            assert(false);
        }
    }
    Ok(wb)
}

} // verus!
