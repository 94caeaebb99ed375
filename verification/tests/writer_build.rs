use calamine::{Reader, Xlsx};
use excel_bridge::error::ExcelError;
use excel_bridge::model::{HeaderConfig, WriteConfig};
use excel_bridge::reader::{sheet_from_grid, ExcelParser};
use excel_bridge::writer::{
    build_multiple_sheets, build_workbook, resolve_format, ExcelWriter,
};

fn config(name: &str) -> WriteConfig {
    WriteConfig {
        sheet_name: name.to_owned(),
        headers: vec![
            HeaderConfig {
                name: "Amount".to_owned(),
                width: Some(14),
                format: Some("#,##0.00".to_owned()),
            },
            HeaderConfig { name: "Rate".to_owned(), width: None, format: Some("0.0%".to_owned()) },
            HeaderConfig { name: "Note".to_owned(), width: None, format: None },
        ],
        data: vec![
            vec!["1234.5".to_owned(), "0.25".to_owned(), "first".to_owned(), "extra".to_owned()],
            vec!["2.25".to_owned()],
        ],
    }
}

#[test]
fn format_table_resolution() {
    assert_eq!(resolve_format(&"@".to_owned()), "@");
    assert_eq!(resolve_format(&"#,##0".to_owned()), "#,##0");
    assert_eq!(resolve_format(&"#,##0.00".to_owned()), "#,##0.00");
    assert_eq!(resolve_format(&"yyyy-MM-dd".to_owned()), "yyyy-mm-dd");
    assert_eq!(resolve_format(&"yyyy-MM-dd HH:mm:ss".to_owned()), "yyyy-mm-dd hh:mm:ss");
    assert_eq!(resolve_format(&"0.0%".to_owned()), "0.0%");
}

#[test]
fn formatted_and_unknown_formats_both_build() {
    let mut wb = build_workbook(&config("Costs")).expect("build should succeed");
    let bytes = wb.save_to_buffer().expect("save to buffer");
    assert!(!bytes.is_empty());

    let mut read: Xlsx<_> = Xlsx::new(std::io::Cursor::new(bytes)).expect("reopen workbook");
    assert_eq!(read.sheet_names(), vec!["Costs"]);
    let range = read.worksheet_range("Costs").expect("range");
    let grid: Vec<Vec<String>> = range
        .rows()
        .map(|r| r.iter().map(|c| c.to_string()).collect())
        .collect();
    // The data row is wider than the headers, so the read-back grid pads
    // the header row with an empty cell up to the grid width.
    assert_eq!(grid[0], vec!["Amount", "Rate", "Note", ""]);
    assert_eq!(grid[1][0], "1234.5");
    assert_eq!(grid[1][3], "extra");

    let sheet = sheet_from_grid(&"Costs".to_owned(), &grid, range.width() as u32);
    assert_eq!(sheet.column_names, vec!["Amount", "Rate", "Note", ""]);
    assert_eq!(sheet.rows[0].cells.len(), 4);
    assert_eq!(sheet.rows[0].cells[0].value, "1234.5");
}

#[test]
fn invalid_sheet_name_fails_before_any_save() {
    let mut bad = config("Bad[Name]");
    bad.sheet_name = "Bad[Name]".to_owned();
    let r = build_workbook(&bad);
    assert!(matches!(r, Err(ExcelError::Write(_))));
}

#[test]
fn multi_sheet_build_is_all_or_nothing() {
    let good = vec![config("One"), config("Two"), config("Three")];
    let mut wb = build_multiple_sheets(&good).expect("all sheets valid");
    let bytes = wb.save_to_buffer().expect("save");
    let read: Xlsx<_> = Xlsx::new(std::io::Cursor::new(bytes)).expect("reopen");
    assert_eq!(read.sheet_names(), vec!["One", "Two", "Three"]);

    let mixed = vec![config("One"), config("Bad:Name"), config("Three")];
    let r = build_multiple_sheets(&mixed);
    assert!(matches!(r, Err(ExcelError::Write(_))));
}

#[test]
fn handles_record_their_paths() {
    let parser = ExcelParser::new("input.xlsx".to_owned());
    assert_eq!(parser.path(), "input.xlsx");
    let writer = ExcelWriter::new("output.xlsx".to_owned());
    assert_eq!(writer.path(), "output.xlsx");
}
