use excel_bridge::error::ExcelError;
use excel_bridge::model::ExcelData;
use excel_bridge::reader::{
    find_sheet, headers_from_workbook, sheet_from_grid, workbook_from_grids, SheetGrid,
};

#[test]
fn header_derivation_single_row() {
    let grid = vec![
        vec!["ID".to_owned(), "Name".to_owned(), "Age".to_owned()],
        vec!["1".to_owned(), "AliceAA".to_owned(), "35".to_owned()],
    ];
    let sheet = sheet_from_grid(&"People".to_owned(), &grid, 3);
    assert_eq!(sheet.column_names, vec!["ID", "Name", "Age"]);
    assert_eq!(sheet.rows.len(), 1);
    assert_eq!(sheet.rows[0].row_index, 1);
    assert_eq!(sheet.rows[0].cells.len(), 3);
    assert_eq!(sheet.rows[0].cells[0].column_name, "ID");
    assert_eq!(sheet.rows[0].cells[0].value, "1");
    assert_eq!(sheet.rows[0].cells[1].column_name, "Name");
    assert_eq!(sheet.rows[0].cells[1].value, "AliceAA");
    assert_eq!(sheet.rows[0].cells[2].column_name, "Age");
    assert_eq!(sheet.rows[0].cells[2].value, "35");
    assert_eq!(sheet.total_rows, 1);
    assert_eq!(sheet.total_columns, 3);
}

#[test]
fn ragged_rows_are_truncated_to_header_length() {
    let grid = vec![
        vec!["A".to_owned(), "B".to_owned(), "C".to_owned()],
        vec![
            "1".to_owned(),
            "2".to_owned(),
            "3".to_owned(),
            "4".to_owned(),
            "5".to_owned(),
        ],
        vec!["x".to_owned()],
    ];
    let sheet = sheet_from_grid(&"S".to_owned(), &grid, 5);
    assert_eq!(sheet.rows.len(), 2);
    assert_eq!(sheet.rows[0].cells.len(), 3);
    assert_eq!(sheet.rows[0].cells[2].column_name, "C");
    assert_eq!(sheet.rows[0].cells[2].value, "3");
    assert_eq!(sheet.rows[1].cells.len(), 1);
    assert_eq!(sheet.rows[1].cells[0].column_name, "A");
    assert_eq!(sheet.rows[1].cells[0].value, "x");
    assert_eq!(sheet.rows[1].row_index, 2);
    assert_eq!(sheet.total_columns, 5);
}

#[test]
fn empty_sheet_yields_empty_structure() {
    let grid: Vec<Vec<String>> = Vec::new();
    let sheet = sheet_from_grid(&"Empty".to_owned(), &grid, 0);
    assert_eq!(sheet.column_names, Vec::<String>::new());
    assert_eq!(sheet.rows.len(), 0);
    assert_eq!(sheet.total_rows, 0);
}

#[test]
fn zero_sheet_workbook_refuses_header_read() {
    let r = headers_from_workbook(None);
    assert!(matches!(r, Err(ExcelError::NoWorksheets)));

    let grid = vec![vec!["H1".to_owned(), "H2".to_owned()]];
    let r = headers_from_workbook(Some(&grid));
    assert_eq!(r.unwrap(), vec!["H1", "H2"]);
}

#[test]
fn unknown_sheet_lookup_is_absence() {
    let grids = vec![
        SheetGrid { name: "First".to_owned(), cells: Vec::new(), width: 0 },
        SheetGrid { name: "Second".to_owned(), cells: Vec::new(), width: 0 },
    ];
    let data = workbook_from_grids(&grids);
    assert!(find_sheet(&data, &"Missing".to_owned()).is_none());
    let hit = find_sheet(&data, &"Second".to_owned());
    assert!(hit.is_some());
    assert_eq!(hit.unwrap().name, "Second");
}

#[test]
fn reading_twice_yields_equal_workbooks() {
    let grids = vec![SheetGrid {
        name: "Sheet1".to_owned(),
        cells: vec![
            vec!["H".to_owned()],
            vec!["v1".to_owned()],
            vec!["v2".to_owned()],
        ],
        width: 1,
    }];
    let first: ExcelData = workbook_from_grids(&grids);
    let second: ExcelData = workbook_from_grids(&grids);
    assert_eq!(first, second);
}
