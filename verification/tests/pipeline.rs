use excel_bridge::codec::MessagePackConverter;
use excel_bridge::model::ExcelData;
use excel_bridge::reader::{headers_from_grid, workbook_from_grids, SheetGrid};

fn example_grid() -> Vec<Vec<String>> {
    vec![
        vec!["ID".to_owned(), "Name".to_owned(), "Age".to_owned()],
        vec!["1".to_owned(), "AliceAA".to_owned(), "35".to_owned()],
        vec!["2".to_owned(), "BobBB".to_owned(), "28".to_owned()],
    ]
}

fn example_workbook() -> ExcelData {
    let grids = vec![SheetGrid { name: "Sheet1".to_owned(), cells: example_grid(), width: 3 }];
    workbook_from_grids(&grids)
}

#[test]
fn test_excel_parsing() {
    let headers = headers_from_grid(&example_grid());
    assert_eq!(headers, vec!["ID", "Name", "Age"]);

    let data = example_workbook();
    assert_eq!(data.sheets.len(), 1);
    assert_eq!(data.sheets[0].name, "Sheet1");
    assert_eq!(data.sheets[0].total_rows, 2);
}

#[test]
fn test_messagepack_serialization() {
    let data = example_workbook();

    let bytes = MessagePackConverter::to_bytes(&data).expect("Failed to serialize");
    let deserialized =
        MessagePackConverter::from_bytes(&bytes).expect("Failed to deserialize");

    assert_eq!(data.sheets.len(), deserialized.sheets.len());
    assert_eq!(data.sheets[0].name, deserialized.sheets[0].name);
    assert_eq!(data.sheets[0].column_names, deserialized.sheets[0].column_names);

    println!("MessagePack size: {} bytes", bytes.len());
}

#[test]
fn test_key_value_mapping() {
    let data = example_workbook();

    let sheet = &data.sheets[0];
    let first_row = &sheet.rows[0];

    assert_eq!(first_row.cells[0].column_name, "ID");
    assert_eq!(first_row.cells[0].value, "1");
    assert_eq!(first_row.cells[1].column_name, "Name");
    assert_eq!(first_row.cells[1].value, "AliceAA");
    assert_eq!(first_row.cells[2].column_name, "Age");
    assert_eq!(first_row.cells[2].value, "35");
}
