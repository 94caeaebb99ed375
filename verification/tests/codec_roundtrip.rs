use excel_bridge::codec::MessagePackConverter;
use excel_bridge::error::ExcelError;
use excel_bridge::model::{CellData, ExcelData, HeaderConfig, RowData, SheetData, WriteConfig};

fn sample_sheet(name: &str) -> SheetData {
    SheetData {
        name: name.to_owned(),
        column_names: vec!["K".to_owned(), "V".to_owned()],
        rows: vec![
            RowData {
                cells: vec![
                    CellData { column_name: "K".to_owned(), value: "a".to_owned() },
                    CellData { column_name: "V".to_owned(), value: "1".to_owned() },
                ],
                row_index: 1,
            },
            RowData {
                cells: vec![CellData { column_name: "K".to_owned(), value: "b".to_owned() }],
                row_index: 2,
            },
        ],
        total_rows: 2,
        total_columns: 4,
    }
}

fn sample_config(name: &str) -> WriteConfig {
    WriteConfig {
        sheet_name: name.to_owned(),
        headers: vec![
            HeaderConfig { name: "Amount".to_owned(), width: Some(12), format: Some("#,##0.00".to_owned()) },
            HeaderConfig { name: "Note".to_owned(), width: None, format: None },
        ],
        data: vec![
            vec!["1234.5".to_owned(), "first".to_owned()],
            vec!["2.25".to_owned()],
        ],
    }
}

#[test]
fn workbook_round_trip_is_exact() {
    let wb = ExcelData { sheets: vec![sample_sheet("One"), sample_sheet("Two")] };
    let bytes = MessagePackConverter::to_bytes(&wb).expect("encode");
    let back = MessagePackConverter::from_bytes(&bytes).expect("decode");
    assert_eq!(wb, back);
}

#[test]
fn empty_workbook_round_trip() {
    let wb = ExcelData { sheets: Vec::new() };
    let bytes = MessagePackConverter::to_bytes(&wb).expect("encode");
    let back = MessagePackConverter::from_bytes(&bytes).expect("decode");
    assert_eq!(wb, back);
}

#[test]
fn sheet_round_trip_is_exact() {
    let sheet = sample_sheet("Solo");
    let bytes = MessagePackConverter::sheet_to_bytes(&sheet).expect("encode");
    let back = MessagePackConverter::sheet_from_bytes(&bytes).expect("decode");
    assert_eq!(sheet, back);
}

#[test]
fn headers_round_trip_is_exact() {
    let headers = vec!["ID".to_owned(), "Name".to_owned(), "Age".to_owned()];
    let bytes = MessagePackConverter::headers_to_bytes(&headers).expect("encode");
    let back = MessagePackConverter::headers_from_bytes(&bytes).expect("decode");
    assert_eq!(headers, back);
    assert_ne!(bytes.len(), 0);
}

#[test]
fn config_round_trip_is_exact() {
    let config = sample_config("Target");
    let bytes = MessagePackConverter::write_config_to_bytes(&config).expect("encode");
    let back = MessagePackConverter::write_config_from_bytes(&bytes).expect("decode");
    assert_eq!(config, back);
}

#[test]
fn configs_round_trip_is_exact() {
    let configs = vec![sample_config("A"), sample_config("B"), sample_config("C")];
    let bytes = MessagePackConverter::write_configs_to_bytes(&configs).expect("encode");
    let back = MessagePackConverter::write_configs_from_bytes(&bytes).expect("decode");
    assert_eq!(configs, back);
}

#[test]
fn malformed_bytes_yield_decode_error() {
    let garbage: Vec<u8> = vec![0xc1, 0xff, 0x00];
    let r = MessagePackConverter::from_bytes(&garbage);
    assert!(matches!(r, Err(ExcelError::Decode(_))));
    let r = MessagePackConverter::sheet_from_bytes(&garbage);
    assert!(matches!(r, Err(ExcelError::Decode(_))));
    let r = MessagePackConverter::headers_from_bytes(&garbage);
    assert!(matches!(r, Err(ExcelError::Decode(_))));
    let r = MessagePackConverter::write_config_from_bytes(&garbage);
    assert!(matches!(r, Err(ExcelError::Decode(_))));
    let r = MessagePackConverter::write_configs_from_bytes(&garbage);
    assert!(matches!(r, Err(ExcelError::Decode(_))));
}
