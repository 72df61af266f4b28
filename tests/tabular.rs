use std::io::Cursor;

use meter_archive::error::ArchiveError;
use meter_archive::table::{encode_table, extract_table, table_from_json_text, SCHEMA_SAMPLE_LEN};
use polars::prelude::{DataFrame, ParquetReader, SerReader};

fn read_back(bytes: Vec<u8>) -> DataFrame {
    ParquetReader::new(Cursor::new(bytes)).finish().unwrap()
}

#[test]
fn two_readings_round_trip() {
    let response: serde_json::Value = serde_json::from_str(
        r#"{"results": [{"t":"2024-01-01T00:00Z","v":1.0}, {"t":"2024-01-01T00:30Z","v":2.0}]}"#,
    )
    .unwrap();
    let mut df = extract_table(&response, "results").unwrap();
    let bytes = encode_table(&mut df).unwrap();
    let back = read_back(bytes);
    assert_eq!(back.height(), 2);
    let names: Vec<String> = back.get_column_names().iter().map(|n| n.to_string()).collect();
    assert_eq!(names, vec!["t".to_string(), "v".to_string()]);
    let t = back.column("t").unwrap().str().unwrap();
    assert_eq!(t.get(0), Some("2024-01-01T00:00Z"));
    assert_eq!(t.get(1), Some("2024-01-01T00:30Z"));
    let v = back.column("v").unwrap().f64().unwrap();
    assert_eq!(v.get(0), Some(1.0));
    assert_eq!(v.get(1), Some(2.0));
    assert!(back.equals(&df));
}

#[test]
fn multi_column_round_trip() {
    let text = r#"[
        {"interval_start":"2024-03-01T00:00Z","interval_end":"2024-03-01T00:30Z","consumption":0.112,"reads":3},
        {"interval_start":"2024-03-01T00:30Z","interval_end":"2024-03-01T01:00Z","consumption":0.094,"reads":2},
        {"interval_start":"2024-03-01T01:00Z","interval_end":"2024-03-01T01:30Z","consumption":0.301,"reads":5}
    ]"#;
    let mut df = table_from_json_text(text).unwrap();
    assert_eq!(df.width(), 4);
    let bytes = encode_table(&mut df).unwrap();
    let back = read_back(bytes);
    assert_eq!(back.height(), 3);
    assert!(back.equals(&df));
    assert_eq!(back.column("reads").unwrap().i64().unwrap().get(2), Some(5));
}

fn readings(n: usize) -> Vec<String> {
    (0..n).map(|i| format!("{{\"t\":\"r{i}\",\"v\":{i}.5}}")).collect()
}

#[test]
fn incompatible_record_after_sample_is_schema_error() {
    let mut records = readings(SCHEMA_SAMPLE_LEN + 20);
    records.push("{\"t\":\"late\",\"v\":{\"nested\":[1,2,3]}}".to_string());
    let text = format!("[{}]", records.join(","));
    assert!(matches!(table_from_json_text(&text), Err(ArchiveError::Schema)));
}

#[test]
fn new_field_inside_sample_becomes_column() {
    let mut records = readings(10);
    records.push("{\"t\":\"late\",\"v\":0.5,\"note\":\"estimated\"}".to_string());
    records.extend(readings(5));
    let text = format!("[{}]", records.join(","));
    let df = table_from_json_text(&text).unwrap();
    assert_eq!(df.height(), 16);
    assert_eq!(df.width(), 3);
    let note = df.column("note").unwrap().str().unwrap();
    assert_eq!(note.get(10), Some("estimated"));
    assert_eq!(note.get(0), None);
}

#[test]
fn sample_length() {
    assert_eq!(SCHEMA_SAMPLE_LEN, 100);
}

#[test]
fn absent_field_is_extraction_error() {
    let response: serde_json::Value = serde_json::from_str(r#"{"count": 0}"#).unwrap();
    assert!(matches!(extract_table(&response, "results"), Err(ArchiveError::Extraction)));
}

#[test]
fn non_records_are_schema_error() {
    assert!(matches!(table_from_json_text("{\"results\": "), Err(ArchiveError::Schema)));
}
