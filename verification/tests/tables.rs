use std::io::Read;
use arrow2::array::Array;
use arrow2::io::parquet::read;

use omics_export::codec::encode_table;
use omics_export::format::{ExportError, OutputFormat};
use omics_export::table::{Column, Table};

fn full_type_table(n: usize) -> Table {
    let mut t = Table::new();
    t.push(
        "a".to_string(),
        Column::U8((0..n).map(|i| (i % 200) as u8).collect()),
    );
    t.push(
        "b".to_string(),
        Column::U16((0..n).map(|i| (i % 60000) as u16).collect()),
    );
    t.push("c".to_string(), Column::U32((0..n).map(|i| i as u32).collect()));
    t.push(
        "d".to_string(),
        Column::U64((0..n).map(|i| (i as u64) << 33).collect()),
    );
    t.push(
        "e".to_string(),
        Column::F32Bits((0..n).map(|i| (i as f32 * 0.5).to_bits()).collect()),
    );
    t.push(
        "f".to_string(),
        Column::Utf8((0..n).map(|i| format!("g{}", i)).collect()),
    );
    t.push(
        "g".to_string(),
        Column::OptUtf8(
            (0..n)
                .map(|i| if i % 3 == 0 { None } else { Some(format!("v{}", i)) })
                .collect(),
        ),
    );
    t
}

fn small_int_table() -> Table {
    let mut t = Table::new();
    t.push("a".to_string(), Column::U32(vec![1, 2]));
    t.push("b".to_string(), Column::U32(vec![3, 4]));
    t
}

#[test]
fn csv_exact_bytes() {
    let bytes = encode_table("t.csv", OutputFormat::Csv, small_int_table()).unwrap();
    let text = String::from_utf8(bytes).unwrap();
    assert_eq!(text, "a,b\n1,3\n2,4\n");
}

#[test]
fn csv_succeeds_even_for_a_table_with_no_columns() {
    let bytes = encode_table("t.csv", OutputFormat::Csv, Table::new()).unwrap();
    assert_eq!(bytes, b"\n".to_vec());
}

#[test]
fn unknown_format_is_rejected_before_encoding() {
    let r = encode_table("t.txt", OutputFormat::Infer, small_int_table());
    assert_eq!(r, Err(ExportError::UnknownFormat));
}

#[test]
fn inferred_format_matches_explicit() {
    let a = encode_table("t.csv", OutputFormat::Infer, small_int_table()).unwrap();
    let b = encode_table("anything", OutputFormat::Csv, small_int_table()).unwrap();
    assert_eq!(a, b);
}

#[test]
fn compressed_csv_decompresses_to_plain_csv() {
    for n in [0usize, 1, 1000] {
        let plain = encode_table("t.csv", OutputFormat::Csv, full_type_table(n)).unwrap();
        let gz = encode_table("t.csv.gz", OutputFormat::CsvGz, full_type_table(n)).unwrap();
        let mut decoder = flate2::read::GzDecoder::new(&gz[..]);
        let mut out = Vec::new();
        decoder.read_to_end(&mut out).unwrap();
        assert_eq!(out, plain);
    }
}

fn read_parquet(bytes: Vec<u8>) -> (arrow2::datatypes::Schema, Vec<arrow2::chunk::Chunk<Box<dyn arrow2::array::Array>>>) {
    let mut cursor = std::io::Cursor::new(bytes);
    let metadata = read::read_metadata(&mut cursor).unwrap();
    let schema = read::infer_schema(&metadata).unwrap();
    let reader = read::FileReader::new(
        cursor,
        metadata.row_groups,
        schema.clone(),
        None,
        None,
        None,
    );
    let chunks: Vec<_> = reader.map(|c| c.unwrap()).collect();
    (schema, chunks)
}

#[test]
fn parquet_round_trip_full_type_set() {
    for n in [1usize, 1000] {
        let bytes = encode_table("t.parquet", OutputFormat::Parquet, full_type_table(n)).unwrap();
        let (schema, chunks) = read_parquet(bytes);
        let names: Vec<&str> = schema.fields.iter().map(|f| f.name.as_str()).collect();
        assert_eq!(names, vec!["a", "b", "c", "d", "e", "f", "g"]);
        assert_eq!(chunks.len(), 1);
        let chunk = &chunks[0];
        assert_eq!(chunk.len(), n);
        let arrays = chunk.arrays();
        let a = arrays[0]
            .as_any()
            .downcast_ref::<arrow2::array::UInt8Array>()
            .unwrap();
        let c = arrays[2]
            .as_any()
            .downcast_ref::<arrow2::array::UInt32Array>()
            .unwrap();
        let d = arrays[3]
            .as_any()
            .downcast_ref::<arrow2::array::UInt64Array>()
            .unwrap();
        let e = arrays[4]
            .as_any()
            .downcast_ref::<arrow2::array::Float32Array>()
            .unwrap();
        let f = arrays[5]
            .as_any()
            .downcast_ref::<arrow2::array::Utf8Array<i64>>()
            .unwrap();
        let g = arrays[6]
            .as_any()
            .downcast_ref::<arrow2::array::Utf8Array<i64>>()
            .unwrap();
        for i in 0..n {
            assert_eq!(a.value(i), (i % 200) as u8);
            assert_eq!(c.value(i), i as u32);
            assert_eq!(d.value(i), (i as u64) << 33);
            assert_eq!(e.value(i), i as f32 * 0.5);
            assert_eq!(f.value(i), format!("g{}", i));
            if i % 3 == 0 {
                assert!(!g.is_valid(i));
            } else {
                assert_eq!(g.value(i), format!("v{}", i));
            }
        }
    }
}

#[test]
fn parquet_round_trip_empty_table() {
    let bytes = encode_table("t.parquet", OutputFormat::Parquet, full_type_table(0)).unwrap();
    let (schema, chunks) = read_parquet(bytes);
    assert_eq!(schema.fields.len(), 7);
    let rows: usize = chunks.iter().map(|c| c.len()).sum();
    assert_eq!(rows, 0);
}
