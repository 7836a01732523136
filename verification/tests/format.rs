use omics_export::format::{infer_format_from_filename, resolve_format, ExportError, OutputFormat};

#[test]
fn infer_csv() {
    assert_eq!(infer_format_from_filename("cells.csv"), Ok(OutputFormat::Csv));
}

#[test]
fn infer_csv_gz() {
    assert_eq!(infer_format_from_filename("cells.csv.gz"), Ok(OutputFormat::CsvGz));
}

#[test]
fn infer_parquet() {
    assert_eq!(infer_format_from_filename("cells.parquet"), Ok(OutputFormat::Parquet));
}

#[test]
fn infer_unknown_suffix_fails() {
    assert_eq!(infer_format_from_filename("cells.txt"), Err(ExportError::UnknownFormat));
    assert_eq!(infer_format_from_filename("csv"), Err(ExportError::UnknownFormat));
    assert_eq!(infer_format_from_filename(""), Err(ExportError::UnknownFormat));
}

#[test]
fn gz_takes_priority_over_csv() {
    assert_eq!(infer_format_from_filename("a.csv.gz"), Ok(OutputFormat::CsvGz));
}

#[test]
fn resolve_keeps_concrete_format() {
    assert_eq!(resolve_format(OutputFormat::Parquet, "cells.txt"), Ok(OutputFormat::Parquet));
    assert_eq!(resolve_format(OutputFormat::Infer, "cells.csv"), Ok(OutputFormat::Csv));
    assert_eq!(
        resolve_format(OutputFormat::Infer, "cells.dat"),
        Err(ExportError::UnknownFormat)
    );
}
