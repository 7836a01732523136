//! Output-format selection: a requested format, possibly `Infer`, plus an
//! output filename resolve to a concrete encoding before any byte is written.

use vstd::prelude::*;

verus! {

/// The on-disk encodings a table can be written in. `Infer` is resolved from
/// the filename before writing and is never itself a terminal encoding.
#[derive(Copy, Clone, Debug, PartialEq, Eq, Structural)]
pub enum OutputFormat {
    Infer,
    Csv,
    CsvGz,
    Parquet,
}

/// Why an export failed: the format could not be inferred from the filename,
/// or the table codec rejected the write.
#[derive(Copy, Clone, Debug, PartialEq, Eq, Structural)]
pub enum ExportError {
    UnknownFormat,
    Encode,
}

/// `suffix` is a suffix of `s`.
pub open spec fn ends_with(s: Seq<char>, suffix: Seq<char>) -> bool {
    suffix.len() <= s.len() && s.skip(s.len() - suffix.len()) == suffix
}

/// The concrete format that `infer_format_from_filename` assigns to a
/// filename, if any: `.csv.gz` takes priority over `.csv`, then `.parquet`.
pub open spec fn inferred_format(name: Seq<char>) -> Option<OutputFormat> {
    if ends_with(name, ".csv.gz"@) {
        Some(OutputFormat::CsvGz)
    } else if ends_with(name, ".csv"@) {
        Some(OutputFormat::Csv)
    } else if ends_with(name, ".parquet"@) {
        Some(OutputFormat::Parquet)
    } else {
        None
    }
}

/// The format a write with requested format `fmt` and filename `name`
/// actually uses: a concrete request is kept, `Infer` goes by the filename.
pub open spec fn resolved_format(fmt: OutputFormat, name: Seq<char>) -> Option<OutputFormat> {
    match fmt {
        OutputFormat::Infer => inferred_format(name),
        _ => Some(fmt),
    }
}

fn str_ends_with(s: &str, suffix: &str) -> (r: bool)
    ensures
        r == ends_with(s@, suffix@),
{
    let n = s.unicode_len();
    let m = suffix.unicode_len();
    if m > n {
        return false;
    }
    let mut i: usize = 0;
    while i < m
        invariant
            i <= m <= n,
            n == s@.len(),
            m == suffix@.len(),
            forall|j: int| 0 <= j < i ==> s@[n - m + j] == suffix@[j],
        decreases m - i,
    {
        if s.get_char(n - m + i) != suffix.get_char(i) {
            assert(s@.skip(n - m) != suffix@) by {
                assert(s@.skip(n - m)[i as int] != suffix@[i as int]);
            }
            return false;
        }
        i += 1;
    }
    assert(s@.skip(n - m) =~= suffix@);
    true
}

/// Maps an output filename to the encoding its suffix calls for:
/// `.csv.gz`, then `.csv`, then `.parquet`; any other name is a
/// configuration error.
pub fn infer_format_from_filename(filename: &str) -> (r: Result<OutputFormat, ExportError>)
    ensures
        r == match inferred_format(filename@) {
            Some(f) => Result::<OutputFormat, ExportError>::Ok(f),
            None => Result::<OutputFormat, ExportError>::Err(ExportError::UnknownFormat),
        },
{
    if str_ends_with(filename, ".csv.gz") {
        Ok(OutputFormat::CsvGz)
    } else if str_ends_with(filename, ".csv") {
        Ok(OutputFormat::Csv)
    } else if str_ends_with(filename, ".parquet") {
        Ok(OutputFormat::Parquet)
    } else {
        Err(ExportError::UnknownFormat)
    }
}

/// Resolves a requested format against a filename: anything but `Infer`
/// is returned unchanged, `Infer` is decided by the filename's suffix.
pub fn resolve_format(fmt: OutputFormat, filename: &str) -> (r: Result<OutputFormat, ExportError>)
    ensures
        r == match resolved_format(fmt, filename@) {
            Some(f) => Result::<OutputFormat, ExportError>::Ok(f),
            None => Result::<OutputFormat, ExportError>::Err(ExportError::UnknownFormat),
        },
        r is Ok ==> r->Ok_0 != OutputFormat::Infer,
{
    match fmt {
        OutputFormat::Infer => infer_format_from_filename(filename),
        _ => Ok(fmt),
    }
}

} // verus!
