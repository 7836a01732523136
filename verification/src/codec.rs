//! The byte-level table codecs and the compressing sink, as trusted wrappers
//! around arrow2 and flate2, and the verified format dispatch over them.

use std::io::Write;

use arrow2::io::parquet::write as pq;
use vstd::prelude::*;

use crate::format::{resolved_format, ExportError, OutputFormat};
use crate::table::{ColView, Column, Table};

verus! {

/// The delimited-text encoding of a column batch, as arrow2's CSV writer
/// produces it with default options: a comma-joined header line, then one
/// line per row. A function of the batch alone.
pub uninterp spec fn csv_bytes_of(cols: Seq<(Seq<char>, ColView)>) -> Seq<u8>;

/// The parquet encoding of a column batch as this crate configures it: one
/// row group, per-column statistics, zstd-compressed chunks, plain value
/// encoding. A function of the batch alone.
pub uninterp spec fn parquet_bytes_of(cols: Seq<(Seq<char>, ColView)>) -> Seq<u8>;

/// The gzip stream flate2 produces for the given bytes at the default
/// compression level. flate2 writes a fixed header (zero timestamp, fixed
/// operating-system byte) precisely so that the stream is a function of the
/// input bytes alone.
pub uninterp spec fn gzip_of(data: Seq<u8>) -> Seq<u8>;

/// One column handed to arrow2: a field description paired with the typed
/// array, opaque to the verifier.
#[verifier::external_body]
pub struct ArrowColumn {
    field: arrow2::datatypes::Field,
    array: std::sync::Arc<dyn arrow2::array::Array>,
}

/// The (name, value) pair an `ArrowColumn` carries.
pub uninterp spec fn arrow_col_model(c: ArrowColumn) -> (Seq<char>, ColView);

/// The models of a column list, in order.
pub open spec fn models_of(cols: Seq<ArrowColumn>) -> Seq<(Seq<char>, ColView)> {
    cols.map_values(|c: ArrowColumn| arrow_col_model(c))
}

/// All columns of a batch share one row count.
pub open spec fn models_same_len(cols: Seq<(Seq<char>, ColView)>) -> bool {
    forall|i: int, j: int|
        0 <= i < cols.len() && 0 <= j < cols.len() ==> crate::table::col_len(cols[i].1)
            == crate::table::col_len(cols[j].1)
}

/// arrow2's error type, carried through the wrappers and mapped to
/// `ExportError` in verified code.
#[verifier::external_type_specification]
#[verifier::external_body]
pub struct ExArrowError(arrow2::error::Error);

/// Relies on arrow2's `Field::new` and `UInt8Array::from_vec`: builds the
/// non-nullable uint8 column named `name` holding exactly `vals`.
#[verifier::external_body]
fn arrow_col_u8(name: &str, vals: Vec<u8>) -> (c: ArrowColumn)
    ensures
        arrow_col_model(c) == (name@, ColView::U8(vals@)),
{
    ArrowColumn {
        field: arrow2::datatypes::Field::new(name, arrow2::datatypes::DataType::UInt8, false),
        array: std::sync::Arc::new(arrow2::array::UInt8Array::from_vec(vals)),
    }
}

/// Relies on arrow2's `Field::new` and `UInt16Array::from_vec`.
#[verifier::external_body]
fn arrow_col_u16(name: &str, vals: Vec<u16>) -> (c: ArrowColumn)
    ensures
        arrow_col_model(c) == (name@, ColView::U16(vals@)),
{
    ArrowColumn {
        field: arrow2::datatypes::Field::new(name, arrow2::datatypes::DataType::UInt16, false),
        array: std::sync::Arc::new(arrow2::array::UInt16Array::from_vec(vals)),
    }
}

/// Relies on arrow2's `Field::new` and `UInt32Array::from_vec`.
#[verifier::external_body]
fn arrow_col_u32(name: &str, vals: Vec<u32>) -> (c: ArrowColumn)
    ensures
        arrow_col_model(c) == (name@, ColView::U32(vals@)),
{
    ArrowColumn {
        field: arrow2::datatypes::Field::new(name, arrow2::datatypes::DataType::UInt32, false),
        array: std::sync::Arc::new(arrow2::array::UInt32Array::from_vec(vals)),
    }
}

/// Relies on arrow2's `Field::new` and `UInt64Array::from_vec`.
#[verifier::external_body]
fn arrow_col_u64(name: &str, vals: Vec<u64>) -> (c: ArrowColumn)
    ensures
        arrow_col_model(c) == (name@, ColView::U64(vals@)),
{
    ArrowColumn {
        field: arrow2::datatypes::Field::new(name, arrow2::datatypes::DataType::UInt64, false),
        array: std::sync::Arc::new(arrow2::array::UInt64Array::from_vec(vals)),
    }
}

/// Relies on arrow2's `Field::new`, `Float32Array::from_vec` and
/// `NativeType::from_le_bytes`: the column holds the single-precision values
/// whose bit patterns are `bits`, in order.
#[verifier::external_body]
fn arrow_col_f32(name: &str, bits: Vec<u32>) -> (c: ArrowColumn)
    ensures
        arrow_col_model(c) == (name@, ColView::F32Bits(bits@)),
{
    ArrowColumn {
        field: arrow2::datatypes::Field::new(name, arrow2::datatypes::DataType::Float32, false),
        array: std::sync::Arc::new(arrow2::array::Float32Array::from_vec(
            bits.into_iter().map(|b| arrow2::types::NativeType::from_le_bytes(b.to_le_bytes())).collect(),
        )),
    }
}

/// Relies on arrow2's `Field::new` and `Utf8Array::from_iter_values`, with
/// 64-bit offsets: the offset type cannot overflow for any text volume a
/// machine holds, so the constructor cannot panic.
#[verifier::external_body]
fn arrow_col_utf8(name: &str, vals: Vec<String>) -> (c: ArrowColumn)
    ensures
        arrow_col_model(c) == (name@, ColView::Utf8(vals.deep_view())),
{
    ArrowColumn {
        field: arrow2::datatypes::Field::new(name, arrow2::datatypes::DataType::LargeUtf8, false),
        array: std::sync::Arc::new(arrow2::array::Utf8Array::<i64>::from_iter_values(
            vals.into_iter(),
        )),
    }
}

/// Relies on arrow2's `Field::new` and `Utf8Array`'s `FromIterator` over
/// `Option`: absent entries become nulls of a nullable text column. 64-bit
/// offsets again, so the constructor cannot panic on any real text volume.
#[verifier::external_body]
fn arrow_col_opt_utf8(name: &str, vals: Vec<Option<String>>) -> (c: ArrowColumn)
    ensures
        arrow_col_model(c) == (name@, ColView::OptUtf8(vals.deep_view())),
{
    ArrowColumn {
        field: arrow2::datatypes::Field::new(name, arrow2::datatypes::DataType::LargeUtf8, true),
        array: std::sync::Arc::new(arrow2::array::Utf8Array::<i64>::from_iter(vals)),
    }
}

/// Relies on arrow2's `io::csv::write::{write_header, write_chunk}` with
/// default `SerializeOptions`, into an in-memory buffer. The writer's only
/// error path on the column types this crate constructs is the length check
/// in `Chunk::try_new`; the buffer itself cannot fail, so equal-length
/// batches always encode.
#[verifier::external_body]
fn arrow_csv_bytes(cols: Vec<ArrowColumn>) -> (r: Result<Vec<u8>, arrow2::error::Error>)
    ensures
        r is Ok ==> r->Ok_0@ == csv_bytes_of(models_of(cols@)),
        models_same_len(models_of(cols@)) ==> r is Ok,
{
    let options = arrow2::io::csv::write::SerializeOptions::default();
    let (fields, arrays): (Vec<_>, Vec<_>) = cols.into_iter().map(|c| (c.field, c.array)).unzip();
    let names: Vec<String> = fields.iter().map(|f| f.name.clone()).collect();
    let chunk = arrow2::chunk::Chunk::try_new(arrays)?;
    let mut out = Vec::new();
    arrow2::io::csv::write::write_header(&mut out, &names, &options)?;
    arrow2::io::csv::write::write_chunk(&mut out, &chunk, &options)?;
    Ok(out)
}

/// arrow2's parquet writer configuration, carried opaquely between the
/// trusted items.
#[verifier::external_type_specification]
#[verifier::external_body]
pub struct ExWriteOptions(pq::WriteOptions);

/// Relies on arrow2's parquet `WriteOptions`: the fixed configuration this
/// crate writes with — statistics on, zstd at its default level.
#[verifier::external_body]
fn parquet_write_options() -> (o: pq::WriteOptions) {
    pq::WriteOptions {
        write_statistics: true,
        version: pq::Version::V2,
        compression: pq::CompressionOptions::Zstd(None),
        data_pagesize_limit: None,
    }
}

/// Relies on arrow2's parquet writer (`RowGroupIterator`, `FileWriter`):
/// one row group, plain encoding for every (flat) column, footer finalized
/// by `end`, into an in-memory buffer. For a non-empty batch of equal-length
/// columns of the types this crate constructs, no error path remains: the
/// schema converts, one encoding is supplied per field, and every write goes
/// to the buffer.
#[verifier::external_body]
fn arrow_parquet_bytes(cols: Vec<ArrowColumn>) -> (r: Result<Vec<u8>, arrow2::error::Error>)
    ensures
        r is Ok ==> r->Ok_0@ == parquet_bytes_of(models_of(cols@)),
        cols@.len() > 0 && models_same_len(models_of(cols@)) ==> r is Ok,
{
    let options = parquet_write_options();
    let (fields, arrays): (Vec<_>, Vec<_>) = cols.into_iter().map(|c| (c.field, c.array)).unzip();
    let schema = arrow2::datatypes::Schema::from(fields);
    let encodings = schema.fields.iter().map(|_| vec![pq::Encoding::Plain]).collect();
    let chunk = arrow2::chunk::Chunk::try_new(arrays)?;
    let groups = pq::RowGroupIterator::try_new(vec![Ok(chunk)].into_iter(), &schema, options, encodings)?;
    let mut writer = pq::FileWriter::try_new(Vec::new(), schema, options)?;
    for group in groups {
        writer.write(group?)?;
    }
    writer.end(None)?;
    Ok(writer.into_inner())
}

/// Relies on `flate2::write::GzEncoder` over an in-memory buffer at the
/// default level; writing to a `Vec` cannot fail, so neither can this.
#[verifier::external_body]
fn gzip_bytes(data: &Vec<u8>) -> (r: Vec<u8>)
    ensures
        r@ == gzip_of(data@),
{
    let mut enc = flate2::write::GzEncoder::new(Vec::new(), flate2::Compression::default());
    enc.write_all(data).unwrap();
    enc.finish().unwrap()
}

/// A compressing text sink: UTF-8 text fed in, a gzip stream out. Holds a
/// `flate2` encoder over an in-memory buffer, opaque to the verifier.
#[verifier::external_body]
pub struct GzSink {
    enc: flate2::write::GzEncoder<Vec<u8>>,
}

/// The text fed to a `GzSink` so far.
pub uninterp spec fn gz_fed(s: GzSink) -> Seq<char>;

impl GzSink {
    /// Relies on `flate2::write::GzEncoder::new` at the default level.
    #[verifier::external_body]
    pub(crate) fn new() -> (s: GzSink)
        ensures
            gz_fed(s) == Seq::<char>::empty(),
    {
        GzSink { enc: flate2::write::GzEncoder::new(Vec::new(), flate2::Compression::default()) }
    }

    /// Relies on `Write::write_all` of the encoder; writing to a `Vec`-backed
    /// encoder cannot fail.
    #[verifier::external_body]
    pub(crate) fn push_str(&mut self, part: &str)
        ensures
            gz_fed(*final(self)) == gz_fed(*old(self)) + part@,
    {
        self.enc.write_all(part.as_bytes()).unwrap();
    }

    /// Relies on `GzEncoder::finish`: the buffer then holds the gzip stream
    /// of exactly the UTF-8 encoding of the text fed.
    #[verifier::external_body]
    pub(crate) fn finish(self) -> (r: Vec<u8>)
        ensures
            r@ == gzip_of(vstd::utf8::encode_utf8(gz_fed(self))),
    {
        self.enc.finish().unwrap()
    }
}

fn column_to_arrow(name: String, col: Column) -> (c: ArrowColumn)
    ensures
        arrow_col_model(c) == (name@, col@),
{
    match col {
        Column::U8(v) => arrow_col_u8(name.as_str(), v),
        Column::U16(v) => arrow_col_u16(name.as_str(), v),
        Column::U32(v) => arrow_col_u32(name.as_str(), v),
        Column::U64(v) => arrow_col_u64(name.as_str(), v),
        Column::F32Bits(v) => arrow_col_f32(name.as_str(), v),
        Column::Utf8(v) => arrow_col_utf8(name.as_str(), v),
        Column::OptUtf8(v) => arrow_col_opt_utf8(name.as_str(), v),
    }
}

fn table_to_arrow(t: Table) -> (r: Vec<ArrowColumn>)
    requires
        t.names@.len() == t.cols@.len(),
    ensures
        models_of(r@) =~= t@,
{
    let ghost orig = t@;
    let Table { mut names, mut cols } = t;
    let mut out: Vec<ArrowColumn> = Vec::new();
    while names.len() > 0
        invariant
            names@.len() == cols@.len(),
            out@.len() + cols@.len() == orig.len(),
            forall|j: int| 0 <= j < out@.len() ==> arrow_col_model(out@[j]) == orig[j],
            forall|j: int|
                0 <= j < cols@.len() ==> orig[out@.len() + j] == (names@[j]@, cols@[j]@),
        decreases names@.len(),
    {
        let name = names.remove(0);
        let col = cols.remove(0);
        out.push(column_to_arrow(name, col));
    }
    out
}

/// The bytes `encode_table` produces for a concrete (non-`Infer`) format.
pub open spec fn table_bytes(fmt: OutputFormat, cols: Seq<(Seq<char>, ColView)>) -> Seq<u8> {
    match fmt {
        OutputFormat::CsvGz => gzip_of(csv_bytes_of(cols)),
        OutputFormat::Parquet => parquet_bytes_of(cols),
        _ => csv_bytes_of(cols),
    }
}

/// Encodes a table for the format that `fmt` and the filename resolve to.
/// The whole encoded artifact is returned as bytes; writing them to the named
/// file is the caller's one remaining step. Success is owed whenever the
/// format resolves: the codecs cannot fail on a well-formed batch (for the
/// columnar format, one with at least one column).
pub fn encode_table(filename: &str, fmt: OutputFormat, table: Table) -> (r: Result<
    Vec<u8>,
    ExportError,
>)
    requires
        table.wf(),
    ensures
        resolved_format(fmt, filename@) is None ==> r == Result::<
            Vec<u8>,
            ExportError,
        >::Err(ExportError::UnknownFormat),
        resolved_format(fmt, filename@) matches Some(f) ==> {
            &&& r matches Ok(b) ==> b@ == table_bytes(f, table@)
            &&& r is Err ==> r == Result::<Vec<u8>, ExportError>::Err(ExportError::Encode)
        },
        resolved_format(fmt, filename@) matches Some(f) && f != OutputFormat::Parquet ==> r is Ok,
        resolved_format(fmt, filename@) is Some && table@.len() > 0 ==> r is Ok,
{
    let resolved = match crate::format::resolve_format(fmt, filename) {
        Ok(f) => f,
        Err(e) => {
            return Err(e);
        },
    };
    let ghost tview = table@;
    let arrow_cols = table_to_arrow(table);
    proof {
        assert forall|i: int, j: int|
            0 <= i < models_of(arrow_cols@).len() && 0 <= j < models_of(
                arrow_cols@,
            ).len() implies crate::table::col_len(models_of(arrow_cols@)[i].1)
            == crate::table::col_len(models_of(arrow_cols@)[j].1) by {
            assert(models_of(arrow_cols@)[i] == tview[i]);
            assert(models_of(arrow_cols@)[j] == tview[j]);
        }
        assert(models_same_len(models_of(arrow_cols@)));
        assert(arrow_cols@.len() == tview.len());
    }
    match resolved {
        OutputFormat::Csv => match arrow_csv_bytes(arrow_cols) {
            Ok(b) => Ok(b),
            Err(_) => Err(ExportError::Encode),
        },
        OutputFormat::CsvGz => match arrow_csv_bytes(arrow_cols) {
            Ok(b) => Ok(gzip_bytes(&b)),
            Err(_) => Err(ExportError::Encode),
        },
        OutputFormat::Parquet => match arrow_parquet_bytes(arrow_cols) {
            Ok(b) => Ok(b),
            Err(_) => Err(ExportError::Encode),
        },
        OutputFormat::Infer => Err(ExportError::UnknownFormat),
    }
}

/// A compressed table is the gzip stream of exactly the bytes of the plain
/// delimited-text table: decompressing one yields the other, byte for byte.
pub proof fn lemma_compressed_matches_plain(cols: Seq<(Seq<char>, ColView)>)
    ensures
        table_bytes(OutputFormat::CsvGz, cols) == gzip_of(
            table_bytes(OutputFormat::Csv, cols),
        ),
{
}

} // verus!
