use vstd::prelude::*;

use polars::prelude::{Column, DataFrame, JsonReader, ParquetCompression, ParquetWriter, PolarsError, SerReader};

use crate::error::ArchiveError;
use crate::json::{json_member, json_member_of, json_text_of, json_to_text};

verus! {

/// polars' table type, carried through without looking inside.
#[verifier::external_type_specification]
#[verifier::external_body]
pub struct ExDataFrame(DataFrame);

/// polars' column type, declared because `DataFrame`'s indexing impls name it.
#[verifier::external_type_specification]
#[verifier::external_body]
pub struct ExColumn(Column);

/// polars' error type, only ever discarded.
#[verifier::external_type_specification]
#[verifier::external_body]
pub struct ExPolarsError(PolarsError);

/// How many records the schema is inferred from. Records after these must fit
/// the inferred schema, else reading fails.
pub const SCHEMA_SAMPLE_LEN: usize = 100;

/// The table polars reads from the JSON text, with the schema inferred from the
/// first `sample` records, if that read succeeds.
pub uninterp spec fn json_table_of(text: Seq<char>, sample: nat) -> Option<DataFrame>;

/// The Snappy-compressed Parquet encoding of a table, if polars can write it.
pub uninterp spec fn parquet_snappy_of(df: DataFrame) -> Option<Seq<u8>>;

/// Relies on polars' `JsonReader` with `infer_schema_len`: reads a JSON array of
/// records into a table, inferring column names and types from the first
/// `sample` records. The outcome depends on the text and `sample` alone.
#[verifier::external_body]
fn read_json_records(text: &str, sample: usize) -> (r: Result<DataFrame, PolarsError>)
    requires
        sample > 0,
    ensures
        r is Ok <==> json_table_of(text@, sample as nat) is Some,
        r matches Ok(df) ==> json_table_of(text@, sample as nat) == Some(df),
{
    JsonReader::new(std::io::Cursor::new(text.as_bytes()))
        .infer_schema_len(std::num::NonZeroUsize::new(sample))
        .finish()
}

/// Relies on polars' `ParquetWriter` with Snappy compression: encodes the table
/// as a Parquet file held in memory, a function of the table alone.
#[verifier::external_body]
fn parquet_snappy_bytes(df: &mut DataFrame) -> (r: Result<Vec<u8>, PolarsError>)
    ensures
        r is Ok <==> parquet_snappy_of(*old(df)) is Some,
        r matches Ok(b) ==> parquet_snappy_of(*old(df)) == Some(b@),
{
    let mut buf: Vec<u8> = Vec::new();
    let written = ParquetWriter::new(&mut buf).with_compression(ParquetCompression::Snappy).finish(df);
    written.map(|_| buf)
}

/// Reads a JSON array of records as a table, the schema inferred from the first
/// `SCHEMA_SAMPLE_LEN` records; fails with `Schema` exactly where that read fails.
pub fn table_from_json_text(text: &str) -> (r: Result<DataFrame, ArchiveError>)
    ensures
        r is Ok <==> json_table_of(text@, SCHEMA_SAMPLE_LEN as nat) is Some,
        r matches Ok(df) ==> json_table_of(text@, SCHEMA_SAMPLE_LEN as nat) == Some(df),
        r matches Err(e) ==> e is Schema,
{
    match read_json_records(text, SCHEMA_SAMPLE_LEN) {
        Ok(df) => Ok(df),
        Err(_) => Err(ArchiveError::Schema),
    }
}

/// The JSON text of the member under `field` of a response, if the member exists
/// and can be written back as text.
pub open spec fn member_text(response: serde_json::Value, field: Seq<char>) -> Option<Seq<char>> {
    match json_member_of(response, field) {
        Some(m) => json_text_of(m),
        None => None,
    }
}

/// Takes the records under `field` of the response and reads them as a table.
/// An absent field, or one that cannot be written back as JSON text, is an
/// `Extraction` error; a failed read of the records is a `Schema` error. The
/// outcome depends on the member under `field` alone.
pub fn extract_table(response: &serde_json::Value, field: &str) -> (r: Result<DataFrame, ArchiveError>)
    ensures
        json_member_of(*response, field@) is None ==> (r matches Err(e) && e is Extraction),
        (r matches Err(e) && e is Extraction) <==> member_text(*response, field@) is None,
        member_text(*response, field@) matches Some(t) ==> {
            &&& r is Ok <==> json_table_of(t, SCHEMA_SAMPLE_LEN as nat) is Some
            &&& r matches Ok(df) ==> json_table_of(t, SCHEMA_SAMPLE_LEN as nat) == Some(df)
            &&& r matches Err(e) ==> e is Schema
        },
{
    let records = match json_member(response, field) {
        Some(v) => v,
        None => return Err(ArchiveError::Extraction),
    };
    let text = match json_to_text(records) {
        Ok(t) => t,
        Err(_) => return Err(ArchiveError::Extraction),
    };
    table_from_json_text(text.as_str())
}

/// Encodes the table as Snappy-compressed Parquet, ready to be written to a file.
pub fn encode_table(df: &mut DataFrame) -> (r: Result<Vec<u8>, ArchiveError>)
    ensures
        r is Ok <==> parquet_snappy_of(*old(df)) is Some,
        r matches Ok(b) ==> parquet_snappy_of(*old(df)) == Some(b@),
        r matches Err(e) ==> e is Io,
{
    match parquet_snappy_bytes(df) {
        Ok(bytes) => Ok(bytes),
        Err(_) => Err(ArchiveError::Io),
    }
}

} // verus!
