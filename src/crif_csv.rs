use vstd::prelude::*;

use crate::simm_utils::{Crif, Table};

verus! {

/// The table that the `csv` crate reads from a text: the header record, then
/// each data record, each as its fields.
pub uninterp spec fn csv_table_of(s: Seq<char>) -> Table;

#[verifier::external_type_specification]
#[verifier::external_body]
pub struct ExCsvError(csv::Error);

/// Why a CRIF text could not be read.
#[derive(Debug, Clone, Copy, PartialEq, Eq, Structural)]
pub enum CrifError {
    /// The text is not CSV with records of equal length.
    MalformedCsv,
}

/// Relies on `csv::Reader::from_reader`, `Reader::headers` and
/// `Reader::records` (default settings: the first record is the header,
/// records of unequal length are an error): the records read from `s`, header
/// first, depend on `s` alone.
#[verifier::external_body]
fn read_csv_records(s: &str) -> (r: Result<Vec<Vec<String>>, csv::Error>)
    ensures
        match r {
            Ok(t) => t.deep_view() == csv_table_of(s@) && t@.len() >= 1,
            Err(_) => true,
        },
{
    let mut reader = csv::Reader::from_reader(s.as_bytes());
    let header: Vec<String> = reader.headers()?.iter().map(|f| f.to_string()).collect();
    let rows: Result<Vec<Vec<String>>, csv::Error> = reader.records().map(
        |rec| rec.map(|r| r.iter().map(|f| f.to_string()).collect()),
    ).collect();
    let mut data = vec![header];
    data.extend(rows?);
    Ok(data)
}

/// Reads a CRIF table from CSV text: the header row, then one row per record.
pub fn parse_csv_from_string(csv_content: &str) -> (r: Result<Crif, CrifError>)
    ensures
        match r {
            Ok(t) => t.deep_view() == csv_table_of(csv_content@) && t@.len() >= 1,
            Err(e) => e == CrifError::MalformedCsv,
        },
{
    match read_csv_records(csv_content) {
        Ok(t) => Ok(t),
        Err(_) => Err(CrifError::MalformedCsv),
    }
}

} // verus!
