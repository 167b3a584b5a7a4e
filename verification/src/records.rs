//! What the library takes from the csv crate: the cells of a table that is
//! written as comma-separated values.

use vstd::prelude::*;

verus! {

/// The error of the csv crate, `csv::Error`. Nothing is said of what is
/// inside: the library only tells that there was one.
#[verifier::external_type_specification]
#[verifier::external_body]
pub struct ExCsvError(csv::Error);

/// The cells of the first record of `data`, which a reader of the csv crate
/// in its default configuration takes for the header: what
/// `csv::Reader::headers` gives. `None` where it gives an error, which it
/// does if the record is not UTF-8.
pub uninterp spec fn header_cells(data: Seq<u8>) -> Option<Seq<Seq<char>>>;

/// The cells of the records of `data` after the first, record by record: what
/// the iterator of `csv::Reader::into_records` gives, on a reader in its
/// default configuration. `None` where it gives an error for one of the
/// records: the record is not UTF-8, or has another number of cells than the
/// first record of `data`.
pub uninterp spec fn record_cells(data: Seq<u8>) -> Option<Seq<Seq<Seq<char>>>>;

/// Calls `csv::Reader::headers` on a reader over `data`. Believed, not
/// proved: what comes back depends on the bytes of `data` alone.
#[verifier::external_body]
pub(crate) fn read_header(data: &[u8]) -> (header: Result<Vec<String>, csv::Error>)
    ensures
        header is Ok <==> header_cells(data@) is Some,
        header matches Ok(names) ==> header_cells(data@) == Some(names.deep_view()),
{
    let mut reader = csv::Reader::from_reader(data);
    let names = reader.headers()?;
    Ok(names.iter().map(String::from).collect())
}

/// Calls `csv::Reader::into_records` on a reader over `data` and collects
/// what the iterator gives, up to its first error. Believed, not proved: what
/// comes back depends on the bytes of `data` alone.
#[verifier::external_body]
pub(crate) fn read_records(data: &[u8]) -> (records: Result<Vec<Vec<String>>, csv::Error>)
    ensures
        records is Ok <==> record_cells(data@) is Some,
        records matches Ok(rows) ==> record_cells(data@) == Some(rows.deep_view()),
{
    csv::Reader::from_reader(data)
        .into_records()
        .map(|record| record.map(|cells| cells.iter().map(String::from).collect()))
        .collect()
}

} // verus!
