//! Splitting the bytes of a log into rows and fields.

use vstd::prelude::*;

verus! {

/// The rows that csv's reader finds in the bytes of a file, in the order of
/// the file, the first row included. A row is the text of each of its
/// fields, or `None` where the reader reports an error for it.
pub uninterp spec fn csv_rows(bytes: Seq<u8>) -> Seq<Option<Seq<Seq<char>>>>;

/// csv's `ReaderBuilder::from_reader` over the bytes, told by `has_headers`
/// not to hold the first row back, and its `into_records` walked to the end.
/// Each record becomes the characters of its fields; a record for which the
/// reader gives an error becomes `None`.
#[verifier::external_body]
pub(crate) fn read_rows(bytes: &Vec<u8>) -> (rows: Vec<Option<Vec<Vec<char>>>>)
    ensures
        rows.deep_view() == csv_rows(bytes@),
{
    csv::ReaderBuilder::new()
        .has_headers(false)
        .from_reader(bytes.as_slice())
        .into_records()
        .map(|row| row.ok().map(|fields| fields.iter().map(|f| f.chars().collect()).collect()))
        .collect()
}

} // verus!
