use vstd::prelude::*;
use crate::grid::{Grid, is_table, table_text};

verus! {

#[verifier::external_type_specification]
#[verifier::external_body]
pub struct ExCsvError(csv::Error);

/// The rows that csv's reader finds in `bytes`, with no header row, each
/// record a row of its fields; nothing when a record fails to decode.
pub uninterp spec fn csv_records(bytes: Seq<u8>) -> Option<Seq<Seq<Seq<char>>>>;

/// The delimited text that csv's writer makes of `rows`, one record per
/// row.
pub uninterp spec fn csv_text(rows: Seq<Seq<Seq<char>>>) -> Seq<u8>;

/// Relies on csv's `ReaderBuilder::has_headers(false)` and
/// `Reader::records`: every record of `bytes` in order, as a row of its
/// fields, or the first error; what comes out depends on the bytes alone.
#[verifier::external_body]
fn decode_records(bytes: &[u8]) -> (r: Result<Vec<Vec<String>>, csv::Error>)
    ensures
        r is Ok <==> csv_records(bytes@) is Some,
        r matches Ok(rows) ==> table_text(rows@) == csv_records(bytes@)->0,
{
    let mut reader = csv::ReaderBuilder::new().has_headers(false).from_reader(bytes);
    reader.records().map(|rec| rec.map(|rec| rec.iter().map(|f| f.to_string()).collect())).collect()
}

/// Relies on csv's `Writer::write_record`, once per row, and
/// `Writer::into_inner`, writing into memory: the bytes depend on the rows
/// alone, and with rows of equal lengths nothing fails (the writer refuses
/// only unequal lengths, and writing into a `Vec` cannot fail).
#[verifier::external_body]
fn encode_records(rows: &Vec<Vec<String>>) -> (r: Result<Vec<u8>, csv::Error>)
    ensures
        r matches Ok(b) ==> b@ == csv_text(table_text(rows@)),
        (forall|i: int| 0 <= i < rows@.len() ==> #[trigger] rows@[i]@.len() == rows@[0]@.len())
            ==> r is Ok,
{
    let mut writer = csv::Writer::from_writer(Vec::new());
    for row in rows.iter() {
        writer.write_record(row)?;
    }
    writer.into_inner().map_err(|e| csv::Error::from(e.into_error()))
}

/// Why stored text could not be turned into a grid, or a grid into text.
#[derive(Clone, Copy, Debug, PartialEq, Eq, Structural)]
pub enum StoreError {
    /// The delimited text did not decode, or could not be written.
    Format,
    /// The records do not form a table: none, an empty first one, or
    /// records of unequal lengths.
    NotRectangular,
}

/// A grid over the records of the delimited text `bytes`, every record a
/// row; the first row is kept as data whether or not it is a header.
pub fn read(bytes: &[u8]) -> (r: Result<Grid, StoreError>)
    ensures
        r is Ok <==> (csv_records(bytes@) is Some && is_table(csv_records(bytes@)->0)),
        r matches Ok(g) ==> g.wf() && g@ == csv_records(bytes@)->0 && !g.has_header,
        r matches Err(e) ==> (e == StoreError::Format <==> csv_records(bytes@) is None),
{
    match decode_records(bytes) {
        Ok(rows) => match Grid::from_rows(rows) {
            Ok(g) => Ok(g),
            Err(_) => Err(StoreError::NotRectangular),
        },
        Err(_) => Err(StoreError::Format),
    }
}

/// The grid as delimited text, one record per row in order; a well-formed
/// grid is always written.
pub fn write(grid: &Grid) -> (r: Result<Vec<u8>, StoreError>)
    ensures
        r matches Ok(b) ==> b@ == csv_text(grid@),
        r matches Err(e) ==> e == StoreError::Format,
        grid.wf() ==> r is Ok,
{
    proof {
        if grid.wf() {
            assert forall|i: int| 0 <= i < grid.data@.len() implies #[trigger] grid.data@[i]@.len()
                == grid.data@[0]@.len() by {
                assert(grid@[i].len() == grid@[0].len());
            }
        }
    }
    match encode_records(&grid.data) {
        Ok(b) => Ok(b),
        Err(_) => Err(StoreError::Format),
    }
}

} // verus!
