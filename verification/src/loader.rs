//! Loading a table from comma-separated text.
//!
//! The text has no header row. Every row has two fields, the name in kanji
//! and the name in kana; fields may be quoted.

use vstd::prelude::*;
use crate::record::{table_text, Record, RecordText};

verus! {

/// `csv::Reader`, the reader of comma-separated text. The library sees of
/// it only what `pending_rows` names.
#[verifier::external_type_specification]
#[verifier::external_body]
#[verifier::reject_recursive_types(R)]
pub struct ExCsvReader<R>(csv::Reader<R>);

/// `csv::Error`, the error of that reader. The library does not look inside
/// it.
#[verifier::external_type_specification]
#[verifier::external_body]
pub struct ExCsvError(csv::Error);

/// What a reader over the bytes `data`, set up for text without a header
/// row, gives row by row until the data ends: the texts of a row's fields,
/// or `None` where it reports an error in place of a row.
pub uninterp spec fn csv_rows(data: Seq<u8>) -> Seq<Option<Seq<Seq<char>>>>;

/// What `reader` has yet to give, row by row, until its data ends.
pub uninterp spec fn pending_rows(reader: csv::Reader<&[u8]>) -> Seq<Option<Seq<Seq<char>>>>;

/// Why a table could not be loaded. `row` counts the rows from zero.
#[derive(Debug, PartialEq, Eq, Clone, Copy)]
pub enum ParseError {
    /// In place of row `row` the reader reported an error: a field is not
    /// valid UTF-8, or the row has another number of fields than the first
    /// row.
    Syntax { row: usize },
    /// Row `row` does not have exactly two fields.
    FieldCount { row: usize },
}

/// The texts of the fields of one row.
pub open spec fn row_text(fields: Seq<String>) -> Seq<Seq<char>> {
    fields.map_values(|field: String| field@)
}

/// The record that a row of two fields stands for: kanji first, kana second.
pub open spec fn record_of(row: Seq<Seq<char>>) -> RecordText {
    RecordText { kanji: row[0], kana: row[1] }
}

/// Whether the reader gave a row, and the row has exactly two fields.
pub open spec fn is_pair(row: Option<Seq<Seq<char>>>) -> bool {
    row matches Some(fields) && fields.len() == 2
}

/// Whether `at` is the first place in `rows` that is not a row of two
/// fields.
pub open spec fn first_fault(rows: Seq<Option<Seq<Seq<char>>>>, at: int) -> bool {
    &&& 0 <= at < rows.len()
    &&& !is_pair(rows[at])
    &&& forall|i: int| 0 <= i < at ==> is_pair(#[trigger] rows[i])
}

/// Whether `outcome` is what loading gives for `rows`.
///
/// Where every row is a row of two fields, that is one record for each row,
/// in the order of the rows. Else it is the error of the first place that is
/// not such a row: `Syntax` where the reader reported an error there,
/// `FieldCount` where it gave a row.
pub open spec fn loads_as(
    rows: Seq<Option<Seq<Seq<char>>>>,
    outcome: Result<Vec<Record>, ParseError>,
) -> bool {
    match outcome {
        Ok(table) => {
            &&& table@.len() == rows.len()
            &&& forall|i: int|
                0 <= i < rows.len() ==> is_pair(#[trigger] rows[i]) && table@[i]@ == record_of(
                    rows[i]->0,
                )
        },
        Err(ParseError::Syntax { row }) => first_fault(rows, row as int) && rows[row as int] is None,
        Err(ParseError::FieldCount { row }) => first_fault(rows, row as int)
            && rows[row as int] is Some,
    }
}

/// Builds a reader over `data` with `csv::ReaderBuilder`: `has_headers`
/// switched off, everything else as the builder sets it, then `from_reader`.
/// The contract names what the new reader will give: `csv_rows(data)`.
#[verifier::external_body]
fn open_reader<'a>(data: &'a [u8]) -> (reader: csv::Reader<&'a [u8]>)
    ensures
        pending_rows(reader) == csv_rows(data@),
{
    csv::ReaderBuilder::new().has_headers(false).from_reader(data)
}

/// Calls `csv::Reader::read_record` once and hands out the fields of the row
/// that it read as strings.
///
/// The contract claims that the call takes the first of the pending rows
/// away and returns it, a row as `Ok` and a reported error as `Err`, and that
/// it returns `None`, with nothing pending before or after, at the end of the
/// data.
#[verifier::external_body]
fn next_row(reader: &mut csv::Reader<&[u8]>) -> (next: Option<Result<Vec<String>, csv::Error>>)
    ensures
        next is None ==> pending_rows(*old(reader)).len() == 0 && pending_rows(*final(reader)).len()
            == 0,
        next is Some ==> pending_rows(*old(reader)).len() > 0 && pending_rows(*final(reader))
            == pending_rows(*old(reader)).skip(1),
        next matches Some(Ok(fields)) ==> pending_rows(*old(reader))[0] == Some(row_text(fields@)),
        next matches Some(Err(_)) ==> pending_rows(*old(reader))[0] is None,
{
    let mut record = csv::StringRecord::new();
    match reader.read_record(&mut record) {
        Ok(true) => Some(Ok(record.iter().map(String::from).collect())),
        Ok(false) => None,
        Err(error) => Some(Err(error)),
    }
}

/// Turns the fields of one row into a record: the first field is the name in
/// kanji, the second the name in kana. `None` where the row does not have
/// exactly two fields.
pub fn record_from_fields(fields: &Vec<String>) -> (record: Option<Record>)
    ensures
        match record {
            Some(r) => fields@.len() == 2 && r@ == record_of(row_text(fields@)),
            None => fields@.len() != 2,
        },
{
    if fields.len() != 2 {
        return None;
    }
    Some(Record { name_kanji: fields[0].clone(), name_kana: fields[1].clone() })
}

/// Loads a table from the bytes of comma-separated text without a header
/// row.
///
/// Gives one record for each row of the text, in the order of the rows, and
/// stops with an error at the first row that the reader refuses or that does
/// not have exactly two fields.
pub fn import_csv(data: &[u8]) -> (outcome: Result<Vec<Record>, ParseError>)
    ensures
        loads_as(csv_rows(data@), outcome),
{
    let mut reader = open_reader(data);
    let mut table: Vec<Record> = Vec::new();
    loop
        invariant
            table@.len() <= csv_rows(data@).len(),
            pending_rows(reader) == csv_rows(data@).skip(table@.len() as int),
            forall|i: int|
                0 <= i < table@.len() ==> is_pair(#[trigger] csv_rows(data@)[i]) && table@[i]@
                    == record_of(csv_rows(data@)[i]->0),
        decreases pending_rows(reader).len(),
    {
        let ghost at = table@.len() as int;
        let ghost rows = csv_rows(data@);
        assert(pending_rows(reader).len() > 0 ==> pending_rows(reader)[0] == rows[at]);
        match next_row(&mut reader) {
            None => {
                return Ok(table);
            },
            Some(Err(_)) => {
                return Err(ParseError::Syntax { row: table.len() });
            },
            Some(Ok(fields)) => {
                match record_from_fields(&fields) {
                    None => {
                        return Err(ParseError::FieldCount { row: table.len() });
                    },
                    Some(record) => {
                        table.push(record);
                        assert(rows.skip(at).skip(1) =~= rows.skip(at + 1));
                    },
                }
            },
        }
    }
}

/// The rows decide what loading gives: two outcomes for the same rows are
/// the same error, or two tables of the same records.
pub proof fn lemma_outcome_is_determined(
    rows: Seq<Option<Seq<Seq<char>>>>,
    first: Result<Vec<Record>, ParseError>,
    second: Result<Vec<Record>, ParseError>,
)
    requires
        loads_as(rows, first),
        loads_as(rows, second),
    ensures
        match (first, second) {
            (Ok(a), Ok(b)) => table_text(a@) == table_text(b@),
            (Err(e), Err(f)) => e == f,
            _ => false,
        },
{
    match (first, second) {
        (Ok(a), Ok(b)) => {
            assert forall|i: int| 0 <= i < rows.len() implies table_text(a@)[i] == table_text(
                b@,
            )[i] by {
                assert(is_pair(rows[i]));
            }
            assert(table_text(a@) =~= table_text(b@));
        },
        _ => {},
    }
}

} // verus!
