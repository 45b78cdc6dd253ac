//! Declarations of the outside types that the library carries, and the
//! trusted wrappers around the outside calls that it makes.
use vstd::prelude::*;
use vstd::utf8::encode_utf8;

verus! {

/// The error type of the csv crate, carried through as is.
#[verifier::external_type_specification]
#[verifier::external_body]
pub struct ExCsvError(csv::Error);

/// The error type of calamine's workbook readers, carried through as is.
#[verifier::external_type_specification]
#[verifier::external_body]
pub struct ExSpreadsheetError(calamine::Error);

/// The kind of error that a spreadsheet cell holds: an enum of calamine
/// whose variants carry no data.
#[verifier::external_type_specification]
pub struct ExCellErrorType(calamine::CellErrorType);

/// A rectangle of cells of a worksheet, as calamine reads it.
#[verifier::external_type_specification]
#[verifier::external_body]
#[verifier::reject_recursive_types(T)]
pub struct ExRange<T>(calamine::Range<T>);

/// The text that a table of formulas holds at each absolute (row, column)
/// position that lies in it.
pub uninterp spec fn formula_cells(table: calamine::Range<String>) -> Map<(u32, u32), Seq<char>>;

/// Relies on calamine's `Range::get_value`: the value stored at an absolute
/// (row, column) position, or nothing where the position lies outside.
#[verifier::external_body]
pub(crate) fn formula_at(table: &calamine::Range<String>, row: u32, col: u32) -> (r: Option<
    String,
>)
    ensures
        r is Some <==> formula_cells(*table).contains_key((row, col)),
        r is Some ==> r->0@ == formula_cells(*table)[(row, col)],
{
    table.get_value((row, col)).cloned()
}

/// A byte for which csv's writer quotes the field that holds it: the
/// delimiter, the quote `"`, the terminator, and both CR and LF where the
/// terminator is one of them.
pub open spec fn special_byte(b: u8, delimiter: u8, terminator: u8) -> bool {
    b == delimiter || b == 34 || b == terminator || ((terminator == 10 || terminator == 13) && (b
        == 10 || b == 13))
}

pub open spec fn needs_quotes(field: Seq<u8>, delimiter: u8, terminator: u8) -> bool {
    exists|i: int| 0 <= i < field.len() && special_byte(#[trigger] field[i], delimiter, terminator)
}

/// The bytes of a field with each quote doubled.
pub open spec fn doubled_quotes(field: Seq<u8>) -> Seq<u8>
    decreases field.len(),
{
    if field.len() == 0 {
        Seq::empty()
    } else {
        (if field[0] == 34 {
            seq![34u8, 34u8]
        } else {
            seq![field[0]]
        }) + doubled_quotes(field.drop_first())
    }
}

/// One field as csv writes it: between quotes, its own quotes doubled, where
/// it holds a special byte; as it is otherwise.
pub open spec fn csv_field(field: Seq<u8>, delimiter: u8, terminator: u8) -> Seq<u8> {
    if needs_quotes(field, delimiter, terminator) {
        seq![34u8] + doubled_quotes(field) + seq![34u8]
    } else {
        field
    }
}

/// The fields as csv writes them, separated by the delimiter.
pub open spec fn csv_fields(fields: Seq<Seq<u8>>, delimiter: u8, terminator: u8) -> Seq<u8>
    decreases fields.len(),
{
    if fields.len() == 0 {
        Seq::empty()
    } else if fields.len() == 1 {
        csv_field(fields[0], delimiter, terminator)
    } else {
        csv_fields(fields.drop_last(), delimiter, terminator) + seq![delimiter] + csv_field(
            fields.last(),
            delimiter,
            terminator,
        )
    }
}

/// The bytes of one record as csv's writer lays it out: the UTF-8 bytes of
/// the fields written as above, then the terminator; a record that would
/// otherwise be empty is written as `""` before the terminator.
pub open spec fn csv_record(fields: Seq<Seq<char>>, delimiter: u8, terminator: u8) -> Seq<u8> {
    let body = csv_fields(fields.map_values(|f: Seq<char>| encode_utf8(f)), delimiter, terminator);
    if body.len() == 0 {
        seq![34u8, 34u8, terminator]
    } else {
        body.push(terminator)
    }
}

/// Relies on csv's `Writer::write_record`, on a writer that `WriterBuilder`
/// sets up with this delimiter and this terminator byte and csv's defaults
/// otherwise (quotes only where needed, doubled quotes, no comment byte),
/// writing into memory, then `Writer::into_inner`: the bytes of the one
/// record written. Writing into a `Vec` does not fail, and the field count
/// check passes on a writer's first record.
#[verifier::external_body]
pub(crate) fn encode_record(fields: &Vec<String>, delimiter: u8, terminator: u8) -> (r: Result<
    Vec<u8>,
    csv::Error,
>)
    ensures
        r is Ok,
        r->Ok_0@ == csv_record(
            fields@.map_values(|f: String| f@),
            delimiter,
            terminator,
        ),
{
    let mut writer = csv::WriterBuilder::new().delimiter(delimiter).terminator(
        csv::Terminator::Any(terminator),
    ).from_writer(Vec::new());
    writer.write_record(fields)?;
    match writer.into_inner() {
        Ok(bytes) => Ok(bytes),
        Err(e) => Err(csv::Error::from(e.into_error())),
    }
}

/// The text that `Debug` writes for a string: the string between double
/// quotes, with quotes, backslashes and special characters escaped.
pub uninterp spec fn debug_text(s: Seq<char>) -> Seq<char>;

/// Relies on std's `Debug` for `str`, through `format!`: its text depends on
/// the characters of the string alone.
#[verifier::external_body]
pub(crate) fn debug_quote(s: &str) -> (r: String)
    ensures
        r@ == debug_text(s@),
{
    format!("{s:?}")
}

} // verus!
