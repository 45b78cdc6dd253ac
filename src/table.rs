//! Laying a sheet's cells out as delimited records.
use vstd::prelude::*;
use crate::cell::{Cell, CellModel, FormulaMode, resolve_cell, resolved};
use crate::error::Errors;
use crate::outside::{csv_record, encode_record, formula_at, formula_cells};
use crate::separator::{separator_byte, separator_to_byte};

verus! {

/// The used rectangle of a worksheet: the absolute (row, column) position of
/// its top left cell, its width, and its rows from top to bottom, each with
/// its cells from left to right. A row shorter than the width lacks its last
/// cells, which count as empty; cells beyond the width are not part of it.
pub struct SheetRange {
    pub start: (u32, u32),
    pub width: usize,
    pub rows: Vec<Vec<Cell>>,
}

impl SheetRange {
    /// Every cell of the rectangle has an absolute position that fits in
    /// `u32`.
    pub open spec fn wf(&self) -> bool {
        &&& self.start.0 + self.rows@.len() <= u32::MAX + 1
        &&& self.start.1 + self.width <= u32::MAX + 1
    }

    /// Checks `wf`.
    pub fn fits(&self) -> (r: bool)
        ensures
            r == self.wf(),
    {
        self.rows.len() as u64 <= u32::MAX as u64 + 1 - self.start.0 as u64
            && self.width as u64 <= u32::MAX as u64 + 1 - self.start.1 as u64
    }

    /// The rectangle holds no cell.
    pub open spec fn is_empty(&self) -> bool {
        self.width == 0 || self.rows@.len() == 0
    }

    /// The cached value at row `i` and column `j`, counted from the top left.
    pub open spec fn cached(&self, i: int, j: int) -> CellModel {
        if j < self.rows@[i]@.len() {
            self.rows@[i]@[j]@
        } else {
            CellModel::Empty
        }
    }
}

/// The formula at an absolute position, where there is a table of formulas
/// and it has one there.
pub open spec fn formula_for(table: Option<&calamine::Range<String>>, row: int, col: int) -> Option<
    Seq<char>,
> {
    match table {
        Some(t) => if formula_cells(*t).contains_key((row as u32, col as u32)) {
            Some(formula_cells(*t)[(row as u32, col as u32)])
        } else {
            None
        },
        None => None,
    }
}

/// The mode that applies: without a table of formulas, cached values only.
pub open spec fn mode_in_effect(table: Option<&calamine::Range<String>>, mode: FormulaMode) -> FormulaMode {
    if table is Some {
        mode
    } else {
        FormulaMode::CachedValue
    }
}

/// What is shown at row `i` and column `j` of the range.
pub open spec fn shown(
    range: SheetRange,
    table: Option<&calamine::Range<String>>,
    mode: FormulaMode,
    i: int,
    j: int,
) -> CellModel {
    resolved(
        mode_in_effect(table, mode),
        formula_for(table, range.start.0 + i, range.start.1 + j),
        range.cached(i, j),
    )
}

/// The text written for a shown cell that holds no error.
pub open spec fn cell_text(c: CellModel) -> Seq<char> {
    match c {
        CellModel::Text(s) => s,
        CellModel::Value(s) => s,
        _ => Seq::empty(),
    }
}

/// The texts of the first `n` cells of row `i`, or the kind of the first
/// error among them.
pub open spec fn row_texts(
    range: SheetRange,
    table: Option<&calamine::Range<String>>,
    mode: FormulaMode,
    i: int,
    n: nat,
) -> Result<Seq<Seq<char>>, calamine::CellErrorType>
    decreases n,
{
    if n == 0 {
        Ok(Seq::empty())
    } else {
        match row_texts(range, table, mode, i, (n - 1) as nat) {
            Ok(texts) => match shown(range, table, mode, i, n - 1) {
                CellModel::Error(e) => Err(e),
                c => Ok(texts.push(cell_text(c))),
            },
            Err(e) => Err(e),
        }
    }
}

/// The records of the first `n` rows, or the kind of the first error met.
pub open spec fn records(
    range: SheetRange,
    table: Option<&calamine::Range<String>>,
    mode: FormulaMode,
    field_separator: u8,
    record_separator: u8,
    n: nat,
) -> Result<Seq<u8>, calamine::CellErrorType>
    decreases n,
{
    if n == 0 {
        Ok(Seq::empty())
    } else {
        match records(range, table, mode, field_separator, record_separator, (n - 1) as nat) {
            Ok(bytes) => match row_texts(range, table, mode, n - 1, range.width as nat) {
                Ok(texts) => Ok(bytes + csv_record(texts, field_separator, record_separator)),
                Err(e) => Err(e),
            },
            Err(e) => Err(e),
        }
    }
}

/// The delimited text of the whole range: nothing for an empty range, else
/// one record per row.
pub open spec fn sheet_text(
    range: SheetRange,
    table: Option<&calamine::Range<String>>,
    mode: FormulaMode,
    field_separator: u8,
    record_separator: u8,
) -> Result<Seq<u8>, calamine::CellErrorType> {
    if range.is_empty() {
        Ok(Seq::empty())
    } else {
        records(range, table, mode, field_separator, record_separator, range.rows@.len())
    }
}

proof fn lemma_row_error_stays(
    range: SheetRange,
    table: Option<&calamine::Range<String>>,
    mode: FormulaMode,
    i: int,
    n: nat,
    m: nat,
)
    requires
        n <= m,
        row_texts(range, table, mode, i, n) is Err,
    ensures
        row_texts(range, table, mode, i, m) == row_texts(range, table, mode, i, n),
    decreases m - n,
{
    if n < m {
        lemma_row_error_stays(range, table, mode, i, n, (m - 1) as nat);
    }
}

/// The texts of the fields of row `i`, one per column of the range, or the
/// error of its first cell that shows one.
pub fn row_fields(
    range: &SheetRange,
    table: Option<&calamine::Range<String>>,
    mode: FormulaMode,
    i: usize,
) -> (r: Result<Vec<String>, Errors>)
    requires
        range.wf(),
        i < range.rows@.len(),
    ensures
        match row_texts(*range, table, mode, i as int, range.width as nat) {
            Ok(texts) => r is Ok && r->Ok_0@.map_values(|f: String| f@) == texts,
            Err(e) => r == Err::<Vec<String>, Errors>(Errors::CellError(e)),
        },
{
    let row = &range.rows[i];
    let effective = match table {
        Some(_) => mode,
        None => FormulaMode::CachedValue,
    };
    let mut fields: Vec<String> = Vec::new();
    let mut j: usize = 0;
    while j < range.width
        invariant
            range.wf(),
            i < range.rows@.len(),
            row == range.rows@[i as int],
            j <= range.width,
            effective == mode_in_effect(table, mode),
            row_texts(*range, table, mode, i as int, j as nat) is Ok,
            fields@.map_values(|f: String| f@) == row_texts(
                *range,
                table,
                mode,
                i as int,
                j as nat,
            )->Ok_0,
        decreases range.width - j,
    {
        let cached = if j < row.len() {
            row[j].duplicate()
        } else {
            Cell::Empty
        };
        let formula = match table {
            Some(t) => if effective.uses_formulas() {
                formula_at(t, range.start.0 + i as u32, range.start.1 + j as u32)
            } else {
                None
            },
            None => None,
        };
        let c = resolve_cell(effective, formula, cached);
        assert(c@ == shown(*range, table, mode, i as int, j as int));
        let ghost before = fields@;
        match c {
            Cell::Error(e) => {
                proof {
                    lemma_row_error_stays(*range, table, mode, i as int, (j + 1) as nat, range.width as nat);
                }
                return Err(Errors::CellError(e));
            },
            Cell::Empty => fields.push(String::new()),
            Cell::Text(s) => fields.push(s),
            Cell::Value(s) => fields.push(s),
        }
        assert(fields@.map_values(|f: String| f@) =~= before.map_values(|f: String| f@).push(
            cell_text(shown(*range, table, mode, i as int, j as int)),
        ));
        j = j + 1;
    }
    Ok(fields)
}

proof fn lemma_records_error_stays(
    range: SheetRange,
    table: Option<&calamine::Range<String>>,
    mode: FormulaMode,
    field_separator: u8,
    record_separator: u8,
    n: nat,
    m: nat,
)
    requires
        n <= m,
        records(range, table, mode, field_separator, record_separator, n) is Err,
    ensures
        records(range, table, mode, field_separator, record_separator, m) == records(
            range,
            table,
            mode,
            field_separator,
            record_separator,
            n,
        ),
    decreases m - n,
{
    if n < m {
        lemma_records_error_stays(
            range,
            table,
            mode,
            field_separator,
            record_separator,
            n,
            (m - 1) as nat,
        );
    }
}

/// `r` is what writing a sheet whose delimited text is `expected` gives:
/// that text, or the error of the first cell that shows one.
pub open spec fn written_as(
    r: Result<Vec<u8>, Errors>,
    expected: Result<Seq<u8>, calamine::CellErrorType>,
) -> bool {
    match expected {
        Ok(bytes) => r is Ok && r->Ok_0@ == bytes,
        Err(e) => r == Err::<Vec<u8>, Errors>(Errors::CellError(e)),
    }
}

/// Writes the range as delimited text: each row as one record, its fields
/// separated by `field_separator` and the record ended by
/// `record_separator`; nothing for an empty range.
pub fn write_rows(
    range: &SheetRange,
    table: Option<&calamine::Range<String>>,
    mode: FormulaMode,
    field_separator: u8,
    record_separator: u8,
) -> (r: Result<Vec<u8>, Errors>)
    requires
        range.wf(),
    ensures
        written_as(r, sheet_text(*range, table, mode, field_separator, record_separator)),
{
    let mut out: Vec<u8> = Vec::new();
    if range.width == 0 || range.rows.len() == 0 {
        return Ok(out);
    }
    let mut k: usize = 0;
    while k < range.rows.len()
        invariant
            range.wf(),
            !range.is_empty(),
            k <= range.rows@.len(),
            records(*range, table, mode, field_separator, record_separator, k as nat)
                == Ok::<Seq<u8>, calamine::CellErrorType>(out@),
        decreases range.rows@.len() - k,
    {
        let fields = match row_fields(range, table, mode, k) {
            Ok(fields) => fields,
            Err(e) => {
                proof {
                    lemma_records_error_stays(
                        *range,
                        table,
                        mode,
                        field_separator,
                        record_separator,
                        (k + 1) as nat,
                        range.rows@.len(),
                    );
                }
                return Err(e);
            },
        };
        let mut bytes = match encode_record(&fields, field_separator, record_separator) {
            Ok(bytes) => bytes,
            Err(e) => return Err(Errors::from(e)),
        };
        out.append(&mut bytes);
        k = k + 1;
    }
    Ok(out)
}

/// Converts the range to delimited text with the given separator options.
/// An empty range gives no text, whatever the options; otherwise the record
/// separator is read first, then the field separator.
pub fn convert(
    range: &SheetRange,
    table: Option<&calamine::Range<String>>,
    mode: FormulaMode,
    record_separator: &str,
    field_separator: &str,
) -> (r: Result<Vec<u8>, Errors>)
    requires
        range.wf(),
    ensures
        range.is_empty() ==> r is Ok && r->Ok_0@.len() == 0,
        !range.is_empty() && separator_byte(record_separator@) is None ==> r is Err
            && r->Err_0 is InvalidSeparator,
        !range.is_empty() && separator_byte(record_separator@) is Some && separator_byte(
            field_separator@,
        ) is None ==> r is Err && r->Err_0 is InvalidSeparator,
        !range.is_empty() && separator_byte(record_separator@) is Some && separator_byte(
            field_separator@,
        ) is Some ==> written_as(
            r,
            sheet_text(
                *range,
                table,
                mode,
                separator_byte(field_separator@)->0,
                separator_byte(record_separator@)->0,
            ),
        ),
{
    if range.width == 0 || range.rows.len() == 0 {
        return Ok(Vec::new());
    }
    let rs = match separator_to_byte(record_separator) {
        Ok(b) => b,
        Err(e) => return Err(e),
    };
    let fs = match separator_to_byte(field_separator) {
        Ok(b) => b,
        Err(e) => return Err(e),
    };
    write_rows(range, table, mode, fs, rs)
}

/// The range of the sheet that the workbook gave for `name`: none means
/// there is no such sheet, and a read error is passed on.
pub fn sheet_range(name: String, found: Option<Result<SheetRange, calamine::Error>>) -> (r: Result<
    SheetRange,
    Errors,
>)
    ensures
        found is None ==> r == Err::<SheetRange, Errors>(Errors::NotFound(name)),
        found is Some && found->0 is Err ==> r == Err::<SheetRange, Errors>(
            Errors::Spreadsheet(found->0->Err_0),
        ),
        found is Some && found->0 is Ok ==> r == Ok::<SheetRange, Errors>(found->0->Ok_0),
{
    match found {
        None => Err(Errors::NotFound(name)),
        Some(Err(e)) => Err(Errors::Spreadsheet(e)),
        Some(Ok(range)) => Ok(range),
    }
}

proof fn lemma_cached_rows_agree(
    range: SheetRange,
    first: Option<&calamine::Range<String>>,
    first_mode: FormulaMode,
    second: Option<&calamine::Range<String>>,
    second_mode: FormulaMode,
    i: int,
    n: nat,
)
    requires
        mode_in_effect(first, first_mode) == FormulaMode::CachedValue,
        mode_in_effect(second, second_mode) == FormulaMode::CachedValue,
    ensures
        row_texts(range, first, first_mode, i, n) == row_texts(range, second, second_mode, i, n),
    decreases n,
{
    if n > 0 {
        lemma_cached_rows_agree(range, first, first_mode, second, second_mode, i, (n - 1) as nat);
    }
}

proof fn lemma_cached_records_agree(
    range: SheetRange,
    first: Option<&calamine::Range<String>>,
    first_mode: FormulaMode,
    second: Option<&calamine::Range<String>>,
    second_mode: FormulaMode,
    field_separator: u8,
    record_separator: u8,
    n: nat,
)
    requires
        mode_in_effect(first, first_mode) == FormulaMode::CachedValue,
        mode_in_effect(second, second_mode) == FormulaMode::CachedValue,
    ensures
        records(range, first, first_mode, field_separator, record_separator, n) == records(
            range,
            second,
            second_mode,
            field_separator,
            record_separator,
            n,
        ),
    decreases n,
{
    if n > 0 {
        lemma_cached_records_agree(
            range,
            first,
            first_mode,
            second,
            second_mode,
            field_separator,
            record_separator,
            (n - 1) as nat,
        );
        lemma_cached_rows_agree(
            range,
            first,
            first_mode,
            second,
            second_mode,
            n - 1,
            range.width as nat,
        );
    }
}

/// In `CachedValue` mode, converting a range again gives byte for byte the
/// same text, or the same cell error, whether or not the sheet's formulas
/// could be read and whatever they are.
pub proof fn cached_values_convert_alike(
    range: SheetRange,
    first: Option<&calamine::Range<String>>,
    second: Option<&calamine::Range<String>>,
    field_separator: u8,
    record_separator: u8,
    first_result: Result<Vec<u8>, Errors>,
    second_result: Result<Vec<u8>, Errors>,
)
    requires
        written_as(
            first_result,
            sheet_text(range, first, FormulaMode::CachedValue, field_separator, record_separator),
        ),
        written_as(
            second_result,
            sheet_text(range, second, FormulaMode::CachedValue, field_separator, record_separator),
        ),
    ensures
        first_result is Ok <==> second_result is Ok,
        first_result is Ok ==> first_result->Ok_0@ == second_result->Ok_0@,
        first_result is Err ==> first_result == second_result,
{
    lemma_cached_records_agree(
        range,
        first,
        FormulaMode::CachedValue,
        second,
        FormulaMode::CachedValue,
        field_separator,
        record_separator,
        range.rows@.len(),
    );
}

/// Without a table of formulas, every mode shows the cached values: the
/// text is the one that `CachedValue` mode gives, with or without formulas.
pub proof fn missing_formulas_show_cached_values(
    range: SheetRange,
    mode: FormulaMode,
    table: Option<&calamine::Range<String>>,
    field_separator: u8,
    record_separator: u8,
)
    ensures
        sheet_text(range, None, mode, field_separator, record_separator) == sheet_text(
            range,
            table,
            FormulaMode::CachedValue,
            field_separator,
            record_separator,
        ),
{
    lemma_cached_records_agree(
        range,
        None,
        mode,
        table,
        FormulaMode::CachedValue,
        field_separator,
        record_separator,
        range.rows@.len(),
    );
}

/// Converting the same range with the same formulas, mode and separators
/// twice gives the same text both times, or the same cell error.
pub proof fn conversion_repeats(
    range: SheetRange,
    table: Option<&calamine::Range<String>>,
    mode: FormulaMode,
    field_separator: u8,
    record_separator: u8,
    first_result: Result<Vec<u8>, Errors>,
    second_result: Result<Vec<u8>, Errors>,
)
    requires
        written_as(first_result, sheet_text(range, table, mode, field_separator, record_separator)),
        written_as(second_result, sheet_text(range, table, mode, field_separator, record_separator)),
    ensures
        first_result is Ok <==> second_result is Ok,
        first_result is Ok ==> first_result->Ok_0@ == second_result->Ok_0@,
        first_result is Err ==> first_result == second_result,
{
}

} // verus!
