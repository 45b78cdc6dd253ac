//! Cells and the choice between a cell's cached value and its formula.
use vstd::prelude::*;

verus! {

/// A cell of a worksheet as the conversion sees it.
#[derive(Debug)]
pub enum Cell {
    /// No value.
    Empty,
    /// A string, written as it is.
    Text(String),
    /// Any other value (a number, a boolean, a date or a duration), already
    /// in its textual form.
    Value(String),
    /// The cell holds an error.
    Error(calamine::CellErrorType),
}

/// What a cell holds, with its text as a sequence of characters.
pub enum CellModel {
    Empty,
    Text(Seq<char>),
    Value(Seq<char>),
    Error(calamine::CellErrorType),
}

impl View for Cell {
    type V = CellModel;

    open spec fn view(&self) -> CellModel {
        match self {
            Cell::Empty => CellModel::Empty,
            Cell::Text(s) => CellModel::Text(s@),
            Cell::Value(s) => CellModel::Value(s@),
            Cell::Error(e) => CellModel::Error(*e),
        }
    }
}

impl Cell {
    /// A copy of the cell.
    pub fn duplicate(&self) -> (r: Cell)
        ensures
            r@ == self@,
    {
        match self {
            Cell::Empty => Cell::Empty,
            Cell::Text(s) => Cell::Text(s.clone()),
            Cell::Value(s) => Cell::Value(s.clone()),
            Cell::Error(e) => Cell::Error(copy_error_kind(e)),
        }
    }
}

/// The name of a cell error kind.
pub open spec fn error_kind_text(e: calamine::CellErrorType) -> Seq<char> {
    match e {
        calamine::CellErrorType::Div0 => "Div0"@,
        calamine::CellErrorType::NA => "NA"@,
        calamine::CellErrorType::Name => "Name"@,
        calamine::CellErrorType::Null => "Null"@,
        calamine::CellErrorType::Num => "Num"@,
        calamine::CellErrorType::Ref => "Ref"@,
        calamine::CellErrorType::Value => "Value"@,
        calamine::CellErrorType::GettingData => "GettingData"@,
    }
}

/// A copy of a cell error kind.
pub fn copy_error_kind(e: &calamine::CellErrorType) -> (r: calamine::CellErrorType)
    ensures
        r == *e,
{
    match e {
        calamine::CellErrorType::Div0 => calamine::CellErrorType::Div0,
        calamine::CellErrorType::NA => calamine::CellErrorType::NA,
        calamine::CellErrorType::Name => calamine::CellErrorType::Name,
        calamine::CellErrorType::Null => calamine::CellErrorType::Null,
        calamine::CellErrorType::Num => calamine::CellErrorType::Num,
        calamine::CellErrorType::Ref => calamine::CellErrorType::Ref,
        calamine::CellErrorType::Value => calamine::CellErrorType::Value,
        calamine::CellErrorType::GettingData => calamine::CellErrorType::GettingData,
    }
}

/// The name of a cell error kind, as calamine's derived `Debug` writes it.
pub fn error_kind_name(e: &calamine::CellErrorType) -> (r: &'static str)
    ensures
        r@ == error_kind_text(*e),
{
    match e {
        calamine::CellErrorType::Div0 => "Div0",
        calamine::CellErrorType::NA => "NA",
        calamine::CellErrorType::Name => "Name",
        calamine::CellErrorType::Null => "Null",
        calamine::CellErrorType::Num => "Num",
        calamine::CellErrorType::Ref => "Ref",
        calamine::CellErrorType::Value => "Value",
        calamine::CellErrorType::GettingData => "GettingData",
    }
}

/// Whether and when a formula is shown in place of a cell's cached value.
#[derive(Clone, Copy, Debug, PartialEq, Eq, Structural)]
pub enum FormulaMode {
    /// Never: the cached value is shown, even when it is empty.
    CachedValue,
    /// Where the cached value is empty or absent.
    IfEmpty,
    /// Wherever the cell has a formula.
    Always,
}

impl FormulaMode {
    /// Whether this mode needs the sheet's formulas at all.
    pub fn uses_formulas(&self) -> (r: bool)
        ensures
            r == !(*self is CachedValue),
    {
        !matches!(self, FormulaMode::CachedValue)
    }
}

/// The characters of an optional string.
pub open spec fn text_of(f: Option<String>) -> Option<Seq<char>> {
    match f {
        Some(s) => Some(s@),
        None => None,
    }
}

/// A formula that is there and is not empty.
pub open spec fn usable_formula(formula: Option<Seq<char>>) -> bool {
    formula is Some && formula->0.len() > 0
}

/// A cached value that is empty or an empty string.
pub open spec fn is_blank(cell: CellModel) -> bool {
    cell is Empty || (cell is Text && cell->Text_0.len() == 0)
}

/// What is shown for a cell with this cached value and this formula.
pub open spec fn resolved(
    mode: FormulaMode,
    formula: Option<Seq<char>>,
    cell: CellModel,
) -> CellModel {
    match mode {
        FormulaMode::CachedValue => cell,
        FormulaMode::IfEmpty => if !is_blank(cell) {
            cell
        } else if usable_formula(formula) {
            CellModel::Text(formula->0)
        } else {
            CellModel::Empty
        },
        FormulaMode::Always => if usable_formula(formula) {
            CellModel::Text(formula->0)
        } else {
            cell
        },
    }
}

/// Chooses what is shown for a cell, given its cached value and the formula
/// at its position, if any.
pub fn resolve_cell(mode: FormulaMode, formula: Option<String>, cell: Cell) -> (r: Cell)
    ensures
        r@ == resolved(mode, text_of(formula), cell@),
{
    match mode {
        FormulaMode::CachedValue => cell,
        FormulaMode::IfEmpty => {
            let blank = match &cell {
                Cell::Empty => true,
                Cell::Text(s) => s.as_str().is_empty(),
                _ => false,
            };
            if !blank {
                cell
            } else {
                match formula {
                    Some(f) => if f.as_str().is_empty() {
                        Cell::Empty
                    } else {
                        Cell::Text(f)
                    },
                    None => Cell::Empty,
                }
            }
        },
        FormulaMode::Always => match formula {
            Some(f) => if f.as_str().is_empty() {
                cell
            } else {
                Cell::Text(f)
            },
            None => cell,
        },
    }
}

/// Under `IfEmpty`, a blank cached value gives way to a formula that is there
/// and not empty, and a cached value that is not blank is shown whatever
/// formula the cell has.
pub proof fn if_empty_fills_only_blanks(formula: Option<Seq<char>>, cell: CellModel)
    ensures
        is_blank(cell) && usable_formula(formula) ==> resolved(FormulaMode::IfEmpty, formula, cell)
            == CellModel::Text(formula->0),
        !is_blank(cell) ==> resolved(FormulaMode::IfEmpty, formula, cell) == cell,
{
}

/// Under `Always`, a formula that is there and not empty is shown whatever
/// the cached value, and a cell without a formula shows its cached value.
pub proof fn always_prefers_formula(formula: Option<Seq<char>>, cell: CellModel)
    ensures
        usable_formula(formula) ==> resolved(FormulaMode::Always, formula, cell)
            == CellModel::Text(formula->0),
        formula is None ==> resolved(FormulaMode::Always, formula, cell) == cell,
{
}

} // verus!
