//! Conversion of one worksheet of a spreadsheet into delimited text.
//!
//! The library holds the decisions of the conversion: reading separator
//! options, choosing the sheet, choosing between a cell's cached value and
//! its formula, and laying cells out as delimited records. Reading the
//! workbook file and writing the result stay with the caller.
pub mod outside;
pub mod error;
pub mod separator;
pub mod sheet;
pub mod cell;
pub mod table;

pub use cell::{resolve_cell, Cell, FormulaMode};
pub use error::Errors;
pub use separator::separator_to_byte;
pub use sheet::{parse_index, resolve_sheet_name};
pub use table::{convert, row_fields, sheet_range, write_rows, SheetRange};
