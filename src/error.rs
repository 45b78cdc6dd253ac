//! The errors that end a conversion.
use vstd::prelude::*;
use vstd::string::to_string_from_display_ensures;
use crate::cell::{error_kind_name, error_kind_text};
use crate::outside::{debug_quote, debug_text};

verus! {

/// Why a conversion stopped.
#[derive(Debug)]
pub enum Errors {
    /// A separator option is empty or its first character is not one byte.
    InvalidSeparator,
    /// A separator option was not given.
    MissingSeparator,
    /// The workbook holds nothing to convert.
    Empty,
    /// No sheet of this name could be read.
    NotFound(String),
    /// Writing delimited text failed.
    Csv(csv::Error),
    /// The workbook could not be read.
    Spreadsheet(calamine::Error),
    /// A cell to be written holds an error.
    CellError(calamine::CellErrorType),
}

impl From<csv::Error> for Errors {
    fn from(err: csv::Error) -> Self {
        Errors::Csv(err)
    }
}

impl vstd::std_specs::convert::FromSpecImpl<csv::Error> for Errors {
    open spec fn obeys_from_spec() -> bool {
        true
    }

    open spec fn from_spec(err: csv::Error) -> Self {
        Errors::Csv(err)
    }
}

impl From<calamine::Error> for Errors {
    fn from(err: calamine::Error) -> Self {
        Errors::Spreadsheet(err)
    }
}

impl vstd::std_specs::convert::FromSpecImpl<calamine::Error> for Errors {
    open spec fn obeys_from_spec() -> bool {
        true
    }

    open spec fn from_spec(err: calamine::Error) -> Self {
        Errors::Spreadsheet(err)
    }
}

impl Errors {
    /// The message shown for the error.
    pub fn message(&self) -> (r: String)
        ensures
            *self is Empty ==> r@ == "Empty spreadsheet"@,
            *self is NotFound ==> r@ == "Could not find sheet "@ + debug_text(self->NotFound_0@)
                + " in spreadsheet"@,
            *self is InvalidSeparator ==> r@
                == "A provided separator is invalid, separators need to be a single ascii chacter"@,
            *self is MissingSeparator ==> r@ == "No separator found"@,
            *self is Csv ==> to_string_from_display_ensures::<csv::Error>(&self->Csv_0, r),
            *self is Spreadsheet ==> to_string_from_display_ensures::<calamine::Error>(
                &self->Spreadsheet_0,
                r,
            ),
            *self is CellError ==> r@ == "Error found in cell ("@ + error_kind_text(
                self->CellError_0,
            ) + ")"@,
    {
        match self {
            Errors::Empty => String::from_str("Empty spreadsheet"),
            Errors::NotFound(s) => {
                let quoted = debug_quote(s.as_str());
                String::from_str("Could not find sheet ").concat(quoted.as_str()).concat(
                    " in spreadsheet",
                )
            },
            Errors::InvalidSeparator => String::from_str(
                "A provided separator is invalid, separators need to be a single ascii chacter",
            ),
            Errors::MissingSeparator => String::from_str("No separator found"),
            Errors::Csv(e) => e.to_string(),
            Errors::Spreadsheet(e) => e.to_string(),
            Errors::CellError(e) => String::from_str("Error found in cell (").concat(
                error_kind_name(e),
            ).concat(")"),
        }
    }
}

} // verus!
