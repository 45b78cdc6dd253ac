use calamine::CellErrorType;
use xls2txt::Errors;

#[test]
fn message_of_each_error() {
    assert_eq!(Errors::Empty.message(), "Empty spreadsheet");
    assert_eq!(
        Errors::NotFound("Tours".to_string()).message(),
        "Could not find sheet \"Tours\" in spreadsheet"
    );
    assert_eq!(
        Errors::InvalidSeparator.message(),
        "A provided separator is invalid, separators need to be a single ascii chacter"
    );
    assert_eq!(Errors::MissingSeparator.message(), "No separator found");
    assert_eq!(Errors::CellError(CellErrorType::Div0).message(), "Error found in cell (Div0)");
    assert_eq!(
        Errors::CellError(CellErrorType::GettingData).message(),
        "Error found in cell (GettingData)"
    );
}

#[test]
fn not_found_message_escapes_the_name() {
    assert_eq!(
        Errors::NotFound("a\"b\\c".to_string()).message(),
        "Could not find sheet \"a\\\"b\\\\c\" in spreadsheet"
    );
}

#[test]
fn spreadsheet_message_is_calamine_text() {
    let e = calamine::Error::Msg("no sheet here");
    let expected = e.to_string();
    assert_eq!(Errors::Spreadsheet(e).message(), expected);
}

#[test]
fn errors_convert_from_calamine() {
    let e: Errors = Errors::from(calamine::Error::Msg("x"));
    assert!(matches!(e, Errors::Spreadsheet(calamine::Error::Msg("x"))));
}
