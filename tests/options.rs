use xls2txt::{parse_index, resolve_sheet_name, separator_to_byte, Errors};

#[test]
fn separator_comma_is_its_byte() {
    assert!(matches!(separator_to_byte(","), Ok(b',')));
}

#[test]
fn separator_tab_and_newline() {
    assert!(matches!(separator_to_byte("\t"), Ok(b'\t')));
    assert!(matches!(separator_to_byte("\n"), Ok(b'\n')));
}

#[test]
fn separator_keeps_only_first_character() {
    assert!(matches!(separator_to_byte(";x"), Ok(b';')));
}

#[test]
fn separator_empty_is_invalid() {
    assert!(matches!(separator_to_byte(""), Err(Errors::InvalidSeparator)));
}

#[test]
fn separator_latin1_character_fits_a_byte() {
    assert!(matches!(separator_to_byte("\u{e9}"), Ok(233)));
    assert!(matches!(separator_to_byte("\u{ff}"), Ok(255)));
}

#[test]
fn separator_wider_character_is_invalid() {
    assert!(matches!(separator_to_byte("\u{100}"), Err(Errors::InvalidSeparator)));
    assert!(matches!(separator_to_byte("\u{20ac},"), Err(Errors::InvalidSeparator)));
}

#[test]
fn index_reads_plain_and_plus_signed_numbers() {
    assert_eq!(parse_index("2"), Some(2));
    assert_eq!(parse_index("+17"), Some(17));
    assert_eq!(parse_index("007"), Some(7));
    assert_eq!(parse_index("0"), Some(0));
}

#[test]
fn index_refuses_other_tokens() {
    assert_eq!(parse_index(""), None);
    assert_eq!(parse_index("+"), None);
    assert_eq!(parse_index("-2"), None);
    assert_eq!(parse_index("2a"), None);
    assert_eq!(parse_index(" 2"), None);
    assert_eq!(parse_index("Sheet1"), None);
}

#[test]
fn index_agrees_with_std_at_the_limit() {
    let max = usize::MAX.to_string();
    assert_eq!(parse_index(&max), Some(usize::MAX));
    let over = format!("{}0", usize::MAX);
    assert_eq!(parse_index(&over), None);
    for token in ["12", "+3", "-1", "", "+", "99999999999999999999999", "1_0"] {
        assert_eq!(parse_index(token), token.parse::<usize>().ok());
    }
}

fn names() -> Vec<String> {
    vec!["Albums".to_string(), "Tours".to_string(), "Notes".to_string()]
}

#[test]
fn sheet_token_two_selects_second_sheet() {
    assert_eq!(resolve_sheet_name("2", &names()), "Tours");
}

#[test]
fn sheet_token_in_range_selects_by_position() {
    assert_eq!(resolve_sheet_name("1", &names()), "Albums");
    assert_eq!(resolve_sheet_name("+3", &names()), "Notes");
}

#[test]
fn sheet_token_out_of_range_is_a_name() {
    assert_eq!(resolve_sheet_name("4", &names()), "4");
    assert_eq!(resolve_sheet_name("0", &names()), "0");
    assert_eq!(resolve_sheet_name("2", &[]), "2");
}

#[test]
fn sheet_token_that_is_not_a_number_is_a_name() {
    assert_eq!(resolve_sheet_name("Tours", &names()), "Tours");
    assert_eq!(resolve_sheet_name("tours", &names()), "tours");
}
