use calamine::CellErrorType;
use xls2txt::{resolve_cell, Cell, FormulaMode};

fn text(c: &Cell) -> Option<&str> {
    match c {
        Cell::Text(s) => Some(s.as_str()),
        _ => None,
    }
}

#[test]
fn cached_mode_ignores_formula() {
    let c = resolve_cell(FormulaMode::CachedValue, Some("=A1+1".to_string()), Cell::Empty);
    assert!(matches!(c, Cell::Empty));
    let c = resolve_cell(
        FormulaMode::CachedValue,
        Some("=A1+1".to_string()),
        Cell::Value("3".to_string()),
    );
    assert!(matches!(c, Cell::Value(ref s) if s == "3"));
}

#[test]
fn if_empty_fills_empty_cell_with_formula() {
    let c = resolve_cell(FormulaMode::IfEmpty, Some("=SUM(A1:A3)".to_string()), Cell::Empty);
    assert_eq!(text(&c), Some("=SUM(A1:A3)"));
}

#[test]
fn if_empty_fills_empty_string_with_formula() {
    let c = resolve_cell(
        FormulaMode::IfEmpty,
        Some("=B2".to_string()),
        Cell::Text(String::new()),
    );
    assert_eq!(text(&c), Some("=B2"));
}

#[test]
fn if_empty_keeps_cached_value() {
    let c = resolve_cell(
        FormulaMode::IfEmpty,
        Some("=B2".to_string()),
        Cell::Value("4".to_string()),
    );
    assert!(matches!(c, Cell::Value(ref s) if s == "4"));
    let c = resolve_cell(FormulaMode::IfEmpty, Some("=B2".to_string()), Cell::Text("x".to_string()));
    assert_eq!(text(&c), Some("x"));
}

#[test]
fn if_empty_without_usable_formula_is_empty() {
    let c = resolve_cell(FormulaMode::IfEmpty, None, Cell::Text(String::new()));
    assert!(matches!(c, Cell::Empty));
    let c = resolve_cell(FormulaMode::IfEmpty, Some(String::new()), Cell::Empty);
    assert!(matches!(c, Cell::Empty));
}

#[test]
fn always_prefers_formula_over_cached_value() {
    let c = resolve_cell(
        FormulaMode::Always,
        Some("=A1*2".to_string()),
        Cell::Value("84".to_string()),
    );
    assert_eq!(text(&c), Some("=A1*2"));
    let c = resolve_cell(
        FormulaMode::Always,
        Some("=1/0".to_string()),
        Cell::Error(CellErrorType::Div0),
    );
    assert_eq!(text(&c), Some("=1/0"));
}

#[test]
fn always_keeps_cell_without_formula() {
    let c = resolve_cell(FormulaMode::Always, None, Cell::Value("84".to_string()));
    assert!(matches!(c, Cell::Value(ref s) if s == "84"));
    let c = resolve_cell(FormulaMode::Always, Some(String::new()), Cell::Text("y".to_string()));
    assert_eq!(text(&c), Some("y"));
}

#[test]
fn mode_needs_formulas_unless_cached() {
    assert!(!FormulaMode::CachedValue.uses_formulas());
    assert!(FormulaMode::IfEmpty.uses_formulas());
    assert!(FormulaMode::Always.uses_formulas());
}
