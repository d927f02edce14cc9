use gravatar_fdw::cell::Cell;
use gravatar_fdw::predicate::{extract_lookup_keys, Qual, QualValue};

fn text(field: &str, operator: &str, operand: &str) -> Qual {
    Qual::new(field, operator, QualValue::Cell(Cell::String(operand.to_string())))
}

#[test]
fn keys_come_in_the_order_of_the_filters() {
    let quals = vec![text("email", "=", "a"), text("name", "=", "x"), text("email", "=", "b")];
    assert_eq!(extract_lookup_keys(&quals), vec!["a".to_string(), "b".to_string()]);
}

#[test]
fn other_operators_contribute_nothing() {
    let quals = vec![
        text("email", "!=", "a"),
        text("email", "<>", "a"),
        text("email", "like", "a%"),
        text("email", "<", "a"),
        text("email", "==", "a"),
    ];
    assert!(extract_lookup_keys(&quals).is_empty());
}

#[test]
fn other_fields_contribute_nothing() {
    let quals = vec![text("hash", "=", "a"), text("Email", "=", "a"), text("email ", "=", "a")];
    assert!(extract_lookup_keys(&quals).is_empty());
}

#[test]
fn duplicate_keys_are_kept() {
    let quals = vec![text("email", "=", "a"), text("email", "=", "a"), text("email", "=", "A")];
    assert_eq!(extract_lookup_keys(&quals), vec!["a", "a", "A"]);
}

#[test]
fn only_a_string_operand_is_a_key() {
    let quals = vec![
        Qual::new("email", "=", QualValue::Cell(Cell::I64(7))),
        Qual::new("email", "=", QualValue::Cell(Cell::Json("\"a\"".to_string()))),
        Qual::new("email", "=", QualValue::Array(vec![Cell::String("a".to_string())])),
        text("email", "=", "kept"),
    ];
    assert_eq!(extract_lookup_keys(&quals), vec!["kept"]);
}

#[test]
fn no_filters_no_keys() {
    assert!(extract_lookup_keys(&Vec::new()).is_empty());
}

#[test]
fn keys_are_taken_as_written() {
    let quals = vec![text("email", "=", "  Mixed@Case.org ")];
    assert_eq!(extract_lookup_keys(&quals), vec!["  Mixed@Case.org "]);
}

#[test]
fn keys_of_two_lists_are_the_keys_of_each_in_turn() {
    let first = vec![text("email", "=", "a"), text("name", "=", "n")];
    let second = vec![text("email", ">", "b"), text("email", "=", "c"), text("email", "=", "a")];
    let mut both = first.clone();
    both.extend(second.clone());
    let mut expected = extract_lookup_keys(&first);
    expected.extend(extract_lookup_keys(&second));
    assert_eq!(extract_lookup_keys(&both), expected);
    assert_eq!(expected, vec!["a", "c", "a"]);
}
