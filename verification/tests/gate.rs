use hr::gate::{is_operator, parse_operator_list};

#[test]
fn operator_list_well_formed() {
    assert_eq!(parse_operator_list("1,2,3"), Some(vec![1, 2, 3]));
    assert_eq!(parse_operator_list("10"), Some(vec![10]));
    assert_eq!(parse_operator_list("-4,5"), Some(vec![-4, 5]));
}

#[test]
fn operator_list_fails_closed() {
    assert_eq!(parse_operator_list(""), None);
    assert_eq!(parse_operator_list("1,,2"), None);
    assert_eq!(parse_operator_list("1,x"), None);
    assert_eq!(parse_operator_list("1,2,"), None);
    assert_eq!(parse_operator_list(",1"), None);
    assert_eq!(parse_operator_list("1 2"), None);
}

#[test]
fn operator_membership() {
    let ops: Vec<i64> = vec![10, 20];
    assert!(is_operator(&ops, 10));
    assert!(is_operator(&ops, 20));
    assert!(!is_operator(&ops, 30));
    let none: Vec<i64> = Vec::new();
    assert!(!is_operator(&none, 10));
}
