use ra_evaluator::{Expression, Terminal, Union};

#[test]
fn union_right_identity() {
    let values = &[(1, "test string", 123), (2, "another string", 25)];

    assert_eq!(
        Union::new(Terminal::new(values), Terminal::new(&[])).eval(),
        values
    );
}

#[test]
fn union_left_identity() {
    let values = &[(1, "test string", 123), (2, "another string", 25)];

    assert_eq!(
        Union::new(Terminal::new(&[]), Terminal::new(values)).eval(),
        values
    );
}

#[test]
fn union_multiple() {
    let values1 = &[(1, "test string", 123), (2, "another string", 25)];
    let values2 = &[(3, "test string", 123), (4, "another string", 25)];

    let expected_result = &[
        (1, "test string", 123),
        (2, "another string", 25),
        (3, "test string", 123),
        (4, "another string", 25),
    ];

    assert_eq!(
        Union::new(Terminal::new(values1), Terminal::new(values2)).eval(),
        expected_result
    )
}

#[test]
fn union_keeps_duplicates() {
    let values1 = &[1, 2, 2];
    let values2 = &[2, 1];

    let result = Union::new(Terminal::new(values1), Terminal::new(values2)).eval();

    assert_eq!(result.len(), values1.len() + values2.len());
    assert_eq!(result, &[1, 2, 2, 2, 1]);
}
