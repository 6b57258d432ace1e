use ra_evaluator::{Expression, Projection, Terminal};

#[test]
fn keep_all_columns() {
    let values = &[(1, "test string", 123), (2, "another string", 25)];

    assert_eq!(Projection::new(Terminal::new(values), |x| *x).eval(), values);
}

#[test]
fn keep_zero_columns() {
    let values = &[(1, "test string", 123), (2, "another string", 25)];

    assert_eq!(Projection::new(Terminal::new(values), |_| ()).eval(), &[(), ()]);
}

#[test]
fn keep_some_columns() {
    let values = &[(1, "test string", 123), (2, "another string", 25)];

    let expected_result = &[("test string", 123), ("another string", 25)];

    assert_eq!(
        Projection::new(Terminal::new(values), |x| (x.1, x.2)).eval(),
        expected_result
    );
}

#[test]
fn projection_keeps_row_count() {
    let values = &[3, 3, 7];

    let result = Projection::new(Terminal::new(values), |x| *x * 10).eval();

    assert_eq!(result.len(), values.len());
    assert_eq!(result, &[30, 30, 70]);
}
