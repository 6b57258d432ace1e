use ra_evaluator::{Expression, Terminal};

#[test]
fn single_value() {
    assert_eq!((Terminal::new(&[1])).eval(), &[1]);
}

#[test]
fn multiple_values() {
    let values = &[1, 2, 3, 4, 5, 6];

    assert_eq!((Terminal::new(values)).eval(), values);
}

#[test]
fn complex_type() {
    let values = &[(1, "test string", 123.4), (2, "another string", 25.6)];

    assert_eq!((Terminal::new(values)).eval(), values);
}

#[test]
fn empty_terminal() {
    let values: &[(i32, &str)] = &[];

    assert_eq!(Terminal::new(values).eval(), values);
}

#[test]
fn terminal_eval_repeats() {
    let values = &[(1, "a"), (1, "a"), (2, "b")];
    let terminal = Terminal::new(values);

    assert_eq!(terminal.eval(), values);
    assert_eq!(terminal.eval(), terminal.eval());
}
