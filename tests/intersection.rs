use ra_evaluator::{Expression, Intersection, Terminal};

#[derive(Clone, Debug, Eq, Hash, PartialEq)]
struct Tuple(i32, String, i32);

#[test]
fn empty_intersection() {
    let values1 = &[
        Tuple(1, String::from("test string"), 123),
        Tuple(2, String::from("another string"), 25),
    ];
    let values2 = &[
        Tuple(3, String::from("test string"), 123),
        Tuple(4, String::from("another string"), 25),
    ];

    assert_eq!(
        Intersection::new(Terminal::new(values1), Terminal::new(values2)).eval(),
        &[]
    );
}

#[test]
fn full_intersection() {
    let values1 = &[
        Tuple(1, String::from("test string"), 123),
        Tuple(2, String::from("another string"), 25),
    ];
    let values2 = &[
        Tuple(1, String::from("test string"), 123),
        Tuple(2, String::from("another string"), 25),
    ];

    assert_eq!(
        Intersection::new(Terminal::new(values1), Terminal::new(values2)).eval(),
        values1
    );
}

#[test]
fn some_intersection() {
    let values1 = &[
        Tuple(1, String::from("test string"), 123),
        Tuple(2, String::from("another string"), 25),
        Tuple(3, String::from("another string"), 25),
    ];
    let values2 = &[
        Tuple(123, String::from("test string"), 123),
        Tuple(2, String::from("another string"), 25),
        Tuple(3, String::from("another string"), 25),
    ];

    let expected_result = &[
        Tuple(2, String::from("another string"), 25),
        Tuple(3, String::from("another string"), 25),
    ];

    assert_eq!(
        Intersection::new(Terminal::new(values1), Terminal::new(values2)).eval(),
        expected_result
    );
}

#[test]
fn intersection_with_empty_right() {
    let values1 = &[1, 2, 3];
    let values2: &[i32] = &[];

    assert_eq!(
        Intersection::new(Terminal::new(values1), Terminal::new(values2)).eval(),
        &[]
    );
}

#[test]
fn intersection_keeps_left_duplicates() {
    let values1 = &[2, 1, 2, 3];
    let values2 = &[2, 3];

    assert_eq!(
        Intersection::new(Terminal::new(values1), Terminal::new(values2)).eval(),
        &[2, 2, 3]
    );
}

#[test]
fn intersection_ignores_right_duplicates() {
    let values1 = &[1, 2];
    let values2 = &[2, 2, 2, 1];

    assert_eq!(
        Intersection::new(Terminal::new(values1), Terminal::new(values2)).eval(),
        &[1, 2]
    );
}

#[test]
fn intersection_rows_come_from_left() {
    let values1 = &[4, 8, 15, 16, 23, 42];
    let values2 = &[42, 16, 7, 4];

    let result = Intersection::new(Terminal::new(values1), Terminal::new(values2)).eval();

    assert_eq!(result, &[4, 16, 42]);
    assert!(result.iter().all(|r| values1.contains(r) && values2.contains(r)));
}
