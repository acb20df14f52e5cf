use autodiff_tape::{OperationArity, Tape, Variable, Vertex, ZERO};

fn bits(x: f64) -> u64 {
    x.to_bits()
}

#[test]
fn new_tape_is_empty() {
    let tape = Tape::new();
    assert_eq!(tape.len(), 0);
    assert!(tape.is_empty());
    assert!(tape.vertices.is_empty());
}

#[test]
fn default_tape_is_empty() {
    let tape = Tape::default();
    assert_eq!(tape.len(), 0);
    assert!(tape.is_empty());
}

#[test]
fn zero_constant_is_positive_zero() {
    assert_eq!(ZERO, bits(0.0));
    assert_eq!(f64::from_bits(ZERO), 0.0);
    assert!(f64::from_bits(ZERO).is_sign_positive());
    assert_ne!(ZERO, bits(-0.0));
}

#[test]
fn positions_count_up_in_call_order() {
    let mut tape = Tape::new();
    assert_eq!(tape.push_nullary(), 0);
    assert_eq!(tape.push_unary(0, bits(1.5)), 1);
    assert_eq!(tape.push_binary(0, bits(2.0), 1, bits(3.0)), 2);
    assert_eq!(tape.push(OperationArity::Nullary, &[0, 0], &[0, 0]), 3);
    assert_eq!(tape.push(OperationArity::Unary, &[3, 0], &[bits(0.5), 0]), 4);
    assert_eq!(tape.push(OperationArity::Binary, &[3, 4], &[bits(1.0), bits(1.0)]), 5);
    assert_eq!(tape.var(bits(9.0)).index, 6);
    assert_eq!(tape.len(), 7);
}

#[test]
fn positions_count_up_over_many_recordings() {
    let mut tape = Tape::new();
    for expected in 0..1000usize {
        assert_eq!(tape.len(), expected);
        let index = if expected % 3 == 0 {
            tape.push_nullary()
        } else if expected % 3 == 1 {
            tape.push_unary(expected - 1, bits(expected as f64))
        } else {
            tape.push_binary(expected - 2, bits(1.0), expected - 1, bits(-1.0))
        };
        assert_eq!(index, expected);
    }
    assert_eq!(tape.len(), 1000);
    assert!(!tape.is_empty());
}

#[test]
fn length_counts_recordings() {
    let mut tape = Tape::new();
    assert!(tape.is_empty());
    tape.push_nullary();
    assert_eq!(tape.len(), 1);
    assert!(!tape.is_empty());
    tape.push_unary(0, bits(2.0));
    assert_eq!(tape.len(), 2);
    tape.push_binary(0, bits(1.0), 1, bits(1.0));
    assert_eq!(tape.len(), 3);
    assert_eq!(tape.vertices.len(), 3);
}

#[test]
fn leaf_points_at_itself_with_zero_coefficients() {
    let mut tape = Tape::new();
    tape.push_nullary();
    tape.push_nullary();
    let index = tape.push_nullary();
    assert_eq!(index, 2);
    assert_eq!(tape.vertices[2].parents, [2, 2]);
    assert_eq!(tape.vertices[2].partials, [ZERO, ZERO]);
    assert_eq!(f64::from_bits(tape.vertices[2].partials[0]), 0.0);
    assert_eq!(f64::from_bits(tape.vertices[2].partials[1]), 0.0);
}

#[test]
fn generic_leaf_ignores_its_arguments() {
    let mut tape = Tape::new();
    tape.push_nullary();
    let index = tape.push(
        OperationArity::Nullary,
        &[usize::MAX, 12345],
        &[bits(f64::NAN), bits(f64::NEG_INFINITY)],
    );
    assert_eq!(index, 1);
    assert_eq!(tape.vertices[1], Vertex { partials: [0, 0], parents: [1, 1] });
}

#[test]
fn unary_keeps_operand_and_coefficient() {
    let mut tape = Tape::new();
    tape.push_nullary();
    tape.push_nullary();
    let index = tape.push_unary(1, bits(0.25));
    assert_eq!(index, 2);
    assert_eq!(tape.vertices[2].parents, [1, 2]);
    assert_eq!(tape.vertices[2].partials, [bits(0.25), ZERO]);
    assert_eq!(f64::from_bits(tape.vertices[2].partials[0]), 0.25);
    assert_eq!(f64::from_bits(tape.vertices[2].partials[1]), 0.0);
}

#[test]
fn generic_unary_ignores_second_entries() {
    let mut tape = Tape::new();
    tape.push_nullary();
    let index = tape.push(OperationArity::Unary, &[0, 77], &[bits(-4.0), bits(8.0)]);
    assert_eq!(index, 1);
    assert_eq!(tape.vertices[1], Vertex { partials: [bits(-4.0), ZERO], parents: [0, 1] });
}

#[test]
fn binary_keeps_both_operands_in_order() {
    let mut tape = Tape::new();
    tape.push_nullary();
    tape.push_nullary();
    let index = tape.push_binary(1, bits(7.0), 0, bits(-3.5));
    assert_eq!(index, 2);
    assert_eq!(tape.vertices[2].parents, [1, 0]);
    assert_eq!(tape.vertices[2].partials, [bits(7.0), bits(-3.5)]);
    assert_eq!(f64::from_bits(tape.vertices[2].partials[0]), 7.0);
    assert_eq!(f64::from_bits(tape.vertices[2].partials[1]), -3.5);
}

#[test]
fn generic_binary_stores_arguments_verbatim() {
    let mut tape = Tape::new();
    tape.push_nullary();
    tape.push_nullary();
    let index = tape.push(OperationArity::Binary, &[0, 1], &[bits(3.0), bits(2.0)]);
    assert_eq!(index, 2);
    assert_eq!(tape.vertices[2], Vertex { partials: [bits(3.0), bits(2.0)], parents: [0, 1] });
}

#[test]
fn special_forms_match_generic_recording() {
    let mut special = Tape::new();
    special.push_nullary();
    special.push_unary(0, bits(1.25));
    special.push_binary(0, bits(2.5), 1, bits(-0.75));

    let mut generic = Tape::new();
    generic.push(OperationArity::Nullary, &[5, 6], &[7, 8]);
    generic.push(OperationArity::Unary, &[0, 9], &[bits(1.25), 10]);
    generic.push(OperationArity::Binary, &[0, 1], &[bits(2.5), bits(-0.75)]);

    assert_eq!(special.vertices, generic.vertices);
}

#[test]
fn parents_are_not_validated() {
    let mut tape = Tape::new();
    let a = tape.push_unary(40, bits(1.0));
    let b = tape.push_binary(usize::MAX, bits(1.0), 99, bits(2.0));
    assert_eq!((a, b), (0, 1));
    assert_eq!(tape.vertices[0].parents, [40, 0]);
    assert_eq!(tape.vertices[1].parents, [usize::MAX, 99]);
}

#[test]
fn coefficients_are_stored_bit_for_bit() {
    let odd_nan: u64 = 0x7ff8_0000_dead_beef;
    let mut tape = Tape::new();
    tape.push_binary(0, bits(-0.0), 0, odd_nan);
    tape.push_unary(0, bits(f64::MIN_POSITIVE / 2.0));
    assert_eq!(tape.vertices[0].partials, [bits(-0.0), odd_nan]);
    assert!(f64::from_bits(tape.vertices[0].partials[0]).is_sign_negative());
    assert!(f64::from_bits(tape.vertices[0].partials[1]).is_nan());
    assert_eq!(f64::from_bits(tape.vertices[1].partials[0]), f64::MIN_POSITIVE / 2.0);
}

#[test]
fn earlier_vertices_stay_in_place() {
    let mut tape = Tape::new();
    tape.push_nullary();
    tape.push_unary(0, bits(6.0));
    let before = tape.vertices.clone();
    tape.push_binary(0, bits(1.0), 1, bits(2.0));
    tape.push_nullary();
    assert_eq!(&tape.vertices[..2], &before[..]);
}

#[test]
fn var_records_a_leaf() {
    let mut tape = Tape::new();
    tape.push_nullary();
    let x = tape.var(bits(2.0));
    assert_eq!(x, Variable { value: bits(2.0), index: 1 });
    assert_eq!(f64::from_bits(x.value), 2.0);
    assert_eq!(tape.len(), 2);
    assert_eq!(tape.vertices[1], Vertex { partials: [ZERO, ZERO], parents: [1, 1] });
}

#[test]
fn vars_records_leaves_in_order() {
    let mut tape = Tape::new();
    tape.push_nullary();
    let values = [bits(1.0), bits(-2.0), bits(3.5)];
    let variables = tape.vars(&values);
    assert_eq!(variables.len(), 3);
    for k in 0..3 {
        assert_eq!(variables[k].value, values[k]);
        assert_eq!(variables[k].index, 1 + k);
        assert_eq!(tape.vertices[1 + k].parents, [1 + k, 1 + k]);
        assert_eq!(tape.vertices[1 + k].partials, [ZERO, ZERO]);
    }
    assert_eq!(tape.len(), 4);
}

#[test]
fn vars_matches_repeated_var() {
    let values = [bits(0.5), bits(1.5), bits(2.5), bits(3.5)];

    let mut at_once = Tape::new();
    at_once.push_unary(0, bits(1.0));
    let batch = at_once.vars(&values);

    let mut one_by_one = Tape::new();
    one_by_one.push_unary(0, bits(1.0));
    let mut singles = Vec::new();
    for value in values {
        singles.push(one_by_one.var(value));
    }

    assert_eq!(batch, singles);
    assert_eq!(at_once.vertices, one_by_one.vertices);
}

#[test]
fn vars_of_nothing_records_nothing() {
    let mut tape = Tape::new();
    tape.push_nullary();
    let variables = tape.vars(&[]);
    assert!(variables.is_empty());
    assert_eq!(tape.len(), 1);
}
