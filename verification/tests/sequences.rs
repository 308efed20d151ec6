use rand::seq::IteratorRandom;
use rubiks_cube::Color::{Blue, Green, Orange, Red, White, Yellow};
use rubiks_cube::{Cube, Face};

#[test]
fn test_execute_sequence() {
    let mut cube = Cube::default();
    cube.execute("UDLRFBudlrfb");

    let expected_cube = Cube::new(
        Face([Red, Red, Red, Blue, Red, Green, Red, Red, Red]),
        Face([
            Orange, Orange, Orange, Green, Orange, Blue, Orange, Orange, Orange,
        ]),
        Face([Blue, White, Blue, Red, Blue, Orange, Blue, Yellow, Blue]),
        Face([
            Green, White, Green, Orange, Green, Red, Green, Yellow, Green,
        ]),
        Face([
            Yellow, Yellow, Yellow, Blue, Yellow, Green, Yellow, Yellow, Yellow,
        ]),
        Face([White, White, White, Blue, White, Green, White, White, White]),
    );
    assert_eq!(expected_cube, cube);
}

#[test]
fn test_execute_sequence_random() {
    let mut rng = rand::thread_rng();
    let mut random_sequence = String::new();
    for _ in 0..1000 {
        let o = "UDLRFBudlrfb".chars().choose(&mut rng).unwrap();
        random_sequence.push(o);
    }

    let mut cube = Cube::default();
    cube.execute(&random_sequence);

    let mut reversed_sequence = String::new();
    for o in random_sequence.chars().rev() {
        let reversed = if o.is_ascii_lowercase() {
            o.to_ascii_uppercase()
        } else {
            o.to_ascii_lowercase()
        };
        reversed_sequence.push(reversed);
    }
    cube.execute(&reversed_sequence);

    assert_eq!(Cube::default(), cube);
}

#[test]
fn empty_sequence_changes_nothing() {
    let mut cube = Cube::default();
    cube.rotate('R');
    let before = cube.clone();
    cube.execute("");
    assert_eq!(before, cube);
}

#[test]
fn execute_is_rotate_token_by_token() {
    let mut all_at_once = Cube::default();
    all_at_once.execute("FRuBdL");
    let mut one_by_one = Cube::default();
    for token in ['F', 'R', 'u', 'B', 'd', 'L'] {
        one_by_one.rotate(token);
    }
    assert_eq!(one_by_one, all_at_once);
}

#[test]
fn execute_goes_from_left_to_right() {
    let mut cube = Cube::default();
    cube.execute("UF");
    let expected_cube = Cube::new(
        Face([Red, Red, Green, Red, Red, Green, Red, Red, Green]),
        Face([Blue, Blue, Blue, Orange, Orange, Orange, Orange, Orange, Orange]),
        Face([Red, Red, White, Blue, Blue, White, Blue, Blue, White]),
        Face([Yellow, Orange, Orange, Yellow, Green, Green, Yellow, Green, Green]),
        Face([Yellow, Yellow, Yellow, Yellow, Yellow, Yellow, Blue, Blue, Red]),
        Face([Green, Green, Orange, White, White, White, White, White, White]),
    );
    assert_eq!(expected_cube, cube);

    let mut other_order = Cube::default();
    other_order.execute("FU");
    assert_ne!(expected_cube, other_order);
}

#[test]
fn a_pair_that_cancels_is_still_carried_out() {
    let mut cube = Cube::default();
    cube.execute("Uu");
    assert_eq!(Cube::default(), cube);
    cube.execute("RUur");
    assert_eq!(Cube::default(), cube);
}

#[test]
fn a_sequence_and_its_undoing_cancel() {
    let start = Cube::new(
        Face([Yellow, Blue, Red, White, Red, Green, Blue, Orange, Yellow]),
        Face([Green, Green, Blue, Red, Orange, Yellow, White, Blue, Orange]),
        Face([White, Red, Orange, Yellow, Blue, Blue, Green, Yellow, Red]),
        Face([Orange, White, Green, Blue, Green, Red, Yellow, White, Blue]),
        Face([Red, Orange, White, Green, Yellow, Orange, Blue, Green, White]),
        Face([Blue, Yellow, Green, Orange, White, Red, Red, White, Orange]),
    );
    let mut cube = start.clone();
    cube.execute("FRuBdLLfU");
    assert_ne!(start, cube);
    cube.execute("uFllDbUrf");
    assert_eq!(start, cube);
}

#[test]
fn six_times_right_up_left_undone_solves_the_cube() {
    // R U r u has order six.
    let mut cube = Cube::default();
    for round in 1..=6 {
        cube.execute("RUru");
        if round < 6 {
            assert_ne!(Cube::default(), cube);
        }
    }
    assert_eq!(Cube::default(), cube);
}
