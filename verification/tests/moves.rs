use rubiks_cube::Color::{Blue, Green, Orange, Red, White, Yellow};
use rubiks_cube::{Color, Cube, Face};

#[test]
fn test_rotate_clockwise_up() {
    let mut cube = Cube::default();
    cube.rotate('U');

    let expected_cube = Cube::new(
        Face([Green, Green, Green, Red, Red, Red, Red, Red, Red]),
        Face([
            Blue, Blue, Blue, Orange, Orange, Orange, Orange, Orange, Orange,
        ]),
        Face([Red, Red, Red, Blue, Blue, Blue, Blue, Blue, Blue]),
        Face([
            Orange, Orange, Orange, Green, Green, Green, Green, Green, Green,
        ]),
        Face([
            Yellow, Yellow, Yellow, Yellow, Yellow, Yellow, Yellow, Yellow, Yellow,
        ]),
        Face([
            White, White, White, White, White, White, White, White, White,
        ]),
    );
    assert_eq!(expected_cube, cube);
}

#[test]
fn test_rotate_clockwise_down() {
    let mut cube = Cube::default();
    cube.rotate('D');

    let expected_cube = Cube::new(
        Face([Red, Red, Red, Red, Red, Red, Blue, Blue, Blue]),
        Face([
            Orange, Orange, Orange, Orange, Orange, Orange, Green, Green, Green,
        ]),
        Face([Blue, Blue, Blue, Blue, Blue, Blue, Orange, Orange, Orange]),
        Face([Green, Green, Green, Green, Green, Green, Red, Red, Red]),
        Face([
            Yellow, Yellow, Yellow, Yellow, Yellow, Yellow, Yellow, Yellow, Yellow,
        ]),
        Face([
            White, White, White, White, White, White, White, White, White,
        ]),
    );
    assert_eq!(expected_cube, cube);
}

#[test]
fn test_rotate_clockwise_left() {
    let mut cube = Cube::default();
    cube.rotate('L');

    let expected_cube = Cube::new(
        Face([Yellow, Red, Red, Yellow, Red, Red, Yellow, Red, Red]),
        Face([
            Orange, Orange, White, Orange, Orange, White, Orange, Orange, White,
        ]),
        Face([Blue, Blue, Blue, Blue, Blue, Blue, Blue, Blue, Blue]),
        Face([
            Green, Green, Green, Green, Green, Green, Green, Green, Green,
        ]),
        Face([
            Orange, Yellow, Yellow, Orange, Yellow, Yellow, Orange, Yellow, Yellow,
        ]),
        Face([Red, White, White, Red, White, White, Red, White, White]),
    );
    assert_eq!(expected_cube, cube);
}

#[test]
fn test_rotate_clockwise_right() {
    let mut cube = Cube::default();
    cube.rotate('R');

    let expected_cube = Cube::new(
        Face([Red, Red, White, Red, Red, White, Red, Red, White]),
        Face([
            Yellow, Orange, Orange, Yellow, Orange, Orange, Yellow, Orange, Orange,
        ]),
        Face([Blue, Blue, Blue, Blue, Blue, Blue, Blue, Blue, Blue]),
        Face([
            Green, Green, Green, Green, Green, Green, Green, Green, Green,
        ]),
        Face([
            Yellow, Yellow, Red, Yellow, Yellow, Red, Yellow, Yellow, Red,
        ]),
        Face([
            White, White, Orange, White, White, Orange, White, White, Orange,
        ]),
    );
    assert_eq!(expected_cube, cube);
}

#[test]
fn test_rotate_clockwise_front() {
    let mut cube = Cube::default();
    cube.rotate('F');

    let expected_cube = Cube::new(
        Face([Red, Red, Red, Red, Red, Red, Red, Red, Red]),
        Face([
            Orange, Orange, Orange, Orange, Orange, Orange, Orange, Orange, Orange,
        ]),
        Face([Blue, Blue, White, Blue, Blue, White, Blue, Blue, White]),
        Face([
            Yellow, Green, Green, Yellow, Green, Green, Yellow, Green, Green,
        ]),
        Face([
            Yellow, Yellow, Yellow, Yellow, Yellow, Yellow, Blue, Blue, Blue,
        ]),
        Face([
            Green, Green, Green, White, White, White, White, White, White,
        ]),
    );
    assert_eq!(expected_cube, cube);
}

#[test]
fn test_rotate_clockwise_back() {
    let mut cube = Cube::default();
    cube.rotate('B');

    let expected_cube = Cube::new(
        Face([Red, Red, Red, Red, Red, Red, Red, Red, Red]),
        Face([
            Orange, Orange, Orange, Orange, Orange, Orange, Orange, Orange, Orange,
        ]),
        Face([Yellow, Blue, Blue, Yellow, Blue, Blue, Yellow, Blue, Blue]),
        Face([
            Green, Green, White, Green, Green, White, Green, Green, White,
        ]),
        Face([
            Green, Green, Green, Yellow, Yellow, Yellow, Yellow, Yellow, Yellow,
        ]),
        Face([White, White, White, White, White, White, Blue, Blue, Blue]),
    );
    assert_eq!(expected_cube, cube);
}

#[test]
fn test_rotate_counter_clockwise_up() {
    let mut cube = Cube::default();
    cube.rotate('u');

    let expected_cube = Cube::new(
        Face([Blue, Blue, Blue, Red, Red, Red, Red, Red, Red]),
        Face([
            Green, Green, Green, Orange, Orange, Orange, Orange, Orange, Orange,
        ]),
        Face([Orange, Orange, Orange, Blue, Blue, Blue, Blue, Blue, Blue]),
        Face([Red, Red, Red, Green, Green, Green, Green, Green, Green]),
        Face([
            Yellow, Yellow, Yellow, Yellow, Yellow, Yellow, Yellow, Yellow, Yellow,
        ]),
        Face([
            White, White, White, White, White, White, White, White, White,
        ]),
    );
    assert_eq!(expected_cube, cube);
}

/// A cube on which no two moves give the same result: every face mixes
/// several colours in an irregular pattern.
fn mixed_cube() -> Cube {
    Cube::new(
        Face([Yellow, Blue, Red, White, Red, Green, Blue, Orange, Yellow]),
        Face([Green, Green, Blue, Red, Orange, Yellow, White, Blue, Orange]),
        Face([White, Red, Orange, Yellow, Blue, Blue, Green, Yellow, Red]),
        Face([Orange, White, Green, Blue, Green, Red, Yellow, White, Blue]),
        Face([Red, Orange, White, Green, Yellow, Orange, Blue, Green, White]),
        Face([Blue, Yellow, Green, Orange, White, Red, Red, White, Orange]),
    )
}

#[test]
fn front_turn_reads_its_neighbours_in_the_right_order() {
    let mut cube = mixed_cube();
    cube.rotate('F');
    let expected_cube = Cube::new(
        Face([Blue, White, Yellow, Orange, Red, Blue, Yellow, Green, Red]),
        Face([Green, Green, Blue, Red, Orange, Yellow, White, Blue, Orange]),
        Face([White, Red, Blue, Yellow, Blue, Yellow, Green, Yellow, Green]),
        Face([Blue, White, Green, Green, Green, Red, White, White, Blue]),
        Face([Red, Orange, White, Green, Yellow, Orange, Red, Blue, Orange]),
        Face([Yellow, Blue, Orange, Orange, White, Red, Red, White, Orange]),
    );
    assert_eq!(expected_cube, cube);
}

#[test]
fn back_turn_reads_its_neighbours_in_the_right_order() {
    let mut cube = mixed_cube();
    cube.rotate('B');
    let expected_cube = Cube::new(
        Face([Yellow, Blue, Red, White, Red, Green, Blue, Orange, Yellow]),
        Face([White, Red, Green, Blue, Orange, Green, Orange, Yellow, Blue]),
        Face([White, Red, Orange, Orange, Blue, Blue, Red, Yellow, Red]),
        Face([Orange, White, Orange, Blue, Green, White, Yellow, White, Red]),
        Face([Green, Red, Blue, Green, Yellow, Orange, Blue, Green, White]),
        Face([Blue, Yellow, Green, Orange, White, Red, White, Yellow, Green]),
    );
    assert_eq!(expected_cube, cube);
}

#[test]
fn left_turn_reads_the_back_face_from_the_bottom() {
    let mut cube = mixed_cube();
    cube.rotate('L');
    let expected_cube = Cube::new(
        Face([Red, Blue, Red, Green, Red, Green, Blue, Orange, Yellow]),
        Face([Green, Green, Red, Red, Orange, Orange, White, Blue, Blue]),
        Face([Green, Yellow, White, Yellow, Blue, Red, Red, Blue, Orange]),
        Face([Orange, White, Green, Blue, Green, Red, Yellow, White, Blue]),
        Face([Orange, Orange, White, Yellow, Yellow, Orange, Blue, Green, White]),
        Face([Yellow, Yellow, Green, White, White, Red, Blue, White, Orange]),
    );
    assert_eq!(expected_cube, cube);
}

#[test]
fn right_turn_reads_the_back_face_from_the_bottom() {
    let mut cube = mixed_cube();
    cube.rotate('R');
    let expected_cube = Cube::new(
        Face([Yellow, Blue, Green, White, Red, Red, Blue, Orange, Orange]),
        Face([White, Green, Blue, Orange, Orange, Yellow, White, Blue, Orange]),
        Face([White, Red, Orange, Yellow, Blue, Blue, Green, Yellow, Red]),
        Face([Yellow, Blue, Orange, White, Green, White, Blue, Red, Green]),
        Face([Red, Orange, Red, Green, Yellow, Green, Blue, Green, Yellow]),
        Face([Blue, Yellow, White, Orange, White, Red, Red, White, Green]),
    );
    assert_eq!(expected_cube, cube);
}

#[test]
fn up_and_down_turns_on_a_mixed_cube() {
    let mut cube = mixed_cube();
    cube.rotate('U');
    let expected_up = Cube::new(
        Face([Orange, White, Green, White, Red, Green, Blue, Orange, Yellow]),
        Face([White, Red, Orange, Red, Orange, Yellow, White, Blue, Orange]),
        Face([Yellow, Blue, Red, Yellow, Blue, Blue, Green, Yellow, Red]),
        Face([Green, Green, Blue, Blue, Green, Red, Yellow, White, Blue]),
        Face([Blue, Green, Red, Green, Yellow, Orange, White, Orange, White]),
        Face([Blue, Yellow, Green, Orange, White, Red, Red, White, Orange]),
    );
    assert_eq!(expected_up, cube);

    let mut cube = mixed_cube();
    cube.rotate('D');
    let expected_down = Cube::new(
        Face([Yellow, Blue, Red, White, Red, Green, Green, Yellow, Red]),
        Face([Green, Green, Blue, Red, Orange, Yellow, Yellow, White, Blue]),
        Face([White, Red, Orange, Yellow, Blue, Blue, White, Blue, Orange]),
        Face([Orange, White, Green, Blue, Green, Red, Blue, Orange, Yellow]),
        Face([Red, Orange, White, Green, Yellow, Orange, Blue, Green, White]),
        Face([Red, Orange, Blue, White, White, Yellow, Orange, Red, Green]),
    );
    assert_eq!(expected_down, cube);
}

#[test]
fn counter_clockwise_is_three_clockwise_turns() {
    for (lower, upper) in [('u', 'U'), ('d', 'D'), ('l', 'L'), ('r', 'R'), ('f', 'F'), ('b', 'B')] {
        let mut once = mixed_cube();
        once.rotate(lower);
        let mut thrice = mixed_cube();
        thrice.rotate(upper);
        thrice.rotate(upper);
        thrice.rotate(upper);
        assert_eq!(thrice, once);
        assert_ne!(mixed_cube(), once);
    }
}

#[test]
fn counter_clockwise_front_on_the_solved_cube() {
    let mut cube = Cube::default();
    cube.rotate('f');
    let expected_cube = Cube::new(
        Face([Red; 9]),
        Face([Orange; 9]),
        Face([Blue, Blue, Yellow, Blue, Blue, Yellow, Blue, Blue, Yellow]),
        Face([White, Green, Green, White, Green, Green, White, Green, Green]),
        Face([Yellow, Yellow, Yellow, Yellow, Yellow, Yellow, Green, Green, Green]),
        Face([Blue, Blue, Blue, White, White, White, White, White, White]),
    );
    assert_eq!(expected_cube, cube);
}

#[test]
fn a_move_and_its_opposite_cancel() {
    for (lower, upper) in [('u', 'U'), ('d', 'D'), ('l', 'L'), ('r', 'R'), ('f', 'F'), ('b', 'B')] {
        let mut cube = mixed_cube();
        cube.rotate(upper);
        assert_ne!(mixed_cube(), cube);
        cube.rotate(lower);
        assert_eq!(mixed_cube(), cube);
        cube.rotate(lower);
        cube.rotate(upper);
        assert_eq!(mixed_cube(), cube);
    }
}

#[test]
fn four_clockwise_turns_cancel() {
    for token in ['U', 'D', 'L', 'R', 'F', 'B'] {
        let mut cube = mixed_cube();
        for turns in 1..=4 {
            cube.rotate(token);
            if turns < 4 {
                assert_ne!(mixed_cube(), cube);
            }
        }
        assert_eq!(mixed_cube(), cube);
    }
}

fn count(cube: &Cube, color: Color) -> usize {
    [cube.front, cube.back, cube.left, cube.right, cube.up, cube.down]
        .iter()
        .map(|face| face.0.iter().filter(|sticker| **sticker == color).count())
        .sum()
}

#[test]
fn every_move_keeps_the_count_of_each_colour() {
    for token in ['U', 'D', 'L', 'R', 'F', 'B', 'u', 'd', 'l', 'r', 'f', 'b'] {
        let mut cube = mixed_cube();
        cube.rotate(token);
        for color in [Yellow, Blue, Red, White, Orange, Green] {
            assert_eq!(count(&cube, color), count(&mixed_cube(), color));
        }
    }
    let mut cube = Cube::default();
    cube.execute("FRUbldfRRu");
    for color in [Yellow, Blue, Red, White, Orange, Green] {
        assert_eq!(count(&cube, color), 9);
    }
}
