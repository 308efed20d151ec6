use vstd::prelude::*;
use crate::color::Color;
use crate::configuration::{all_moves, is_clockwise, is_move, opposite, undoing, Configuration};
use crate::face::{quarter_turn, sticker_at};

verus! {

/// Four quarter turns of a grid give the grid back.
pub proof fn lemma_four_quarter_turns(grid: Seq<Color>)
    requires
        grid.len() == 9,
    ensures
        quarter_turn(quarter_turn(quarter_turn(quarter_turn(grid)))) == grid,
{
    assert(quarter_turn(quarter_turn(quarter_turn(quarter_turn(grid)))) =~= grid);
}

/// Two quarter turns of a grid are a half turn: the sticker of row `r`,
/// column `c` ends in row `2 - r`, column `2 - c`, which is to say that cell
/// `k` ends in cell `8 - k`.
pub proof fn lemma_two_quarter_turns(grid: Seq<Color>)
    requires
        grid.len() == 9,
    ensures
        quarter_turn(quarter_turn(grid)) == Seq::new(9, |k: int| grid[8 - k]),
        forall|r: int, c: int|
            0 <= r < 3 && 0 <= c < 3 ==> sticker_at(quarter_turn(quarter_turn(grid)), 2 - r, 2 - c)
                == #[trigger] sticker_at(grid, r, c),
{
    assert(quarter_turn(quarter_turn(grid)) =~= Seq::new(9, |k: int| grid[8 - k]));
}

/// A clockwise quarter turn of any face keeps every face at nine stickers.
pub proof fn lemma_turned_well_formed(start: Configuration, face: char)
    requires
        start.well_formed(),
    ensures
        start.turned(face).well_formed(),
{
}

/// A move keeps every face at nine stickers.
pub proof fn lemma_rotated_well_formed(start: Configuration, token: char)
    requires
        start.well_formed(),
    ensures
        start.rotated(token).well_formed(),
{
}

/// Four clockwise quarter turns of the up face give the configuration back.
proof fn lemma_four_turns_up(start: Configuration)
    requires
        start.well_formed(),
    ensures
        start.turned_up().turned_up().turned_up().turned_up() == start,
{
    let end = start.turned_up().turned_up().turned_up().turned_up();
    assert(end.front =~= start.front);
    assert(end.back =~= start.back);
    assert(end.left =~= start.left);
    assert(end.right =~= start.right);
    assert(end.up =~= start.up) by {
        lemma_four_quarter_turns(start.up);
    }
    assert(end.down =~= start.down);
}

/// Four clockwise quarter turns of the down face give the configuration back.
proof fn lemma_four_turns_down(start: Configuration)
    requires
        start.well_formed(),
    ensures
        start.turned_down().turned_down().turned_down().turned_down() == start,
{
    let end = start.turned_down().turned_down().turned_down().turned_down();
    assert(end.front =~= start.front);
    assert(end.back =~= start.back);
    assert(end.left =~= start.left);
    assert(end.right =~= start.right);
    assert(end.up =~= start.up);
    assert(end.down =~= start.down) by {
        lemma_four_quarter_turns(start.down);
    }
}

/// Four clockwise quarter turns of the left face give the configuration back.
proof fn lemma_four_turns_left(start: Configuration)
    requires
        start.well_formed(),
    ensures
        start.turned_left().turned_left().turned_left().turned_left() == start,
{
    let end = start.turned_left().turned_left().turned_left().turned_left();
    assert(end.front =~= start.front);
    assert(end.back =~= start.back);
    assert(end.left =~= start.left) by {
        lemma_four_quarter_turns(start.left);
    }
    assert(end.right =~= start.right);
    assert(end.up =~= start.up);
    assert(end.down =~= start.down);
}

/// Four clockwise quarter turns of the right face give the configuration back.
proof fn lemma_four_turns_right(start: Configuration)
    requires
        start.well_formed(),
    ensures
        start.turned_right().turned_right().turned_right().turned_right() == start,
{
    let end = start.turned_right().turned_right().turned_right().turned_right();
    assert(end.front =~= start.front);
    assert(end.back =~= start.back);
    assert(end.left =~= start.left);
    assert(end.right =~= start.right) by {
        lemma_four_quarter_turns(start.right);
    }
    assert(end.up =~= start.up);
    assert(end.down =~= start.down);
}

/// Four clockwise quarter turns of the front face give the configuration back.
proof fn lemma_four_turns_front(start: Configuration)
    requires
        start.well_formed(),
    ensures
        start.turned_front().turned_front().turned_front().turned_front() == start,
{
    let end = start.turned_front().turned_front().turned_front().turned_front();
    assert(end.front =~= start.front) by {
        lemma_four_quarter_turns(start.front);
    }
    assert(end.back =~= start.back);
    assert(end.left =~= start.left);
    assert(end.right =~= start.right);
    assert(end.up =~= start.up);
    assert(end.down =~= start.down);
}

/// Four clockwise quarter turns of the back face give the configuration back.
proof fn lemma_four_turns_back(start: Configuration)
    requires
        start.well_formed(),
    ensures
        start.turned_back().turned_back().turned_back().turned_back() == start,
{
    let end = start.turned_back().turned_back().turned_back().turned_back();
    assert(end.front =~= start.front);
    assert(end.back =~= start.back) by {
        lemma_four_quarter_turns(start.back);
    }
    assert(end.left =~= start.left);
    assert(end.right =~= start.right);
    assert(end.up =~= start.up);
    assert(end.down =~= start.down);
}

/// Four clockwise quarter turns of one face give the configuration back.
pub proof fn lemma_four_turns(start: Configuration, face: char)
    requires
        start.well_formed(),
    ensures
        start.turned(face).turned(face).turned(face).turned(face) == start,
{
    if face == 'U' {
        lemma_four_turns_up(start);
    } else if face == 'D' {
        lemma_four_turns_down(start);
    } else if face == 'L' {
        lemma_four_turns_left(start);
    } else if face == 'R' {
        lemma_four_turns_right(start);
    } else if face == 'F' {
        lemma_four_turns_front(start);
    } else if face == 'B' {
        lemma_four_turns_back(start);
    }
}

/// Any move made four times gives the configuration back.
pub proof fn lemma_four_rotations(start: Configuration, token: char)
    requires
        start.well_formed(),
        is_move(token),
    ensures
        start.rotated(token).rotated(token).rotated(token).rotated(token) == start,
{
    if is_clockwise(token) {
        lemma_four_turns(start, token);
    } else {
        let face = opposite(token);
        let once = start.rotated(token);
        let twice = once.rotated(token);
        lemma_rotated_well_formed(start, token);
        lemma_rotated_well_formed(once, token);
        lemma_four_turns(start, face);
        lemma_four_turns(once, face);
        lemma_four_turns(twice, face);
    }
}

/// A move followed by the move of the same face in the other direction gives
/// the configuration back, whichever of the two comes first.
pub proof fn lemma_move_then_opposite(start: Configuration, token: char)
    requires
        start.well_formed(),
        is_move(token),
    ensures
        start.rotated(token).rotated(opposite(token)) == start,
{
    if is_clockwise(token) {
        lemma_four_turns(start, token);
    } else {
        lemma_four_turns(start, opposite(token));
    }
}

/// A sequence of moves keeps every face at nine stickers.
pub proof fn lemma_executed_well_formed(start: Configuration, sequence: Seq<char>)
    requires
        start.well_formed(),
    ensures
        start.executed(sequence).well_formed(),
    decreases sequence.len(),
{
    if sequence.len() > 0 {
        lemma_executed_well_formed(start, sequence.drop_last());
        lemma_rotated_well_formed(start.executed(sequence.drop_last()), sequence.last());
    }
}

/// Executing one sequence and then another is executing the two joined.
pub proof fn lemma_executed_joined(start: Configuration, first: Seq<char>, second: Seq<char>)
    ensures
        start.executed(first + second) == start.executed(first).executed(second),
    decreases second.len(),
{
    if second.len() == 0 {
        assert(first + second =~= first);
    } else {
        lemma_executed_joined(start, first, second.drop_last());
        assert((first + second).drop_last() =~= first + second.drop_last());
    }
}

/// A sequence of moves followed by the sequence that undoes it gives the
/// configuration back; in particular it takes the solved cube back to the
/// solved cube.
pub proof fn lemma_execute_then_undo(start: Configuration, sequence: Seq<char>)
    requires
        start.well_formed(),
        all_moves(sequence),
    ensures
        start.executed(sequence).executed(undoing(sequence)) == start,
    decreases sequence.len(),
{
    if sequence.len() > 0 {
        let earlier = sequence.drop_last();
        let last = sequence.last();
        let middle = start.executed(earlier);
        lemma_executed_well_formed(start, earlier);
        assert(undoing(sequence) =~= seq![opposite(last)] + undoing(earlier));
        lemma_executed_joined(middle.rotated(last), seq![opposite(last)], undoing(earlier));
        assert(middle.rotated(last).executed(seq![opposite(last)]) == middle.rotated(last).rotated(
            opposite(last),
        )) by {
            assert(seq![opposite(last)].drop_last() =~= Seq::<char>::empty());
            reveal_with_fuel(Configuration::executed, 2);
        }
        lemma_move_then_opposite(middle, last);
        assert(all_moves(earlier));
        lemma_execute_then_undo(start, earlier);
    }
}

} // verus!
