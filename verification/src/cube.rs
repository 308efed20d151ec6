use vstd::pervasive::unreached;
use vstd::prelude::*;
use crate::color::Color;
use crate::configuration::{
    all_moves, backwards, bottom_row, clockwise_of, is_clockwise, is_counter_clockwise, is_move,
    left_column, overlay, right_column, solved, top_row, uniform, Configuration, Window,
};
use crate::conservation::{lemma_execute_keeps_stickers, lemma_rotate_keeps_stickers};
use crate::face::{quarter_turn, Face};

verus! {

/// A cube: six faces of nine stickers each, named as the cube is held, with
/// the front face towards the holder. Nothing ties the faces to one another,
/// so a cube need not be one that turns can reach from the solved cube.
#[derive(Debug, PartialEq, Eq)]
pub struct Cube {
    pub front: Face,
    pub back: Face,
    pub left: Face,
    pub right: Face,
    pub up: Face,
    pub down: Face,
}

impl View for Cube {
    type V = Configuration;

    open spec fn view(&self) -> Configuration {
        Configuration {
            front: self.front@,
            back: self.back@,
            left: self.left@,
            right: self.right@,
            up: self.up@,
            down: self.down@,
        }
    }
}

/// The grid of `face` after the first `done` of the three replacements that
/// `overlay` makes with the stickers of `source`.
spec fn overlay_upto(face: Face, onto: Window, source: Face, from: Window, done: int) -> Seq<
    Color,
> {
    if done <= 0 {
        face@
    } else if done == 1 {
        face@.update(onto.0, source@[from.0])
    } else if done == 2 {
        face@.update(onto.0, source@[from.0]).update(onto.1, source@[from.1])
    } else {
        overlay(face@, onto, source@, from)
    }
}

impl Clone for Cube {
    fn clone(&self) -> (copy: Self)
        ensures
            copy == *self,
    {
        Cube {
            front: self.front,
            back: self.back,
            left: self.left,
            right: self.right,
            up: self.up,
            down: self.down,
        }
    }
}

impl Cube {
    /// A cube made of the six faces given, as they are.
    pub fn new(
        front: Face,
        back: Face,
        left: Face,
        right: Face,
        up: Face,
        down: Face,
    ) -> (cube: Self)
        ensures
            cube == (Cube { front, back, left, right, up, down }),
    {
        Cube { front, back, left, right, up, down }
    }

    /// The solved cube: red in front, orange at the back, blue on the left,
    /// green on the right, yellow up and white down.
    pub fn default() -> (cube: Self)
        ensures
            cube@ == solved(),
    {
        let cube = Self::new(
            Face([Color::Red; 9]),
            Face([Color::Orange; 9]),
            Face([Color::Blue; 9]),
            Face([Color::Green; 9]),
            Face([Color::Yellow; 9]),
            Face([Color::White; 9]),
        );
        assert(cube@.front =~= uniform(Color::Red));
        assert(cube@.back =~= uniform(Color::Orange));
        assert(cube@.left =~= uniform(Color::Blue));
        assert(cube@.right =~= uniform(Color::Green));
        assert(cube@.up =~= uniform(Color::Yellow));
        assert(cube@.down =~= uniform(Color::White));
        cube
    }

    /// Turns the up face a quarter turn clockwise.
    fn turn_up(&mut self)
        ensures
            final(self)@ == old(self)@.turned_up(),
    {
        self.up.transpose();
        for i in 0..3usize
            invariant
                self.down == old(self).down,
                self.up@ == quarter_turn(old(self).up@),
                self.front@ == overlay_upto(
                    old(self).front,
                    top_row(),
                    old(self).right,
                    top_row(),
                    i as int,
                ),
                self.right@ == overlay_upto(
                    old(self).right,
                    top_row(),
                    old(self).back,
                    top_row(),
                    i as int,
                ),
                self.back@ == overlay_upto(
                    old(self).back,
                    top_row(),
                    old(self).left,
                    top_row(),
                    i as int,
                ),
                self.left@ == overlay_upto(
                    old(self).left,
                    top_row(),
                    old(self).front,
                    top_row(),
                    i as int,
                ),
        {
            let tmp = self.front.0[i];
            self.front.0[i] = self.right.0[i];
            self.right.0[i] = self.back.0[i];
            self.back.0[i] = self.left.0[i];
            self.left.0[i] = tmp;
        }
    }

    /// Turns the down face a quarter turn clockwise.
    fn turn_down(&mut self)
        ensures
            final(self)@ == old(self)@.turned_down(),
    {
        self.down.transpose();
        for i in 6..9usize
            invariant
                self.up == old(self).up,
                self.down@ == quarter_turn(old(self).down@),
                self.front@ == overlay_upto(
                    old(self).front,
                    bottom_row(),
                    old(self).left,
                    bottom_row(),
                    i - 6,
                ),
                self.left@ == overlay_upto(
                    old(self).left,
                    bottom_row(),
                    old(self).back,
                    bottom_row(),
                    i - 6,
                ),
                self.back@ == overlay_upto(
                    old(self).back,
                    bottom_row(),
                    old(self).right,
                    bottom_row(),
                    i - 6,
                ),
                self.right@ == overlay_upto(
                    old(self).right,
                    bottom_row(),
                    old(self).front,
                    bottom_row(),
                    i - 6,
                ),
        {
            let tmp = self.front.0[i];
            self.front.0[i] = self.left.0[i];
            self.left.0[i] = self.back.0[i];
            self.back.0[i] = self.right.0[i];
            self.right.0[i] = tmp;
        }
    }

    /// Turns the left face a quarter turn clockwise.
    fn turn_left(&mut self)
        ensures
            final(self)@ == old(self)@.turned_left(),
    {
        self.left.transpose();
        let column: [usize; 3] = [0, 3, 6];
        for k in 0..3usize
            invariant
                column[0] == 0 && column[1] == 3 && column[2] == 6,
                self.right == old(self).right,
                self.left@ == quarter_turn(old(self).left@),
                self.front@ == overlay_upto(
                    old(self).front,
                    left_column(),
                    old(self).up,
                    left_column(),
                    k as int,
                ),
                self.up@ == overlay_upto(
                    old(self).up,
                    left_column(),
                    old(self).back,
                    backwards(right_column()),
                    k as int,
                ),
                self.back@ == overlay_upto(
                    old(self).back,
                    backwards(right_column()),
                    old(self).down,
                    left_column(),
                    k as int,
                ),
                self.down@ == overlay_upto(
                    old(self).down,
                    left_column(),
                    old(self).front,
                    left_column(),
                    k as int,
                ),
        {
            let i = column[k];
            let tmp = self.front.0[i];
            self.front.0[i] = self.up.0[i];
            self.up.0[i] = self.back.0[8 - i];
            self.back.0[8 - i] = self.down.0[i];
            self.down.0[i] = tmp;
        }
    }

    /// Turns the right face a quarter turn clockwise.
    fn turn_right(&mut self)
        ensures
            final(self)@ == old(self)@.turned_right(),
    {
        self.right.transpose();
        let column: [usize; 3] = [2, 5, 8];
        for k in 0..3usize
            invariant
                column[0] == 2 && column[1] == 5 && column[2] == 8,
                self.left == old(self).left,
                self.right@ == quarter_turn(old(self).right@),
                self.front@ == overlay_upto(
                    old(self).front,
                    right_column(),
                    old(self).down,
                    right_column(),
                    k as int,
                ),
                self.down@ == overlay_upto(
                    old(self).down,
                    right_column(),
                    old(self).back,
                    backwards(left_column()),
                    k as int,
                ),
                self.back@ == overlay_upto(
                    old(self).back,
                    backwards(left_column()),
                    old(self).up,
                    right_column(),
                    k as int,
                ),
                self.up@ == overlay_upto(
                    old(self).up,
                    right_column(),
                    old(self).front,
                    right_column(),
                    k as int,
                ),
        {
            let i = column[k];
            let tmp = self.front.0[i];
            self.front.0[i] = self.down.0[i];
            self.down.0[i] = self.back.0[8 - i];
            self.back.0[8 - i] = self.up.0[i];
            self.up.0[i] = tmp;
        }
    }

    /// Turns the front face a quarter turn clockwise.
    fn turn_front(&mut self)
        ensures
            final(self)@ == old(self)@.turned_front(),
    {
        self.front.transpose();
        let tmp1 = self.up.0[6];
        let tmp2 = self.up.0[7];
        let tmp3 = self.up.0[8];
        self.up.0[6] = self.left.0[8];
        self.up.0[7] = self.left.0[5];
        self.up.0[8] = self.left.0[2];
        self.left.0[2] = self.down.0[0];
        self.left.0[5] = self.down.0[1];
        self.left.0[8] = self.down.0[2];
        self.down.0[0] = self.right.0[6];
        self.down.0[1] = self.right.0[3];
        self.down.0[2] = self.right.0[0];
        self.right.0[0] = tmp1;
        self.right.0[3] = tmp2;
        self.right.0[6] = tmp3;
        assert(self@.up =~= old(self)@.turned_front().up);
        assert(self@.left =~= old(self)@.turned_front().left);
        assert(self@.down =~= old(self)@.turned_front().down);
        assert(self@.right =~= old(self)@.turned_front().right);
    }

    /// Turns the back face a quarter turn clockwise.
    fn turn_back(&mut self)
        ensures
            final(self)@ == old(self)@.turned_back(),
    {
        self.back.transpose();
        let tmp1 = self.up.0[0];
        let tmp2 = self.up.0[1];
        let tmp3 = self.up.0[2];
        self.up.0[0] = self.right.0[2];
        self.up.0[1] = self.right.0[5];
        self.up.0[2] = self.right.0[8];
        self.right.0[2] = self.down.0[8];
        self.right.0[5] = self.down.0[7];
        self.right.0[8] = self.down.0[6];
        self.down.0[6] = self.left.0[0];
        self.down.0[7] = self.left.0[3];
        self.down.0[8] = self.left.0[6];
        self.left.0[0] = tmp3;
        self.left.0[3] = tmp2;
        self.left.0[6] = tmp1;
        assert(self@.up =~= old(self)@.turned_back().up);
        assert(self@.right =~= old(self)@.turned_back().right);
        assert(self@.down =~= old(self)@.turned_back().down);
        assert(self@.left =~= old(self)@.turned_back().left);
    }

    /// Applies one quarter turn: clockwise for an upper-case token, and for a
    /// lower-case token counter-clockwise, made as three clockwise turns of
    /// the same face.
    pub fn rotate(&mut self, orientation: char)
        requires
            is_move(orientation),
        ensures
            final(self)@ == old(self)@.rotated(orientation),
            final(self)@.stickers().to_multiset() == old(self)@.stickers().to_multiset(),
        decreases (if is_counter_clockwise(orientation) { 1int } else { 0int }),
    {
        proof {
            lemma_rotate_keeps_stickers(old(self)@, orientation);
        }
        match orientation {
            'U' => self.turn_up(),
            'D' => self.turn_down(),
            'L' => self.turn_left(),
            'R' => self.turn_right(),
            'F' => self.turn_front(),
            'B' => self.turn_back(),
            'u' | 'd' | 'l' | 'r' | 'f' | 'b' => {
                let face = upper_case(orientation);
                for done in 0..3usize
                    invariant
                        is_counter_clockwise(orientation),
                        is_clockwise(face),
                        done == 0 ==> self@ == old(self)@,
                        done == 1 ==> self@ == old(self)@.turned(face),
                        done == 2 ==> self@ == old(self)@.turned(face).turned(face),
                        done == 3 ==> self@ == old(self)@.turned(face).turned(face).turned(face),
                {
                    self.rotate(face);
                }
            },
            _ => unreached(),
        }
    }

    /// Applies the moves of `sequence` one after another, from left to right.
    pub fn execute(&mut self, sequence: &str)
        requires
            all_moves(sequence@),
        ensures
            final(self)@ == old(self)@.executed(sequence@),
            final(self)@.stickers().to_multiset() == old(self)@.stickers().to_multiset(),
    {
        proof {
            lemma_execute_keeps_stickers(old(self)@, sequence@);
        }
        for orientation in moves: sequence.chars()
            invariant
                moves.seq() == sequence@,
                all_moves(sequence@),
                self@ == old(self)@.executed(sequence@.take(moves.index() as int)),
        {
            assert(sequence@.take(moves.index() + 1).drop_last() == sequence@.take(
                moves.index() as int,
            ));
            self.rotate(orientation);
        }
        assert(sequence@.take(sequence@.len() as int) == sequence@);
    }
}

/// The upper-case token of a counter-clockwise move.
fn upper_case(token: char) -> (face: char)
    requires
        is_counter_clockwise(token),
    ensures
        face == clockwise_of(token),
{
    match token {
        'u' => 'U',
        'd' => 'D',
        'l' => 'L',
        'r' => 'R',
        'f' => 'F',
        'b' => 'B',
        _ => unreached(),
    }
}

} // verus!
