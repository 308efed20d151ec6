use vstd::prelude::*;
use crate::color::Color;
use crate::face::quarter_turn;

verus! {

/// The mathematical state of a cube: the nine stickers of each of its six
/// faces, each in row-major order.
pub struct Configuration {
    pub front: Seq<Color>,
    pub back: Seq<Color>,
    pub left: Seq<Color>,
    pub right: Seq<Color>,
    pub up: Seq<Color>,
    pub down: Seq<Color>,
}

/// Three cells of one grid, in the order in which a turn reads or writes them.
pub type Window = (int, int, int);

pub open spec fn top_row() -> Window {
    (0, 1, 2)
}

pub open spec fn bottom_row() -> Window {
    (6, 7, 8)
}

pub open spec fn left_column() -> Window {
    (0, 3, 6)
}

pub open spec fn right_column() -> Window {
    (2, 5, 8)
}

/// The same three cells, read from the other end.
pub open spec fn backwards(window: Window) -> Window {
    (window.2, window.1, window.0)
}

/// `grid` with the cells of `onto` replaced, one for one, by the stickers that
/// `source` holds in the cells of `from`.
pub open spec fn overlay(grid: Seq<Color>, onto: Window, source: Seq<Color>, from: Window) -> Seq<
    Color,
> {
    grid.update(onto.0, source[from.0]).update(onto.1, source[from.1]).update(
        onto.2,
        source[from.2],
    )
}

/// A grid whose nine stickers all have the colour `color`.
pub open spec fn uniform(color: Color) -> Seq<Color> {
    Seq::new(9, |k: int| color)
}

/// The solved configuration: red in front, orange at the back, blue on the
/// left, green on the right, yellow up and white down.
pub open spec fn solved() -> Configuration {
    Configuration {
        front: uniform(Color::Red),
        back: uniform(Color::Orange),
        left: uniform(Color::Blue),
        right: uniform(Color::Green),
        up: uniform(Color::Yellow),
        down: uniform(Color::White),
    }
}

/// `token` names a clockwise quarter turn.
pub open spec fn is_clockwise(token: char) -> bool {
    token == 'U' || token == 'D' || token == 'L' || token == 'R' || token == 'F' || token == 'B'
}

/// `token` names a counter-clockwise quarter turn.
pub open spec fn is_counter_clockwise(token: char) -> bool {
    token == 'u' || token == 'd' || token == 'l' || token == 'r' || token == 'f' || token == 'b'
}

/// `token` is one of the twelve moves.
pub open spec fn is_move(token: char) -> bool {
    is_clockwise(token) || is_counter_clockwise(token)
}

/// The token of the same face in the other case; any other character is
/// left as it is.
pub open spec fn opposite(token: char) -> char {
    if token == 'U' {
        'u'
    } else if token == 'D' {
        'd'
    } else if token == 'L' {
        'l'
    } else if token == 'R' {
        'r'
    } else if token == 'F' {
        'f'
    } else if token == 'B' {
        'b'
    } else if token == 'u' {
        'U'
    } else if token == 'd' {
        'D'
    } else if token == 'l' {
        'L'
    } else if token == 'r' {
        'R'
    } else if token == 'f' {
        'F'
    } else if token == 'b' {
        'B'
    } else {
        token
    }
}

/// The clockwise token of the face that `token` turns.
pub open spec fn clockwise_of(token: char) -> char {
    if is_counter_clockwise(token) {
        opposite(token)
    } else {
        token
    }
}

/// The sequence that takes back what `sequence` does: its moves from last
/// to first, each turned into the move of the same face in the other
/// direction.
pub open spec fn undoing(sequence: Seq<char>) -> Seq<char> {
    Seq::new(sequence.len(), |k: int| opposite(sequence[sequence.len() - 1 - k]))
}

/// Every character of `sequence` is one of the twelve moves.
pub open spec fn all_moves(sequence: Seq<char>) -> bool {
    forall|k: int| 0 <= k < sequence.len() ==> is_move(#[trigger] sequence[k])
}

impl Configuration {
    /// Every face holds exactly nine stickers.
    pub open spec fn well_formed(self) -> bool {
        &&& self.front.len() == 9
        &&& self.back.len() == 9
        &&& self.left.len() == 9
        &&& self.right.len() == 9
        &&& self.up.len() == 9
        &&& self.down.len() == 9
    }

    /// All 54 stickers in one sequence: front, back, left, right, up, down.
    pub open spec fn stickers(self) -> Seq<Color> {
        self.front + self.back + self.left + self.right + self.up + self.down
    }

    /// The up face turned clockwise: its own grid turns, and the top rows of
    /// the four sides move front to left to back to right to front.
    pub open spec fn turned_up(self) -> Configuration {
        Configuration {
            up: quarter_turn(self.up),
            front: overlay(self.front, top_row(), self.right, top_row()),
            right: overlay(self.right, top_row(), self.back, top_row()),
            back: overlay(self.back, top_row(), self.left, top_row()),
            left: overlay(self.left, top_row(), self.front, top_row()),
            down: self.down,
        }
    }

    /// The down face turned clockwise: its own grid turns, and the bottom
    /// rows of the four sides move front to right to back to left to front.
    pub open spec fn turned_down(self) -> Configuration {
        Configuration {
            down: quarter_turn(self.down),
            front: overlay(self.front, bottom_row(), self.left, bottom_row()),
            left: overlay(self.left, bottom_row(), self.back, bottom_row()),
            back: overlay(self.back, bottom_row(), self.right, bottom_row()),
            right: overlay(self.right, bottom_row(), self.front, bottom_row()),
            up: self.up,
        }
    }

    /// The left face turned clockwise: its own grid turns, and the left
    /// columns move up to front to down to back to up. The back face meets
    /// the left face along its right column, read from the bottom.
    pub open spec fn turned_left(self) -> Configuration {
        Configuration {
            left: quarter_turn(self.left),
            front: overlay(self.front, left_column(), self.up, left_column()),
            up: overlay(self.up, left_column(), self.back, backwards(right_column())),
            back: overlay(self.back, backwards(right_column()), self.down, left_column()),
            down: overlay(self.down, left_column(), self.front, left_column()),
            right: self.right,
        }
    }

    /// The right face turned clockwise: its own grid turns, and the right
    /// columns move down to front to up to back to down. The back face meets
    /// the right face along its left column, read from the bottom.
    pub open spec fn turned_right(self) -> Configuration {
        Configuration {
            right: quarter_turn(self.right),
            front: overlay(self.front, right_column(), self.down, right_column()),
            down: overlay(self.down, right_column(), self.back, backwards(left_column())),
            back: overlay(self.back, backwards(left_column()), self.up, right_column()),
            up: overlay(self.up, right_column(), self.front, right_column()),
            left: self.left,
        }
    }

    /// The front face turned clockwise: its own grid turns, and the four
    /// lines that touch it move up to right to down to left to up.
    pub open spec fn turned_front(self) -> Configuration {
        Configuration {
            front: quarter_turn(self.front),
            up: overlay(self.up, bottom_row(), self.left, backwards(right_column())),
            left: overlay(self.left, right_column(), self.down, top_row()),
            down: overlay(self.down, top_row(), self.right, backwards(left_column())),
            right: overlay(self.right, left_column(), self.up, bottom_row()),
            back: self.back,
        }
    }

    /// The back face turned clockwise: its own grid turns, and the four
    /// lines that touch it move up to left to down to right to up.
    pub open spec fn turned_back(self) -> Configuration {
        Configuration {
            back: quarter_turn(self.back),
            up: overlay(self.up, top_row(), self.right, right_column()),
            right: overlay(self.right, right_column(), self.down, backwards(bottom_row())),
            down: overlay(self.down, bottom_row(), self.left, left_column()),
            left: overlay(self.left, left_column(), self.up, backwards(top_row())),
            front: self.front,
        }
    }

    /// The configuration after the clockwise quarter turn that `face` names;
    /// for any other character, the configuration itself.
    pub open spec fn turned(self, face: char) -> Configuration {
        if face == 'U' {
            self.turned_up()
        } else if face == 'D' {
            self.turned_down()
        } else if face == 'L' {
            self.turned_left()
        } else if face == 'R' {
            self.turned_right()
        } else if face == 'F' {
            self.turned_front()
        } else if face == 'B' {
            self.turned_back()
        } else {
            self
        }
    }

    /// The configuration after one move: an upper-case token is one clockwise
    /// quarter turn of its face, a lower-case token is that turn made three
    /// times. Any other character changes nothing.
    pub open spec fn rotated(self, token: char) -> Configuration {
        if is_counter_clockwise(token) {
            let face = clockwise_of(token);
            self.turned(face).turned(face).turned(face)
        } else {
            self.turned(token)
        }
    }

    /// The configuration after the moves of `sequence`, made from left to
    /// right.
    pub open spec fn executed(self, sequence: Seq<char>) -> Configuration
        decreases sequence.len(),
    {
        if sequence.len() == 0 {
            self
        } else {
            self.executed(sequence.drop_last()).rotated(sequence.last())
        }
    }
}

} // verus!
