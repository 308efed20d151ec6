use vstd::prelude::*;
use crate::color::Color;

verus! {

/// One 3×3 grid of stickers in row-major order: the sticker in row `r` and
/// column `c` sits at index `3 * r + c`.
#[derive(Debug, Copy, Clone, PartialEq, Eq)]
pub struct Face(pub [Color; 9]);

impl View for Face {
    type V = Seq<Color>;

    open spec fn view(&self) -> Seq<Color> {
        self.0@
    }
}

/// The sticker of `grid` in row `row`, column `column`.
pub open spec fn sticker_at(grid: Seq<Color>, row: int, column: int) -> Color {
    grid[3 * row + column]
}

/// The grid `grid` after a quarter turn clockwise: the sticker that ends up in
/// row `r`, column `c` is the one that was in row `2 - c`, column `r`.
pub open spec fn quarter_turn(grid: Seq<Color>) -> Seq<Color> {
    Seq::new(9, |k: int| sticker_at(grid, 2 - k % 3, k / 3))
}

/// The eight outer cells of a grid in clockwise order, starting at the top
/// left corner and going round again after the eighth.
spec fn ring(k: int) -> int {
    let step = k % 8;
    if step == 0 {
        0
    } else if step == 1 {
        1
    } else if step == 2 {
        2
    } else if step == 3 {
        5
    } else if step == 4 {
        8
    } else if step == 5 {
        7
    } else if step == 6 {
        6
    } else {
        3
    }
}

/// The cell two places after the `k`-th on the ring, which is where a
/// quarter turn puts the sticker of the `k`-th.
spec fn two_on(k: int) -> int {
    ring(k + 2)
}

impl Face {
    /// Turns the grid a quarter turn clockwise in place: the sticker at row
    /// `i`, column `j` moves to row `j`, column `2 - i`. Each cell of the
    /// outer ring moves two places on; the centre stays.
    pub fn transpose(&mut self)
        ensures
            final(self)@ == quarter_turn(old(self)@),
            forall|i: int, j: int|
                0 <= i < 3 && 0 <= j < 3 ==> sticker_at(final(self)@, j, 2 - i)
                    == #[trigger] sticker_at(old(self)@, i, j),
    {
        let before = *self;
        let ring_index: [usize; 8] = [0, 1, 2, 5, 8, 7, 6, 3];
        for i in 0..8usize
            invariant
                forall|k: int| 0 <= k < 8 ==> ring_index@[k] == #[trigger] ring(k),
                before == *old(self),
                self@[4] == before@[4],
                forall|k: int|
                    0 <= k < 8 ==> self@[#[trigger] two_on(k)] == (if k < i {
                        before@[ring(k)]
                    } else {
                        before@[two_on(k)]
                    }),
        {
            let from = ring_index[i];
            let to = ring_index[(i + 2) % 8];
            assert(from == ring(i as int));
            assert(to == ring((i + 2) % 8));
            assert(to == two_on(i as int));
            assert forall|k: int| 0 <= k < 8 && k != i implies #[trigger] two_on(k) != to by {}
            self.0[to] = before.0[from];
        }
        assert(self@ =~= quarter_turn(old(self)@)) by {
            assert(two_on(0) == 2 && two_on(1) == 5 && two_on(2) == 8 && two_on(3) == 7);
            assert(two_on(4) == 6 && two_on(5) == 3 && two_on(6) == 0 && two_on(7) == 1);
        }
    }
}

} // verus!
