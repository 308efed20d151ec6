use vstd::prelude::*;
use vstd::multiset::Multiset;
use crate::color::Color;
use crate::configuration::{
    backwards, bottom_row, clockwise_of, left_column, overlay, right_column, top_row,
    Configuration, Window,
};
use crate::face::quarter_turn;
use crate::laws::{lemma_executed_well_formed, lemma_turned_well_formed};

verus! {

/// The three cells of `window` lie in a grid and differ from one another.
spec fn fits(window: Window) -> bool {
    &&& 0 <= window.0 < 9
    &&& 0 <= window.1 < 9
    &&& 0 <= window.2 < 9
    &&& window.0 != window.1
    &&& window.0 != window.2
    &&& window.1 != window.2
}

/// The three stickers that `grid` holds in the cells of `window`.
spec fn held(grid: Seq<Color>, window: Window) -> Multiset<Color> {
    Multiset::empty().insert(grid[window.0]).insert(grid[window.1]).insert(grid[window.2])
}

/// Replacing one sticker trades the old one for the new one.
proof fn lemma_update_trades(grid: Seq<Color>, cell: int, color: Color)
    requires
        0 <= cell < grid.len(),
    ensures
        grid.update(cell, color).to_multiset().insert(grid[cell]) == grid.to_multiset().insert(
            color,
        ),
{
    broadcast use vstd::multiset::group_multiset_axioms;

    vstd::seq_lib::to_multiset_update(grid, cell, color);
    assert(grid.contains(grid[cell]));
    vstd::seq_lib::to_multiset_contains(grid, grid[cell]);
    assert(grid.update(cell, color).to_multiset().insert(grid[cell]) =~= grid.to_multiset().insert(
        color,
    ));
}

/// An overlay trades the three stickers it overwrites for the three it
/// copies.
proof fn lemma_overlay_trades(grid: Seq<Color>, onto: Window, source: Seq<Color>, from: Window)
    requires
        grid.len() == 9,
        fits(onto),
    ensures
        overlay(grid, onto, source, from).to_multiset().add(held(grid, onto))
            == grid.to_multiset().add(held(source, from)),
{
    broadcast use vstd::multiset::group_multiset_axioms;

    let (a, b, c) = (source[from.0], source[from.1], source[from.2]);
    let first = grid.update(onto.0, a);
    let second = first.update(onto.1, b);
    let third = second.update(onto.2, c);
    lemma_update_trades(grid, onto.0, a);
    lemma_update_trades(first, onto.1, b);
    lemma_update_trades(second, onto.2, c);
    assert forall|v: Color|
        third.to_multiset().add(held(grid, onto)).count(v) == grid.to_multiset().add(
            held(source, from),
        ).count(v) by {
        assert(first.to_multiset().insert(grid[onto.0]).count(v) == grid.to_multiset().insert(
            a,
        ).count(v));
        assert(second.to_multiset().insert(grid[onto.1]).count(v) == first.to_multiset().insert(
            b,
        ).count(v));
        assert(third.to_multiset().insert(grid[onto.2]).count(v) == second.to_multiset().insert(
            c,
        ).count(v));
    }
    assert(third.to_multiset().add(held(grid, onto)) =~= grid.to_multiset().add(
        held(source, from),
    ));
}

/// The stickers of a grid, counted cell by cell.
proof fn lemma_nine_stickers(grid: Seq<Color>)
    requires
        grid.len() == 9,
    ensures
        grid.to_multiset() == Multiset::empty().insert(grid[0]).insert(grid[1]).insert(
            grid[2],
        ).insert(grid[3]).insert(grid[4]).insert(grid[5]).insert(grid[6]).insert(grid[7]).insert(
            grid[8],
        ),
{
    broadcast use vstd::seq_lib::to_multiset_build;

    let none = Seq::<Color>::empty();
    assert(none.to_multiset() == Multiset::<Color>::empty()) by {
        vstd::seq_lib::to_multiset_len(none);
        vstd::multiset::lemma_multiset_empty_len(none.to_multiset());
    }
    assert(grid =~= none.push(grid[0]).push(grid[1]).push(grid[2]).push(grid[3]).push(
        grid[4],
    ).push(grid[5]).push(grid[6]).push(grid[7]).push(grid[8]));
}

/// A quarter turn of a grid moves its stickers and keeps them all.
pub proof fn lemma_quarter_turn_keeps_stickers(grid: Seq<Color>)
    requires
        grid.len() == 9,
    ensures
        quarter_turn(grid).to_multiset() == grid.to_multiset(),
{
    broadcast use vstd::multiset::group_multiset_axioms;

    lemma_nine_stickers(grid);
    lemma_nine_stickers(quarter_turn(grid));
    assert(quarter_turn(grid).to_multiset() =~= grid.to_multiset());
}

/// The stickers of a configuration are those of its six faces together.
proof fn lemma_stickers_by_face(c: Configuration)
    ensures
        c.stickers().to_multiset() == c.front.to_multiset().add(c.back.to_multiset()).add(
            c.left.to_multiset(),
        ).add(c.right.to_multiset()).add(c.up.to_multiset()).add(c.down.to_multiset()),
{
    vstd::seq_lib::lemma_multiset_commutative(c.front, c.back);
    vstd::seq_lib::lemma_multiset_commutative(c.front + c.back, c.left);
    vstd::seq_lib::lemma_multiset_commutative(c.front + c.back + c.left, c.right);
    vstd::seq_lib::lemma_multiset_commutative(c.front + c.back + c.left + c.right, c.up);
    vstd::seq_lib::lemma_multiset_commutative(c.front + c.back + c.left + c.right + c.up, c.down);
}

/// The two windows cover the same three cells.
spec fn same_cells(one: Window, other: Window) -> bool {
    one == other || one == backwards(other)
}

/// Four grids that hand three stickers each round in a circle keep, between
/// them, the stickers they had: each grid is overwritten in the cells from
/// which its neighbour copies.
proof fn lemma_circle_keeps_stickers(
    grids: (Seq<Color>, Seq<Color>, Seq<Color>, Seq<Color>),
    onto: (Window, Window, Window, Window),
    from: (Window, Window, Window, Window),
)
    requires
        grids.0.len() == 9 && grids.1.len() == 9 && grids.2.len() == 9 && grids.3.len() == 9,
        fits(onto.0) && fits(onto.1) && fits(onto.2) && fits(onto.3),
        same_cells(from.0, onto.0) && same_cells(from.1, onto.1),
        same_cells(from.2, onto.2) && same_cells(from.3, onto.3),
    ensures
        forall|v: Color|
            #![trigger overlay(grids.0, onto.0, grids.1, from.1).to_multiset().count(v)]
            #![trigger overlay(grids.1, onto.1, grids.2, from.2).to_multiset().count(v)]
            #![trigger overlay(grids.2, onto.2, grids.3, from.3).to_multiset().count(v)]
            #![trigger overlay(grids.3, onto.3, grids.0, from.0).to_multiset().count(v)]
            overlay(grids.0, onto.0, grids.1, from.1).to_multiset().count(v)
                + overlay(grids.1, onto.1, grids.2, from.2).to_multiset().count(v)
                + overlay(grids.2, onto.2, grids.3, from.3).to_multiset().count(v)
                + overlay(grids.3, onto.3, grids.0, from.0).to_multiset().count(v)
                == grids.0.to_multiset().count(v) + grids.1.to_multiset().count(v)
                + grids.2.to_multiset().count(v) + grids.3.to_multiset().count(v),
{
    broadcast use vstd::multiset::group_multiset_axioms;

    lemma_overlay_trades(grids.0, onto.0, grids.1, from.1);
    lemma_overlay_trades(grids.1, onto.1, grids.2, from.2);
    lemma_overlay_trades(grids.2, onto.2, grids.3, from.3);
    lemma_overlay_trades(grids.3, onto.3, grids.0, from.0);
    let after0 = overlay(grids.0, onto.0, grids.1, from.1).to_multiset();
    let after1 = overlay(grids.1, onto.1, grids.2, from.2).to_multiset();
    let after2 = overlay(grids.2, onto.2, grids.3, from.3).to_multiset();
    let after3 = overlay(grids.3, onto.3, grids.0, from.0).to_multiset();
    assert forall|v: Color| #![trigger after0.count(v)]
        after0.count(v) + after1.count(v) + after2.count(v) + after3.count(v)
            == grids.0.to_multiset().count(v) + grids.1.to_multiset().count(v)
            + grids.2.to_multiset().count(v) + grids.3.to_multiset().count(v) by {
        assert(after0.add(held(grids.0, onto.0)).count(v) == grids.0.to_multiset().add(
            held(grids.1, from.1),
        ).count(v));
        assert(after1.add(held(grids.1, onto.1)).count(v) == grids.1.to_multiset().add(
            held(grids.2, from.2),
        ).count(v));
        assert(after2.add(held(grids.2, onto.2)).count(v) == grids.2.to_multiset().add(
            held(grids.3, from.3),
        ).count(v));
        assert(after3.add(held(grids.3, onto.3)).count(v) == grids.3.to_multiset().add(
            held(grids.0, from.0),
        ).count(v));
        assert(held(grids.0, onto.0).count(v) == held(grids.0, from.0).count(v));
        assert(held(grids.1, onto.1).count(v) == held(grids.1, from.1).count(v));
        assert(held(grids.2, onto.2).count(v) == held(grids.2, from.2).count(v));
        assert(held(grids.3, onto.3).count(v) == held(grids.3, from.3).count(v));
    }
}

/// A clockwise quarter turn of the up face keeps all stickers.
proof fn lemma_turned_up_keeps_stickers(start: Configuration)
    requires
        start.well_formed(),
    ensures
        start.turned_up().stickers().to_multiset() == start.stickers().to_multiset(),
{
    broadcast use vstd::multiset::group_multiset_axioms;

    let end = start.turned_up();
    lemma_stickers_by_face(start);
    lemma_stickers_by_face(end);
    lemma_quarter_turn_keeps_stickers(start.up);
    lemma_circle_keeps_stickers(
        (start.front, start.right, start.back, start.left),
        (top_row(), top_row(), top_row(), top_row()),
        (top_row(), top_row(), top_row(), top_row()),
    );
    assert(end.stickers().to_multiset() =~= start.stickers().to_multiset());
}

/// A clockwise quarter turn of the down face keeps all stickers.
proof fn lemma_turned_down_keeps_stickers(start: Configuration)
    requires
        start.well_formed(),
    ensures
        start.turned_down().stickers().to_multiset() == start.stickers().to_multiset(),
{
    broadcast use vstd::multiset::group_multiset_axioms;

    let end = start.turned_down();
    lemma_stickers_by_face(start);
    lemma_stickers_by_face(end);
    lemma_quarter_turn_keeps_stickers(start.down);
    lemma_circle_keeps_stickers(
        (start.front, start.left, start.back, start.right),
        (bottom_row(), bottom_row(), bottom_row(), bottom_row()),
        (bottom_row(), bottom_row(), bottom_row(), bottom_row()),
    );
    assert(end.stickers().to_multiset() =~= start.stickers().to_multiset());
}

/// A clockwise quarter turn of the left face keeps all stickers.
proof fn lemma_turned_left_keeps_stickers(start: Configuration)
    requires
        start.well_formed(),
    ensures
        start.turned_left().stickers().to_multiset() == start.stickers().to_multiset(),
{
    broadcast use vstd::multiset::group_multiset_axioms;

    let end = start.turned_left();
    lemma_stickers_by_face(start);
    lemma_stickers_by_face(end);
    lemma_quarter_turn_keeps_stickers(start.left);
    lemma_circle_keeps_stickers(
        (start.front, start.up, start.back, start.down),
        (left_column(), left_column(), backwards(right_column()), left_column()),
        (left_column(), left_column(), backwards(right_column()), left_column()),
    );
    assert(end.stickers().to_multiset() =~= start.stickers().to_multiset());
}

/// A clockwise quarter turn of the right face keeps all stickers.
proof fn lemma_turned_right_keeps_stickers(start: Configuration)
    requires
        start.well_formed(),
    ensures
        start.turned_right().stickers().to_multiset() == start.stickers().to_multiset(),
{
    broadcast use vstd::multiset::group_multiset_axioms;

    let end = start.turned_right();
    lemma_stickers_by_face(start);
    lemma_stickers_by_face(end);
    lemma_quarter_turn_keeps_stickers(start.right);
    lemma_circle_keeps_stickers(
        (start.front, start.down, start.back, start.up),
        (right_column(), right_column(), backwards(left_column()), right_column()),
        (right_column(), right_column(), backwards(left_column()), right_column()),
    );
    assert(end.stickers().to_multiset() =~= start.stickers().to_multiset());
}

/// A clockwise quarter turn of the front face keeps all stickers.
proof fn lemma_turned_front_keeps_stickers(start: Configuration)
    requires
        start.well_formed(),
    ensures
        start.turned_front().stickers().to_multiset() == start.stickers().to_multiset(),
{
    broadcast use vstd::multiset::group_multiset_axioms;

    let end = start.turned_front();
    lemma_stickers_by_face(start);
    lemma_stickers_by_face(end);
    lemma_quarter_turn_keeps_stickers(start.front);
    lemma_circle_keeps_stickers(
        (start.up, start.left, start.down, start.right),
        (bottom_row(), right_column(), top_row(), left_column()),
        (bottom_row(), backwards(right_column()), top_row(), backwards(left_column())),
    );
    assert(end.stickers().to_multiset() =~= start.stickers().to_multiset());
}

/// A clockwise quarter turn of the back face keeps all stickers.
proof fn lemma_turned_back_keeps_stickers(start: Configuration)
    requires
        start.well_formed(),
    ensures
        start.turned_back().stickers().to_multiset() == start.stickers().to_multiset(),
{
    broadcast use vstd::multiset::group_multiset_axioms;

    let end = start.turned_back();
    lemma_stickers_by_face(start);
    lemma_stickers_by_face(end);
    lemma_quarter_turn_keeps_stickers(start.back);
    lemma_circle_keeps_stickers(
        (start.up, start.right, start.down, start.left),
        (top_row(), right_column(), bottom_row(), left_column()),
        (backwards(top_row()), right_column(), backwards(bottom_row()), left_column()),
    );
    assert(end.stickers().to_multiset() =~= start.stickers().to_multiset());
}

/// A clockwise quarter turn of any face moves stickers and keeps them all.
pub proof fn lemma_turn_keeps_stickers(start: Configuration, face: char)
    requires
        start.well_formed(),
    ensures
        start.turned(face).stickers().to_multiset() == start.stickers().to_multiset(),
{
    if face == 'U' {
        lemma_turned_up_keeps_stickers(start);
    } else if face == 'D' {
        lemma_turned_down_keeps_stickers(start);
    } else if face == 'L' {
        lemma_turned_left_keeps_stickers(start);
    } else if face == 'R' {
        lemma_turned_right_keeps_stickers(start);
    } else if face == 'F' {
        lemma_turned_front_keeps_stickers(start);
    } else if face == 'B' {
        lemma_turned_back_keeps_stickers(start);
    }
}

/// Every move keeps the 54 stickers: it moves colours and neither makes,
/// loses nor changes one.
pub proof fn lemma_rotate_keeps_stickers(start: Configuration, token: char)
    requires
        start.well_formed(),
    ensures
        start.rotated(token).stickers().to_multiset() == start.stickers().to_multiset(),
{
    let face = clockwise_of(token);
    lemma_turn_keeps_stickers(start, face);
    lemma_turned_well_formed(start, face);
    lemma_turn_keeps_stickers(start.turned(face), face);
    lemma_turned_well_formed(start.turned(face), face);
    lemma_turn_keeps_stickers(start.turned(face).turned(face), face);
}

/// Every sequence of moves keeps the 54 stickers.
pub proof fn lemma_execute_keeps_stickers(start: Configuration, sequence: Seq<char>)
    requires
        start.well_formed(),
    ensures
        start.executed(sequence).stickers().to_multiset() == start.stickers().to_multiset(),
    decreases sequence.len(),
{
    if sequence.len() > 0 {
        lemma_execute_keeps_stickers(start, sequence.drop_last());
        lemma_executed_well_formed(start, sequence.drop_last());
        lemma_rotate_keeps_stickers(start.executed(sequence.drop_last()), sequence.last());
    }
}

} // verus!
