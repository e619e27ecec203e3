//! The wall of bricks.

use vstd::prelude::*;
use crate::bits64::{self, at_most, clamped};

verus! {

/// The rows of the wall.
pub const ROWS: usize = 6;

/// The columns of the wall.
pub const COLS: usize = 10;

/// The top of the first row.
pub const WALL_TOP: u32 = 80;

/// The height of a brick.
pub const BRICK_H: u32 = 28;

/// The distance between the tops of two rows: a brick and a gap of twelve.
pub const ROW_PITCH: u32 = 40;

/// The hue of the first brick, and how it changes with the row and the column.
pub const FIRST_HUE: u32 = 200;
pub const ROW_HUE: u32 = 12;
pub const COL_HUE: u32 = 4;

/// A brick. Its left edge and its width are double-precision patterns.
#[derive(Clone, Copy, PartialEq, Eq, Structural, Debug)]
pub struct Brick {
    pub x: u64,
    pub y: u32,
    pub w: u64,
    pub h: u32,
    pub alive: bool,
    pub hue: u32,
}

/// An unbroken brick in a row and column, for the left edges of the columns and
/// the width of a brick.
pub open spec fn brick_at(columns: Seq<u64>, w: u64, row: int, col: int) -> Brick {
    Brick {
        x: columns[col],
        y: (WALL_TOP + row * ROW_PITCH) as u32,
        w,
        h: BRICK_H,
        alive: true,
        hue: (FIRST_HUE + row * ROW_HUE + col * COL_HUE) as u32,
    }
}

/// A whole wall, row after row.
pub open spec fn wall(columns: Seq<u64>, w: u64) -> Seq<Brick> {
    Seq::new(
        (ROWS * COLS) as nat,
        |i: int| brick_at(columns, w, i / COLS as int, i % COLS as int),
    )
}

/// Builds a whole wall.
pub fn layout_bricks(columns: &Vec<u64>, w: u64) -> (r: Vec<Brick>)
    requires
        columns@.len() == COLS,
    ensures
        r@ == wall(columns@, w),
{
    let mut bricks: Vec<Brick> = Vec::new();
    let mut row: usize = 0;
    while row < ROWS
        invariant
            row <= ROWS,
            columns@.len() == COLS,
            bricks@.len() == row * COLS,
            forall|i: int|
                0 <= i < bricks@.len() ==> #[trigger] bricks@[i] == brick_at(
                    columns@,
                    w,
                    i / COLS as int,
                    i % COLS as int,
                ),
        decreases ROWS - row,
    {
        let mut col: usize = 0;
        while col < COLS
            invariant
                row < ROWS,
                col <= COLS,
                columns@.len() == COLS,
                bricks@.len() == row * COLS + col,
                forall|i: int|
                    0 <= i < bricks@.len() ==> #[trigger] bricks@[i] == brick_at(
                        columns@,
                        w,
                        i / COLS as int,
                        i % COLS as int,
                    ),
            decreases COLS - col,
        {
            let brick: Brick = Brick {
                x: columns[col],
                y: WALL_TOP + row as u32 * ROW_PITCH,
                w,
                h: BRICK_H,
                alive: true,
                hue: FIRST_HUE + row as u32 * ROW_HUE + col as u32 * COL_HUE,
            };
            bricks.push(brick);
            col += 1;
        }
        row += 1;
    }
    assert(bricks@ =~= wall(columns@, w));
    bricks
}

/// The place from `low` to `high` that is closest to the ball.
pub open spec fn closest_of(ball: u64, low: u64, high: u64) -> u64 {
    clamped(ball, low, high)
}

/// The place within a brick, from its `low` to its `high` end on an axis, that is
/// closest to the ball.
pub fn closest_place(ball: u64, low: u64, high: u64) -> (r: u64)
    requires
        at_most(low, high),
    ensures
        r == closest_of(ball, low, high),
{
    bits64::clamp(ball, low, high)
}

/// The number of bricks that are not broken.
pub open spec fn standing(bricks: Seq<Brick>) -> nat
    decreases bricks.len(),
{
    if bricks.len() == 0 {
        0
    } else {
        standing(bricks.drop_last()) + (if bricks.last().alive {
            1nat
        } else {
            0
        })
    }
}

/// The wall with brick `i` broken.
pub open spec fn broken(bricks: Seq<Brick>, i: int) -> Seq<Brick> {
    bricks.update(i, Brick { alive: false, ..bricks[i] })
}

/// Whether every brick is broken.
pub fn all_broken(bricks: &Vec<Brick>) -> (r: bool)
    ensures
        r == (standing(bricks@) == 0),
        r == forall|i: int| 0 <= i < bricks@.len() ==> !(#[trigger] bricks@[i]).alive,
{
    proof {
        none_standing(bricks@);
    }
    let mut i: usize = 0;
    while i < bricks.len()
        invariant
            i <= bricks@.len(),
            forall|j: int| 0 <= j < i ==> !(#[trigger] bricks@[j]).alive,
            standing(bricks@) == 0 <==> forall|i: int|
                0 <= i < bricks@.len() ==> !(#[trigger] bricks@[i]).alive,
        decreases bricks@.len() - i,
    {
        if bricks[i].alive {
            return false;
        }
        i += 1;
    }
    true
}

/// No brick stands if and only if each of them is broken.
pub proof fn none_standing(bricks: Seq<Brick>)
    ensures
        standing(bricks) == 0 <==> forall|i: int|
            0 <= i < bricks.len() ==> !(#[trigger] bricks[i]).alive,
    decreases bricks.len(),
{
    if bricks.len() > 0 {
        let rest = bricks.drop_last();
        none_standing(rest);
        if standing(bricks) == 0 {
            assert forall|i: int| 0 <= i < bricks.len() implies !(#[trigger] bricks[i]).alive by {
                if i < rest.len() {
                    assert(!rest[i].alive);
                }
            }
        } else if forall|i: int| 0 <= i < bricks.len() ==> !(#[trigger] bricks[i]).alive {
            assert forall|i: int| 0 <= i < rest.len() implies !(#[trigger] rest[i]).alive by {
                assert(!bricks[i].alive);
            }
            assert(!bricks[bricks.len() - 1].alive);
        }
    }
}

/// Breaking a standing brick leaves one brick fewer and touches no other.
pub proof fn breaking_takes_one_brick(bricks: Seq<Brick>, i: int)
    requires
        0 <= i < bricks.len(),
        bricks[i].alive,
    ensures
        standing(broken(bricks, i)) == standing(bricks) - 1,
        broken(bricks, i).len() == bricks.len(),
        forall|j: int|
            0 <= j < bricks.len() && j != i ==> #[trigger] broken(bricks, i)[j] == bricks[j],
    decreases bricks.len(),
{
    let rest = bricks.drop_last();
    let after = broken(bricks, i);
    if i == bricks.len() - 1 {
        assert(after.drop_last() =~= rest);
    } else {
        breaking_takes_one_brick(rest, i);
        assert(after.drop_last() =~= broken(rest, i));
    }
}

/// No more bricks stand than there are.
pub proof fn standing_bricks_are_bricks(bricks: Seq<Brick>)
    ensures
        standing(bricks) <= bricks.len(),
    decreases bricks.len(),
{
    if bricks.len() > 0 {
        standing_bricks_are_bricks(bricks.drop_last());
    }
}

/// A whole wall has every brick standing.
pub proof fn whole_wall_stands(columns: Seq<u64>, w: u64)
    ensures
        standing(wall(columns, w)) == ROWS * COLS,
{
    all_stand(wall(columns, w));
}

/// Bricks that all stand are counted by their number.
proof fn all_stand(bricks: Seq<Brick>)
    requires
        forall|i: int| 0 <= i < bricks.len() ==> (#[trigger] bricks[i]).alive,
    ensures
        standing(bricks) == bricks.len(),
    decreases bricks.len(),
{
    if bricks.len() > 0 {
        assert(bricks.last() == bricks[bricks.len() - 1]);
        assert forall|i: int| 0 <= i < bricks.drop_last().len() implies (
        #[trigger] bricks.drop_last()[i]).alive by {
            assert(bricks[i].alive);
        }
        all_stand(bricks.drop_last());
    }
}

/// The wall has six rows of ten bricks, row after row from the top. A brick has
/// the left edge of its column; the rows are 28 high and begin at 80, 40 apart;
/// the hue begins at 200 and rises by twelve with the row and four with the
/// column. All bricks stand.
pub proof fn bricks_are_in_rows(columns: Seq<u64>, w: u64, row: int, col: int)
    requires
        0 <= row < 6,
        0 <= col < 10,
    ensures
        wall(columns, w).len() == 60,
        wall(columns, w)[10 * row + col].x == columns[col],
        wall(columns, w)[10 * row + col].y == 80 + 40 * row,
        wall(columns, w)[10 * row + col].w == w,
        wall(columns, w)[10 * row + col].h == 28,
        wall(columns, w)[10 * row + col].hue == 200 + 12 * row + 4 * col,
        wall(columns, w)[10 * row + col].alive,
{
}

/// Bricks are counted one by one, if they stand.
pub proof fn standing_bricks_are_counted(bricks: Seq<Brick>, brick: Brick)
    ensures
        standing(Seq::<Brick>::empty()) == 0,
        brick.alive ==> standing(bricks.push(brick)) == standing(bricks) + 1,
        !brick.alive ==> standing(bricks.push(brick)) == standing(bricks),
{
    assert(bricks.push(brick).drop_last() =~= bricks);
}

/// A broken brick no longer stands, and is otherwise what and where it was.
pub proof fn broken_bricks_stay_in_place(bricks: Seq<Brick>, i: int)
    requires
        0 <= i < bricks.len(),
    ensures
        !broken(bricks, i)[i].alive,
        broken(bricks, i)[i].x == bricks[i].x && broken(bricks, i)[i].y == bricks[i].y,
        broken(bricks, i)[i].w == bricks[i].w && broken(bricks, i)[i].h == bricks[i].h,
        broken(bricks, i)[i].hue == bricks[i].hue,
        broken(bricks, i).len() == bricks.len(),
        forall|j: int|
            0 <= j < bricks.len() && j != i ==> #[trigger] broken(bricks, i)[j] == bricks[j],
{
}

/// The closest place is the ball's own if that is within the brick, and the end
/// on the ball's side otherwise.
pub proof fn closest_place_is_towards_the_ball(ball: u64, low: u64, high: u64)
    requires
        at_most(low, high),
    ensures
        at_most(low, ball) && at_most(ball, high) ==> closest_of(ball, low, high) == ball,
        bits64::less(ball, low) ==> closest_of(ball, low, high) == low,
        bits64::less(high, ball) ==> closest_of(ball, low, high) == high,
{
}

} // verus!
