use vstd::prelude::*;

verus! {

/// The four ways the walker can face.
#[derive(Clone, Copy, Debug, PartialEq, Eq, Structural)]
pub enum Direction {
    Up,
    Down,
    Left,
    Right,
}

/// The row of the sprite sheet that holds the frames for a facing.
/// The sheet lays its rows out as Down, Left, Right, Up.
pub open spec fn row_of(direction: Direction) -> int {
    match direction {
        Direction::Down => 0,
        Direction::Left => 1,
        Direction::Right => 2,
        Direction::Up => 3,
    }
}

/// Number of rows in the sprite sheet, one per facing.
pub const SHEET_ROWS: i32 = 4;

/// Picks the sprite-sheet row for a facing.
pub fn sprite_picker(direction: Direction) -> (r: i32)
    ensures
        r == row_of(direction),
        0 <= r < SHEET_ROWS,
{
    match direction {
        Direction::Down => 0,
        Direction::Left => 1,
        Direction::Right => 2,
        Direction::Up => 3,
    }
}

/// The row mapping is total and fixed: every facing has exactly one row,
/// inside the sheet, and distinct facings never share a row.
pub proof fn lemma_sprite_rows(a: Direction, b: Direction)
    ensures
        0 <= row_of(a) < SHEET_ROWS,
        a == Direction::Down ==> row_of(a) == 0,
        a == Direction::Left ==> row_of(a) == 1,
        a == Direction::Right ==> row_of(a) == 2,
        a == Direction::Up ==> row_of(a) == 3,
        row_of(a) == row_of(b) <==> a == b,
{
}

} // verus!
