use vstd::prelude::*;
use crate::direction::{row_of, sprite_picker, SHEET_ROWS};
use crate::geometry::{extent_ok, Point, Rect};
use crate::player::{Player, FRAME_COUNT};

verus! {

pub open spec fn fits_i32(v: int) -> bool {
    i32::MIN <= v <= i32::MAX
}

/// Left edge of the sheet cell shown: the column of the current frame.
pub open spec fn source_x(p: Player) -> int {
    p.sprite.x + p.sprite.width * p.current_frame
}

/// Top edge of the sheet cell shown: the row of the facing.
pub open spec fn source_y(p: Player) -> int {
    p.sprite.y + p.sprite.height * row_of(p.direction)
}

/// The sheet cell for the player's frame and facing, when its corner is a
/// representable coordinate.
pub open spec fn source_rect(p: Player) -> Option<Rect> {
    if fits_i32(source_x(p)) && fits_i32(source_y(p)) {
        Some(Rect::at(source_x(p), source_y(p), p.sprite.width as int, p.sprite.height as int))
    } else {
        None
    }
}

/// The screen rectangle, one cell in size, centred on the viewport's centre
/// moved by the player's position.
pub open spec fn target_rect(p: Player, viewport_width: u32, viewport_height: u32) -> Rect {
    let half = Point::at(viewport_width as int / 2, viewport_height as int / 2);
    let center = p.position.shifted(half.x as int, half.y as int);
    Rect::around(center, p.sprite.width as int, p.sprite.height as int)
}

/// The part of the sprite sheet to draw for the player: the cell in the
/// column of the current frame and the row of the facing. `None` when that
/// cell's corner lies beyond the `i32` range.
pub fn frame_source(player: &Player) -> (r: Option<Rect>)
    requires
        player.wf(),
    ensures
        r == source_rect(*player),
        r is Some ==> r.unwrap().wf(),
{
    let (frame_width, frame_height) = player.sprite.size();
    let row = sprite_picker(player.direction);
    proof {
        assert(0 <= frame_width * player.current_frame <= frame_width * 2) by (nonlinear_arith)
            requires 0 <= player.current_frame < 3;
        assert(0 <= frame_height * row <= frame_height * 3) by (nonlinear_arith)
            requires 0 <= row < 4;
    }
    let x = player.sprite.x as i64 + frame_width as i64 * player.current_frame as i64;
    let y = player.sprite.y as i64 + frame_height as i64 * row as i64;
    if x < i32::MIN as i64 || x > i32::MAX as i64 || y < i32::MIN as i64 || y > i32::MAX as i64 {
        None
    } else {
        Some(Rect::new(x as i32, y as i32, frame_width, frame_height))
    }
}

/// Where on a viewport of the given size the player's frame is drawn.
pub fn frame_target(player: &Player, viewport_width: u32, viewport_height: u32) -> (r: Rect)
    ensures
        r == target_rect(*player, viewport_width, viewport_height),
        r.wf(),
{
    let (frame_width, frame_height) = player.sprite.size();
    let half = Point::new((viewport_width / 2) as i32, (viewport_height / 2) as i32);
    let center = player.position.offset(half.x, half.y);
    Rect::from_center(center, frame_width, frame_height)
}

/// A sprite sheet of `sheet_width` by `sheet_height` pixels whose origin is
/// the sprite cell's corner and which holds all `FRAME_COUNT` columns and
/// `SHEET_ROWS` rows of cells: for every frame and facing the cell to draw
/// exists and lies inside the sheet.
pub proof fn lemma_source_in_sheet(p: Player, sheet_width: u32, sheet_height: u32)
    requires
        p.wf(),
        extent_ok(sheet_width as int),
        extent_ok(sheet_height as int),
        0 <= p.sprite.x,
        0 <= p.sprite.y,
        p.sprite.x + p.sprite.width * FRAME_COUNT <= sheet_width,
        p.sprite.y + p.sprite.height * SHEET_ROWS <= sheet_height,
    ensures
        source_rect(p) is Some,
        source_rect(p).unwrap().wf(),
        0 <= source_rect(p).unwrap().x,
        source_rect(p).unwrap().x + source_rect(p).unwrap().width <= sheet_width,
        0 <= source_rect(p).unwrap().y,
        source_rect(p).unwrap().y + source_rect(p).unwrap().height <= sheet_height,
{
    let w = p.sprite.width as int;
    let h = p.sprite.height as int;
    let f = p.current_frame as int;
    let row = row_of(p.direction);
    assert(0 <= w * f && w * f + w <= w * 3) by (nonlinear_arith)
        requires 0 <= f < 3, w >= 1;
    assert(0 <= h * row && h * row + h <= h * 4) by (nonlinear_arith)
        requires 0 <= row < 4, h >= 1;
}

/// The colour shade after `shade`: counts up through `0..255` and wraps to 0.
pub fn next_shade(shade: u8) -> (r: u8)
    ensures
        r == (shade + 1) % 255,
{
    ((shade as u16 + 1) % 255) as u8
}

/// The background colour, red, green and blue, for a shade: red follows the
/// shade, green is half of it and blue its complement.
pub fn background_color(shade: u8) -> (r: (u8, u8, u8))
    ensures
        r.0 == shade,
        r.1 == shade / 2,
        r.2 == 255 - shade,
{
    (shade, shade / 2, 255 - shade)
}

} // verus!
