use vstd::prelude::*;
use crate::direction::Direction;
use crate::geometry::{Point, Rect, MAX_COORD, MIN_COORD};

verus! {

/// Number of animation frames per row of the sprite sheet.
pub const FRAME_COUNT: i32 = 3;

/// Movement step per tick while no boost key is held.
pub const BASE_SPEED: i32 = 5;

/// Movement step per tick while the boost key is held.
pub const BOOST_SPEED: i32 = 10;

/// Width of one cell of the sprite sheet, in pixels.
pub const FRAME_WIDTH: u32 = 26;

/// Height of one cell of the sprite sheet, in pixels.
pub const FRAME_HEIGHT: u32 = 36;

/// The one moving entity.
#[derive(Clone, Copy, Debug, PartialEq, Eq, Structural)]
pub struct Player {
    /// Offset from the centre of the viewport.
    pub position: Point,
    /// One cell of the sprite sheet: its corner is the sheet's origin, its
    /// size that of a cell.
    pub sprite: Rect,
    /// Step per tick along `direction`; 0 while idle.
    pub speed: i32,
    /// The step that the next movement key press gives.
    pub speed_co: i32,
    /// The way the player faces and moves.
    pub direction: Direction,
    /// Column of the animation frame shown, in `[0, FRAME_COUNT)`.
    pub current_frame: i32,
}

impl Player {
    /// Coordinates in range, a non-empty sprite cell, non-negative steps and
    /// an animation cursor inside the row.
    pub open spec fn wf(self) -> bool {
        &&& self.position.wf()
        &&& self.sprite.wf()
        &&& 0 <= self.speed
        &&& 0 <= self.speed_co
        &&& 0 <= self.current_frame < FRAME_COUNT
    }

    /// At the origin, idle, facing down, on the first frame, with the
    /// unboosted step ready.
    pub open spec fn initial() -> Player {
        Player {
            position: Point { x: 0, y: 0 },
            sprite: Rect { x: 0, y: 0, width: FRAME_WIDTH, height: FRAME_HEIGHT },
            speed: 0,
            speed_co: BASE_SPEED,
            direction: Direction::Down,
            current_frame: 0,
        }
    }

    pub fn new() -> (r: Player)
        ensures
            r == Player::initial(),
            r.wf(),
    {
        Player {
            position: Point { x: 0, y: 0 },
            sprite: Rect { x: 0, y: 0, width: FRAME_WIDTH, height: FRAME_HEIGHT },
            speed: 0,
            speed_co: BASE_SPEED,
            direction: Direction::Down,
            current_frame: 0,
        }
    }
}

impl Player {
    /// Tells whether the player is well formed; fields are public, so a
    /// caller that edits them checks here before updating or drawing.
    pub fn is_well_formed(&self) -> (r: bool)
        ensures
            r == self.wf(),
    {
        MIN_COORD <= self.position.x && self.position.x <= MAX_COORD
            && MIN_COORD <= self.position.y && self.position.y <= MAX_COORD
            && MIN_COORD <= self.sprite.x && self.sprite.x <= MAX_COORD
            && MIN_COORD <= self.sprite.y && self.sprite.y <= MAX_COORD
            && 1 <= self.sprite.width && self.sprite.width <= MAX_COORD as u32
            && 1 <= self.sprite.height && self.sprite.height <= MAX_COORD as u32
            && 0 <= self.speed && 0 <= self.speed_co
            && 0 <= self.current_frame && self.current_frame < FRAME_COUNT
    }
}

/// Where a point ends after moving `speed` along `direction` (screen
/// coordinates: up is towards smaller `y`).
pub open spec fn moved(p: Point, direction: Direction, speed: int) -> Point {
    match direction {
        Direction::Left => p.shifted(-speed, 0),
        Direction::Right => p.shifted(speed, 0),
        Direction::Down => p.shifted(0, speed),
        Direction::Up => p.shifted(0, -speed),
    }
}

/// The animation cursor after one tick: it advances cyclically while moving
/// and stays while idle.
pub open spec fn next_frame(frame: int, speed: int) -> int {
    if speed != 0 {
        (frame + 1) % (FRAME_COUNT as int)
    } else {
        frame
    }
}

/// The player after one tick.
pub open spec fn stepped(p: Player) -> Player {
    Player {
        position: moved(p.position, p.direction, p.speed as int),
        current_frame: next_frame(p.current_frame as int, p.speed as int) as i32,
        ..p
    }
}

/// The player after `n` ticks.
pub open spec fn steps(p: Player, n: nat) -> Player
    decreases n,
{
    if n == 0 {
        p
    } else {
        stepped(steps(p, (n - 1) as nat))
    }
}

/// One tick: move by `speed` along the facing and, while moving, advance
/// the animation frame.
pub fn update_player(player: &mut Player)
    requires
        old(player).wf(),
    ensures
        *final(player) == stepped(*old(player)),
        final(player).wf(),
        old(player).speed == 0 ==> final(player).position == old(player).position,
        old(player).speed == 0 ==> final(player).current_frame == old(player).current_frame,
{
    let speed = player.speed;
    match player.direction {
        Direction::Left => {
            player.position = player.position.offset(-speed, 0);
        },
        Direction::Right => {
            player.position = player.position.offset(speed, 0);
        },
        Direction::Down => {
            player.position = player.position.offset(0, speed);
        },
        Direction::Up => {
            player.position = player.position.offset(0, -speed);
        },
    }
    if speed != 0 {
        player.current_frame = (player.current_frame + 1) % FRAME_COUNT;
    }
}

/// A tick keeps the player well formed and changes only its position and
/// animation frame.
pub proof fn lemma_step_wf(p: Player)
    requires
        p.wf(),
    ensures
        stepped(p).wf(),
        stepped(p).speed == p.speed,
        stepped(p).speed_co == p.speed_co,
        stepped(p).direction == p.direction,
        stepped(p).sprite == p.sprite,
{
}

/// An idle player stays where it is and keeps its frame, however many
/// ticks pass.
pub proof fn lemma_idle_is_still(p: Player, n: nat)
    requires
        p.wf(),
        p.speed == 0,
    ensures
        steps(p, n) == p,
    decreases n,
{
    if n > 0 {
        lemma_idle_is_still(p, (n - 1) as nat);
    }
}

/// While moving, the frame after `n` ticks is the start frame advanced by
/// `n` around the cycle `0, 1, 2`; the facing and both steps never change.
pub proof fn lemma_frame_cycle(p: Player, n: nat)
    requires
        p.wf(),
        p.speed != 0,
    ensures
        steps(p, n).wf(),
        steps(p, n).current_frame == (p.current_frame + n) % (FRAME_COUNT as int),
        steps(p, n).speed == p.speed,
        steps(p, n).speed_co == p.speed_co,
        steps(p, n).direction == p.direction,
    decreases n,
{
    if n > 0 {
        lemma_frame_cycle(p, (n - 1) as nat);
        let q = steps(p, (n - 1) as nat);
        lemma_step_wf(q);
        assert((((p.current_frame + (n - 1)) % 3) + 1) % 3 == (p.current_frame + n) % 3)
            by (nonlinear_arith)
            requires p.current_frame >= 0, n >= 1;
    }
}

} // verus!
