use vstd::prelude::*;
use crate::direction::Direction;
use crate::player::{Player, BASE_SPEED, BOOST_SPEED};

verus! {

/// The keys the walker reacts to; every other key is `Other`.
#[derive(Clone, Copy, Debug, PartialEq, Eq, Structural)]
pub enum Key {
    Left,
    Right,
    Up,
    Down,
    A,
    D,
    S,
    W,
    Space,
    Escape,
    Other,
}

/// An input event: the window was closed, or a key went down or up.
/// `repeat` marks the copies the keyboard sends while a key stays held.
#[derive(Clone, Copy, Debug, PartialEq, Eq, Structural)]
pub enum Event {
    Quit,
    KeyDown { key: Key, repeat: bool },
    KeyUp { key: Key, repeat: bool },
    Other,
}

/// What the loop does after an event.
#[derive(Clone, Copy, Debug, PartialEq, Eq, Structural)]
pub enum Control {
    Continue,
    Stop,
}

/// The facing a movement key asks for: arrows and WASD, two keys per facing.
pub open spec fn key_direction(key: Key) -> Option<Direction> {
    match key {
        Key::Left | Key::A => Some(Direction::Left),
        Key::Right | Key::D => Some(Direction::Right),
        Key::Down | Key::S => Some(Direction::Down),
        Key::Up | Key::W => Some(Direction::Up),
        _ => None,
    }
}

pub open spec fn is_movement_key(key: Key) -> bool {
    key_direction(key) is Some
}

/// Whether an event ends the loop: closing the window, or Escape going down.
pub open spec fn stops(event: Event) -> bool {
    match event {
        Event::Quit => true,
        Event::KeyDown { key: Key::Escape, .. } => true,
        _ => false,
    }
}

/// The player after an event. Only the first edge of a key counts.
/// A movement key going down sets the facing and takes the prepared step;
/// Space going down or up prepares the boosted or the base step (the step
/// in use changes only at the next movement key press); any movement key
/// going up stops the player, whichever key is still held.
pub open spec fn after_event(p: Player, event: Event) -> Player {
    match event {
        Event::KeyDown { key, repeat: false } => {
            if is_movement_key(key) {
                Player { speed: p.speed_co, direction: key_direction(key).unwrap(), ..p }
            } else if key == Key::Space {
                Player { speed_co: BOOST_SPEED, ..p }
            } else {
                p
            }
        },
        Event::KeyUp { key, repeat: false } => {
            if is_movement_key(key) {
                Player { speed: 0, ..p }
            } else if key == Key::Space {
                Player { speed_co: BASE_SPEED, ..p }
            } else {
                p
            }
        },
        _ => p,
    }
}

/// The facing for a movement key, `None` for any other key.
pub fn key_to_direction(key: Key) -> (r: Option<Direction>)
    ensures
        r == key_direction(key),
{
    match key {
        Key::Left | Key::A => Some(Direction::Left),
        Key::Right | Key::D => Some(Direction::Right),
        Key::Down | Key::S => Some(Direction::Down),
        Key::Up | Key::W => Some(Direction::Up),
        _ => None,
    }
}

/// Applies one input event to the player and says whether the loop goes on.
/// An event that stops the loop leaves the player as it was.
pub fn handle_event(player: &mut Player, event: Event) -> (r: Control)
    ensures
        r == Control::Stop <==> stops(event),
        stops(event) ==> *final(player) == *old(player),
        !stops(event) ==> *final(player) == after_event(*old(player), event),
        old(player).wf() ==> final(player).wf(),
{
    match event {
        Event::Quit => Control::Stop,
        Event::KeyDown { key: Key::Escape, .. } => Control::Stop,
        Event::KeyDown { key, repeat: false } => {
            match key_to_direction(key) {
                Some(direction) => {
                    player.speed = player.speed_co;
                    player.direction = direction;
                },
                None => {
                    if key == Key::Space {
                        player.speed_co = BOOST_SPEED;
                    }
                },
            }
            Control::Continue
        },
        Event::KeyUp { key, repeat: false } => {
            match key_to_direction(key) {
                Some(_) => {
                    player.speed = 0;
                },
                None => {
                    if key == Key::Space {
                        player.speed_co = BASE_SPEED;
                    }
                },
            }
            Control::Continue
        },
        _ => Control::Continue,
    }
}

/// A fresh press of a movement key sets the step to the prepared one (the
/// base step, or the boosted one after Space went down) and the facing to
/// the key's; releasing any movement key sets the step to 0.
pub proof fn lemma_movement_keys(p: Player, key: Key)
    requires
        is_movement_key(key),
    ensures
        after_event(p, Event::KeyDown { key, repeat: false }).speed == p.speed_co,
        after_event(p, Event::KeyDown { key, repeat: false }).direction
            == key_direction(key).unwrap(),
        after_event(p, Event::KeyUp { key, repeat: false }).speed == 0,
        after_event(p, Event::KeyUp { key, repeat: false }).direction == p.direction,
        after_event(after_event(p, Event::KeyDown { key: Key::Space, repeat: false }), Event::KeyDown { key, repeat: false }).speed
            == BOOST_SPEED,
        after_event(after_event(p, Event::KeyUp { key: Key::Space, repeat: false }), Event::KeyDown { key, repeat: false }).speed
            == BASE_SPEED,
        after_event(Player::initial(), Event::KeyDown { key, repeat: false }).speed
            == BASE_SPEED,
{
}

} // verus!
