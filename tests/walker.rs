use sprite_walker::direction::{sprite_picker, Direction};
use sprite_walker::geometry::{Point, Rect, MAX_COORD, MIN_COORD};
use sprite_walker::input::{handle_event, key_to_direction, Control, Event, Key};
use sprite_walker::player::{update_player, Player, BASE_SPEED, BOOST_SPEED};
use sprite_walker::view::{background_color, frame_source, frame_target, next_shade};

fn player_at(x: i32, y: i32, direction: Direction, speed: i32) -> Player {
    let mut p = Player::new();
    p.position = Point::new(x, y);
    p.direction = direction;
    p.speed = speed;
    p
}

fn down(key: Key) -> Event {
    Event::KeyDown { key, repeat: false }
}

fn up(key: Key) -> Event {
    Event::KeyUp { key, repeat: false }
}

#[test]
fn rows_follow_sheet_layout() {
    assert_eq!(sprite_picker(Direction::Down), 0);
    assert_eq!(sprite_picker(Direction::Left), 1);
    assert_eq!(sprite_picker(Direction::Right), 2);
    assert_eq!(sprite_picker(Direction::Up), 3);
    for d in [Direction::Up, Direction::Down, Direction::Left, Direction::Right] {
        assert_eq!(sprite_picker(d), sprite_picker(d));
    }
}

#[test]
fn new_player_starts_idle_at_origin() {
    let p = Player::new();
    assert_eq!(p.position, Point { x: 0, y: 0 });
    assert_eq!(p.sprite, Rect { x: 0, y: 0, width: 26, height: 36 });
    assert_eq!(p.speed, 0);
    assert_eq!(p.speed_co, 5);
    assert_eq!(p.direction, Direction::Down);
    assert_eq!(p.current_frame, 0);
}

#[test]
fn idle_update_changes_nothing() {
    for d in [Direction::Up, Direction::Down, Direction::Left, Direction::Right] {
        let mut p = player_at(-7, 12, d, 0);
        p.current_frame = 2;
        let before = p;
        for _ in 0..5 {
            update_player(&mut p);
        }
        assert_eq!(p, before);
    }
}

#[test]
fn update_moves_by_speed_along_facing() {
    let cases = [
        (Direction::Right, (15, 10)),
        (Direction::Up, (10, 5)),
        (Direction::Down, (10, 15)),
        (Direction::Left, (5, 10)),
    ];
    for (d, (x, y)) in cases {
        let mut p = player_at(10, 10, d, 5);
        update_player(&mut p);
        assert_eq!(p.position, Point { x, y });
        assert_eq!(p.current_frame, 1);
        assert_eq!(p.direction, d);
        assert_eq!(p.speed, 5);
    }
}

#[test]
fn frame_cycles_while_moving() {
    let mut p = player_at(0, 0, Direction::Left, 5);
    let mut seen = Vec::new();
    for _ in 0..7 {
        update_player(&mut p);
        seen.push(p.current_frame);
    }
    assert_eq!(seen, vec![1, 2, 0, 1, 2, 0, 1]);
    assert_eq!(p.position, Point { x: -35, y: 0 });
}

#[test]
fn position_stops_at_coordinate_bounds() {
    let mut p = player_at(MAX_COORD - 3, MIN_COORD + 2, Direction::Right, 10);
    update_player(&mut p);
    assert_eq!(p.position.x, MAX_COORD);
    p.direction = Direction::Up;
    update_player(&mut p);
    assert_eq!(p.position, Point { x: MAX_COORD, y: MIN_COORD });
}

#[test]
fn point_and_rect_clamp() {
    assert_eq!(Point::new(i32::MAX, i32::MIN), Point { x: MAX_COORD, y: MIN_COORD });
    assert_eq!(Point::new(3, -4).offset(-5, 9), Point { x: -2, y: 5 });
    assert_eq!(Rect::new(i32::MAX, 1, 0, u32::MAX), Rect { x: MAX_COORD, y: 1, width: 1, height: MAX_COORD as u32 });
    assert_eq!(Rect::from_center(Point { x: 100, y: 50 }, 26, 36), Rect { x: 87, y: 32, width: 26, height: 36 });
    assert_eq!(Rect::new(2, 3, 4, 5).size(), (4, 5));
}

#[test]
fn movement_keys_set_speed_and_direction() {
    let keys = [
        (Key::Left, Direction::Left),
        (Key::A, Direction::Left),
        (Key::Right, Direction::Right),
        (Key::D, Direction::Right),
        (Key::Down, Direction::Down),
        (Key::S, Direction::Down),
        (Key::Up, Direction::Up),
        (Key::W, Direction::Up),
    ];
    for (key, d) in keys {
        assert_eq!(key_to_direction(key), Some(d));
        let mut p = Player::new();
        assert_eq!(handle_event(&mut p, down(key)), Control::Continue);
        assert_eq!(p.speed, BASE_SPEED);
        assert_eq!(p.direction, d);
        assert_eq!(handle_event(&mut p, up(key)), Control::Continue);
        assert_eq!(p.speed, 0);
        assert_eq!(p.direction, d);
    }
    assert_eq!(key_to_direction(Key::Space), None);
    assert_eq!(key_to_direction(Key::Other), None);
}

#[test]
fn boost_key_prepares_faster_step() {
    let mut p = Player::new();
    handle_event(&mut p, down(Key::Space));
    assert_eq!(p.speed_co, BOOST_SPEED);
    assert_eq!(p.speed, 0);
    handle_event(&mut p, down(Key::W));
    assert_eq!(p.speed, 10);
    assert_eq!(p.direction, Direction::Up);
    handle_event(&mut p, up(Key::Space));
    assert_eq!(p.speed_co, BASE_SPEED);
    assert_eq!(p.speed, 10);
    handle_event(&mut p, down(Key::D));
    assert_eq!(p.speed, 5);
}

#[test]
fn last_pressed_key_wins_and_any_release_stops() {
    let mut p = Player::new();
    handle_event(&mut p, down(Key::Left));
    handle_event(&mut p, down(Key::Up));
    assert_eq!(p.direction, Direction::Up);
    assert_eq!(p.speed, 5);
    handle_event(&mut p, up(Key::Left));
    assert_eq!(p.speed, 0);
    assert_eq!(p.direction, Direction::Up);
}

#[test]
fn repeats_and_other_events_are_ignored() {
    let mut p = Player::new();
    let before = p;
    handle_event(&mut p, Event::KeyDown { key: Key::Right, repeat: true });
    handle_event(&mut p, Event::KeyDown { key: Key::Space, repeat: true });
    handle_event(&mut p, down(Key::Other));
    handle_event(&mut p, Event::Other);
    assert_eq!(p, before);
    handle_event(&mut p, down(Key::Right));
    handle_event(&mut p, Event::KeyUp { key: Key::Right, repeat: true });
    assert_eq!(p.speed, 5);
}

#[test]
fn quit_and_escape_stop_the_loop() {
    let mut p = Player::new();
    assert_eq!(handle_event(&mut p, Event::Quit), Control::Stop);
    assert_eq!(handle_event(&mut p, down(Key::Escape)), Control::Stop);
    assert_eq!(handle_event(&mut p, Event::KeyDown { key: Key::Escape, repeat: true }), Control::Stop);
    assert_eq!(handle_event(&mut p, up(Key::Escape)), Control::Continue);
    assert_eq!(p, Player::new());
}

#[test]
fn walk_boost_and_release_scenario() {
    let mut p = Player::new();
    handle_event(&mut p, down(Key::Right));
    update_player(&mut p);
    assert_eq!(p.position, Point { x: 5, y: 0 });
    assert_eq!(p.current_frame, 1);
    // The boost only prepares the next step: the one in use stays until a
    // movement key goes down again.
    handle_event(&mut p, down(Key::Space));
    update_player(&mut p);
    assert_eq!(p.position, Point { x: 10, y: 0 });
    assert_eq!(p.current_frame, 2);
    handle_event(&mut p, up(Key::Right));
    assert_eq!(p.speed, 0);
    for _ in 0..3 {
        update_player(&mut p);
    }
    assert_eq!(p.position, Point { x: 10, y: 0 });
    assert_eq!(p.current_frame, 2);
}

#[test]
fn boost_pressed_before_walking_doubles_step() {
    let mut p = Player::new();
    handle_event(&mut p, down(Key::Right));
    update_player(&mut p);
    assert_eq!(p.position, Point { x: 5, y: 0 });
    handle_event(&mut p, down(Key::Space));
    handle_event(&mut p, down(Key::Right));
    update_player(&mut p);
    assert_eq!(p.position, Point { x: 15, y: 0 });
    assert_eq!(p.current_frame, 2);
    handle_event(&mut p, up(Key::Right));
    update_player(&mut p);
    update_player(&mut p);
    assert_eq!(p.position, Point { x: 15, y: 0 });
}

#[test]
fn source_cell_follows_frame_and_row() {
    let mut p = Player::new();
    assert_eq!(frame_source(&p), Some(Rect { x: 0, y: 0, width: 26, height: 36 }));
    p.current_frame = 2;
    p.direction = Direction::Up;
    assert_eq!(frame_source(&p), Some(Rect { x: 52, y: 108, width: 26, height: 36 }));
    p.current_frame = 1;
    p.direction = Direction::Right;
    assert_eq!(frame_source(&p), Some(Rect { x: 26, y: 72, width: 26, height: 36 }));
}

#[test]
fn source_cell_beyond_i32_is_refused() {
    let mut p = Player::new();
    p.sprite = Rect { x: MAX_COORD, y: MAX_COORD, width: MAX_COORD as u32, height: 36 };
    p.current_frame = 2;
    assert_eq!(frame_source(&p), None);
    p.current_frame = 1;
    assert_eq!(frame_source(&p), Some(Rect { x: MAX_COORD, y: MAX_COORD, width: MAX_COORD as u32, height: 36 }));
}

#[test]
fn target_is_centred_on_viewport_plus_position() {
    let mut p = Player::new();
    assert_eq!(frame_target(&p, 800, 600), Rect { x: 387, y: 282, width: 26, height: 36 });
    p.position = Point { x: 15, y: -10 };
    assert_eq!(frame_target(&p, 800, 600), Rect { x: 402, y: 272, width: 26, height: 36 });
    assert_eq!(frame_target(&p, 801, 601), Rect { x: 402, y: 272, width: 26, height: 36 });
}

#[test]
fn background_cycles_through_shades() {
    assert_eq!(next_shade(0), 1);
    assert_eq!(next_shade(253), 254);
    assert_eq!(next_shade(254), 0);
    assert_eq!(background_color(0), (0, 0, 255));
    assert_eq!(background_color(101), (101, 50, 154));
}

#[test]
fn well_formedness_is_checked() {
    let mut p = Player::new();
    assert!(p.is_well_formed());
    p.current_frame = 3;
    assert!(!p.is_well_formed());
    p.current_frame = 0;
    p.sprite.width = 0;
    assert!(!p.is_well_formed());
    p.sprite.width = 26;
    p.position.x = i32::MAX;
    assert!(!p.is_well_formed());
    p.position.x = MAX_COORD;
    p.speed = -1;
    assert!(!p.is_well_formed());
}
