use pac_man::graphics::background::Background;
use pac_man::graphics::character::{get_character_size, Character, CharacterType, MoveDirection, Position, Size};
use pac_man::graphics::render::{centered_left, texture_path, DrawCommand, Sprite, TextureId};

fn ghost(direction: MoveDirection, speed: u32) -> Character {
    Character::new(CharacterType::RedGhost, speed, direction, Position { x: 100, y: 200 })
}

#[test]
fn player_is_larger_than_ghosts() {
    assert_eq!(get_character_size(&CharacterType::PacMan), Size { width: 90, height: 90 });
    for kind in [
        CharacterType::RedGhost,
        CharacterType::BlueGhost,
        CharacterType::YellowGhost,
        CharacterType::TastyGhost,
    ] {
        assert_eq!(get_character_size(&kind), Size { width: 80, height: 80 });
    }
}

#[test]
fn new_character_keeps_its_arguments() {
    let c = Character::new(CharacterType::BlueGhost, 5, MoveDirection::Down, Position { x: 460, y: 560 });
    assert_eq!(c.character_type(), CharacterType::BlueGhost);
    assert_eq!(c.speed(), 5);
    assert_eq!(c.direction(), MoveDirection::Down);
    assert_eq!(c.position(), Position { x: 460, y: 560 });
}

#[test]
fn one_step_in_each_direction() {
    let cases = [
        (MoveDirection::Up, Position { x: 100, y: 193 }),
        (MoveDirection::Down, Position { x: 100, y: 207 }),
        (MoveDirection::Left, Position { x: 93, y: 200 }),
        (MoveDirection::Right, Position { x: 107, y: 200 }),
    ];
    for (direction, expected) in cases {
        let mut c = ghost(direction, 7);
        c.update_position();
        assert_eq!(c.position(), expected);
        assert_eq!(c.direction(), direction);
    }
}

#[test]
fn n_steps_move_by_n_times_speed() {
    let n: i64 = 25;
    let s: u32 = 6;
    for direction in [MoveDirection::Up, MoveDirection::Down, MoveDirection::Left, MoveDirection::Right] {
        let mut c = ghost(direction, s);
        for _ in 0..n {
            c.update_position();
        }
        let d = n * s as i64;
        let expected = match direction {
            MoveDirection::Up => Position { x: 100, y: 200 - d },
            MoveDirection::Down => Position { x: 100, y: 200 + d },
            MoveDirection::Left => Position { x: 100 - d, y: 200 },
            MoveDirection::Right => Position { x: 100 + d, y: 200 },
        };
        assert_eq!(c.position(), expected);
    }
}

#[test]
fn position_may_go_negative() {
    let mut c = Character::new(CharacterType::PacMan, 8, MoveDirection::Left, Position { x: 3, y: 0 });
    c.update_position();
    assert_eq!(c.position(), Position { x: -5, y: 0 });
    c.set_new_direction(MoveDirection::Up);
    c.update_position();
    assert_eq!(c.position(), Position { x: -5, y: -8 });
}

#[test]
fn speed_change_applies_to_next_step() {
    let mut c = ghost(MoveDirection::Right, 3);
    c.set_new_speed(10);
    assert_eq!(c.speed(), 10);
    c.update_position();
    assert_eq!(c.position(), Position { x: 110, y: 200 });
    c.set_new_speed(0);
    c.update_position();
    assert_eq!(c.position(), Position { x: 110, y: 200 });
}

#[test]
fn can_advance_stops_at_coordinate_limits() {
    let c = Character::new(CharacterType::PacMan, 8, MoveDirection::Left, Position { x: i64::MIN + 7, y: 0 });
    assert!(!c.can_advance());
    let c = Character::new(CharacterType::PacMan, 8, MoveDirection::Left, Position { x: i64::MIN + 8, y: 0 });
    assert!(c.can_advance());
    let c = Character::new(CharacterType::PacMan, 8, MoveDirection::Down, Position { x: 0, y: i64::MAX - 7 });
    assert!(!c.can_advance());
    let c = Character::new(CharacterType::PacMan, 8, MoveDirection::Up, Position { x: 0, y: 0 });
    assert!(c.can_advance());
}

#[test]
fn render_uses_texture_of_current_direction() {
    let mut c = Character::new(CharacterType::YellowGhost, 5, MoveDirection::Left, Position { x: 460, y: 860 });
    let before = c.render();
    assert_eq!(
        before,
        Sprite {
            texture: TextureId::Character(CharacterType::YellowGhost, MoveDirection::Left),
            x: 460,
            y: 860,
            width: 80,
            height: 80,
        }
    );
    c.set_new_direction(MoveDirection::Up);
    let after = c.render();
    assert_eq!(after.texture, TextureId::Character(CharacterType::YellowGhost, MoveDirection::Up));
    assert_ne!(after.texture, before.texture);
}

#[test]
fn player_render_changes_texture_with_direction() {
    let mut c = Character::new(CharacterType::PacMan, 8, MoveDirection::Left, Position { x: 1230, y: 705 });
    let before = c.render();
    assert_eq!(before.width, 90);
    assert_eq!(before.height, 90);
    c.set_new_direction(MoveDirection::Right);
    let after = c.render();
    assert_eq!(after.texture, TextureId::Character(CharacterType::PacMan, MoveDirection::Right));
    assert_ne!(after.texture, before.texture);
}

#[test]
fn texture_paths() {
    assert_eq!(texture_path(TextureId::Background), "./resources/images/background.png");
    assert_eq!(
        texture_path(TextureId::Character(CharacterType::RedGhost, MoveDirection::Up)),
        "./resources/images/ghost_red_up.png"
    );
    assert_eq!(
        texture_path(TextureId::Character(CharacterType::TastyGhost, MoveDirection::Right)),
        "./resources/images/ghost_tasty_right.png"
    );
    assert_eq!(
        texture_path(TextureId::Character(CharacterType::BlueGhost, MoveDirection::Down)),
        "./resources/images/ghost_blue_down.png"
    );
    assert_eq!(
        texture_path(TextureId::Character(CharacterType::YellowGhost, MoveDirection::Left)),
        "./resources/images/ghost_yellow_left.png"
    );
    for direction in [MoveDirection::Up, MoveDirection::Down, MoveDirection::Left, MoveDirection::Right] {
        assert_eq!(
            texture_path(TextureId::Character(CharacterType::PacMan, direction)),
            "./resources/images/pac_man_3.png"
        );
    }
}

#[test]
fn centering() {
    assert_eq!(centered_left(1800, 400), 700);
    assert_eq!(centered_left(1800, 401), 699);
    assert_eq!(centered_left(100, 100), 0);
}

#[test]
fn background_sprite_covers_the_maze() {
    let b = Background::new();
    assert_eq!(
        b.render(),
        Sprite { texture: TextureId::Background, x: 0, y: 0, width: 1450, height: 1600 }
    );
}

#[test]
fn demo_scene_draws_maze_then_ghosts_then_player() {
    let frame = Background::new().render_demo_scene();
    let expected = vec![
        (TextureId::Background, 0, 0, 1450),
        (TextureId::Character(CharacterType::TastyGhost, MoveDirection::Up), 915, 705, 80),
        (TextureId::Character(CharacterType::BlueGhost, MoveDirection::Down), 460, 560, 80),
        (TextureId::Character(CharacterType::RedGhost, MoveDirection::Right), 163, 710, 80),
        (TextureId::Character(CharacterType::YellowGhost, MoveDirection::Left), 460, 860, 80),
        (TextureId::Character(CharacterType::PacMan, MoveDirection::Left), 1230, 705, 90),
    ];
    assert_eq!(frame.len(), expected.len());
    for (command, (texture, x, y, width)) in frame.iter().zip(expected) {
        match command {
            DrawCommand::Sprite(s) => {
                assert_eq!(s.texture, texture);
                assert_eq!((s.x, s.y, s.width), (x, y, width));
            }
            DrawCommand::Text(_) => panic!("the demo scene draws no text"),
        }
    }
}
