use pac_man::game_core::{EventAction, GameDrawableState, GameStateModel, InputEvent, Key};
use pac_man::graphics::character::{CharacterType, MoveDirection, Position};
use pac_man::graphics::render::{DrawCommand, TextureId};
use pac_man::playground::Playground;

fn key(k: Key) -> InputEvent {
    InputEvent::KeyPressed(k)
}

fn ghost_positions(p: &Playground) -> Vec<Position> {
    p.enemies().iter().map(|g| g.position()).collect()
}

#[test]
fn new_playground_places_actors() {
    let p = Playground::new();
    let player = p.pac_man();
    assert_eq!(player.character_type(), CharacterType::PacMan);
    assert_eq!(player.position(), Position { x: 1230, y: 705 });
    assert_eq!(player.direction(), MoveDirection::Left);
    assert_eq!(player.speed(), 8);
    let kinds: Vec<CharacterType> = p.enemies().iter().map(|g| g.character_type()).collect();
    assert_eq!(
        kinds,
        vec![
            CharacterType::TastyGhost,
            CharacterType::BlueGhost,
            CharacterType::RedGhost,
            CharacterType::YellowGhost
        ]
    );
    let speeds: Vec<u32> = p.enemies().iter().map(|g| g.speed()).collect();
    assert_eq!(speeds, vec![3, 5, 5, 5]);
}

#[test]
fn up_key_then_tick_moves_player_up() {
    let mut p = Playground::new();
    assert_eq!(p.handle_keyboard(&key(Key::Up)), EventAction::Nop);
    p.update_state();
    assert_eq!(p.pac_man().position(), Position { x: 1230, y: 697 });
    assert_eq!(p.pac_man().direction(), MoveDirection::Up);
}

#[test]
fn tick_moves_every_actor_once() {
    let mut p = Playground::new();
    assert!(p.can_advance());
    p.update_state();
    assert_eq!(p.pac_man().position(), Position { x: 1222, y: 705 });
    assert_eq!(
        ghost_positions(&p),
        vec![
            Position { x: 915, y: 702 },
            Position { x: 460, y: 565 },
            Position { x: 168, y: 710 },
            Position { x: 455, y: 860 },
        ]
    );
}

#[test]
fn arrow_keys_turn_only_the_player() {
    let mut p = Playground::new();
    let ghost_directions: Vec<MoveDirection> = p.enemies().iter().map(|g| g.direction()).collect();
    for (k, d) in [
        (Key::Down, MoveDirection::Down),
        (Key::Right, MoveDirection::Right),
        (Key::Left, MoveDirection::Left),
        (Key::Up, MoveDirection::Up),
    ] {
        assert_eq!(p.handle_keyboard(&key(k)), EventAction::Nop);
        assert_eq!(p.pac_man().direction(), d);
        assert_eq!(p.pac_man().position(), Position { x: 1230, y: 705 });
        let now: Vec<MoveDirection> = p.enemies().iter().map(|g| g.direction()).collect();
        assert_eq!(now, ghost_directions);
    }
}

#[test]
fn leave_requests_open_the_menu() {
    let mut p = Playground::new();
    assert_eq!(p.handle_keyboard(&key(Key::Escape)), EventAction::OpenMenu);
    assert_eq!(p.handle_keyboard(&InputEvent::Closed), EventAction::OpenMenu);
    assert_eq!(p.handle_keyboard(&key(Key::Enter)), EventAction::Nop);
    assert_eq!(p.handle_keyboard(&InputEvent::Other), EventAction::Nop);
    assert_eq!(p.pac_man().direction(), MoveDirection::Left);
}

#[test]
fn render_draws_maze_then_player_then_ghosts() {
    let mut p = Playground::new();
    p.handle_keyboard(&key(Key::Down));
    let frame = p.render();
    let textures: Vec<TextureId> = frame
        .iter()
        .map(|c| match c {
            DrawCommand::Sprite(s) => s.texture,
            DrawCommand::Text(_) => panic!("the playground draws no text"),
        })
        .collect();
    assert_eq!(
        textures,
        vec![
            TextureId::Background,
            TextureId::Character(CharacterType::PacMan, MoveDirection::Down),
            TextureId::Character(CharacterType::TastyGhost, MoveDirection::Up),
            TextureId::Character(CharacterType::BlueGhost, MoveDirection::Down),
            TextureId::Character(CharacterType::RedGhost, MoveDirection::Right),
            TextureId::Character(CharacterType::YellowGhost, MoveDirection::Left),
        ]
    );
    match &frame[1] {
        DrawCommand::Sprite(s) => assert_eq!((s.x, s.y, s.width, s.height), (1230, 705, 90, 90)),
        DrawCommand::Text(_) => panic!("the player is a sprite"),
    }
}

#[test]
fn reset_puts_actors_back() {
    let mut p = Playground::new();
    p.handle_keyboard(&key(Key::Right));
    p.update_state();
    p.update_state();
    assert_eq!(p.pac_man().position(), Position { x: 1246, y: 705 });
    p.reset();
    assert_eq!(p.pac_man().position(), Position { x: 1230, y: 705 });
    assert_eq!(p.pac_man().direction(), MoveDirection::Left);
    assert_eq!(ghost_positions(&p), ghost_positions(&Playground::new()));
}
