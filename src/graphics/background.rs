use vstd::prelude::*;

use crate::graphics::character::{sprite_of, Character, CharacterState, CharacterType, MoveDirection, Position};
use crate::graphics::render::{drawn, DrawCommand, Drawn, Sprite, TextureId};

verus! {

/// Width of the maze picture, in pixels.
pub const BACKGROUND_WIDTH: u32 = 1450;

/// Height of the maze picture, in pixels.
pub const BACKGROUND_HEIGHT: u32 = 1600;

/// Speed of the actors of the demo scene.
pub const DEMO_SPEED: u32 = 32;

/// The maze picture, drawn from the top left corner.
pub open spec fn background_sprite() -> Sprite {
    Sprite {
        texture: TextureId::Background,
        x: 0,
        y: 0,
        width: BACKGROUND_WIDTH,
        height: BACKGROUND_HEIGHT,
    }
}

/// An actor of the demo scene.
pub open spec fn demo_actor(kind: CharacterType, direction: MoveDirection, x: i64, y: i64) -> Drawn {
    Drawn::Sprite(
        sprite_of(
            CharacterState { kind, speed: DEMO_SPEED, position: Position { x, y }, direction },
        ),
    )
}

/// The demo scene: the maze, the four ghosts in their starting places, then
/// the player.
pub open spec fn demo_scene() -> Seq<Drawn> {
    seq![
        Drawn::Sprite(background_sprite()),
        demo_actor(CharacterType::TastyGhost, MoveDirection::Up, 915, 705),
        demo_actor(CharacterType::BlueGhost, MoveDirection::Down, 460, 560),
        demo_actor(CharacterType::RedGhost, MoveDirection::Right, 163, 710),
        demo_actor(CharacterType::YellowGhost, MoveDirection::Left, 460, 860),
        demo_actor(CharacterType::PacMan, MoveDirection::Left, 1230, 705),
    ]
}

/// The static dressing behind the actors: the maze picture.
pub struct Background {
    texture: TextureId,
}

impl Background {
    #[verifier::type_invariant]
    spec fn inv(self) -> bool {
        self.texture == TextureId::Background
    }

    pub fn new() -> (background: Background) {
        Background { texture: TextureId::Background }
    }

    /// The maze picture alone.
    pub fn render(&self) -> (sprite: Sprite)
        ensures
            sprite == background_sprite(),
    {
        proof {
            use_type_invariant(self);
        }
        Sprite { texture: self.texture, x: 0, y: 0, width: BACKGROUND_WIDTH, height: BACKGROUND_HEIGHT }
    }

    /// The maze picture with the actors of the demo scene on it.
    pub fn render_demo_scene(&self) -> (frame: Vec<DrawCommand>)
        ensures
            drawn(frame@) == demo_scene(),
    {
        let mut frame: Vec<DrawCommand> = Vec::new();
        frame.push(DrawCommand::Sprite(self.render()));
        let tasty_enemy = Character::new(
            CharacterType::TastyGhost,
            DEMO_SPEED,
            MoveDirection::Up,
            Position { x: 915, y: 705 },
        );
        frame.push(DrawCommand::Sprite(tasty_enemy.render()));
        let blue_enemy = Character::new(
            CharacterType::BlueGhost,
            DEMO_SPEED,
            MoveDirection::Down,
            Position { x: 460, y: 560 },
        );
        frame.push(DrawCommand::Sprite(blue_enemy.render()));
        let red_enemy = Character::new(
            CharacterType::RedGhost,
            DEMO_SPEED,
            MoveDirection::Right,
            Position { x: 163, y: 710 },
        );
        frame.push(DrawCommand::Sprite(red_enemy.render()));
        let yellow_enemy = Character::new(
            CharacterType::YellowGhost,
            DEMO_SPEED,
            MoveDirection::Left,
            Position { x: 460, y: 860 },
        );
        frame.push(DrawCommand::Sprite(yellow_enemy.render()));
        let pac_man = Character::new(
            CharacterType::PacMan,
            DEMO_SPEED,
            MoveDirection::Left,
            Position { x: 1230, y: 705 },
        );
        frame.push(DrawCommand::Sprite(pac_man.render()));
        assert(drawn(frame@) =~= demo_scene());
        frame
    }
}

} // verus!
