use vstd::prelude::*;

use crate::graphics::render::{Sprite, TextureId};

verus! {

/// Who an actor is; fixed when the actor is made.
#[derive(Clone, Copy, Debug, PartialEq, Eq, Hash, Structural)]
pub enum CharacterType {
    PacMan,
    RedGhost,
    BlueGhost,
    YellowGhost,
    TastyGhost,
}

/// A point in pixel space. It may leave the visible area or go negative.
#[derive(Clone, Copy, Debug, PartialEq, Eq, Hash, Structural)]
pub struct Position {
    pub x: i64,
    pub y: i64,
}

/// Extent of an actor's sprite, in pixels.
#[derive(Clone, Copy, Debug, PartialEq, Eq, Structural)]
pub struct Size {
    pub width: u32,
    pub height: u32,
}

/// The way an actor faces and moves.
#[derive(Clone, Copy, Debug, PartialEq, Eq, Hash, Structural)]
pub enum MoveDirection {
    Up,
    Down,
    Left,
    Right,
}

/// Sprite extent of each kind: the player is larger than the ghosts.
pub open spec fn character_size(kind: CharacterType) -> Size {
    match kind {
        CharacterType::PacMan => Size { width: 90, height: 90 },
        _ => Size { width: 80, height: 80 },
    }
}

pub fn get_character_size(character_type: &CharacterType) -> (size: Size)
    ensures
        size == character_size(*character_type),
{
    match character_type {
        CharacterType::PacMan => Size { width: 90, height: 90 },
        _ => Size { width: 80, height: 80 },
    }
}

/// The texture handles of an actor, one for each direction, so that a lookup
/// by direction cannot fail.
#[derive(Clone, Copy, Debug, PartialEq, Eq, Structural)]
pub struct TextureSet {
    pub up: TextureId,
    pub down: TextureId,
    pub left: TextureId,
    pub right: TextureId,
}

impl TextureSet {
    pub open spec fn spec_get(self, direction: MoveDirection) -> TextureId {
        match direction {
            MoveDirection::Up => self.up,
            MoveDirection::Down => self.down,
            MoveDirection::Left => self.left,
            MoveDirection::Right => self.right,
        }
    }

    pub fn get(&self, direction: MoveDirection) -> (texture: TextureId)
        ensures
            texture == self.spec_get(direction),
    {
        match direction {
            MoveDirection::Up => self.up,
            MoveDirection::Down => self.down,
            MoveDirection::Left => self.left,
            MoveDirection::Right => self.right,
        }
    }
}

/// The texture set of a kind: each direction has its own handle.
pub open spec fn visual_set(kind: CharacterType) -> TextureSet {
    TextureSet {
        up: TextureId::Character(kind, MoveDirection::Up),
        down: TextureId::Character(kind, MoveDirection::Down),
        left: TextureId::Character(kind, MoveDirection::Left),
        right: TextureId::Character(kind, MoveDirection::Right),
    }
}

fn load_textures(character_type: &CharacterType) -> (textures: TextureSet)
    ensures
        textures == visual_set(*character_type),
{
    TextureSet {
        up: TextureId::Character(*character_type, MoveDirection::Up),
        down: TextureId::Character(*character_type, MoveDirection::Down),
        left: TextureId::Character(*character_type, MoveDirection::Left),
        right: TextureId::Character(*character_type, MoveDirection::Right),
    }
}

/// Unit step of a direction, as (dx, dy); y grows downwards.
pub open spec fn unit_step(direction: MoveDirection) -> (int, int) {
    match direction {
        MoveDirection::Up => (0, -1),
        MoveDirection::Down => (0, 1),
        MoveDirection::Left => (-1, 0),
        MoveDirection::Right => (1, 0),
    }
}

/// Whether a point fits the coordinate type.
pub open spec fn fits_position(x: int, y: int) -> bool {
    i64::MIN <= x <= i64::MAX && i64::MIN <= y <= i64::MAX
}

/// An actor as a value: its kind, speed, position and direction.
pub struct CharacterState {
    pub kind: CharacterType,
    pub speed: u32,
    pub position: Position,
    pub direction: MoveDirection,
}

/// Whether one step of the actor lands on a point that fits the coordinate type.
pub open spec fn advance_fits(s: CharacterState) -> bool {
    fits_position(
        s.position.x + unit_step(s.direction).0 * s.speed,
        s.position.y + unit_step(s.direction).1 * s.speed,
    )
}

/// The actor after one step: `speed` pixels along its direction.
pub open spec fn advanced(s: CharacterState) -> CharacterState {
    CharacterState {
        position: Position {
            x: (s.position.x + unit_step(s.direction).0 * s.speed) as i64,
            y: (s.position.y + unit_step(s.direction).1 * s.speed) as i64,
        },
        ..s
    }
}

/// The sprite that shows an actor: the texture of its kind and direction, at
/// its position, with the extent of its kind.
pub open spec fn sprite_of(s: CharacterState) -> Sprite {
    Sprite {
        texture: TextureId::Character(s.kind, s.direction),
        x: s.position.x,
        y: s.position.y,
        width: character_size(s.kind).width,
        height: character_size(s.kind).height,
    }
}

/// The actor after `n` steps, its speed and direction held.
pub open spec fn advanced_times(s: CharacterState, n: nat) -> CharacterState
    decreases n,
{
    if n == 0 {
        s
    } else {
        advanced(advanced_times(s, (n - 1) as nat))
    }
}

/// The point `k` steps away from the actor, along its direction.
pub open spec fn displaced(s: CharacterState, k: int) -> (int, int) {
    (
        s.position.x + unit_step(s.direction).0 * k * s.speed,
        s.position.y + unit_step(s.direction).1 * k * s.speed,
    )
}

proof fn lemma_displacement_between(s: CharacterState, k: int, n: int)
    requires
        0 <= k <= n,
        fits_position(displaced(s, n).0, displaced(s, n).1),
    ensures
        fits_position(displaced(s, k).0, displaced(s, k).1),
{
    let sp = s.speed as int;
    assert(0 <= k * sp <= n * sp) by (nonlinear_arith)
        requires
            0 <= k <= n,
            0 <= sp,
    ;
    let (ux, uy) = unit_step(s.direction);
    assert(ux * k * sp == ux * (k * sp) && ux * n * sp == ux * (n * sp)) by (nonlinear_arith);
    assert(uy * k * sp == uy * (k * sp) && uy * n * sp == uy * (n * sp)) by (nonlinear_arith);
}

proof fn lemma_displacement_step(s: CharacterState, n: int)
    ensures
        displaced(s, n - 1).0 + unit_step(s.direction).0 * s.speed == displaced(s, n).0,
        displaced(s, n - 1).1 + unit_step(s.direction).1 * s.speed == displaced(s, n).1,
{
    let sp = s.speed as int;
    let (ux, uy) = unit_step(s.direction);
    assert(ux * (n - 1) * sp + ux * sp == ux * n * sp) by (nonlinear_arith);
    assert(uy * (n - 1) * sp + uy * sp == uy * n * sp) by (nonlinear_arith);
}

/// With speed `s` and direction held, `n` steps move an actor by exactly
/// `n * s` along its direction and leave the other coordinate unchanged: for
/// Right, x grows by `n * s`; for Left, x shrinks by it; for Down, y grows; for
/// Up, y shrinks. Every step on the way can be taken whenever the end point
/// fits the coordinate type.
pub proof fn lemma_advance_repeated(s: CharacterState, n: nat)
    requires
        fits_position(displaced(s, n as int).0, displaced(s, n as int).1),
    ensures
        forall|k: nat| k < n ==> advance_fits(#[trigger] advanced_times(s, k)),
        advanced_times(s, n).position.x == displaced(s, n as int).0,
        advanced_times(s, n).position.y == displaced(s, n as int).1,
        advanced_times(s, n).direction == s.direction,
        advanced_times(s, n).speed == s.speed,
        advanced_times(s, n).kind == s.kind,
    decreases n,
{
    if n == 0 {
        assert(displaced(s, 0).0 == s.position.x && displaced(s, 0).1 == s.position.y) by {
            let (ux, uy) = unit_step(s.direction);
            assert(ux * 0 * s.speed == 0 && uy * 0 * s.speed == 0) by (nonlinear_arith);
        }
    } else {
        let m = (n - 1) as nat;
        lemma_displacement_between(s, m as int, n as int);
        lemma_advance_repeated(s, m);
        lemma_displacement_step(s, n as int);
        let before = advanced_times(s, m);
        assert(advance_fits(before));
        assert forall|k: nat| k < n implies advance_fits(#[trigger] advanced_times(s, k)) by {
            if k == m {
                assert(advance_fits(before));
            }
        }
    }
}

/// Once the direction changes, the actor's sprite takes the texture bound to
/// the new direction in the actor's visual set, never that of the old one.
pub proof fn lemma_render_follows_direction(s: CharacterState, direction: MoveDirection)
    ensures
        sprite_of(CharacterState { direction, ..s }).texture == visual_set(s.kind).spec_get(direction),
        direction != s.direction ==> sprite_of(CharacterState { direction, ..s }).texture
            != sprite_of(s).texture,
{
}

/// A player character or a ghost.
pub struct Character {
    character_type: CharacterType,
    move_speed: u32,
    position: Position,
    move_direction: MoveDirection,
    size: Size,
    textures: TextureSet,
}

impl View for Character {
    type V = CharacterState;

    closed spec fn view(&self) -> CharacterState {
        CharacterState {
            kind: self.character_type,
            speed: self.move_speed,
            position: self.position,
            direction: self.move_direction,
        }
    }
}

impl Character {
    #[verifier::type_invariant]
    spec fn inv(self) -> bool {
        &&& self.size == character_size(self.character_type)
        &&& self.textures == visual_set(self.character_type)
    }

    pub fn new(
        character_type: CharacterType,
        move_speed: u32,
        move_direction: MoveDirection,
        start_position: Position,
    ) -> (character: Character)
        ensures
            character@ == (CharacterState {
                kind: character_type,
                speed: move_speed,
                position: start_position,
                direction: move_direction,
            }),
    {
        let size = get_character_size(&character_type);
        let textures = load_textures(&character_type);
        Character {
            character_type,
            move_speed,
            move_direction,
            position: start_position,
            size,
            textures,
        }
    }

    /// Whether `update_position` can run: the next point fits the coordinate type.
    pub fn can_advance(&self) -> (fits: bool)
        ensures
            fits == advance_fits(self@),
    {
        let speed = self.move_speed as i64;
        match self.move_direction {
            MoveDirection::Up => self.position.y >= i64::MIN + speed,
            MoveDirection::Down => self.position.y <= i64::MAX - speed,
            MoveDirection::Left => self.position.x >= i64::MIN + speed,
            MoveDirection::Right => self.position.x <= i64::MAX - speed,
        }
    }

    /// Moves the actor `speed` pixels along its direction, with no bound.
    pub fn update_position(&mut self)
        requires
            advance_fits(old(self)@),
        ensures
            final(self)@ == advanced(old(self)@),
    {
        proof {
            use_type_invariant(&*self);
        }
        let speed = self.move_speed as i64;
        match self.move_direction {
            MoveDirection::Up => self.position.y = self.position.y - speed,
            MoveDirection::Down => self.position.y = self.position.y + speed,
            MoveDirection::Left => self.position.x = self.position.x - speed,
            MoveDirection::Right => self.position.x = self.position.x + speed,
        }
    }

    pub fn set_new_speed(&mut self, move_speed: u32)
        ensures
            final(self)@ == (CharacterState { speed: move_speed, ..old(self)@ }),
    {
        proof {
            use_type_invariant(&*self);
        }
        self.move_speed = move_speed;
    }

    pub fn set_new_direction(&mut self, move_direction: MoveDirection)
        ensures
            final(self)@ == (CharacterState { direction: move_direction, ..old(self)@ }),
    {
        proof {
            use_type_invariant(&*self);
        }
        self.move_direction = move_direction;
    }

    /// The sprite to draw for the actor as it stands now.
    pub fn render(&self) -> (sprite: Sprite)
        ensures
            sprite == sprite_of(self@),
    {
        proof {
            use_type_invariant(self);
        }
        Sprite {
            texture: self.textures.get(self.move_direction),
            x: self.position.x,
            y: self.position.y,
            width: self.size.width,
            height: self.size.height,
        }
    }

    pub fn character_type(&self) -> (kind: CharacterType)
        ensures
            kind == self@.kind,
    {
        self.character_type
    }

    pub fn speed(&self) -> (speed: u32)
        ensures
            speed == self@.speed,
    {
        self.move_speed
    }

    pub fn position(&self) -> (position: Position)
        ensures
            position == self@.position,
    {
        self.position
    }

    pub fn direction(&self) -> (direction: MoveDirection)
        ensures
            direction == self@.direction,
    {
        self.move_direction
    }
}

} // verus!
