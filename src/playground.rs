use vstd::prelude::*;

use crate::game_core::{is_leave_request, EventAction, GameDrawableState, GameStateModel, InputEvent, Key};
use crate::graphics::background::{background_sprite, Background};
use crate::graphics::character::{
    advance_fits, advanced, sprite_of, Character, CharacterState, CharacterType, MoveDirection,
    Position,
};
use crate::graphics::render::{drawn, DrawCommand, Drawn};

verus! {

/// A playground as a value: the player and the ghosts, in drawing order.
pub struct PlaygroundState {
    pub player: CharacterState,
    pub ghosts: Seq<CharacterState>,
}

/// The actors a game starts with.
pub open spec fn initial_playground() -> PlaygroundState {
    PlaygroundState {
        player: CharacterState {
            kind: CharacterType::PacMan,
            speed: 8,
            position: Position { x: 1230, y: 705 },
            direction: MoveDirection::Left,
        },
        ghosts: seq![
            CharacterState {
                kind: CharacterType::TastyGhost,
                speed: 3,
                position: Position { x: 915, y: 705 },
                direction: MoveDirection::Up,
            },
            CharacterState {
                kind: CharacterType::BlueGhost,
                speed: 5,
                position: Position { x: 460, y: 560 },
                direction: MoveDirection::Down,
            },
            CharacterState {
                kind: CharacterType::RedGhost,
                speed: 5,
                position: Position { x: 163, y: 710 },
                direction: MoveDirection::Right,
            },
            CharacterState {
                kind: CharacterType::YellowGhost,
                speed: 5,
                position: Position { x: 460, y: 860 },
                direction: MoveDirection::Left,
            },
        ],
    }
}

/// The direction an arrow key asks for, if the key is an arrow.
pub open spec fn arrow_direction(key: Key) -> Option<MoveDirection> {
    match key {
        Key::Up => Some(MoveDirection::Up),
        Key::Down => Some(MoveDirection::Down),
        Key::Left => Some(MoveDirection::Left),
        Key::Right => Some(MoveDirection::Right),
        _ => None,
    }
}

/// The signal a playground gives for an event: back to the menu on a close
/// request or Escape, nothing otherwise.
pub open spec fn playground_signal(event: InputEvent) -> EventAction {
    if is_leave_request(event) {
        EventAction::OpenMenu
    } else {
        EventAction::Nop
    }
}

/// The playground after an event: an arrow key turns the player, and nothing
/// else changes.
pub open spec fn playground_after_event(p: PlaygroundState, event: InputEvent) -> PlaygroundState {
    match event {
        InputEvent::KeyPressed(key) => match arrow_direction(key) {
            Some(d) => PlaygroundState { player: CharacterState { direction: d, ..p.player }, ..p },
            None => p,
        },
        _ => p,
    }
}

/// Whether every actor can take one step without leaving the coordinate type.
pub open spec fn playground_can_advance(p: PlaygroundState) -> bool {
    &&& advance_fits(p.player)
    &&& forall|i: int| 0 <= i < p.ghosts.len() ==> advance_fits(#[trigger] p.ghosts[i])
}

/// The playground after one tick: every actor has taken one step.
pub open spec fn playground_advanced(p: PlaygroundState) -> PlaygroundState {
    PlaygroundState {
        player: advanced(p.player),
        ghosts: p.ghosts.map_values(|g: CharacterState| advanced(g)),
    }
}

/// What a playground draws: the maze, then the player, then the ghosts.
pub open spec fn playground_frame(p: PlaygroundState) -> Seq<Drawn> {
    seq![Drawn::Sprite(background_sprite()), Drawn::Sprite(sprite_of(p.player))] + p.ghosts.map_values(
        |g: CharacterState| Drawn::Sprite(sprite_of(g)),
    )
}

/// The game screen: the maze, the player, and the ghosts.
pub struct Playground {
    background: Background,
    pac_man: Character,
    enemies: Vec<Character>,
}

impl View for Playground {
    type V = PlaygroundState;

    closed spec fn view(&self) -> PlaygroundState {
        PlaygroundState {
            player: self.pac_man@,
            ghosts: self.enemies@.map_values(|c: Character| c@),
        }
    }
}

impl Playground {
    fn initial_player() -> (player: Character)
        ensures
            player@ == initial_playground().player,
    {
        Character::new(CharacterType::PacMan, 8, MoveDirection::Left, Position { x: 1230, y: 705 })
    }

    fn initial_enemies() -> (enemies: Vec<Character>)
        ensures
            enemies@.map_values(|c: Character| c@) == initial_playground().ghosts,
    {
        let enemies = vec![
            Character::new(
                CharacterType::TastyGhost,
                3,
                MoveDirection::Up,
                Position { x: 915, y: 705 },
            ),
            Character::new(
                CharacterType::BlueGhost,
                5,
                MoveDirection::Down,
                Position { x: 460, y: 560 },
            ),
            Character::new(
                CharacterType::RedGhost,
                5,
                MoveDirection::Right,
                Position { x: 163, y: 710 },
            ),
            Character::new(
                CharacterType::YellowGhost,
                5,
                MoveDirection::Left,
                Position { x: 460, y: 860 },
            ),
        ];
        assert(enemies@.map_values(|c: Character| c@) =~= initial_playground().ghosts);
        enemies
    }

    pub fn new() -> (playground: Playground)
        ensures
            playground@ == initial_playground(),
    {
        let playground = Playground {
            background: Background::new(),
            pac_man: Self::initial_player(),
            enemies: Self::initial_enemies(),
        };
        playground
    }

    /// Puts every actor back where a game starts.
    pub fn reset(&mut self)
        ensures
            final(self)@ == initial_playground(),
    {
        self.pac_man = Self::initial_player();
        self.enemies = Self::initial_enemies();
    }

    /// Whether a tick can run: every actor's next point fits the coordinate type.
    pub fn can_advance(&self) -> (fits: bool)
        ensures
            fits == playground_can_advance(self@),
    {
        if !self.pac_man.can_advance() {
            return false;
        }
        let mut i: usize = 0;
        while i < self.enemies.len()
            invariant
                i <= self.enemies@.len(),
                forall|j: int| 0 <= j < i ==> advance_fits(#[trigger] self@.ghosts[j]),
            decreases self.enemies@.len() - i,
        {
            if !self.enemies[i].can_advance() {
                assert(!advance_fits(self@.ghosts[i as int]));
                return false;
            }
            i = i + 1;
        }
        true
    }

    pub fn pac_man(&self) -> (player: &Character)
        ensures
            player@ == self@.player,
    {
        &self.pac_man
    }

    /// The ghosts, in drawing order.
    pub fn enemies(&self) -> (ghosts: &[Character])
        ensures
            ghosts@.map_values(|c: Character| c@) == self@.ghosts,
    {
        self.enemies.as_slice()
    }
}

impl GameStateModel for Playground {
    open spec fn valid(&self) -> bool {
        true
    }

    open spec fn can_update(&self) -> bool {
        playground_can_advance(self@)
    }

    fn handle_keyboard(&mut self, event: &InputEvent) -> (action: EventAction)
        ensures
            action == playground_signal(*event),
            final(self)@ == playground_after_event(old(self)@, *event),
    {
        match event {
            InputEvent::Closed | InputEvent::KeyPressed(Key::Escape) => EventAction::OpenMenu,
            InputEvent::KeyPressed(Key::Up) => {
                self.pac_man.set_new_direction(MoveDirection::Up);
                EventAction::Nop
            },
            InputEvent::KeyPressed(Key::Down) => {
                self.pac_man.set_new_direction(MoveDirection::Down);
                EventAction::Nop
            },
            InputEvent::KeyPressed(Key::Left) => {
                self.pac_man.set_new_direction(MoveDirection::Left);
                EventAction::Nop
            },
            InputEvent::KeyPressed(Key::Right) => {
                self.pac_man.set_new_direction(MoveDirection::Right);
                EventAction::Nop
            },
            _ => EventAction::Nop,
        }
    }

    /// Moves the player and every ghost one step, unconditionally.
    fn update_state(&mut self)
        ensures
            final(self)@ == playground_advanced(old(self)@),
    {
        let ghost start = self@;
        self.pac_man.update_position();
        let mut i: usize = 0;
        while i < self.enemies.len()
            invariant
                i <= self.enemies@.len(),
                self.enemies@.len() == start.ghosts.len(),
                playground_can_advance(start),
                self.pac_man@ == advanced(start.player),
                forall|j: int| 0 <= j < i ==> (#[trigger] self.enemies@[j])@ == advanced(start.ghosts[j]),
                forall|j: int| i <= j < self.enemies@.len() ==> (#[trigger] self.enemies@[j])@ == start.ghosts[j],
            decreases self.enemies@.len() - i,
        {
            assert(advance_fits(start.ghosts[i as int]));
            self.enemies[i].update_position();
            i = i + 1;
        }
        assert(self@.ghosts =~= playground_advanced(start).ghosts);
    }
}

impl GameDrawableState for Playground {
    fn render(&self) -> (frame: Vec<DrawCommand>)
        ensures
            drawn(frame@) == playground_frame(self@),
    {
        let mut frame: Vec<DrawCommand> = Vec::new();
        frame.push(DrawCommand::Sprite(self.background.render()));
        frame.push(DrawCommand::Sprite(self.pac_man.render()));
        let mut i: usize = 0;
        while i < self.enemies.len()
            invariant
                i <= self.enemies@.len(),
                frame@.len() == i + 2,
                forall|j: int| 0 <= j < i + 2 ==> (#[trigger] frame@[j])@ == playground_frame(self@)[j],
            decreases self.enemies@.len() - i,
        {
            let command = DrawCommand::Sprite(self.enemies[i].render());
            assert(command@ == playground_frame(self@)[i + 2]);
            frame.push(command);
            i = i + 1;
        }
        assert(drawn(frame@) =~= playground_frame(self@));
        frame
    }
}

} // verus!
