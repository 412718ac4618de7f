use vstd::prelude::*;

use crate::game_core::{EventAction, GameDrawableState, GameStateModel, InputEvent};
use crate::graphics::render::{drawn, DrawCommand, Drawn};
use crate::menu::{initial_menu, menu_after_event, menu_frame, menu_signal, menu_wf, Menu, MenuState};
use crate::playground::{
    initial_playground, playground_advanced, playground_after_event, playground_can_advance,
    playground_frame, playground_signal, Playground, PlaygroundState,
};

verus! {

/// Index of the menu among the screens.
pub const MENU_SCREEN: usize = 0;

/// Index of the playground among the screens.
pub const PLAYGROUND_SCREEN: usize = 1;

/// One screen of the game.
pub enum Screen {
    Menu(Menu),
    Playground(Playground),
}

/// A screen as a value.
pub enum ScreenState {
    Menu(MenuState),
    Playground(PlaygroundState),
}

impl View for Screen {
    type V = ScreenState;

    open spec fn view(&self) -> ScreenState {
        match self {
            Screen::Menu(m) => ScreenState::Menu(m@),
            Screen::Playground(p) => ScreenState::Playground(p@),
        }
    }
}

/// The signal a screen gives for an event.
pub open spec fn screen_signal(s: ScreenState, event: InputEvent) -> EventAction {
    match s {
        ScreenState::Menu(m) => menu_signal(m, event),
        ScreenState::Playground(_) => playground_signal(event),
    }
}

/// The screen after it has handled an event.
pub open spec fn screen_after_event(s: ScreenState, event: InputEvent) -> ScreenState {
    match s {
        ScreenState::Menu(m) => ScreenState::Menu(menu_after_event(m, event)),
        ScreenState::Playground(p) => ScreenState::Playground(playground_after_event(p, event)),
    }
}

/// Whether a tick can run on the screen.
pub open spec fn screen_can_tick(s: ScreenState) -> bool {
    match s {
        ScreenState::Menu(_) => true,
        ScreenState::Playground(p) => playground_can_advance(p),
    }
}

/// The screen after one tick: the menu stays, the playground's actors step.
pub open spec fn screen_ticked(s: ScreenState) -> ScreenState {
    match s {
        ScreenState::Menu(m) => ScreenState::Menu(m),
        ScreenState::Playground(p) => ScreenState::Playground(playground_advanced(p)),
    }
}

/// What a screen draws.
pub open spec fn screen_frame(s: ScreenState) -> Seq<Drawn> {
    match s {
        ScreenState::Menu(m) => menu_frame(m),
        ScreenState::Playground(p) => playground_frame(p),
    }
}

/// The controller as a value: its screens, the active one, and whether it runs.
pub struct GameState {
    pub screens: Seq<ScreenState>,
    pub active: int,
    pub running: bool,
}

/// A well-formed controller has the menu first and the playground second, and
/// one of them active.
pub open spec fn game_wf(g: GameState) -> bool {
    &&& g.screens.len() == 2
    &&& g.screens[MENU_SCREEN as int] matches ScreenState::Menu(m) && menu_wf(m)
    &&& g.screens[PLAYGROUND_SCREEN as int] is Playground
    &&& 0 <= g.active < 2
}

/// The active screen after a signal: a new game opens the playground, the menu
/// request opens the menu, and the rest keep the active screen.
pub open spec fn next_active(active: int, action: EventAction) -> int {
    match action {
        EventAction::StartNewGame => PLAYGROUND_SCREEN as int,
        EventAction::OpenMenu => MENU_SCREEN as int,
        _ => active,
    }
}

/// The controller after an event: the active screen handles it, and the
/// controller applies the signal that comes back.
pub open spec fn game_after_event(g: GameState, event: InputEvent) -> GameState {
    let action = screen_signal(g.screens[g.active], event);
    GameState {
        screens: g.screens.update(g.active, screen_after_event(g.screens[g.active], event)),
        active: next_active(g.active, action),
        running: g.running && action != EventAction::QuitGame,
    }
}

/// The controller after a tick: the active screen advances once while the
/// game runs.
pub open spec fn game_ticked(g: GameState) -> GameState {
    if g.running {
        GameState { screens: g.screens.update(g.active, screen_ticked(g.screens[g.active])), ..g }
    } else {
        g
    }
}

/// Whether a tick can run on the controller.
pub open spec fn game_can_tick(g: GameState) -> bool {
    g.running ==> screen_can_tick(g.screens[g.active])
}

/// The game a controller starts with: the menu active and every actor in place.
pub open spec fn initial_game(line_height: u32) -> GameState {
    GameState {
        screens: seq![
            ScreenState::Menu(initial_menu(line_height)),
            ScreenState::Playground(initial_playground()),
        ],
        active: MENU_SCREEN as int,
        running: true,
    }
}

/// The top of the game: its screens, which of them is active, and whether the
/// game still runs.
pub struct PacMan {
    current_state: usize,
    game_states: Vec<Screen>,
    running: bool,
}

impl View for PacMan {
    type V = GameState;

    closed spec fn view(&self) -> GameState {
        GameState {
            screens: self.game_states@.map_values(|s: Screen| s@),
            active: self.current_state as int,
            running: self.running,
        }
    }
}

impl PacMan {
    pub open spec fn wf(&self) -> bool {
        game_wf(self@)
    }

    /// Builds every screen at once, the menu's entries `menu_line_height`
    /// pixels apart, with the menu active.
    pub fn new(menu_line_height: u32) -> (game: PacMan)
        requires
            2 * menu_line_height <= u32::MAX,
        ensures
            game@ == initial_game(menu_line_height),
            game.wf(),
    {
        let game_states = vec![
            Screen::Menu(Menu::new(menu_line_height)),
            Screen::Playground(Playground::new()),
        ];
        let game = PacMan { current_state: MENU_SCREEN, game_states, running: true };
        assert(game@.screens =~= initial_game(menu_line_height).screens);
        game
    }

    /// Hands an event to the active screen and applies the signal it gives:
    /// quit stops the game, a new game opens the playground, the menu request
    /// opens the menu. Returns the signal.
    pub fn handle_event(&mut self, event: &InputEvent) -> (action: EventAction)
        requires
            old(self).wf(),
        ensures
            action == screen_signal(old(self)@.screens[old(self)@.active], *event),
            final(self)@ == game_after_event(old(self)@, *event),
            final(self).wf(),
    {
        let ghost g = self@;
        let current = self.current_state;
        let action = match &mut self.game_states[current] {
            Screen::Menu(menu) => menu.handle_keyboard(event),
            Screen::Playground(playground) => playground.handle_keyboard(event),
        };
        assert(self.game_states@[current as int]@ == screen_after_event(g.screens[current as int], *event));
        assert(self@.screens =~= g.screens.update(g.active, screen_after_event(g.screens[g.active], *event)));
        match action {
            EventAction::Nop => {},
            EventAction::QuitGame => self.running = false,
            EventAction::StartNewGame => self.current_state = PLAYGROUND_SCREEN,
            EventAction::OpenMenu => self.current_state = MENU_SCREEN,
        }
        action
    }

    /// Whether `update_state` can run.
    pub fn can_update(&self) -> (ok: bool)
        requires
            self.wf(),
        ensures
            ok == game_can_tick(self@),
    {
        if !self.running {
            return true;
        }
        match &self.game_states[self.current_state] {
            Screen::Menu(_) => true,
            Screen::Playground(playground) => playground.can_advance(),
        }
    }

    /// Advances the active screen by one tick while the game runs.
    pub fn update_state(&mut self)
        requires
            old(self).wf(),
            game_can_tick(old(self)@),
        ensures
            final(self)@ == game_ticked(old(self)@),
            final(self).wf(),
    {
        if self.running {
            let ghost g = self@;
            let current = self.current_state;
            match &mut self.game_states[current] {
                Screen::Menu(menu) => menu.update_state(),
                Screen::Playground(playground) => playground.update_state(),
            }
            assert(self@.screens =~= g.screens.update(g.active, screen_ticked(g.screens[g.active])));
        }
    }

    /// Draw commands of the active screen; no other screen draws.
    pub fn render(&self) -> (frame: Vec<DrawCommand>)
        requires
            self.wf(),
        ensures
            drawn(frame@) == screen_frame(self@.screens[self@.active]),
    {
        match &self.game_states[self.current_state] {
            Screen::Menu(menu) => menu.render(),
            Screen::Playground(playground) => playground.render(),
        }
    }

    pub fn is_running(&self) -> (running: bool)
        ensures
            running == self@.running,
    {
        self.running
    }

    /// Index of the active screen.
    pub fn current_state(&self) -> (active: usize)
        ensures
            active == self@.active,
    {
        self.current_state
    }

    /// The screens, menu first.
    pub fn screens(&self) -> (screens: &[Screen])
        ensures
            screens@.map_values(|s: Screen| s@) == self@.screens,
    {
        self.game_states.as_slice()
    }
}

} // verus!
