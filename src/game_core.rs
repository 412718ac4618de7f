use vstd::prelude::*;

use crate::graphics::render::DrawCommand;

verus! {

/// What a screen asks of the controller after an input event.
#[derive(Clone, Copy, Debug, PartialEq, Eq, Hash, Structural)]
pub enum EventAction {
    Nop,
    QuitGame,
    StartNewGame,
    OpenMenu,
}

/// The keys the game reacts to; every other key is `Other`.
#[derive(Clone, Copy, Debug, PartialEq, Eq, Hash, Structural)]
pub enum Key {
    Escape,
    Up,
    Down,
    Left,
    Right,
    Enter,
    Other,
}

/// An input event of the window, as the game sees it.
#[derive(Clone, Copy, Debug, PartialEq, Eq, Hash, Structural)]
pub enum InputEvent {
    /// The window was asked to close.
    Closed,
    KeyPressed(Key),
    /// Any other event.
    Other,
}

/// Whether an event asks to leave the current screen: a close request or Escape.
pub open spec fn is_leave_request(event: InputEvent) -> bool {
    event == InputEvent::Closed || event == InputEvent::KeyPressed(Key::Escape)
}

/// The capabilities of a screen: react to input, advance by one tick.
pub trait GameStateModel {
    /// The screen's own well-formedness.
    spec fn valid(&self) -> bool;

    /// Whether one tick can run on this screen.
    spec fn can_update(&self) -> bool;

    fn handle_keyboard(&mut self, event: &InputEvent) -> (action: EventAction)
        requires
            old(self).valid(),
        ensures
            final(self).valid(),
    ;

    fn update_state(&mut self)
        requires
            old(self).valid(),
            old(self).can_update(),
        ensures
            final(self).valid(),
    ;
}

/// A screen that can also say what to draw.
pub trait GameDrawableState: GameStateModel {
    /// Draw commands of the screen, back to front.
    fn render(&self) -> (frame: Vec<DrawCommand>)
        requires
            self.valid(),
    ;
}

} // verus!
